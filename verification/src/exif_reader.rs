//! The EXIF entries of a photo, by name, and the few of them the site shows.
use vstd::prelude::*;
use vstd::string::*;
use crate::text_map::TextMap;

verus! {

/// A ratio of two unsigned integers, as EXIF stores it; the denominator may be
/// 0.
#[derive(Clone, Copy, Debug, PartialEq, Eq, Structural)]
pub struct Ratio {
    pub numer: u32,
    pub denom: u32,
}

impl Ratio {
    /// The ratio rounded toward zero.
    pub fn to_integer(&self) -> (r: u32)
        requires
            self.denom != 0,
        ensures
            r == self.numer / self.denom,
            r * self.denom <= self.numer < (r + 1) * self.denom,
    {
        let r = self.numer / self.denom;
        assert(r * self.denom <= self.numer < (r + 1) * self.denom) by (nonlinear_arith)
            requires
                self.denom > 0,
                r == self.numer / self.denom,
        ;
        r
    }

    /// The ratio is stored as a whole number: its denominator is 1.
    pub fn is_integer(&self) -> (r: bool)
        ensures
            r == (self.denom == 1),
    {
        self.denom == 1
    }
}

/// A ratio of two signed integers.
#[derive(Clone, Copy, Debug, PartialEq, Eq, Structural)]
pub struct SRatio {
    pub numer: i32,
    pub denom: i32,
}

/// The value of an EXIF entry.
#[derive(Clone, Debug)]
pub enum ExifValue {
    Byte(u8),
    Text(String),
    Short(u16),
    Long(u32),
    Ratio(Ratio),
    SByte(i8),
    Undefined,
    SShort(i16),
    SLong(i32),
    SRatio(SRatio),
    Error,
}

impl ExifValue {
    pub fn as_u8(&self) -> (r: Option<u8>)
        ensures
            r == (match self { ExifValue::Byte(v) => Some(*v), _ => None::<u8> }),
    {
        match self {
            ExifValue::Byte(v) => Some(*v),
            _ => None,
        }
    }

    pub fn as_text(&self) -> (r: Option<&str>)
        ensures
            match self {
                ExifValue::Text(v) => r is Some && r->0@ == v@,
                _ => r is None,
            },
    {
        match self {
            ExifValue::Text(v) => Some(v.as_str()),
            _ => None,
        }
    }

    pub fn as_short(&self) -> (r: Option<u16>)
        ensures
            r == (match self { ExifValue::Short(v) => Some(*v), _ => None::<u16> }),
    {
        match self {
            ExifValue::Short(v) => Some(*v),
            _ => None,
        }
    }

    pub fn as_long(&self) -> (r: Option<u32>)
        ensures
            r == (match self { ExifValue::Long(v) => Some(*v), _ => None::<u32> }),
    {
        match self {
            ExifValue::Long(v) => Some(*v),
            _ => None,
        }
    }

    pub fn as_ratio(&self) -> (r: Option<Ratio>)
        ensures
            r == (match self { ExifValue::Ratio(v) => Some(*v), _ => None::<Ratio> }),
    {
        match self {
            ExifValue::Ratio(v) => Some(*v),
            _ => None,
        }
    }

    pub fn is_undefined(&self) -> (r: bool)
        ensures
            r == (self is Undefined),
    {
        match self {
            ExifValue::Undefined => true,
            _ => false,
        }
    }

    pub fn as_sshort(&self) -> (r: Option<i16>)
        ensures
            r == (match self { ExifValue::SShort(v) => Some(*v), _ => None::<i16> }),
    {
        match self {
            ExifValue::SShort(v) => Some(*v),
            _ => None,
        }
    }

    pub fn as_slong(&self) -> (r: Option<i32>)
        ensures
            r == (match self { ExifValue::SLong(v) => Some(*v), _ => None::<i32> }),
    {
        match self {
            ExifValue::SLong(v) => Some(*v),
            _ => None,
        }
    }

    pub fn as_sratio(&self) -> (r: Option<SRatio>)
        ensures
            r == (match self { ExifValue::SRatio(v) => Some(*v), _ => None::<SRatio> }),
    {
        match self {
            ExifValue::SRatio(v) => Some(*v),
            _ => None,
        }
    }
}

/// The EXIF entries of a photo: at most one value for each name.
pub struct ExifEntries {
    map: TextMap<ExifValue>,
}

impl View for ExifEntries {
    type V = Map<Seq<char>, ExifValue>;

    closed spec fn view(&self) -> Map<Seq<char>, ExifValue> {
        self.map@
    }
}

/// The exposure time of a ratio entry `n / d`: a whole number of seconds
/// (`d == 1`) gives `n`, and a fraction of a second gives the negative of its
/// denominator, so that 1/250 s reads as -250; there is none where the entry
/// is missing or is no ratio.
pub proof fn law_shutter_speed(m: Map<Seq<char>, ExifValue>, r: Ratio)
    requires
        m.contains_key("ExposureTime"@),
        m["ExposureTime"@] == ExifValue::Ratio(r),
    ensures
        r.denom == 1 && r.numer <= i32::MAX ==> spec_shutter_speed(m) == Some(r.numer as i32),
        r.denom != 1 && r.denom <= i32::MAX ==> (spec_shutter_speed(m) matches Some(v) && v + r.denom == 0),
{
}

/// Without a ratio entry there is no exposure time.
pub proof fn law_shutter_speed_needs_ratio(m: Map<Seq<char>, ExifValue>)
    ensures
        !(m.contains_key("ExposureTime"@) && m["ExposureTime"@] is Ratio) ==> spec_shutter_speed(m) is None,
{
}

impl ExifEntries {
    /// No entries.
    pub fn new() -> (r: ExifEntries)
        ensures
            r@ == Map::<Seq<char>, ExifValue>::empty(),
    {
        ExifEntries { map: TextMap::new() }
    }

    /// The value named `name`.
    pub fn get(&self, name: &str) -> (r: Option<&ExifValue>)
        ensures
            self@.contains_key(name@) ==> r == Some(&self@[name@]),
            !self@.contains_key(name@) ==> r is None,
    {
        self.map.get(name)
    }

    /// Sets the value named `name`; an earlier value of that name is replaced.
    pub fn insert(&mut self, name: String, value: ExifValue)
        ensures
            final(self)@ == old(self)@.insert(name@, value),
    {
        self.map.insert(name, value);
    }
}

/// The value named `name`, where there is one.
pub open spec fn entry(m: Map<Seq<char>, ExifValue>, name: Seq<char>) -> Option<ExifValue> {
    if m.contains_key(name) { Some(m[name]) } else { None }
}

/// The ratio named `name`, where the entry is a ratio.
pub open spec fn ratio_entry(m: Map<Seq<char>, ExifValue>, name: Seq<char>) -> Option<Ratio> {
    match entry(m, name) {
        Some(ExifValue::Ratio(r)) => Some(r),
        _ => None,
    }
}

/// The short number named `name`, where the entry is one.
pub open spec fn short_entry(m: Map<Seq<char>, ExifValue>, name: Seq<char>) -> Option<u16> {
    match entry(m, name) {
        Some(ExifValue::Short(v)) => Some(v),
        _ => None,
    }
}

/// The entries can be read without a division by zero and without an
/// exposure time whose denominator exceeds `i32`.
pub open spec fn exif_readable(m: Map<Seq<char>, ExifValue>) -> bool {
    &&& ratio_entry(m, "FocalLength"@) matches Some(r) ==> r.denom != 0
    &&& ratio_entry(m, "ExposureTime"@) matches Some(r) ==> (r.denom != 1 ==> r.denom <= i32::MAX)
}

/// The ISO speed.
pub open spec fn spec_iso(m: Map<Seq<char>, ExifValue>) -> Option<u32> {
    match short_entry(m, "ISOSpeedRatings"@) {
        Some(v) => Some(v as u32),
        None => None,
    }
}

/// The focal length in millimetres, rounded toward zero and cut to 16 bits.
pub open spec fn spec_focal_length(m: Map<Seq<char>, ExifValue>) -> Option<u16> {
    match ratio_entry(m, "FocalLength"@) {
        Some(r) => Some((r.numer / r.denom) as u16),
        None => None,
    }
}

/// The focal length is the value of the stored ratio, rounded down: for a
/// ratio `n / d` whose value is below 65536, it is the whole number `v` with
/// `v * d <= n < (v + 1) * d` (so 500/10 and 50/1 both give 50).
pub proof fn law_focal_length_is_ratio_value(m: Map<Seq<char>, ExifValue>, r: Ratio)
    requires
        m.contains_key("FocalLength"@),
        m["FocalLength"@] == ExifValue::Ratio(r),
        r.denom != 0,
        r.numer < 65536 * (r.denom as int),
    ensures
        spec_focal_length(m) is Some,
        spec_focal_length(m)->0 * (r.denom as int) <= r.numer,
        r.numer < (spec_focal_length(m)->0 + 1) * (r.denom as int),
{
    let q = r.numer / r.denom;
    assert(q * r.denom <= r.numer < (q + 1) * r.denom) by (nonlinear_arith)
        requires r.denom > 0, q == r.numer / r.denom;
    assert(q < 65536) by (nonlinear_arith)
        requires q * r.denom <= r.numer, r.numer < 65536 * (r.denom as int), r.denom > 0;
    assert((q as u16) == q);
}

/// The ISO speed is the stored short number itself, and there is none where
/// the entry is missing or is no short number.
pub proof fn law_iso_is_stored_value(m: Map<Seq<char>, ExifValue>, v: u16)
    ensures
        m.contains_key("ISOSpeedRatings"@) && m["ISOSpeedRatings"@] == ExifValue::Short(v)
            ==> spec_iso(m) == Some(v as u32),
        !(m.contains_key("ISOSpeedRatings"@) && m["ISOSpeedRatings"@] is Short) ==> spec_iso(m) is None,
{
}

/// The focal length is read only from a ratio entry: none where the entry is
/// missing or is no ratio.
pub proof fn law_focal_length_needs_ratio(m: Map<Seq<char>, ExifValue>)
    ensures
        !(m.contains_key("FocalLength"@) && m["FocalLength"@] is Ratio) ==> spec_focal_length(m) is None,
{
}

/// The exposure time: whole seconds where it is a whole number, otherwise
/// minus the denominator (so -250 stands for 1/250 s).
pub open spec fn spec_shutter_speed(m: Map<Seq<char>, ExifValue>) -> Option<i32> {
    match ratio_entry(m, "ExposureTime"@) {
        Some(r) => Some(if r.denom == 1 { r.numer as i32 } else { -(r.denom as i32) as i32 }),
        None => None,
    }
}

impl ExifEntries {
    /// The ratio named `name`, where the entry is a ratio.
    fn ratio(&self, name: &str) -> (r: Option<Ratio>)
        ensures
            r == ratio_entry(self@, name@),
    {
        match self.get(name) {
            Some(v) => v.as_ratio(),
            None => None,
        }
    }

    /// The short number named `name`, where the entry is one.
    fn short(&self, name: &str) -> (r: Option<u16>)
        ensures
            r == short_entry(self@, name@),
    {
        match self.get(name) {
            Some(v) => v.as_short(),
            None => None,
        }
    }

    /// Whether the entries can be read by `focal_length` and `shutter_speed`.
    pub fn is_readable(&self) -> (r: bool)
        ensures
            r == exif_readable(self@),
    {
        let focal_ok = match self.ratio("FocalLength") {
            Some(r) => r.denom != 0,
            None => true,
        };
        let exposure_ok = match self.ratio("ExposureTime") {
            Some(r) => r.denom == 1 || r.denom <= 2147483647,
            None => true,
        };
        focal_ok && exposure_ok
    }

    /// The ISO speed.
    pub fn iso(&self) -> (r: Option<u32>)
        ensures
            r == spec_iso(self@),
    {
        match self.short("ISOSpeedRatings") {
            Some(v) => Some(v as u32),
            None => None,
        }
    }

    /// The focal length in millimetres.
    pub fn focal_length(&self) -> (r: Option<u16>)
        requires
            exif_readable(self@),
        ensures
            r == spec_focal_length(self@),
    {
        match self.ratio("FocalLength") {
            Some(r) => Some(r.to_integer() as u16),
            None => None,
        }
    }

    /// The focal length for 35 mm film.
    pub fn focal_length_35mm(&self) -> (r: Option<u16>)
        ensures
            r == short_entry(self@, "FocalLengthIn35mmFilm"@),
    {
        self.short("FocalLengthIn35mmFilm")
    }

    /// The f-number as stored.
    pub fn fnumber(&self) -> (r: Option<Ratio>)
        ensures
            r == ratio_entry(self@, "FNumber"@),
    {
        self.ratio("FNumber")
    }

    /// The exposure time.
    pub fn shutter_speed(&self) -> (r: Option<i32>)
        requires
            exif_readable(self@),
        ensures
            r == spec_shutter_speed(self@),
    {
        match self.ratio("ExposureTime") {
            Some(r) => {
                if r.is_integer() {
                    Some(r.to_integer() as i32)
                } else {
                    Some(-(r.denom as i32))
                }
            },
            None => None,
        }
    }

    /// The camera model.
    pub fn camera_model(&self) -> (r: Option<&str>)
        ensures
            match entry(self@, "Model"@) {
                Some(ExifValue::Text(t)) => r is Some && r->0@ == t@,
                _ => r is None,
            },
    {
        match self.get("Model") {
            Some(v) => v.as_text(),
            None => None,
        }
    }
}

} // verus!
