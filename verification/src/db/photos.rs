//! Photos in the database.
use vstd::prelude::*;
use vstd::string::*;
use vstd::utf8::{encode_utf8, is_ascii_chars};
use crate::types::{Id, ImageType, ShortInfo};
use super::{SqlValue, bytes_are_text, text_bytes, lemma_ascii_bytes_injective};

verus! {

/// What the site knows of a photo.  The aperture, a floating point number,
/// travels beside this record.
pub struct PhotoInfo {
    pub id: Id,
    pub upload_time: u64,
    pub image_type: ImageType,
    pub width: u32,
    pub height: u32,
    pub name: String,
    pub iso: Option<u32>,
    pub shutter_speed: Option<i32>,
    pub focal_length: Option<u16>,
    pub focal_length_35mm: Option<u16>,
    pub camera_model: Option<String>,
    pub owner: ShortInfo,
    pub comments_count: u32,
    pub unreaded_comments: u32,
    /// the next photo in the sequence, if any
    pub next: Option<Id>,
    /// the previous photo in the sequence, if any
    pub prev: Option<Id>,
}

/// The few facts about a photo that access checks need.
pub struct ShortPhotoInfo {
    pub id: Id,
    pub upload_time: u64,
    pub image_type: ImageType,
    pub owner: ShortInfo,
}

pub const ISO_DEFAULT: u32 = 0;
pub const SHUTTER_SPEED_DEFAULT: i32 = 0;
pub const FOCAL_LENGTH_DEFAULT: u16 = 0;
pub const FOCAL_LENGTH_35MM_DEFAULT: u16 = 0;

/// How an image type is written in the `type` column.
pub open spec fn image_type_text(t: ImageType) -> Seq<char> {
    match t {
        ImageType::Jpeg => "jpg"@,
        ImageType::Png => "png"@,
    }
}

/// The image type that the bytes of a `type` column stand for, if any.
pub open spec fn image_type_from_bytes(b: Seq<u8>) -> Option<ImageType> {
    if b == encode_utf8("jpg"@) {
        Some(ImageType::Jpeg)
    } else if b == encode_utf8("png"@) {
        Some(ImageType::Png)
    } else {
        None
    }
}

impl ImageType {
    /// The value of the `type` column for this image type.
    pub fn to_value(&self) -> (r: SqlValue)
        ensures
            r matches SqlValue::Bytes(b) && b@ == encode_utf8(image_type_text(*self)),
    {
        let text = match self {
            ImageType::Jpeg => "jpg",
            ImageType::Png => "png",
        };
        SqlValue::Bytes(text_bytes(text))
    }
}

/// Every image type is read back from the value written for it.
pub proof fn law_image_type_roundtrip(t: ImageType)
    ensures
        image_type_from_bytes(encode_utf8(image_type_text(t))) == Some(t),
{
    reveal_strlit("jpg");
    reveal_strlit("png");
    assert(is_ascii_chars("jpg"@));
    assert(is_ascii_chars("png"@));
    assert("jpg"@ != "png"@) by { assert("jpg"@[0] != "png"@[0]); }
    lemma_ascii_bytes_injective("jpg"@, "png"@);
}

/// An image type read from the database, with the bytes it was read from.
pub struct ImageTypeIr {
    val: ImageType,
    bytes: Vec<u8>,
}

impl ImageTypeIr {
    pub closed spec fn value(&self) -> ImageType {
        self.val
    }

    pub closed spec fn raw(&self) -> Seq<u8> {
        self.bytes@
    }

    /// Reads an image type from a column value; the value is handed back when
    /// it is not the text of a type.
    pub fn new(v: SqlValue) -> (r: Result<ImageTypeIr, SqlValue>)
        ensures
            match v {
                SqlValue::Bytes(b) => match image_type_from_bytes(b@) {
                    Some(t) => r is Ok && r->Ok_0.value() == t && r->Ok_0.raw() == b@,
                    None => r is Err && r->Err_0 == v,
                },
                _ => r is Err && r->Err_0 == v,
            },
    {
        match v {
            SqlValue::Bytes(bytes) => {
                let val = if bytes_are_text(&bytes, "jpg") {
                    Some(ImageType::Jpeg)
                } else if bytes_are_text(&bytes, "png") {
                    Some(ImageType::Png)
                } else {
                    None
                };
                match val {
                    Some(val) => Ok(ImageTypeIr { val, bytes }),
                    None => Err(SqlValue::Bytes(bytes)),
                }
            },
            _ => Err(v),
        }
    }

    /// The image type read.
    pub fn commit(self) -> (r: ImageType)
        ensures
            r == self.value(),
    {
        self.val
    }

    /// The value the image type was read from.
    pub fn rollback(self) -> (r: SqlValue)
        ensures
            r matches SqlValue::Bytes(b) && b@ == self.raw(),
    {
        SqlValue::Bytes(self.bytes)
    }
}

/// A column value, unless it is the value that stands for "unknown".
pub open spec fn if_not<T>(val: T, bad_value: T) -> Option<T> {
    if val != bad_value { Some(val) } else { None }
}

/// The column value that stores an optional fact: the fact, or the value
/// that stands for "unknown".
pub open spec fn stored<T>(val: Option<T>, default: T) -> T {
    match val {
        Some(v) => v,
        None => default,
    }
}

pub fn if_not_u32(val: u32, bad_value: u32) -> (r: Option<u32>)
    ensures
        r == if_not(val, bad_value),
{
    if val != bad_value { Some(val) } else { None }
}

pub fn if_not_i32(val: i32, bad_value: i32) -> (r: Option<i32>)
    ensures
        r == if_not(val, bad_value),
{
    if val != bad_value { Some(val) } else { None }
}

pub fn if_not_u16(val: u16, bad_value: u16) -> (r: Option<u16>)
    ensures
        r == if_not(val, bad_value),
{
    if val != bad_value { Some(val) } else { None }
}

/// A text column, unless it is empty.
pub fn if_not_empty(val: String) -> (r: Option<String>)
    ensures
        val@.len() == 0 ==> r is None,
        val@.len() != 0 ==> r is Some && r->0@ == val@,
{
    if !val.as_str().is_empty() { Some(val) } else { None }
}

/// An identifier column, where 0 stands for none.
pub fn nonzero_id(id: Id) -> (r: Option<Id>)
    ensures
        r == (if id != 0 { Some(id) } else { None::<Id> }),
{
    if id != 0 { Some(id) } else { None }
}

/// One row of photo information joined with its owner.
pub struct PhotoRow {
    pub owner_id: Id,
    pub owner_name: String,
    pub id: Id,
    pub upload_time: u64,
    pub image_type: ImageType,
    pub width: u32,
    pub height: u32,
    pub name: String,
    pub iso: u32,
    pub shutter_speed: i32,
    pub focal_length: u16,
    pub focal_length_35mm: u16,
    pub camera_model: String,
    pub comments_count: u32,
    pub unreaded_comments: u32,
    pub next: Id,
    pub prev: Id,
}

/// The photo a row stands for: zero values and the empty camera model mean
/// "unknown", and a neighbour of 0 means none.
pub fn read_photo_info(row: PhotoRow) -> (r: PhotoInfo)
    ensures
        r.owner.id == row.owner_id,
        r.owner.name@ == row.owner_name@,
        r.id == row.id,
        r.upload_time == row.upload_time,
        r.image_type == row.image_type,
        r.width == row.width,
        r.height == row.height,
        r.name@ == row.name@,
        r.iso == if_not(row.iso, ISO_DEFAULT),
        r.shutter_speed == if_not(row.shutter_speed, SHUTTER_SPEED_DEFAULT),
        r.focal_length == if_not(row.focal_length, FOCAL_LENGTH_DEFAULT),
        r.focal_length_35mm == if_not(row.focal_length_35mm, FOCAL_LENGTH_35MM_DEFAULT),
        row.camera_model@.len() == 0 ==> r.camera_model is None,
        row.camera_model@.len() != 0 ==> r.camera_model is Some && r.camera_model->0@ == row.camera_model@,
        r.comments_count == row.comments_count,
        r.unreaded_comments == row.unreaded_comments,
        r.next == if_not(row.next, 0u64),
        r.prev == if_not(row.prev, 0u64),
{
    PhotoInfo {
        owner: ShortInfo { id: row.owner_id, name: row.owner_name },
        id: row.id,
        upload_time: row.upload_time,
        image_type: row.image_type,
        width: row.width,
        height: row.height,
        name: row.name,
        iso: if_not_u32(row.iso, ISO_DEFAULT),
        shutter_speed: if_not_i32(row.shutter_speed, SHUTTER_SPEED_DEFAULT),
        focal_length: if_not_u16(row.focal_length, FOCAL_LENGTH_DEFAULT),
        focal_length_35mm: if_not_u16(row.focal_length_35mm, FOCAL_LENGTH_35MM_DEFAULT),
        camera_model: if_not_empty(row.camera_model),
        comments_count: row.comments_count,
        unreaded_comments: row.unreaded_comments,
        next: nonzero_id(row.next),
        prev: nonzero_id(row.prev),
    }
}

/// The values that store a photo: unknown values are written as their
/// defaults, missing neighbours as 0.
pub struct PhotoInsertRow {
    pub iso: u32,
    pub shutter_speed: i32,
    pub focal_length: u16,
    pub focal_length_35mm: u16,
    pub camera_model: String,
    pub next: Id,
    pub prev: Id,
}

/// The stored values of the optional facts of `info`.
pub fn photo_insert_row(info: &PhotoInfo) -> (r: PhotoInsertRow)
    ensures
        r.iso == stored(info.iso, ISO_DEFAULT),
        r.shutter_speed == stored(info.shutter_speed, SHUTTER_SPEED_DEFAULT),
        r.focal_length == stored(info.focal_length, FOCAL_LENGTH_DEFAULT),
        r.focal_length_35mm == stored(info.focal_length_35mm, FOCAL_LENGTH_35MM_DEFAULT),
        info.camera_model is Some ==> r.camera_model@ == info.camera_model->0@,
        info.camera_model is None ==> r.camera_model@.len() == 0,
        r.next == stored(info.next, 0u64),
        r.prev == stored(info.prev, 0u64),
{
    PhotoInsertRow {
        iso: match info.iso { Some(v) => v, None => ISO_DEFAULT },
        shutter_speed: match info.shutter_speed { Some(v) => v, None => SHUTTER_SPEED_DEFAULT },
        focal_length: match info.focal_length { Some(v) => v, None => FOCAL_LENGTH_DEFAULT },
        focal_length_35mm: match info.focal_length_35mm { Some(v) => v, None => FOCAL_LENGTH_35MM_DEFAULT },
        camera_model: match &info.camera_model { Some(cam) => cam.clone(), None => String::new() },
        next: match info.next { Some(v) => v, None => 0 },
        prev: match info.prev { Some(v) => v, None => 0 },
    }
}

/// Storing an optional fact of a photo and reading it back gives it back,
/// unless the fact is the very value that stands for "unknown".
pub proof fn law_stored_fact_read_back<T>(val: Option<T>, default: T)
    requires
        val != Some(default),
    ensures
        if_not(stored(val, default), default) == val,
{
}

/// A known camera model is stored and read back as it was, unless it is empty.
pub proof fn law_camera_model_read_back(model: Option<Seq<char>>)
    requires
        model != Some(Seq::<char>::empty()),
    ensures
        ({
            let stored_model = match model { Some(m) => m, None => Seq::<char>::empty() };
            (if stored_model.len() == 0 { None } else { Some(stored_model) }) == model
        }),
{
    if let Some(m) = model {
        if m.len() == 0 {
            assert(m =~= Seq::<char>::empty());
        }
    }
}

} // verus!
