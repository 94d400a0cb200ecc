//! Uploads of photos: the accepted formats and the record of a new photo.
use vstd::prelude::*;
use vstd::string::*;
use crate::types::{Timespec, ImageType, ShortInfo};
use crate::authentication::User;
use crate::db::photos::PhotoInfo;
use crate::exif_reader::{ExifEntries, exif_readable, spec_iso, spec_focal_length, spec_shutter_speed,
    short_entry, entry, ExifValue};
use crate::parse_utils::{spec_ends_with, ends_with, spec_msecs, msecs};
use crate::params_body_parser::{BinParams, BinParamsError};
use crate::types::CommonError;
use crate::err_msg::{param_not_found, invalid_type_param};

verus! {

/// The route that uploads a photo in answer to a publication.
pub fn upload_and_publish_path() -> (r: &'static str)
    ensures
        r@ == "upload_and_publish/:id"@,
{
    "upload_and_publish/:id"
}

/// The format that a file name's extension tells: ".jpg" and ".jpeg" are JPEG,
/// ".png" is PNG, in lower or upper case.
pub open spec fn spec_image_type(filename: Seq<char>) -> Option<ImageType> {
    if spec_ends_with(filename, ".jpg"@) || spec_ends_with(filename, ".JPG"@)
        || spec_ends_with(filename, ".jpeg"@) || spec_ends_with(filename, ".JPEG"@) {
        Some(ImageType::Jpeg)
    } else if spec_ends_with(filename, ".png"@) || spec_ends_with(filename, ".PNG"@) {
        Some(ImageType::Png)
    } else {
        None
    }
}

/// The last `k` characters of `s`.
pub open spec fn last_chars(s: Seq<char>, k: int) -> Seq<char> {
    s.subrange(s.len() - k, s.len() as int)
}

/// A name that ends in ".png" or ".PNG" is a PNG, and one that ends in
/// ".jpg", ".JPG", ".jpeg" or ".JPEG" is a JPEG, whatever comes before; and a
/// name of any other ending is of no known format.
pub proof fn law_image_type_by_extension(s: Seq<char>)
    ensures
        spec_image_type(s + seq!['.', 'p', 'n', 'g']) == Some(ImageType::Png),
        spec_image_type(s + seq!['.', 'P', 'N', 'G']) == Some(ImageType::Png),
        spec_image_type(s + seq!['.', 'j', 'p', 'g']) == Some(ImageType::Jpeg),
        spec_image_type(s + seq!['.', 'J', 'P', 'G']) == Some(ImageType::Jpeg),
        spec_image_type(s + seq!['.', 'j', 'p', 'e', 'g']) == Some(ImageType::Jpeg),
        spec_image_type(s + seq!['.', 'J', 'P', 'E', 'G']) == Some(ImageType::Jpeg),
        spec_image_type(s) is Some ==> {
            ||| (s.len() >= 4 && (last_chars(s, 4) == seq!['.', 'p', 'n', 'g'] || last_chars(s, 4) == seq!['.', 'P', 'N', 'G']
                    || last_chars(s, 4) == seq!['.', 'j', 'p', 'g'] || last_chars(s, 4) == seq!['.', 'J', 'P', 'G']))
            ||| (s.len() >= 5 && (last_chars(s, 5) == seq!['.', 'j', 'p', 'e', 'g']
                    || last_chars(s, 5) == seq!['.', 'J', 'P', 'E', 'G']))
        },
{
    reveal_strlit(".png");
    reveal_strlit(".PNG");
    reveal_strlit(".jpg");
    reveal_strlit(".JPG");
    reveal_strlit(".jpeg");
    reveal_strlit(".JPEG");
    let exts = seq![
        seq!['.', 'p', 'n', 'g'], seq!['.', 'P', 'N', 'G'], seq!['.', 'j', 'p', 'g'],
        seq!['.', 'J', 'P', 'G'], seq!['.', 'j', 'p', 'e', 'g'], seq!['.', 'J', 'P', 'E', 'G'],
    ];
    assert(".png"@ =~= exts[0]);
    assert(".PNG"@ =~= exts[1]);
    assert(".jpg"@ =~= exts[2]);
    assert(".JPG"@ =~= exts[3]);
    assert(".jpeg"@ =~= exts[4]);
    assert(".JPEG"@ =~= exts[5]);
    assert forall|k: int| 0 <= k < 6 implies {
        let n = s + #[trigger] exts[k];
        &&& last_chars(n, exts[k].len() as int) =~= exts[k]
        &&& exts[k].len() == 4 ==> last_chars(n, 4) == exts[k]
        &&& n.len() >= 5 ==> n[n.len() - 2] == exts[k][exts[k].len() - 2]
        &&& n.len() >= 5 ==> n[n.len() - 4] == exts[k][exts[k].len() - 4]
    } by {
        let n = s + exts[k];
        assert(last_chars(n, exts[k].len() as int) =~= exts[k]);
    }
}

/// The format of an uploaded file, from its name; `None` for other files.
pub fn check_image_type(filename: &str) -> (r: Option<ImageType>)
    ensures
        r == spec_image_type(filename@),
{
    if ends_with(filename, ".jpg") || ends_with(filename, ".JPG")
        || ends_with(filename, ".jpeg") || ends_with(filename, ".JPEG") {
        Some(ImageType::Jpeg)
    } else if ends_with(filename, ".png") || ends_with(filename, ".PNG") {
        Some(ImageType::Png)
    } else {
        None
    }
}

/// The parameter of an upload that holds the photo.
pub const IMAGE: &'static str = "upload_img";

/// Why a photo is refused, as the answer to the user says.
#[derive(Clone, Copy, Debug, PartialEq, Eq, Structural)]
pub enum PhotoRefusal {
    TooBig,
    UnknownFormat,
    BadImage,
}

/// What an upload goes on with, once its parameters are read.
pub enum UploadStep {
    /// answer the user with this refusal
    Refuse(PhotoRefusal),
    /// fail with this error
    Fail(CommonError),
    /// store the photo, of this format
    Store(ImageType),
}

/// The first step of an upload from its binary parameters `params`: a body
/// that is too big is refused; a body that is no multipart form, or could
/// not be read, fails; without the parameter `IMAGE`, or without a file name
/// for it, the upload fails; a file name of no known format is refused; else
/// the photo is stored in the format of its file name.
pub fn upload_step(params: Result<&BinParams, BinParamsError>) -> (r: UploadStep)
    ensures
        params == Err::<&BinParams, BinParamsError>(BinParamsError::TooBig) ==> r == UploadStep::Refuse(PhotoRefusal::TooBig),
        params == Err::<&BinParams, BinParamsError>(BinParamsError::NotMultipartFormData)
            ==> (r matches UploadStep::Fail(e) && e.0@ == "not a multiform data"@),
        params == Err::<&BinParams, BinParamsError>(BinParamsError::IoError)
            ==> (r matches UploadStep::Fail(e) && e.0@ == "error while reading request body"@),
        params matches Ok(p) ==> {
            &&& !p@.contains_key(IMAGE@)
                ==> (r matches UploadStep::Fail(e) && e.0@ == "can not find parameter '"@ + IMAGE@ + "'"@)
            &&& p@.contains_key(IMAGE@) && p@[IMAGE@].0 is None
                ==> (r matches UploadStep::Fail(e) && e.0@ == "invalid type of parameter '"@ + IMAGE@ + "'"@)
            &&& p@.contains_key(IMAGE@) && p@[IMAGE@].0 is Some
                ==> match spec_image_type(p@[IMAGE@].0->0) {
                    Some(t) => r == UploadStep::Store(t),
                    None => r == UploadStep::Refuse(PhotoRefusal::UnknownFormat),
                }
        },
{
    match params {
        Err(BinParamsError::TooBig) => UploadStep::Refuse(PhotoRefusal::TooBig),
        Err(BinParamsError::NotMultipartFormData) => UploadStep::Fail(CommonError(String::from_str("not a multiform data"))),
        Err(BinParamsError::IoError) => UploadStep::Fail(CommonError(String::from_str("error while reading request body"))),
        Ok(p) => match p.get(IMAGE) {
            None => UploadStep::Fail(param_not_found(IMAGE)),
            Some(image) => match &image.filename {
                None => UploadStep::Fail(invalid_type_param(IMAGE)),
                Some(filename) => match check_image_type(filename.as_str()) {
                    Some(t) => UploadStep::Store(t),
                    None => UploadStep::Refuse(PhotoRefusal::UnknownFormat),
                },
            },
        },
    }
}

/// The camera model of the entries, where there is one.
pub open spec fn spec_camera_model(m: Map<Seq<char>, ExifValue>) -> Option<Seq<char>> {
    match entry(m, "Model"@) {
        Some(ExifValue::Text(t)) => Some(t@),
        _ => None,
    }
}

/// The record of a photo that `owner` has just uploaded: no name, no
/// comments, not yet in a sequence, and what its EXIF entries tell.
pub fn make_photo_info(
    owner: &User,
    upload_time: Timespec,
    img_type: ImageType,
    w: u32,
    h: u32,
    exif: Option<&ExifEntries>,
) -> (r: PhotoInfo)
    requires
        upload_time.sec >= 0,
        0 <= upload_time.nsec < 1_000_000_000,
        upload_time.sec * 1000 + 999 <= u64::MAX,
        exif matches Some(e) ==> exif_readable(e@),
    ensures
        r.id == 0,
        r.upload_time == spec_msecs(upload_time),
        r.image_type == img_type,
        r.width == w,
        r.height == h,
        r.name@ == Seq::<char>::empty(),
        r.iso == (match exif { Some(e) => spec_iso(e@), None => None }),
        r.shutter_speed == (match exif { Some(e) => spec_shutter_speed(e@), None => None }),
        r.focal_length == (match exif { Some(e) => spec_focal_length(e@), None => None }),
        r.focal_length_35mm == (match exif { Some(e) => short_entry(e@, "FocalLengthIn35mmFilm"@), None => None }),
        match exif {
            Some(e) => match spec_camera_model(e@) {
                Some(m) => r.camera_model is Some && r.camera_model->0@ == m,
                None => r.camera_model is None,
            },
            None => r.camera_model is None,
        },
        r.owner.id == owner.id,
        r.owner.name@ == owner.name@,
        r.comments_count == 0,
        r.unreaded_comments == 0,
        r.next is None,
        r.prev is None,
{
    let (iso, shutter_speed, focal_length, focal_length_35mm, camera_model) = match exif {
        Some(e) => (
            e.iso(),
            e.shutter_speed(),
            e.focal_length(),
            e.focal_length_35mm(),
            match e.camera_model() {
                Some(m) => Some(m.to_string()),
                None => None,
            },
        ),
        None => (None, None, None, None, None),
    };
    PhotoInfo {
        id: 0,
        upload_time: msecs(&upload_time),
        image_type: img_type,
        width: w,
        height: h,
        name: String::new(),
        iso,
        shutter_speed,
        focal_length,
        focal_length_35mm,
        camera_model,
        owner: ShortInfo { id: owner.id, name: owner.name.clone() },
        comments_count: 0,
        unreaded_comments: 0,
        next: None,
        prev: None,
    }
}

} // verus!
