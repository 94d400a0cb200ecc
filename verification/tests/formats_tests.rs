use photometer::cookies_parser::{Cookies, split};
use photometer::exif_reader::{ExifEntries, ExifValue, Ratio, SRatio};
use photometer::params_body_parser::{bin_params_of_body, read_all_binary_parts, boundary_idx, split_seq_alt, BinParamsError, BODY_LIMIT};
use photometer::text_map::TextMap;
use photometer::handlers::upload_photo::{upload_step, UploadStep, PhotoRefusal, IMAGE};
use photometer::types::ImageType;

#[test]
fn splitting_keeps_empty_pieces() {
    assert_eq!(split("a;b", ';'), vec!["a".to_string(), "b".to_string()]);
    assert_eq!(split("", ';'), vec![String::new()]);
    assert_eq!(split(";", ';'), vec![String::new(), String::new()]);
    assert_eq!(split("a=b=c", '='), vec!["a".to_string(), "b".to_string(), "c".to_string()]);
}

#[test]
fn cookies_of_a_header() {
    let c = Cookies::parse("sid=5; theme=dark; bad; a=b=c; sid=7");
    assert_eq!(c.cookie("sid"), Some(&"5".to_string()));
    // pieces are not trimmed: the later one is named " sid"
    assert_eq!(c.cookie(" sid"), Some(&"7".to_string()));
    assert_eq!(c.cookie(" theme"), Some(&"dark".to_string()));
    assert_eq!(c.cookie(" bad"), None);
    assert_eq!(c.cookie(" a"), None);
    let c = Cookies::parse("x=1;x=2");
    assert_eq!(c.cookie("x"), Some(&"2".to_string()));
    assert_eq!(Cookies::new().cookie("x"), None);
}

#[test]
fn a_map_reads_back_the_last_write() {
    let mut m: TextMap<u32> = TextMap::new();
    m.insert("a".to_string(), 1);
    m.insert("b".to_string(), 2);
    m.insert("a".to_string(), 3);
    assert_eq!(m.get("a"), Some(&3));
    assert_eq!(m.get("b"), Some(&2));
    assert_eq!(m.get("c"), None);
}

#[test]
fn exif_values_the_site_shows() {
    let mut e = ExifEntries::new();
    assert!(e.iso().is_none());
    e.insert("ISOSpeedRatings".to_string(), ExifValue::Short(100));
    e.insert("ISOSpeedRatings".to_string(), ExifValue::Short(200));
    e.insert("FocalLength".to_string(), ExifValue::Ratio(Ratio { numer: 70000, denom: 1 }));
    e.insert("FocalLengthIn35mmFilm".to_string(), ExifValue::Short(105));
    e.insert("ExposureTime".to_string(), ExifValue::Ratio(Ratio { numer: 2, denom: 1 }));
    e.insert("FNumber".to_string(), ExifValue::Ratio(Ratio { numer: 28, denom: 10 }));
    e.insert("Model".to_string(), ExifValue::Text("NEX-5".to_string()));
    assert!(e.is_readable());
    assert_eq!(e.iso(), Some(200));
    // the millimetres are cut to 16 bits
    assert_eq!(e.focal_length(), Some((70000u32 % 65536) as u16));
    assert_eq!(e.focal_length_35mm(), Some(105));
    assert_eq!(e.shutter_speed(), Some(2));
    assert_eq!(e.fnumber(), Some(Ratio { numer: 28, denom: 10 }));
    assert_eq!(e.camera_model(), Some("NEX-5"));
    e.insert("ExposureTime".to_string(), ExifValue::Ratio(Ratio { numer: 1, denom: 250 }));
    assert_eq!(e.shutter_speed(), Some(-250));
    e.insert("ISOSpeedRatings".to_string(), ExifValue::Long(100));
    assert_eq!(e.iso(), None);
    e.insert("FocalLength".to_string(), ExifValue::Ratio(Ratio { numer: 5, denom: 0 }));
    assert!(!e.is_readable());
    let v = ExifValue::SRatio(SRatio { numer: -1, denom: 3 });
    assert_eq!(v.as_sratio(), Some(SRatio { numer: -1, denom: 3 }));
    assert_eq!(v.as_ratio(), None);
    assert!(ExifValue::Undefined.is_undefined());
    assert_eq!(ExifValue::Byte(7).as_u8(), Some(7));
    assert_eq!(Ratio { numer: 7, denom: 2 }.to_integer(), 3);
    assert!(Ratio { numer: 7, denom: 1 }.is_integer());
}

fn multipart_body() -> Vec<u8> {
    let mut body = Vec::new();
    body.extend_from_slice(b"--XYZ\r\nContent-Disposition: form-data; name=\"upload_img\"; filename=\"a.jpg\"\r\n");
    body.extend_from_slice(b"Content-Type: image/jpeg\r\n\r\n");
    body.extend_from_slice(&[0u8, 1, 2, 255]);
    body.extend_from_slice(b"\r\n--XYZ\r\nContent-Disposition: form-data; name=\"title\"\r\n\r\nhello\r\n--XYZ--\r\n");
    body
}

#[test]
fn multipart_parts_and_their_data() {
    let body = multipart_body();
    let ranges = boundary_idx(&body, b"XYZ");
    assert_eq!(ranges.len(), 2);
    let params = match bin_params_of_body(&body, "XYZ") {
        Ok(Some(p)) => p,
        _ => panic!("a well-formed body"),
    };
    let image = params.get("upload_img").expect("the image part");
    assert_eq!(image.filename, Some("a.jpg".to_string()));
    assert_eq!(image.data, vec![0u8, 1, 2, 255]);
    let title = params.get("title").expect("the title part");
    assert_eq!(title.filename, None);
    assert_eq!(title.data, b"hello".to_vec());
    assert!(params.get("other").is_none());
}

#[test]
fn multipart_edge_cases() {
    // no boundary at all: no parameters
    let none = read_all_binary_parts(b"plain text", b"XYZ").expect("readable");
    assert!(none.get("x").is_none());
    // a part whose data is shorter than its closing bytes cannot be read
    assert!(read_all_binary_parts(b"--XYZ\r\nname=\"a\"\r\n\r\nXYZ", b"XYZ").is_none());
    // a body that fills the limit is refused
    let big = vec![b'a'; BODY_LIMIT as usize];
    assert!(matches!(bin_params_of_body(&big, "XYZ"), Err(BinParamsError::TooBig)));
    // heads may end with two bare line feeds
    match split_seq_alt(b"head\n\nbody", b"\r\n\r\n", b"\n\n") {
        Some((h, d)) => {
            assert_eq!(h, b"head");
            assert_eq!(d, b"body");
        },
        None => panic!("the head ends"),
    }
    assert!(split_seq_alt(b"no end", b"\r\n\r\n", b"\n\n").is_none());
}

#[test]
fn multipart_head_that_is_no_utf8_is_skipped() {
    let mut body = Vec::new();
    body.extend_from_slice(b"--XYZ\r\nname=\"bad\xff\"\r\n\r\ndata\r\n--XYZ\r\nname=\"good\"\r\n\r\nok\r\n--XYZ--\r\n");
    let params = read_all_binary_parts(&body, b"XYZ").expect("readable");
    assert!(params.get("bad\u{fffd}").is_none());
    assert!(params.get("bad").is_none());
    assert_eq!(params.get("good").expect("the good part").data, b"ok".to_vec());
}

#[test]
fn upload_steps() {
    let fail_text = |s: UploadStep| match s { UploadStep::Fail(e) => e.0, _ => panic!("expected a failure") };
    assert!(matches!(upload_step(Err(BinParamsError::TooBig)), UploadStep::Refuse(PhotoRefusal::TooBig)));
    assert_eq!(fail_text(upload_step(Err(BinParamsError::NotMultipartFormData))), "not a multiform data");
    assert_eq!(fail_text(upload_step(Err(BinParamsError::IoError))), "error while reading request body");
    let params = bin_params_of_body(&multipart_body(), "XYZ").ok().unwrap().unwrap();
    assert!(matches!(upload_step(Ok(&params)), UploadStep::Store(ImageType::Jpeg)));
    assert_eq!(IMAGE, "upload_img");
    let no_image = read_all_binary_parts(b"--XYZ\r\nname=\"title\"\r\n\r\nhi\r\n--XYZ--\r\n", b"XYZ").unwrap();
    assert_eq!(fail_text(upload_step(Ok(&no_image))), "can not find parameter 'upload_img'");
    let no_name = read_all_binary_parts(b"--XYZ\r\nname=\"upload_img\"\r\n\r\nhi\r\n--XYZ--\r\n", b"XYZ").unwrap();
    assert_eq!(fail_text(upload_step(Ok(&no_name))), "invalid type of parameter 'upload_img'");
    let gif = read_all_binary_parts(b"--XYZ\r\nname=\"upload_img\"; filename=\"a.gif\"\r\n\r\nhi\r\n--XYZ--\r\n", b"XYZ").unwrap();
    assert!(matches!(upload_step(Ok(&gif)), UploadStep::Refuse(PhotoRefusal::UnknownFormat)));
}
