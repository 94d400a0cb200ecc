use photometer::handlers::helpers::{make_pagination, owner_access, owner_name_access, page_offset, Access};
use photometer::handlers::utils::{parse_id, parse_event_id};
use photometer::handlers::events::{group_and_event_id, path, create_path, group_create_path};
use photometer::handlers::images::{image_id_from_filename, photos_path, preview_path};
use photometer::handlers::upload_photo::{check_image_type, make_photo_info, upload_and_publish_path};
use photometer::handlers::search::{like_pattern, users_path};
use photometer::handlers::timetable::timetable_path;
use photometer::handlers::gallery::{gallery_path, gallery_count_path, gallery_unpublished_path, photo_info_path};
use photometer::handlers::comments::{check_comment, new_comment_ids, make_notice_set, remove_mention, plan_notices};
use photometer::handlers::err_msg;
use photometer::db::comments::CommentInfo;
use photometer::events::EventId;
use photometer::exif_reader::{ExifEntries, ExifValue, Ratio};
use photometer::authentication::User;
use photometer::get_param::params_id;
use photometer::types::{ImageType, ShortInfo, Timespec, CommentFor};

#[test]
fn pagination_counts_partial_pages() {
    let p = make_pagination(2, 25, 10);
    assert_eq!((p.current, p.count), (2, 3));
    assert_eq!(make_pagination(0, 30, 10).count, 3);
    assert_eq!(make_pagination(0, 0, 10).count, 0);
    assert_eq!(make_pagination(0, u32::MAX, 2).count, 2147483648);
    // every item has a page, and one page fewer would not hold them
    for (all, per) in [(1u32, 10u32), (10, 10), (11, 10), (99, 7)] {
        let pages = make_pagination(0, all, per).count as u64;
        assert!(pages * per as u64 >= all as u64);
        assert!((pages - 1) * (per as u64) < all as u64);
    }
}

#[test]
fn access_to_owned_records() {
    assert_eq!(owner_access(None, 1), Access::NotFound);
    assert_eq!(owner_access(Some(2), 1), Access::Denied);
    assert_eq!(owner_access(Some(1), 1), Access::Allowed);
    let me = "me".to_string();
    let other = "other".to_string();
    assert_eq!(owner_name_access(None, &me), Access::NotFound);
    assert_eq!(owner_name_access(Some(&other), &me), Access::Denied);
    assert_eq!(owner_name_access(Some(&me), &me), Access::Allowed);
    assert_eq!(page_offset(3, 12), Some(36));
    assert_eq!(page_offset(u32::MAX, 2), None);
}

#[test]
fn identifiers_in_paths() {
    assert_eq!(parse_id(Some("42")), Some(42));
    assert_eq!(parse_id(Some("x")), None);
    assert_eq!(parse_id(None), None);
    assert_eq!(parse_event_id(Some("1")), Some(EventId::Publication));
    assert_eq!(parse_event_id(Some("4")), Some(EventId::GroupVoting));
    assert_eq!(parse_event_id(Some("8")), None);
    assert_eq!(parse_event_id(Some("0")), None);
    assert_eq!(group_and_event_id(Some("10"), Some("2")), Some((10, EventId::GroupCreation)));
    assert_eq!(group_and_event_id(Some("10"), Some("99")), None);
    assert_eq!(group_and_event_id(None, Some("2")), None);
    assert_eq!(path(), "/event/:id");
    assert_eq!(create_path(), "/events/create/:id");
    assert_eq!(group_create_path(), "/events/group/:group_id/create/:id");
    assert_eq!(timetable_path(), "/timetable/:group_id");
}

#[test]
fn photo_file_names() {
    assert_eq!(image_id_from_filename("42.jpg"), Some(42));
    assert_eq!(image_id_from_filename("42"), Some(42));
    assert_eq!(image_id_from_filename("abc.png"), None);
    assert_eq!(image_id_from_filename(".png"), None);
    assert_eq!(check_image_type("a.jpg"), Some(ImageType::Jpeg));
    assert_eq!(check_image_type("a.JPEG"), Some(ImageType::Jpeg));
    assert_eq!(check_image_type("a.PNG"), Some(ImageType::Png));
    assert_eq!(check_image_type("a.Jpg"), None);
    assert_eq!(check_image_type("a.gif"), None);
    assert_eq!(photos_path(), "/photo/:filename");
    assert_eq!(preview_path(), "/preview/:filename");
    assert_eq!(upload_and_publish_path(), "upload_and_publish/:id");
}

#[test]
fn search_and_gallery_routes() {
    assert_eq!(like_pattern("al"), "al%");
    assert_eq!(users_path(), "/search/users");
    assert_eq!(gallery_path(), "/gallery");
    assert_eq!(gallery_count_path(), "/gallery/count");
    assert_eq!(gallery_unpublished_path(), "/gallery/unpublished");
    assert_eq!(photo_info_path(), "gallery/photo_info");
}

#[test]
fn comment_text_checks() {
    let e = check_comment("").unwrap();
    assert_eq!((e.field.as_str(), e.reason.as_str()), ("text", "empty"));
    let e = check_comment(&"x".repeat(8193)).unwrap();
    assert_eq!((e.field.as_str(), e.reason.as_str()), ("text", "too_long"));
    assert!(check_comment(&"x".repeat(8192)).is_none());
    // the limit counts characters, not bytes
    assert!(check_comment(&"ж".repeat(8192)).is_none());
}

fn comment(id: u64, is_new: bool) -> CommentInfo {
    CommentInfo {
        id,
        creation_time: 0,
        edit_time: 0,
        creator: ShortInfo { id: 1, name: "a".to_string() },
        text: "t".to_string(),
        is_editable: false,
        is_new,
    }
}

#[test]
fn new_comments_are_listed_in_order() {
    let comments = vec![comment(1, true), comment(2, false), comment(3, true)];
    assert_eq!(new_comment_ids(&comments), vec![1, 3]);
    assert!(new_comment_ids(&Vec::new()).is_empty());
}

fn sorted(mut v: Vec<String>) -> Vec<String> {
    v.sort();
    v
}

#[test]
fn mentions_are_lower_case_and_unique() {
    let set = make_notice_set("hi @Bob and @bob, also @Alice_2 but not @ alone").unwrap();
    assert_eq!(sorted(set.clone()), vec!["alice_2".to_string(), "bob".to_string()]);
    let rest = remove_mention(set, "BOB");
    assert_eq!(rest, vec!["alice_2".to_string()]);
    assert!(make_notice_set("no mentions").unwrap().is_empty());
}

#[test]
fn notices_of_a_photo_comment() {
    let commenter = User { name: "carl".to_string(), id: 3, mail: "c@x".to_string() };
    let owner = ShortInfo { id: 9, name: "Olga".to_string() };
    let notices = vec!["olga".to_string(), "bob".to_string()];
    let plan = plan_notices(notices.clone(), CommentFor::Photo, &commenter, Some(&owner)).ok().unwrap();
    assert!(plan.notify_owner);
    assert_eq!(plan.owner_id, 9);
    assert_eq!(plan.notices, vec!["bob".to_string()]);
    let own = ShortInfo { id: 3, name: "carl".to_string() };
    let plan = plan_notices(notices.clone(), CommentFor::Photo, &commenter, Some(&own)).ok().unwrap();
    assert!(!plan.notify_owner);
    match plan_notices(notices.clone(), CommentFor::Photo, &commenter, None) {
        Err(e) => assert_eq!(e.0, "invalid photo id"),
        Ok(_) => panic!("the photo is missing"),
    }
    let plan = plan_notices(notices.clone(), CommentFor::Event, &commenter, None).ok().unwrap();
    assert!(!plan.notify_owner);
    assert_eq!(plan.owner_id, 0);
    assert_eq!(plan.notices, notices);
}

#[test]
fn a_new_photo_record() {
    let owner = User { name: "olga".to_string(), id: 9, mail: "o@x".to_string() };
    let time = Timespec { sec: 1426961100, nsec: 5_000_000 };
    let info = make_photo_info(&owner, time, ImageType::Png, 640, 480, None);
    assert_eq!(info.upload_time, 1426961100005);
    assert_eq!((info.width, info.height, info.id), (640, 480, 0));
    assert!(info.iso.is_none() && info.camera_model.is_none());
    assert_eq!(info.owner.name, "olga");
    let mut exif = ExifEntries::new();
    exif.insert("ISOSpeedRatings".to_string(), ExifValue::Short(400));
    exif.insert("ExposureTime".to_string(), ExifValue::Ratio(Ratio { numer: 1, denom: 250 }));
    exif.insert("FocalLength".to_string(), ExifValue::Ratio(Ratio { numer: 50, denom: 1 }));
    exif.insert("Model".to_string(), ExifValue::Text("X100".to_string()));
    let info = make_photo_info(&owner, time, ImageType::Jpeg, 1, 1, Some(&exif));
    assert_eq!(info.iso, Some(400));
    assert_eq!(info.shutter_speed, Some(-250));
    assert_eq!(info.focal_length, Some(50));
    assert_eq!(info.focal_length_35mm, None);
    assert_eq!(info.camera_model, Some("X100".to_string()));
}

#[test]
fn identifier_lists_and_their_errors() {
    let ok = params_id(&vec!["1".to_string(), "20".to_string()], "ids").ok().unwrap();
    assert_eq!(ok, vec![1, 20]);
    match params_id(&vec!["1".to_string(), "x".to_string()], "ids") {
        Err(e) => assert_eq!(e.0, "invalid type of parameter 'ids'"),
        Ok(_) => panic!("not a number"),
    }
    assert_eq!(err_msg::param_not_found("a"), "can not find parameter 'a'");
    assert_eq!(err_msg::not_a_string_param("a"), "not a string param 'a'");
}
