use photometer::db::{SqlValue, multi_row_query, make_pair_values, bytes_equal, text_bytes};
use photometer::db::votes::{votes_from_rows, VoteRow, add_rights_of_voting_query, add_rights_of_voting_values};
use photometer::db::events::{EventStateIr, EventIdIr, add_events_query, event_infos_condition, next_event_from_row};
use photometer::db::group_feed::FeedEventStateIr;
use photometer::db::visited::{VisitedContent, VisitedContentIr, set_visited_query};
use photometer::db::comments::CommentForIr;
use photometer::db::photos::{ImageTypeIr, nonzero_id, if_not_u32, if_not_empty, PhotoInfo, PhotoRow, photo_insert_row, read_photo_info};
use photometer::types::ShortInfo;
use photometer::db::comment_message_link::{MessageLink, add_links_query, make_link_values, linked_messages_query, linked_messages_values};
use photometer::db::groups::{add_members_query, add_members_values, found_one};
use photometer::db::users::{users_by_id_query, any_found};
use photometer::db::mailbox::{messages_count_query, messages_from_last_query, matched_rows, marked_as_readed};
use photometer::db::timetable::{next_timetable_version, add_timetable_query, timetable_event_from_row};
use photometer::db::publication::{publication_row, last_publication_photo, nothing_published};
use photometer::events::{EventState, EventId};
use photometer::events::feed_types::FeedEventState;
use photometer::types::{CommentFor, ImageType};

#[test]
fn statements_for_many_rows() {
    assert_eq!(multi_row_query("A", ",B", 0), "A");
    assert_eq!(multi_row_query("A", ",B", 1), "A");
    assert_eq!(multi_row_query("A", ",B", 3), "A,B,B");
    assert_eq!(add_rights_of_voting_query(2), "INSERT INTO votes ( scheduled_id, user_id ) VALUES ( ?, ? ), ( ?, ? )");
    assert_eq!(add_rights_of_voting_values(7, &vec![1, 2]), vec![7, 1, 7, 2]);
    assert_eq!(add_members_query(2), "INSERT INTO group_members ( user_id, group_id ) VALUES( ?, ? ), ( ?, ? )");
    assert_eq!(add_members_values(9, &vec![1, 2]), vec![1, 9, 2, 9]);
    assert_eq!(make_pair_values(&vec![], 3, true), Vec::<u64>::new());
    assert_eq!(users_by_id_query(3), "SELECT id, login, mail, join_time FROM users WHERE id IN ( ? , ?, ? ) AND activated=true");
    assert_eq!(add_timetable_query(1),
        "INSERT INTO timetable ( group_id, event_id, event_name, start_time, end_time, params, version ) VALUES( ?, ?, ?, ?, ?, ?, ? )");
    assert!(add_events_query(2).ends_with("VALUES( ?, ?, ?, ?, ?, ?, ?, ? ), ( ?, ?, ?, ?, ?, ?, ?, ? )"));
    assert_eq!(event_infos_condition(3), "e.id in ( ?, ?, ?)");
    assert!(set_visited_query(0).is_none());
    assert_eq!(set_visited_query(2).unwrap(), "INSERT INTO visited ( user_id, content_type, content_id ) VALUES( ?, ?, ? ), (?, ?, ?)");
}

#[test]
fn comment_message_links() {
    let links = vec![MessageLink { user_id: 1, message_id: 10 }, MessageLink { user_id: 2, message_id: 20 }];
    assert_eq!(make_link_values(5, &links), vec![1, 5, 10, 2, 5, 20]);
    assert_eq!(add_links_query(2),
        "INSERT INTO comment_message_link ( user_id, comment_id, message_id ) VALUES ( ?, ?, ? ), ( ?, ?, ? )");
    assert!(linked_messages_query(0).is_none());
    assert_eq!(linked_messages_query(3).unwrap(),
        "SELECT message_id FROM comment_message_link WHERE user_id=? AND comment_id IN ( ?,? ,? )");
    assert_eq!(linked_messages_values(4, &vec![7, 8]), vec![4, 7, 8]);
}

#[test]
fn votes_are_counted_within_the_voters() {
    let rows = vec![
        VoteRow { user_id: 1, voted: true, vote: true },
        VoteRow { user_id: 2, voted: true, vote: false },
        VoteRow { user_id: 3, voted: false, vote: true },
        VoteRow { user_id: 4, voted: true, vote: true },
    ];
    let votes = votes_from_rows(&rows);
    assert_eq!(votes.all_count, 4);
    assert_eq!(votes.yes, vec![1, 4]);
    assert_eq!(votes.no, vec![2]);
    assert!(votes.yes.len() + votes.no.len() <= votes.all_count);
}

#[test]
fn stored_enums_read_back() {
    for s in [EventState::Disabled, EventState::NotStartedYet, EventState::Active, EventState::Finished] {
        match EventStateIr::new(s.to_value()) {
            Ok(ir) => assert_eq!(ir.commit(), s),
            Err(_) => panic!("a state reads back"),
        }
    }
    for id in [EventId::Publication, EventId::GroupCreation, EventId::LatePublication, EventId::GroupVoting,
               EventId::ChangeTimetable, EventId::UserInvite, EventId::JoinToGroup] {
        assert!(matches!(id.to_value(), SqlValue::UInt(n) if n == id.number()));
        // the server hands the column back as a signed number
        match EventIdIr::new(SqlValue::Int(id.number() as i64)) {
            Ok(ir) => assert_eq!(ir.commit(), id),
            Err(_) => panic!("a kind reads back"),
        }
    }
    for s in [FeedEventState::Start, FeedEventState::Finish] {
        match FeedEventStateIr::new(s.to_value()) {
            Ok(ir) => assert_eq!(ir.commit(), s),
            Err(_) => panic!("a feed state reads back"),
        }
    }
    for c in [VisitedContent::Feed, VisitedContent::Comment] {
        match VisitedContentIr::new(c.to_value()) {
            Ok(ir) => assert_eq!(ir.commit(), c),
            Err(_) => panic!("a content kind reads back"),
        }
    }
    for c in [CommentFor::Photo, CommentFor::Event] {
        match CommentForIr::new(c.to_value()) {
            Ok(ir) => assert_eq!(ir.commit(), c),
            Err(_) => panic!("a comment target reads back"),
        }
    }
    for t in [ImageType::Jpeg, ImageType::Png] {
        match ImageTypeIr::new(t.to_value()) {
            Ok(ir) => assert_eq!(ir.commit(), t),
            Err(_) => panic!("an image type reads back"),
        }
    }
    match EventStateIr::new(SqlValue::Bytes(b"paused".to_vec())) {
        Err(SqlValue::Bytes(b)) => assert_eq!(b, b"paused".to_vec()),
        _ => panic!("no such state"),
    }
    assert!(matches!(EventStateIr::new(SqlValue::Int(1)), Err(SqlValue::Int(1))));
    assert!(matches!(EventIdIr::new(SqlValue::Int(99)), Err(_)));
    match EventStateIr::new(SqlValue::Bytes(b"active".to_vec())) {
        Ok(ir) => assert_eq!(ir.commit(), EventState::Active),
        Err(_) => panic!("active is a state"),
    }
}

#[test]
fn bytes_and_texts() {
    assert!(bytes_equal(b"abc", b"abc"));
    assert!(!bytes_equal(b"abc", b"abd"));
    assert!(!bytes_equal(b"ab", b"abc"));
    assert_eq!(text_bytes("жа"), "жа".as_bytes().to_vec());
}

#[test]
fn optional_photo_fields() {
    assert_eq!(nonzero_id(0), None);
    assert_eq!(nonzero_id(5), Some(5));
    assert_eq!(if_not_u32(0, 0), None);
    assert_eq!(if_not_u32(100, 0), Some(100));
    assert_eq!(if_not_empty(String::new()), None);
    assert_eq!(if_not_empty("x".to_string()), Some("x".to_string()));
}

#[test]
fn mailbox_statements_and_reports() {
    assert_eq!(messages_count_query(true), "SELECT COUNT(id) FROM mailbox WHERE recipient_id=?  AND readed='false';");
    assert_eq!(messages_count_query(false), "SELECT COUNT(id) FROM mailbox WHERE recipient_id=? ;");
    assert!(messages_from_last_query(true).contains("AND readed='false' ORDER BY creation_time DESC LIMIT ? OFFSET ?;"));
    assert!(messages_from_last_query(false).contains("recipient_id = ?  ORDER BY creation_time DESC LIMIT ? OFFSET ?;"));
    assert_eq!(matched_rows("Rows matched: 1  Changed: 1  Warnings: 0"), Some(1));
    assert_eq!(marked_as_readed("Rows matched: 1  Changed: 1  Warnings: 0"), Some(true));
    assert_eq!(marked_as_readed("Rows matched: 0  Changed: 0  Warnings: 0"), Some(false));
    assert_eq!(marked_as_readed("Rows matched: 4294967296  Changed: 0"), None);
    assert_eq!(marked_as_readed("nothing"), None);
}

#[test]
fn timetable_and_publication_rows() {
    assert_eq!(next_timetable_version(None), 1);
    assert_eq!(next_timetable_version(Some(4)), 5);
    let e = timetable_event_from_row(1, 2, "n".to_string(), 100, 200, "p".to_string());
    assert_eq!((e.start_time.sec, e.start_time.nsec, e.end_time.sec), (100, 0, 200));
    let row = publication_row(1, 2, 3, true, 99, None);
    assert_eq!(row.prev, 0);
    assert_eq!(publication_row(1, 2, 3, false, 99, Some(8)).prev, 8);
    assert_eq!(last_publication_photo(None), None);
    assert_eq!(last_publication_photo(Some(0)), None);
    assert_eq!(last_publication_photo(Some(6)), Some(6));
    assert!(nothing_published(0));
    assert!(!nothing_published(2));
    assert!(found_one(1) && !found_one(0) && !found_one(2));
    assert!(any_found(3) && !any_found(0));
    assert_eq!(next_event_from_row(3, 1500).1.sec, 1);
}

#[test]
fn a_stored_photo_reads_back() {
    let info = PhotoInfo {
        id: 3, upload_time: 10, image_type: ImageType::Jpeg, width: 4, height: 5, name: "n".to_string(),
        iso: Some(100), shutter_speed: None, focal_length: Some(35), focal_length_35mm: None,
        camera_model: Some("cam".to_string()), owner: ShortInfo { id: 1, name: "o".to_string() },
        comments_count: 0, unreaded_comments: 0, next: Some(9), prev: None,
    };
    let stored = photo_insert_row(&info);
    assert_eq!((stored.iso, stored.shutter_speed, stored.next, stored.prev), (100, 0, 9, 0));
    let row = PhotoRow {
        owner_id: 1, owner_name: "o".to_string(), id: 3, upload_time: 10, image_type: ImageType::Jpeg,
        width: 4, height: 5, name: "n".to_string(), iso: stored.iso, shutter_speed: stored.shutter_speed,
        focal_length: stored.focal_length, focal_length_35mm: stored.focal_length_35mm,
        camera_model: stored.camera_model.clone(), comments_count: 0, unreaded_comments: 0,
        next: stored.next, prev: stored.prev,
    };
    let back = read_photo_info(row);
    assert_eq!(back.iso, info.iso);
    assert_eq!(back.shutter_speed, info.shutter_speed);
    assert_eq!(back.focal_length, info.focal_length);
    assert_eq!(back.focal_length_35mm, info.focal_length_35mm);
    assert_eq!(back.camera_model, info.camera_model);
    assert_eq!(back.next, info.next);
    assert_eq!(back.prev, info.prev);
}
