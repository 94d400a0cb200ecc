use photometer::events::{EventId, make_event_link};
use photometer::events::group_voting::{SuccessCoeff, min_success_count, is_success, is_fail, is_finished_success, is_complete};
use photometer::events::publication::{Publication, check_publish, PublishRefusal, next_start_correction, get_user_action, needs_late_publication};
use photometer::events::group_creation::{check_creation, finish_plan, finish_notice, FinishPlan, GroupInfo};
use photometer::events::change_timetable::{
    parse_times, check_diff, TimetableDiffInfoStr, TimetableDiffInfo, AddEventInfoStr, AddEventInfo,
    FieldClass, FieldType, ErrorReason,
};
use photometer::events::events_collection::get_event;
use photometer::events::time_store::stored_time_from_modified;
use photometer::events::UserAction;
use photometer::events::events_manager::{event_not_found, check_group_member, finish_after_action, CompletionFacts};
use photometer::db::votes::Votes;
use photometer::types::Timespec;

#[test]
fn event_kinds_are_found_from_their_numbers() {
    for id in [EventId::Publication, EventId::GroupCreation, EventId::LatePublication, EventId::GroupVoting,
               EventId::ChangeTimetable, EventId::UserInvite, EventId::JoinToGroup] {
        assert_eq!(EventId::from_number(id.number() as i64), Some(id));
    }
    assert_eq!(EventId::from_number(0), None);
    assert_eq!(EventId::from_number(-1), None);
    assert_eq!(make_event_link(42), "/#event/42");
    assert!(get_event(EventId::Publication).is_ok());
    match get_event(EventId::JoinToGroup) {
        Err(e) => assert_eq!(e.0, format!("EventsCollection, event with id={} not found.", EventId::JoinToGroup.number())),
        Ok(_) => panic!("not a scheduled kind"),
    }
}

fn votes(all: usize, yes: Vec<u64>, no: Vec<u64>) -> Votes {
    Votes { all_count: all, yes, no }
}

#[test]
fn group_votes() {
    let half = SuccessCoeff { numer: 1, denom: 2 };
    assert_eq!(min_success_count(10, half), 5);
    assert_eq!(min_success_count(3, half), 2);
    assert_eq!(min_success_count(0, half), 2);
    let v = votes(10, vec![1, 2, 3, 4, 5], vec![6]);
    assert!(is_success(&v, half));
    assert!(!is_fail(&v, half));
    let v = votes(10, vec![1], vec![2, 3, 4, 5, 6, 7]);
    assert!(is_fail(&v, half));
    assert!(!is_success(&v, half));
    assert!(is_complete(&v, half));
    // a success is never also a failure
    for yes in 0..=6usize {
        for no in 0..=(6 - yes) {
            let v = votes(6, (0..yes as u64).collect(), (10..10 + no as u64).collect());
            assert!(!(is_success(&v, half) && is_fail(&v, half)));
            if is_success(&v, half) {
                assert!(is_finished_success(&v, half));
                assert!(v.yes.len() >= 2);
            }
        }
    }
}

#[test]
fn publishing_a_photo() {
    assert_eq!(check_publish(1, None, false), Err(PublishRefusal::NotFound));
    assert_eq!(check_publish(1, Some(2), false), Err(PublishRefusal::AccessDenied));
    assert_eq!(check_publish(1, Some(1), true), Err(PublishRefusal::AlreadyPublished));
    assert_eq!(check_publish(1, Some(1), false), Ok(()));
    assert_eq!(get_user_action(true), UserAction::Publication);
    assert_eq!(get_user_action(false), UserAction::NoAction);
    assert!(needs_late_publication(1));
    assert!(!needs_late_publication(0));
    let end = Timespec { sec: 1000, nsec: 0 };
    let far = Timespec { sec: 1000 + 3 * 86400, nsec: 0 };
    assert_eq!(next_start_correction(&end, Some((7, far))), Some((7, Timespec { sec: 1000 + 86400, nsec: 0 })));
    let near = Timespec { sec: 1000 + 3600, nsec: 0 };
    assert_eq!(next_start_correction(&end, Some((7, near))), None);
    assert_eq!(next_start_correction(&end, None), None);
}

#[test]
fn creating_a_group() {
    let request = GroupInfo { name: "birds".to_string(), description: "photos of birds".to_string(), members: vec![2, 3, 3, 4, 1] };
    match check_creation(&request, 1, false, &vec![true, true, true, false, true]) {
        Err(errors) => {
            assert_eq!(errors.len(), 1);
            assert_eq!(errors[0].field, "4");
            assert_eq!(errors[0].reason, "not_found");
        },
        Ok(_) => panic!("user 4 does not exist"),
    }
    match check_creation(&request, 1, false, &vec![true, true, true, true, true]) {
        Ok(info) => {
            let mut members: Vec<u64> = info.members.iter().cloned().collect();
            members.sort();
            assert_eq!(members, vec![2, 3, 4]);
            assert_eq!(info.initiator, 1);
        },
        Err(_) => panic!("a valid request"),
    }
    let empty = GroupInfo { name: String::new(), description: String::new(), members: vec![] };
    match check_creation(&empty, 1, true, &vec![]) {
        Err(errors) => {
            let pairs: Vec<(String, String)> = errors.iter().map(|e| (e.field.clone(), e.reason.clone())).collect();
            assert_eq!(pairs, vec![
                ("name".to_string(), "empty".to_string()),
                ("description".to_string(), "empty".to_string()),
                ("group".to_string(), "exists".to_string()),
                ("members".to_string(), "not_found".to_string()),
            ]);
        },
        Ok(_) => panic!("nothing given"),
    }
    assert!(matches!(finish_plan(false, &vec![2, 3], 1), FinishPlan::CreateGroup { members } if members == vec![2, 3, 1]));
    assert!(matches!(finish_plan(false, &vec![], 1), FinishPlan::NobodyJoined));
    assert!(matches!(finish_plan(true, &vec![2], 1), FinishPlan::NameTaken { notify } if notify == vec![2, 1]));
}

#[test]
fn changing_a_timetable() {
    let bad = TimetableDiffInfoStr {
        description: String::new(),
        remove: vec![],
        add: vec![AddEventInfoStr { event_id: 1, name: "n".to_string(), time: "yesterday".to_string(), params: String::new() }],
    };
    match parse_times(bad) {
        Err(errors) => {
            assert_eq!(errors.len(), 2);
            assert_eq!((errors[0].field_class, errors[0].field_type, errors[0].reason),
                       (FieldClass::Common, FieldType::Description, ErrorReason::Empty));
            assert_eq!((errors[1].field_class, errors[1].field_type, errors[1].idx, errors[1].reason),
                       (FieldClass::ForAdd, FieldType::Datetime, 0, ErrorReason::Invalid));
        },
        Ok(_) => panic!("the time is no time"),
    }
    let good = TimetableDiffInfoStr {
        description: "more photos".to_string(),
        remove: vec![5],
        add: vec![AddEventInfoStr { event_id: 1, name: "n".to_string(), time: "2015.03.21 18:05:00".to_string(), params: String::new() }],
    };
    let bad_time = TimetableDiffInfoStr {
        description: "d".to_string(),
        remove: vec![],
        add: vec![AddEventInfoStr { event_id: 1, name: "n".to_string(), time: "21.03.2015".to_string(), params: String::new() }],
    };
    assert!(parse_times(bad_time).is_err());
    let diff: TimetableDiffInfo = match parse_times(good) {
        Ok(d) => d,
        Err(_) => panic!("a valid change"),
    };
    assert_eq!(diff.add[0].time.sec, 1426961100);
    let now = Timespec { sec: 1426961100 + 10, nsec: 0 };
    let errors = check_diff(&diff, &vec![None], &now);
    let found: Vec<(FieldClass, FieldType, usize, ErrorReason)> =
        errors.iter().map(|e| (e.field_class, e.field_type, e.idx, e.reason)).collect();
    assert_eq!(found, vec![
        (FieldClass::ForAdd, FieldType::Datetime, 0, ErrorReason::TimeInPast),
        (FieldClass::ForRemove, FieldType::Event, 0, ErrorReason::NotFound),
    ]);
    let wrong_kind = TimetableDiffInfo {
        description: "d".to_string(),
        remove: vec![],
        add: vec![AddEventInfo { event_id: 4, name: String::new(), time: now, params: "p".to_string() }],
    };
    let found: Vec<(FieldType, ErrorReason)> =
        check_diff(&wrong_kind, &vec![], &now).iter().map(|e| (e.field_type, e.reason)).collect();
    assert_eq!(found, vec![(FieldType::Name, ErrorReason::Empty), (FieldType::Event, ErrorReason::Invalid)]);
}

#[test]
fn stored_moment_from_file_time() {
    let t = stored_time_from_modified(1426961100123);
    assert_eq!((t.sec, t.nsec), (1426961100, 123_000_000));
}

#[test]
fn event_route_answers() {
    let e = event_not_found();
    assert_eq!((e.field.as_str(), e.reason.as_str()), ("event", "not_found"));
    assert!(check_group_member(true).is_none());
    let e = check_group_member(false).unwrap();
    assert_eq!((e.field.as_str(), e.reason.as_str()), ("user", "not_in_group"));
}

#[test]
fn too_long_names_and_parameters() {
    let now = Timespec { sec: 0, nsec: 0 };
    let long = TimetableDiffInfo {
        description: "d".to_string(),
        remove: vec![],
        add: vec![AddEventInfo { event_id: 1, name: "n".repeat(65), time: now, params: "p".repeat(2049) }],
    };
    let found: Vec<(FieldType, ErrorReason)> =
        check_diff(&long, &vec![], &now).iter().map(|e| (e.field_type, e.reason)).collect();
    assert_eq!(found, vec![
        (FieldType::Name, ErrorReason::TooLong),
        (FieldType::Params, ErrorReason::TooLong),
        (FieldType::Params, ErrorReason::Invalid),
    ]);
    let ok = TimetableDiffInfo {
        description: "d".to_string(),
        remove: vec![],
        add: vec![AddEventInfo { event_id: 1, name: "n".repeat(64), time: now, params: String::new() }],
    };
    assert!(check_diff(&ok, &vec![], &now).is_empty());
}

#[test]
fn publication_from_timetable_takes_no_params() {
    let p = Publication::new();
    assert_eq!(p.from_timetable(7, &String::new()), Some(String::new()));
    assert_eq!(p.from_timetable(7, &"x".to_string()), None);
    assert!(p.is_valid_params(&String::new()));
    assert!(!p.is_valid_params(&"x".to_string()));
}

#[test]
fn finished_success_counts_cast_votes_only() {
    let half = SuccessCoeff { numer: 1, denom: 2 };
    // more votes than counted members: the answer still goes by the cast votes
    assert!(is_finished_success(&votes(1, vec![1, 2, 3], vec![]), half));
    assert!(!is_finished_success(&votes(1, vec![1], vec![2, 3, 4, 5]), half));
    assert!(!is_finished_success(&votes(10, vec![1], vec![]), half));
}

#[test]
fn group_creation_finish_mails() {
    let writer = photometer::mail_writer::create("http://site");
    let (to, subject, body) = finish_notice(&writer, &finish_plan(false, &vec![2, 3], 1), 1, "birds");
    assert_eq!(to, vec![2, 3, 1]);
    assert_eq!(subject, "Добро пожаловать в группу \"birds\"");
    assert_eq!(body, "Группа с именем **birds** создана. Развлекайтесь!");
    let (to, subject, _) = finish_notice(&writer, &finish_plan(false, &vec![], 1), 1, "birds");
    assert_eq!(to, vec![1]);
    assert_eq!(subject, "Группа 'birds' не создана");
    let (to, subject, _) = finish_notice(&writer, &finish_plan(true, &vec![4], 1), 1, "birds");
    assert_eq!(to, vec![4, 1]);
    assert_eq!(subject, "Группа с именем 'birds' уже существует");
}

#[test]
fn events_finish_early_once_complete() {
    let half = SuccessCoeff { numer: 1, denom: 2 };
    assert!(!finish_after_action(&CompletionFacts::Publication));
    assert!(finish_after_action(&CompletionFacts::GroupCreation { all_voted: true }));
    assert!(!finish_after_action(&CompletionFacts::GroupCreation { all_voted: false }));
    assert!(finish_after_action(&CompletionFacts::LatePublication { members_count: 3, published_count: 3 }));
    assert!(!finish_after_action(&CompletionFacts::LatePublication { members_count: 3, published_count: 2 }));
    // four members, two yes: the half is reached
    assert!(finish_after_action(&CompletionFacts::GroupVoting { votes: votes(4, vec![1, 2], vec![]), success_coeff: half }));
    // four members, one yes, one no: still open
    assert!(!finish_after_action(&CompletionFacts::GroupVoting { votes: votes(4, vec![1], vec![2]), success_coeff: half }));
    // four members, three no: it can no longer succeed
    assert!(finish_after_action(&CompletionFacts::GroupVoting { votes: votes(4, vec![], vec![1, 2, 3]), success_coeff: half }));
}
