use photometer::authentication::{create_session_store, middleware, session_cookie_name, User};
use photometer::handlers::authentication::{
    check_registration, make_password_hash, gen_reg_key, make_login, LoginAnswer, groups_with_unwatched,
    registration_end_path, user_info_path,
};
use photometer::types::ShortInfo;

fn user(id: u64, name: &str) -> User {
    User { name: name.to_string(), id, mail: format!("{}@example.com", name) }
}

#[test]
fn new_session_resolves_to_the_user() {
    let mut store = create_session_store();
    let alice = user(1, "alice");
    let sid = store.add_new_session(&alice);
    assert_eq!(sid, "1");
    let found = store.user_by_session_id(&sid).expect("the session is open");
    assert_eq!(found.id, 1);
    assert_eq!(found.name, "alice");
    assert!(store.user_by_session_id(&"2".to_string()).is_none());
}

#[test]
fn a_second_login_closes_the_first_session() {
    let mut store = create_session_store();
    let alice = user(1, "alice");
    let first = store.add_new_session(&alice);
    let second = store.add_new_session(&alice);
    assert_eq!(second, "2");
    assert!(store.user_by_session_id(&first).is_none());
    assert_eq!(store.user_by_session_id(&second).unwrap().id, 1);
}

#[test]
fn a_login_keeps_the_sessions_of_others() {
    let mut store = create_session_store();
    let alice = user(1, "alice");
    let bob = user(2, "bob");
    let a = store.add_new_session(&alice);
    let b = store.add_new_session(&bob);
    let a2 = store.add_new_session(&alice);
    assert_eq!(store.user_by_session_id(&b).unwrap().id, 2);
    assert!(store.user_by_session_id(&a).is_none());
    assert_eq!(store.user_by_session_id(&a2).unwrap().id, 1);
    assert!(store.has_room());
}

#[test]
fn login_answers() {
    let mut store = create_session_store();
    match make_login(&mut store, Some(user(5, "eve"))) {
        LoginAnswer::Sid(sid) => assert_eq!(store.user_by_session_id(&sid).unwrap().id, 5),
        LoginAnswer::Bad(_) => panic!("a known user logs in"),
    }
    match make_login(&mut store, None) {
        LoginAnswer::Bad(e) => {
            assert_eq!(e.field, "user");
            assert_eq!(e.reason, "not_found");
        },
        LoginAnswer::Sid(_) => panic!("nobody to log in"),
    }
}

#[test]
fn authentication_finds_the_user_of_the_cookie() {
    let mut store = create_session_store();
    let sid = store.add_new_session(&user(3, "carol"));
    let auth = middleware(&"/login".to_string());
    assert_eq!(auth.login_page_path(), "/login");
    assert_eq!(auth.find_user(&store, Some(&sid)).unwrap().id, 3);
    assert!(auth.find_user(&store, Some(&"99".to_string())).is_none());
    assert!(auth.find_user(&store, None).is_none());
    assert_eq!(session_cookie_name(), "sid");
}

#[test]
fn registration_checks_in_order() {
    let e = check_registration("", "").unwrap();
    assert_eq!((e.field.as_str(), e.reason.as_str()), ("user", "empty"));
    let e = check_registration("abcdefghijklmnopqrstuvwxy", "a@b").unwrap();
    assert_eq!((e.field.as_str(), e.reason.as_str()), ("user", "too_long"));
    // thirteen Cyrillic letters are 26 bytes
    let e = check_registration("ааааааааааааа", "a@b").unwrap();
    assert_eq!((e.field.as_str(), e.reason.as_str()), ("user", "too_long"));
    let e = check_registration("bob", "").unwrap();
    assert_eq!((e.field.as_str(), e.reason.as_str()), ("email", "empty"));
    let long_mail = "m".repeat(129);
    let e = check_registration("bob", &long_mail).unwrap();
    assert_eq!((e.field.as_str(), e.reason.as_str()), ("email", "too_long"));
    assert!(check_registration("abcdefghijklmnopqrstuvwx", &"m".repeat(128)).is_none());
}

#[test]
fn password_hash_is_salted_by_the_key() {
    let key = "0123456789abcdefXYZ";
    let h1 = make_password_hash(key, "secret");
    let h2 = make_password_hash(key, "secret");
    assert_eq!(h1, h2);
    assert_eq!(h1.len(), 32);
    // 24 bytes in standard base64: 32 letters of the alphabet, no padding
    assert!(h1.chars().all(|c| c.is_ascii_alphanumeric() || c == '+' || c == '/'));
    assert_ne!(h1, "secret");
    assert_ne!(make_password_hash(key, "other"), h1);
    assert_ne!(make_password_hash("fedcba9876543210", "secret"), h1);
    // only the first 16 bytes of the key are the salt
    assert_eq!(make_password_hash("0123456789abcdefQQQ", "secret"), h1);
}

#[test]
fn registration_keys_are_fifty_letters_and_digits() {
    let k1 = gen_reg_key().expect("a random source");
    let k2 = gen_reg_key().expect("a random source");
    assert_eq!(k1.chars().count(), 50);
    assert!(k1.chars().all(|c| c.is_ascii_alphanumeric()));
    assert_ne!(k1, k2);
}

#[test]
fn user_groups_get_their_unseen_counts() {
    let groups = vec![
        ShortInfo { id: 1, name: "one".to_string() },
        ShortInfo { id: 2, name: "two".to_string() },
    ];
    let counts = vec![(2u64, 7u32), (2, 9), (3, 1)];
    let infos = groups_with_unwatched(&groups, &counts);
    assert_eq!(infos.len(), 2);
    assert_eq!((infos[0].id, infos[0].name.as_str(), infos[0].unwatched_events), (1, "one", 0));
    assert_eq!((infos[1].id, infos[1].name.as_str(), infos[1].unwatched_events), (2, "two", 7));
    assert_eq!(registration_end_path(), "/registration/:regkey");
    assert_eq!(user_info_path(), "/user_info");
}

#[test]
fn a_history_of_logins_keeps_the_last_session_of_each_user() {
    let mut store = create_session_store();
    let people = [user(1, "alice"), user(2, "bob"), user(1, "alice"), user(3, "carol"), user(2, "bob")];
    let sids: Vec<String> = people.iter().map(|u| store.add_new_session(u)).collect();
    assert_eq!(sids, vec!["1", "2", "3", "4", "5"]);
    assert!(store.user_by_session_id(&sids[0]).is_none());
    assert!(store.user_by_session_id(&sids[1]).is_none());
    assert_eq!(store.user_by_session_id(&sids[2]).unwrap().name, "alice");
    assert_eq!(store.user_by_session_id(&sids[3]).unwrap().name, "carol");
    assert_eq!(store.user_by_session_id(&sids[4]).unwrap().name, "bob");
    assert!(store.user_by_session_id(&"6".to_string()).is_none());
}
