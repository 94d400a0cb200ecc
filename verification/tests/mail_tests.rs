use photometer::mail_writer::{create, MailWriter};
use photometer::mailer::{MailContext, make_mail, after_send_attempt, SendStep, MAX_SEND_TRIES, PHOTOMETER};
use photometer::authentication::User;
use photometer::types::CommentFor;

#[test]
fn mail_texts_carry_their_links() {
    let writer = create("http://photometer.org");
    assert_eq!(writer.root_url, "http://photometer.org");
    let (subject, body) = writer.write_registration_accept_mail("KEY");
    assert_eq!(subject, "Регистрация");
    assert!(body.ends_with("http://photometer.org/#activate/KEY"));
    let (subject, body) = writer.write_group_creation_started_mail("birds", 7);
    assert_eq!(subject, "Создание новой группы \"birds\"");
    assert!(body.contains("**birds**"));
    assert!(body.contains("(/#event/7)"));
    let (_, body) = writer.write_time_for_publication_mail("Weekly", "ann", 12);
    assert!(body.starts_with("Привет, **ann**!"));
    assert!(body.contains("[Weekly](http://photometer.org/#event/12)"));
    let (subject, _) = writer.write_group_voiting_denied_mail("change", "birds", 3);
    assert_eq!(subject, "Отклонено 'change'");
    let (subject, _) = writer.write_user_invited_to_group_mail("bob", "birds", 3);
    assert_eq!(subject, "'bob' приглашен в группу 'birds'");
    let (subject, body) = writer.write_welcome_mail();
    assert_eq!(subject, "Добро пожаловать.");
    assert!(body.starts_with("Добро пожаловать на Фотометр!\n\n"));
    let (subject, body) = writer.write_nobody_need_your_group_mail("birds");
    assert_eq!(subject, "Группа 'birds' не создана");
    assert!(!body.contains("birds"));
    let (_, body) = writer.write_your_photo_commented_mail("carl", 4, 9);
    assert!(body.contains("**carl**"));
    assert!(body.ends_with("(http://photometer.org/#gallery/4/9)."));
    let (_, body) = writer.write_you_refered_in_comment_mail("carl", CommentFor::Event, 0, 12);
    assert!(body.ends_with("(http://photometer.org/#event/12)."));
    let (_, body) = writer.write_you_refered_in_comment_mail("carl", CommentFor::Photo, 4, 9);
    assert!(body.ends_with("(http://photometer.org/#gallery/4/9)."));
}

#[test]
fn messages_and_retries() {
    let user = User { name: "ann".to_string(), id: 1, mail: "ann@x.org".to_string() };
    let mail = make_mail(&user, "s", "b");
    assert_eq!((mail.to_addr.as_str(), mail.to_name.as_str(), mail.subject.as_str(), mail.body.as_str()),
               ("ann@x.org", "ann", "s", "b"));
    let ctx = MailContext::new("smtp.x.org", "robot@x.org", "pw");
    assert_eq!(ctx.get_smtp_addr(), "smtp.x.org");
    assert_eq!(ctx.get_from_addr(), "robot@x.org");
    assert_eq!(ctx.get_pass(), "pw");
    assert_eq!(after_send_attempt(0, true), SendStep::Done);
    assert_eq!(after_send_attempt(0, false), SendStep::PauseAndRetry { tries: 1 });
    assert_eq!(after_send_attempt(MAX_SEND_TRIES - 1, false), SendStep::PauseAndGiveUp);
    // a message that always fails is tried six times
    let mut tries = 0;
    let mut attempts = 1;
    loop {
        match after_send_attempt(tries, false) {
            SendStep::PauseAndRetry { tries: next } => { tries = next; attempts += 1; },
            SendStep::PauseAndGiveUp => break,
            SendStep::Done => panic!("never sent"),
        }
    }
    assert_eq!(attempts, 6);
    assert_eq!(PHOTOMETER, "Фотометр");
}
