//! The texts of the mail the site sends: a subject and a body for each
//! occasion.
use vstd::prelude::*;
use vstd::string::*;
use crate::types::{Id, CommentFor};
use crate::events::make_event_link;
use crate::parse_utils::{decimal, u64_to_string};

verus! {

/// The text of the link to an event's page.
pub open spec fn link_text(id: Id) -> Seq<char> {
    "/#event/"@ + decimal(id as nat)
}

/// The text of the link to a photo in its owner's gallery.
pub open spec fn photo_link_text(owner_id: Id, photo_id: Id) -> Seq<char> {
    "/#gallery/"@ + decimal(owner_id as nat) + "/"@ + decimal(photo_id as nat)
}

/// The link to the photo `photo_id` in the gallery of `owner_id`.
pub fn make_photo_link(owner_id: Id, photo_id: Id) -> (r: String)
    ensures
        r@ == photo_link_text(owner_id, photo_id),
{
    let mut link = String::from_str("/#gallery/");
    link.append(u64_to_string(owner_id).as_str());
    link.append("/");
    link.append(u64_to_string(photo_id).as_str());
    link
}

/// The text of the link to what a comment is attached to: the photo in its
/// owner's gallery, or the event.
pub open spec fn comment_target_text(comment_for: CommentFor, owner_id: Id, for_id: Id) -> Seq<char> {
    match comment_for {
        CommentFor::Photo => photo_link_text(owner_id, for_id),
        CommentFor::Event => link_text(for_id),
    }
}

/// The link to what a comment is attached to.
pub fn comment_target_link(comment_for: CommentFor, owner_id: Id, for_id: Id) -> (r: String)
    ensures
        r@ == comment_target_text(comment_for, owner_id, for_id),
{
    match comment_for {
        CommentFor::Photo => make_photo_link(owner_id, for_id),
        CommentFor::Event => make_event_link(for_id),
    }
}

/// Writes the mail of each occasion: a subject and a body.
pub trait MailWriter {
    fn write_registration_accept_mail(&self, reg_key: &str) -> (String, String);
    fn write_welcome_mail(&self) -> (String, String);
    fn write_group_creation_started_mail(&self, group_name: &str, scheduled_id: Id) -> (String, String);
    fn write_group_invite_mail(&self, group_name: &str, scheduled_id: Id) -> (String, String);
    fn write_nobody_need_your_group_mail(&self, group_name: &str) -> (String, String);
    fn write_group_name_already_exists_mail(&self, group_name: &str) -> (String, String);
    fn write_welcome_to_group_mail(&self, group_name: &str) -> (String, String);
    fn write_time_for_publication_mail(&self, event_name: &str, user_name: &str, scheduled_id: Id) -> (String, String);
    fn write_late_publication_mail(&self, event_name: &str, user_name: &str, scheduled_id: Id) -> (String, String);
    fn write_group_voiting_started_mail(&self, event_name: &str, group_name: &str, scheduled_id: Id) -> (String, String);
    fn write_group_voiting_accepted_mail(&self, event_name: &str, group_name: &str, scheduled_id: Id) -> (String, String);
    fn write_group_voiting_denied_mail(&self, event_name: &str, group_name: &str, scheduled_id: Id) -> (String, String);
    fn write_invite_to_group_mail(&self, inviter_name: &str, group_name: &str, scheduled_id: Id) -> (String, String);
    fn write_user_invited_to_group_mail(&self, invited_name: &str, group_name: &str, scheduled_id: Id) -> (String, String);
    fn write_time_for_group_join_voit_mail(&self, group_name: &str, scheduled_id: Id) -> (String, String);
    fn write_your_photo_commented_mail(&self, commenter_name: &str, owner_id: Id, photo_id: Id) -> (String, String);
    fn write_you_refered_in_comment_mail(&self, commenter_name: &str, comment_for: CommentFor, owner_id: Id, for_id: Id) -> (String, String);
}

/// What the mail texts need: the address of the site.
#[derive(Clone)]
pub struct MailWriterBody {
    pub root_url: String,
}

/// The mail writer of the site at `root_url`.
pub fn create(root_url: &str) -> (r: MailWriterBody)
    ensures
        r.root_url@ == root_url@,
{
    MailWriterBody { root_url: String::from_str(root_url) }
}

impl MailWriter for MailWriterBody {
    /// The mail that confirms a registration, with the link that ends it.
    fn write_registration_accept_mail(&self, reg_key: &str) -> (r: (String, String))
        ensures
            r.0@ == "Регистрация"@,
            r.1@ == "Вы начали регистрацию на Фотометре.\nЧто-бы завершить её, перейдите по этой ссылке "@ + self.root_url@ + "/#activate/"@ + reg_key@,
    {
        let subject = String::from_str("Регистрация");
        let mut mail = String::from_str("Вы начали регистрацию на Фотометре.\nЧто-бы завершить её, перейдите по этой ссылке ");
        mail.append(self.root_url.as_str());
        mail.append("/#activate/");
        mail.append(reg_key);
        (subject, mail)
    }

    /// The welcome mail of a new user.
    fn write_welcome_mail(&self) -> (r: (String, String))
        ensures
            r.0@ == "Добро пожаловать."@,
            r.1@ == "Добро пожаловать на Фотометр!\n\nДля того, чтобы использовать фотометр по полной программе, Вам надо объединиться в другими людьми. Для этого, нужно или создать новую группу, или присоединиться к уже существующей.\n\nСоздать новую группу вы можете выбрав выпадающее меню с вашим именем в шапке сайта. Присоединиться к уже существующей можно только по приглашению одного из её участников."@,
    {
        let subject = String::from_str("Добро пожаловать.");
        let mail = String::from_str("Добро пожаловать на Фотометр!\n\nДля того, чтобы использовать фотометр по полной программе, Вам надо объединиться в другими людьми. Для этого, нужно или создать новую группу, или присоединиться к уже существующей.\n\nСоздать новую группу вы можете выбрав выпадающее меню с вашим именем в шапке сайта. Присоединиться к уже существующей можно только по приглашению одного из её участников.");
        (subject, mail)
    }

    /// The mail to the founder of a group that the invitations are sent.
    fn write_group_creation_started_mail(&self, group_name: &str, scheduled_id: Id) -> (r: (String, String))
        ensures
            r.0@ == "Создание новой группы \""@ + group_name@ + "\""@,
            r.1@ == "Приглашения о создании группы **"@ + group_name@ + "** разосланы.\nУзнать подробности и следить за процессом присоединения вы можете пройдя по этой [ссылке]("@ + link_text(scheduled_id) + ").\nЕсли группа будет организована, вы получите новое сообщение, то же самое будет если она не будет организована по какой-то причине."@,
    {
        let mut subject = String::from_str("Создание новой группы \"");
        subject.append(group_name);
        subject.append("\"");
        let mut mail = String::from_str("Приглашения о создании группы **");
        mail.append(group_name);
        mail.append("** разосланы.\nУзнать подробности и следить за процессом присоединения вы можете пройдя по этой [ссылке](");
        let link1 = make_event_link(scheduled_id);
        mail.append(link1.as_str());
        mail.append(").\nЕсли группа будет организована, вы получите новое сообщение, то же самое будет если она не будет организована по какой-то причине.");
        (subject, mail)
    }

    /// The invitation to found a new group.
    fn write_group_invite_mail(&self, group_name: &str, scheduled_id: Id) -> (r: (String, String))
        ensures
            r.0@ == "Создание новой группы \""@ + group_name@ + "\""@,
            r.1@ == "Вас приглашают создать новую группу **"@ + group_name@ + "**.\nУзнать подробности и принять решение о присоединении вы можете пройдя по этой [ссылке]("@ + link_text(scheduled_id) + ")."@,
    {
        let mut subject = String::from_str("Создание новой группы \"");
        subject.append(group_name);
        subject.append("\"");
        let mut mail = String::from_str("Вас приглашают создать новую группу **");
        mail.append(group_name);
        mail.append("**.\nУзнать подробности и принять решение о присоединении вы можете пройдя по этой [ссылке](");
        let link1 = make_event_link(scheduled_id);
        mail.append(link1.as_str());
        mail.append(").");
        (subject, mail)
    }

    /// The mail that nobody invited wanted the group.
    fn write_nobody_need_your_group_mail(&self, group_name: &str) -> (r: (String, String))
        ensures
            r.0@ == "Группа '"@ + group_name@ + "' не создана"@,
            r.1@ == "К сожалению ни один из приглашенных вами пользователей не согласился создать группу."@,
    {
        let mut subject = String::from_str("Группа '");
        subject.append(group_name);
        subject.append("' не создана");
        let mail = String::from_str("К сожалению ни один из приглашенных вами пользователей не согласился создать группу.");
        (subject, mail)
    }

    /// The mail that a group of that name was created meanwhile.
    fn write_group_name_already_exists_mail(&self, group_name: &str) -> (r: (String, String))
        ensures
            r.0@ == "Группа с именем '"@ + group_name@ + "' уже существует"@,
            r.1@ == "Группа с именем **"@ + group_name@ + "** была уже создана за время пока вы решали создавать вашу группу или нет.\nСоздайте новую группу с другим именем или присоединитесь к существующей"@,
    {
        let mut subject = String::from_str("Группа с именем '");
        subject.append(group_name);
        subject.append("' уже существует");
        let mut mail = String::from_str("Группа с именем **");
        mail.append(group_name);
        mail.append("** была уже создана за время пока вы решали создавать вашу группу или нет.\nСоздайте новую группу с другим именем или присоединитесь к существующей");
        (subject, mail)
    }

    /// The mail that a group has been created.
    fn write_welcome_to_group_mail(&self, group_name: &str) -> (r: (String, String))
        ensures
            r.0@ == "Добро пожаловать в группу \""@ + group_name@ + "\""@,
            r.1@ == "Группа с именем **"@ + group_name@ + "** создана. Развлекайтесь!"@,
    {
        let mut subject = String::from_str("Добро пожаловать в группу \"");
        subject.append(group_name);
        subject.append("\"");
        let mut mail = String::from_str("Группа с именем **");
        mail.append(group_name);
        mail.append("** создана. Развлекайтесь!");
        (subject, mail)
    }

    /// The mail that it is time to publish a photo.
    fn write_time_for_publication_mail(&self, event_name: &str, user_name: &str, scheduled_id: Id) -> (r: (String, String))
        ensures
            r.0@ == "Пора выкладывать "@ + event_name@,
            r.1@ == "Привет, **"@ + user_name@ + "**!\nНастало время публиковать фотографии для **"@ + event_name@ + "**.\nТы можешь это сделать перейдя по вот этой ссылке: ["@ + event_name@ + "]("@ + self.root_url@ + link_text(scheduled_id) + ")"@,
    {
        let mut subject = String::from_str("Пора выкладывать ");
        subject.append(event_name);
        let mut mail = String::from_str("Привет, **");
        mail.append(user_name);
        mail.append("**!\nНастало время публиковать фотографии для **");
        mail.append(event_name);
        mail.append("**.\nТы можешь это сделать перейдя по вот этой ссылке: [");
        mail.append(event_name);
        mail.append("](");
        mail.append(self.root_url.as_str());
        let link1 = make_event_link(scheduled_id);
        mail.append(link1.as_str());
        mail.append(")");
        (subject, mail)
    }

    /// The mail that a photo can still be published late.
    fn write_late_publication_mail(&self, event_name: &str, user_name: &str, scheduled_id: Id) -> (r: (String, String))
        ensures
            r.0@ == "Выкладываемся с опозданием "@ + event_name@,
            r.1@ == "Ну что, "@ + user_name@ + ", не получилось вовремя опубликовать свою фотографию? Ну ничего, не растраивайся!\nТы всё равно можешь это сделать по вот этой ссылке "@ + self.root_url@ + link_text(scheduled_id) + ". Возможно она уже не будет участвовать в конкурсах,\nно хотя бы не будет этого слюнявого Гомера."@,
    {
        let mut subject = String::from_str("Выкладываемся с опозданием ");
        subject.append(event_name);
        let mut mail = String::from_str("Ну что, ");
        mail.append(user_name);
        mail.append(", не получилось вовремя опубликовать свою фотографию? Ну ничего, не растраивайся!\nТы всё равно можешь это сделать по вот этой ссылке ");
        mail.append(self.root_url.as_str());
        let link1 = make_event_link(scheduled_id);
        mail.append(link1.as_str());
        mail.append(". Возможно она уже не будет участвовать в конкурсах,\nно хотя бы не будет этого слюнявого Гомера.");
        (subject, mail)
    }

    /// The mail that a vote of the group has started.
    fn write_group_voiting_started_mail(&self, event_name: &str, group_name: &str, scheduled_id: Id) -> (r: (String, String))
        ensures
            r.0@ == "Старт голосования за '"@ + event_name@ + "'"@,
            r.1@ == "В группе **"@ + group_name@ + "** грядут изменения: "@ + event_name@ + ". Группа нуждается в твоём мнении! Вырази его перейдя по ссылке: ["@ + event_name@ + "]("@ + link_text(scheduled_id) + ")"@,
    {
        let mut subject = String::from_str("Старт голосования за '");
        subject.append(event_name);
        subject.append("'");
        let mut mail = String::from_str("В группе **");
        mail.append(group_name);
        mail.append("** грядут изменения: ");
        mail.append(event_name);
        mail.append(". Группа нуждается в твоём мнении! Вырази его перейдя по ссылке: [");
        mail.append(event_name);
        mail.append("](");
        let link1 = make_event_link(scheduled_id);
        mail.append(link1.as_str());
        mail.append(")");
        (subject, mail)
    }

    /// The mail that the group accepted a change.
    fn write_group_voiting_accepted_mail(&self, event_name: &str, group_name: &str, scheduled_id: Id) -> (r: (String, String))
        ensures
            r.0@ == "Утверждено '"@ + event_name@ + "'"@,
            r.1@ == "В группе **"@ + group_name@ + "** утверждено изменение: "@ + event_name@ + ". Вот ссылка на результаты голосования ["@ + event_name@ + "]("@ + link_text(scheduled_id) + ")"@,
    {
        let mut subject = String::from_str("Утверждено '");
        subject.append(event_name);
        subject.append("'");
        let mut mail = String::from_str("В группе **");
        mail.append(group_name);
        mail.append("** утверждено изменение: ");
        mail.append(event_name);
        mail.append(". Вот ссылка на результаты голосования [");
        mail.append(event_name);
        mail.append("](");
        let link1 = make_event_link(scheduled_id);
        mail.append(link1.as_str());
        mail.append(")");
        (subject, mail)
    }

    /// The mail that the group refused a change.
    fn write_group_voiting_denied_mail(&self, event_name: &str, group_name: &str, scheduled_id: Id) -> (r: (String, String))
        ensures
            r.0@ == "Отклонено '"@ + event_name@ + "'"@,
            r.1@ == "В группе **"@ + group_name@ + "** отклонено изменение: "@ + event_name@ + ". Вот ссылка на результаты голосования ["@ + event_name@ + "]("@ + link_text(scheduled_id) + ")"@,
    {
        let mut subject = String::from_str("Отклонено '");
        subject.append(event_name);
        subject.append("'");
        let mut mail = String::from_str("В группе **");
        mail.append(group_name);
        mail.append("** отклонено изменение: ");
        mail.append(event_name);
        mail.append(". Вот ссылка на результаты голосования [");
        mail.append(event_name);
        mail.append("](");
        let link1 = make_event_link(scheduled_id);
        mail.append(link1.as_str());
        mail.append(")");
        (subject, mail)
    }

    /// The invitation of a user into a group.
    fn write_invite_to_group_mail(&self, inviter_name: &str, group_name: &str, scheduled_id: Id) -> (r: (String, String))
        ensures
            r.0@ == "Приглашение в группу '"@ + group_name@ + "'"@,
            r.1@ == "Пользователь **"@ + inviter_name@ + "** приглашает вас присоединиться в группу **"@ + group_name@ + "**. Прочитать про группу и принять решение, можно перейдя по [вот этой ссылке]("@ + link_text(scheduled_id) + ")."@,
    {
        let mut subject = String::from_str("Приглашение в группу '");
        subject.append(group_name);
        subject.append("'");
        let mut mail = String::from_str("Пользователь **");
        mail.append(inviter_name);
        mail.append("** приглашает вас присоединиться в группу **");
        mail.append(group_name);
        mail.append("**. Прочитать про группу и принять решение, можно перейдя по [вот этой ссылке](");
        let link1 = make_event_link(scheduled_id);
        mail.append(link1.as_str());
        mail.append(").");
        (subject, mail)
    }

    /// The mail to the inviter that the invitation was sent.
    fn write_user_invited_to_group_mail(&self, invited_name: &str, group_name: &str, scheduled_id: Id) -> (r: (String, String))
        ensures
            r.0@ == "'"@ + invited_name@ + "' приглашен в группу '"@ + group_name@ + "'"@,
            r.1@ == "Приглашение в группу **"@ + group_name@ + "** для пользователя **"@ + invited_name@ + "** выслано, добавить комментарий и следить за прогрессом можно перейдя [вот по этой ссылке]("@ + link_text(scheduled_id) + ")."@,
    {
        let mut subject = String::from_str("'");
        subject.append(invited_name);
        subject.append("' приглашен в группу '");
        subject.append(group_name);
        subject.append("'");
        let mut mail = String::from_str("Приглашение в группу **");
        mail.append(group_name);
        mail.append("** для пользователя **");
        mail.append(invited_name);
        mail.append("** выслано, добавить комментарий и следить за прогрессом можно перейдя [вот по этой ссылке](");
        let link1 = make_event_link(scheduled_id);
        mail.append(link1.as_str());
        mail.append(").");
        (subject, mail)
    }

    /// The mail that the group now votes on the new member.
    fn write_time_for_group_join_voit_mail(&self, group_name: &str, scheduled_id: Id) -> (r: (String, String))
        ensures
            r.0@ == "Голосование группы '"@ + group_name@ + "' за ваше принятие"@,
            r.1@ == "После вашего согласия присоединиться к группе **"@ + group_name@ + "**, теперь группа должна принять решение о вашем вступлении. Следить за их решением можно перейдя [вот по этой ссылке]("@ + link_text(scheduled_id) + ")."@,
    {
        let mut subject = String::from_str("Голосование группы '");
        subject.append(group_name);
        subject.append("' за ваше принятие");
        let mut mail = String::from_str("После вашего согласия присоединиться к группе **");
        mail.append(group_name);
        mail.append("**, теперь группа должна принять решение о вашем вступлении. Следить за их решением можно перейдя [вот по этой ссылке](");
        let link1 = make_event_link(scheduled_id);
        mail.append(link1.as_str());
        mail.append(").");
        (subject, mail)
    }

    /// The mail to the owner of a photo that somebody commented it.
    fn write_your_photo_commented_mail(&self, commenter_name: &str, owner_id: Id, photo_id: Id) -> (r: (String, String))
        ensures
            r.0@ == "Новый комментарий к вашей фотографии"@,
            r.1@ == "Пользователь **"@ + commenter_name@ + "** прокомментировал вашу [фотографию]("@ + self.root_url@ + photo_link_text(owner_id, photo_id) + ")."@,
    {
        let subject = String::from_str("Новый комментарий к вашей фотографии");
        let mut mail = String::from_str("Пользователь **");
        mail.append(commenter_name);
        mail.append("** прокомментировал вашу [фотографию](");
        mail.append(self.root_url.as_str());
        let photo_link = make_photo_link(owner_id, photo_id);
        mail.append(photo_link.as_str());
        mail.append(").");
        (subject, mail)
    }

    /// The mail to a user mentioned in a comment, with the link to what was commented.
    fn write_you_refered_in_comment_mail(&self, commenter_name: &str, comment_for: CommentFor, owner_id: Id, for_id: Id) -> (r: (String, String))
        ensures
            r.0@ == "Вас упомянули в комментарии"@,
            r.1@ == "Пользователь **"@ + commenter_name@ + "** упомянул вас в [комментарии]("@ + self.root_url@ + comment_target_text(comment_for, owner_id, for_id) + ")."@,
    {
        let subject = String::from_str("Вас упомянули в комментарии");
        let mut mail = String::from_str("Пользователь **");
        mail.append(commenter_name);
        mail.append("** упомянул вас в [комментарии](");
        mail.append(self.root_url.as_str());
        let target = comment_target_link(comment_for, owner_id, for_id);
        mail.append(target.as_str());
        mail.append(").");
        (subject, mail)
    }
}

} // verus!
