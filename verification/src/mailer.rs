//! Mail to users: the messages handed to the sending thread, the account it
//! sends from, and how often it tries.
use vstd::prelude::*;
use vstd::string::*;
use crate::authentication::User;

verus! {

/// The sender's name of the site's own messages.
pub const PHOTOMETER: &'static str = "Фотометр";

/// The account that outgoing mail is sent from.
pub struct MailContext {
    smtp_addr: String,
    from_addr: String,
    pass: String,
}

impl MailContext {
    pub fn new(smtp_addr: &str, from_addr: &str, pass: &str) -> (r: MailContext)
        ensures
            r.smtp_addr()@ == smtp_addr@,
            r.from_addr()@ == from_addr@,
            r.pass()@ == pass@,
    {
        MailContext {
            smtp_addr: String::from_str(smtp_addr),
            from_addr: String::from_str(from_addr),
            pass: String::from_str(pass),
        }
    }

    pub closed spec fn smtp_addr(&self) -> String {
        self.smtp_addr
    }

    pub closed spec fn from_addr(&self) -> String {
        self.from_addr
    }

    pub closed spec fn pass(&self) -> String {
        self.pass
    }

    /// The SMTP server.
    pub fn get_smtp_addr(&self) -> (r: &String)
        ensures
            r@ == self.smtp_addr()@,
    {
        &self.smtp_addr
    }

    /// The address mail is sent from.
    pub fn get_from_addr(&self) -> (r: &String)
        ensures
            r@ == self.from_addr()@,
    {
        &self.from_addr
    }

    /// The password of that address.
    pub fn get_pass(&self) -> (r: &String)
        ensures
            r@ == self.pass()@,
    {
        &self.pass
    }
}

/// A message on its way to a user's mail address.
pub struct Mail {
    pub to_addr: String,
    pub to_name: String,
    pub subject: String,
    pub body: String,
}

/// The message to `user`'s address with `subject` and `body`.
pub fn make_mail(user: &User, subject: &str, body: &str) -> (r: Mail)
    ensures
        r.to_addr@ == user.mail@,
        r.to_name@ == user.name@,
        r.subject@ == subject@,
        r.body@ == body@,
{
    Mail {
        to_addr: user.mail.clone(),
        to_name: user.name.clone(),
        subject: String::from_str(subject),
        body: String::from_str(body),
    }
}

/// How many times a message is tried before it is given up.
pub const MAX_SEND_TRIES: u32 = 6;

/// What the sender does after an attempt to send a message.
#[derive(Clone, Copy, Debug, PartialEq, Eq, Structural)]
pub enum SendStep {
    /// the message went out
    Done,
    /// the attempt failed: wait, then try again as attempt `tries`
    PauseAndRetry { tries: u32 },
    /// the attempt failed and was the last one: wait, then give up
    PauseAndGiveUp,
}

/// The step after attempt `tries` (counted from 0) ended, `sent` telling
/// whether the message went out.
pub open spec fn spec_after_send_attempt(tries: u32, sent: bool) -> SendStep {
    if sent {
        SendStep::Done
    } else if tries + 1 < MAX_SEND_TRIES {
        SendStep::PauseAndRetry { tries: (tries + 1) as u32 }
    } else {
        SendStep::PauseAndGiveUp
    }
}

/// Decides what follows an attempt to send a message.
pub fn after_send_attempt(tries: u32, sent: bool) -> (r: SendStep)
    requires
        tries < MAX_SEND_TRIES,
    ensures
        r == spec_after_send_attempt(tries, sent),
{
    if sent {
        SendStep::Done
    } else if tries + 1 < MAX_SEND_TRIES {
        SendStep::PauseAndRetry { tries: tries + 1 }
    } else {
        SendStep::PauseAndGiveUp
    }
}

/// A message is tried at most `MAX_SEND_TRIES` times: each retry numbers a
/// later attempt, still below the limit, and a failed attempt is always
/// followed by a pause.
pub proof fn law_send_tries_bounded(tries: u32, sent: bool)
    requires
        tries < MAX_SEND_TRIES,
    ensures
        spec_after_send_attempt(tries, sent) matches SendStep::PauseAndRetry { tries: next }
            ==> tries < next < MAX_SEND_TRIES,
        !sent ==> spec_after_send_attempt(tries, sent) != SendStep::Done,
        sent ==> spec_after_send_attempt(tries, sent) == SendStep::Done,
{
}

} // verus!
