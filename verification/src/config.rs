//! Settings of the server.
use vstd::prelude::*;
use vstd::string::*;

verus! {

/// Where the server listens, how it reaches the database and the mail
/// server, and where it keeps the photos.
pub struct Config {
    pub server_ip: (u8, u8, u8, u8),
    pub server_port: u16,
    pub root_url: String,
    pub db_name: String,
    pub db_user: String,
    pub db_password: String,
    pub db_min_connections: usize,
    pub db_max_connections: usize,
    pub photo_store_path: String,
    pub photo_store_max_photo_size_bytes: usize,
    pub photo_store_preview_size: usize,
    pub events_trigger_period_sec: u32,
    pub mail_smtp_address: String,
    pub mail_smtp_port: u16,
    pub mail_from_address: String,
    pub mail_from_pass: String,
}

/// The settings used when no configuration file can be read.
pub open spec fn is_default_config(c: Config) -> bool {
    &&& c.server_ip == (127u8, 0u8, 0u8, 1u8)
    &&& c.server_port == 6767
    &&& c.root_url@ == "http://localhost"@
    &&& c.db_name@ == "photometer"@
    &&& c.db_user@ == "photometer"@
    &&& c.db_password@ == "parol"@
    &&& c.db_min_connections == 10
    &&& c.db_max_connections == 100
    &&& c.photo_store_path@ == "../data/photos/"@
    &&& c.photo_store_max_photo_size_bytes == 3145728
    &&& c.photo_store_preview_size == 300
    &&& c.events_trigger_period_sec == 600
    &&& c.mail_smtp_address@ == "mail.someserver.org"@
    &&& c.mail_smtp_port == 25
    &&& c.mail_from_address@ == "photometer@mail.com"@
    &&& c.mail_from_pass@ == "qwerty"@
}

impl Config {
    fn new() -> (r: Config)
        ensures
            is_default_config(r),
    {
        Config {
            server_ip: (127, 0, 0, 1),
            server_port: 6767,
            root_url: String::from_str("http://localhost"),
            db_name: String::from_str("photometer"),
            db_user: String::from_str("photometer"),
            db_password: String::from_str("parol"),
            db_min_connections: 10,
            db_max_connections: 100,
            photo_store_path: String::from_str("../data/photos/"),
            photo_store_max_photo_size_bytes: 3145728,
            photo_store_preview_size: 300,
            events_trigger_period_sec: 600,
            mail_smtp_address: String::from_str("mail.someserver.org"),
            mail_smtp_port: 25,
            mail_from_address: String::from_str("photometer@mail.com"),
            mail_from_pass: String::from_str("qwerty"),
        }
    }

}

/// The default settings.
pub fn default() -> (r: Config)
    ensures
        is_default_config(r),
{
    Config::new()
}

} // verus!
