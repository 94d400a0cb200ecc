//! Photometer: the logic of a photo sharing site for groups of friends.
use vstd::prelude::*;

pub mod types;
pub mod parse_utils;
pub mod answer_types;
pub mod authentication;
pub mod config;
pub mod err_msg;
pub mod handlers;
pub mod db;
pub mod events;
pub mod exif_reader;
pub mod text_map;
pub mod cookies_parser;
pub mod mail_writer;
pub mod mailer;
pub mod get_param;
pub mod params_body_parser;
pub mod get_body;

verus! {
} // verus!
