//! The request handlers' own logic: checks of what a request carries and
//! the answers they give.
pub mod err_msg;
pub mod helpers;
pub mod utils;
pub mod images;
pub mod search;
pub mod gallery;
pub mod timetable;
pub mod events;
pub mod upload_photo;
pub mod authentication;
pub mod comments;
