//! Client library for the Pushover message API.
//!
//! A [`Notification`] carries the fields of one message and, optionally, one
//! [`Attachment`]. The library encodes the fields as a multipart form, names
//! the endpoint the form is posted to, and decodes the JSON body of the reply
//! into a [`Response`]. The HTTP exchange itself is left to the caller.

pub mod attachment;
pub mod encoding;
pub mod json;
pub mod locator;
pub mod multipart;
pub mod notification;
pub mod request;
pub mod response;
pub mod signature;

pub use crate::attachment::{Attachment, AttachmentError};
pub use crate::encoding::{decimal_string, Monospace, Priority, Sound, HTML};
pub use crate::notification::{messages_url, server_url, Notification, NotificationError};
pub use crate::request::Request;
pub use crate::response::Response;
