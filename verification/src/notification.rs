//! A message ready to be sent: its fields, the attachment it carries, and
//! the multipart form that both are encoded as.

use crate::attachment::{Attachment, AttachmentError, AttachmentView};
use crate::encoding::decimal_string;
use crate::multipart::{
    form_new, form_part, form_parts, form_text, media_type, part_bytes, part_file_name,
    part_mime_str, part_view, text_part, PartView,
};
use crate::request::{
    field, lemma_field_names_differ, lemma_parts_named_add, part_names, parts_named, text,
    text_parts, Request,
};
use vstd::prelude::*;

verus! {

/// Why a message could not be sent, or its reply not be read.
#[derive(Debug)]
pub enum NotificationError {
    /// The HTTP exchange failed.
    Reqwest(reqwest::Error),
    /// The body of the reply is not JSON of the expected shape.
    Deserialize(serde_json::Error),
    /// The attachment could not be made into a part of the form.
    Attachment(AttachmentError),
}

impl From<reqwest::Error> for NotificationError {
    fn from(e: reqwest::Error) -> (out: Self) {
        NotificationError::Reqwest(e)
    }
}

impl vstd::std_specs::convert::FromSpecImpl<reqwest::Error> for NotificationError {
    open spec fn obeys_from_spec() -> bool {
        true
    }

    open spec fn from_spec(e: reqwest::Error) -> Self {
        NotificationError::Reqwest(e)
    }
}

impl From<serde_json::Error> for NotificationError {
    fn from(e: serde_json::Error) -> (out: Self) {
        NotificationError::Deserialize(e)
    }
}

impl vstd::std_specs::convert::FromSpecImpl<serde_json::Error> for NotificationError {
    open spec fn obeys_from_spec() -> bool {
        true
    }

    open spec fn from_spec(e: serde_json::Error) -> Self {
        NotificationError::Deserialize(e)
    }
}

impl From<AttachmentError> for NotificationError {
    fn from(e: AttachmentError) -> (out: Self) {
        NotificationError::Attachment(e)
    }
}

impl vstd::std_specs::convert::FromSpecImpl<AttachmentError> for NotificationError {
    open spec fn obeys_from_spec() -> bool {
        true
    }

    open spec fn from_spec(e: AttachmentError) -> Self {
        NotificationError::Attachment(e)
    }
}

/// A request together with the attachment it carries, if any.
#[derive(Debug)]
pub struct Notification<'a> {
    /// The fields of the message.
    pub request: Request,
    /// The attachment, at most one.
    pub attachment: Option<&'a Attachment>,
}

impl<'a> Default for Notification<'a> {
    /// A notification whose required fields are empty, without optional
    /// fields and without attachment.
    fn default() -> (notification: Self)
        ensures
            notification.request.token@ == Seq::<char>::empty(),
            notification.request.user@ == Seq::<char>::empty(),
            notification.request.message@ == Seq::<char>::empty(),
            notification.request.is_bare(),
            notification.attachment is None,
    {
        Notification { request: Request::default(), attachment: None }
    }
}

/// The part that carries an attachment: its content, under its file name,
/// with `mime` as media type.
pub open spec fn file_part(attachment: AttachmentView, mime: Seq<char>) -> PartView {
    PartView {
        body: attachment.content,
        file_name: Some(attachment.filename),
        mime: Some(mime),
    }
}

/// The base URL of the Pushover API.
pub fn server_url() -> (url: String)
    ensures
        url@ == "https://api.pushover.net"@,
{
    "https://api.pushover.net".to_owned()
}

/// The URL that messages are posted to, under the given base URL.
pub fn messages_url(base: &str) -> (url: String)
    ensures
        url@ == base@ + "/1/messages.json"@,
{
    base.to_owned().concat("/1/messages.json")
}

fn cloned_text(value: &Option<String>) -> (out: Option<String>)
    ensures
        text(out) == text(*value),
{
    match value {
        Some(s) => Some(s.clone()),
        None => None,
    }
}

impl<'a> Notification<'a> {
    /// This notification with `attachment` in place of the one it had.
    pub open spec fn attached(self, attachment: &'a Attachment) -> Self {
        Notification { request: self.request, attachment: Some(attachment) }
    }

    /// Why the form cannot be made, where it cannot: the error of the
    /// attachment's media type, where an attachment is set and its media
    /// type does not parse.
    pub open spec fn fault(self) -> Option<reqwest::Error> {
        match self.attachment {
            Some(a) => match media_type(a.mime_type@) {
                Ok(_) => None,
                Err(cause) => Some(cause),
            },
            None => None,
        }
    }

    /// The file part of the form: one part named `attachment` where an
    /// attachment is set, none where it is not.
    pub open spec fn file_parts(self) -> Seq<(Seq<char>, PartView)> {
        match self.attachment {
            Some(a) => match media_type(a.mime_type@) {
                Ok(m) => seq![("attachment"@, file_part(a@, m))],
                Err(_) => Seq::empty(),
            },
            None => Seq::empty(),
        }
    }

    /// All parts of the form, in the order in which they are sent: the text
    /// parts of the request, and the file part after them.
    pub open spec fn parts(self) -> Seq<(Seq<char>, PartView)> {
        self.request.parts() + self.file_parts()
    }

    /// The file parts as they stand in the form, without their name.
    pub open spec fn files(self) -> Seq<PartView> {
        match self.attachment {
            Some(a) => match media_type(a.mime_type@) {
                Ok(m) => seq![file_part(a@, m)],
                Err(_) => Seq::empty(),
            },
            None => Seq::empty(),
        }
    }

    /// A notification without optional fields and without attachment is
    /// sent as exactly three text parts, `token`, `user` and `message`, in
    /// this order, and nothing else.
    pub proof fn lemma_bare_parts(self)
        requires
            self.request.is_bare(),
            self.attachment is None,
        ensures
            self.parts() == seq![
                ("token"@, text_part(self.request.token@)),
                ("user"@, text_part(self.request.user@)),
                ("message"@, text_part(self.request.message@)),
            ],
    {
        self.request.lemma_bare_parts();
        assert(self.parts() =~= self.request.parts());
    }

    /// Under `attachment` the form holds the file part where an attachment
    /// is set, and nothing where none is; under the name of a field it
    /// holds one text part, the encoded value, where the field is set, and
    /// nothing where it is not; under any other name it holds nothing.
    pub proof fn lemma_parts_named(self, name: Seq<char>)
        ensures
            parts_named(self.parts(), name) == if name == "attachment"@ {
                self.files()
            } else {
                text_parts(self.request.value_of(name))
            },
    {
        lemma_field_names_differ();
        let names = part_names();
        assert(names[0] != names[12] && names[1] != names[12] && names[2] != names[12]
            && names[3] != names[12] && names[4] != names[12] && names[5] != names[12]
            && names[6] != names[12] && names[7] != names[12] && names[8] != names[12]
            && names[9] != names[12] && names[10] != names[12] && names[11] != names[12]);
        self.request.lemma_parts_named(name);
        lemma_parts_named_add(self.request.parts(), self.file_parts(), name);
        let files = self.file_parts();
        if files.len() > 0 {
            assert(files.drop_last() =~= Seq::empty());
            assert(parts_named(files.drop_last(), name) =~= Seq::empty());
        }
        assert(parts_named(files, name) =~= if name == "attachment"@ {
            self.files()
        } else {
            Seq::empty()
        });
        assert(parts_named(self.parts(), name) =~= if name == "attachment"@ {
            self.files()
        } else {
            text_parts(self.request.value_of(name))
        });
    }

    /// Of two attachments set one after the other only the second is kept,
    /// and only the second is sent.
    pub proof fn lemma_attach_replaces(self, first: &'a Attachment, second: &'a Attachment)
        ensures
            self.attached(first).attached(second) == self.attached(second),
            self.attached(first).attached(second).parts() == self.attached(second).parts(),
            parts_named(self.attached(first).attached(second).parts(), "attachment"@)
                == match media_type(second.mime_type@) {
                Ok(m) => seq![file_part(second@, m)],
                Err(_) => Seq::empty(),
            },
    {
        self.attached(second).lemma_parts_named("attachment"@);
    }

    /// A notification with the required fields as given, no optional field
    /// and no attachment.
    pub fn new(token: &'a str, user: &'a str, message: &'a str) -> (notification: Self)
        ensures
            notification.request.token@ == token@,
            notification.request.user@ == user@,
            notification.request.message@ == message@,
            notification.request.is_bare(),
            notification.attachment is None,
    {
        Notification { request: Request::new(token, user, message), attachment: None }
    }

    /// Sets the attachment, in place of the one set before.
    pub fn attach(&mut self, attachment: &'a Attachment)
        ensures
            *final(self) == old(self).attached(attachment),
    {
        self.attachment = Some(attachment);
    }

    /// Adds to the form the text part of a field that has a value, and
    /// nothing for a field that has none.
    fn append_part(form: reqwest::multipart::Form, name: &'static str, value: Option<String>) -> (out:
        reqwest::multipart::Form)
        ensures
            form_parts(out) == form_parts(form) + field(name@, text(value)),
    {
        match value {
            Some(v) => {
                let out = form_text(form, name, v);
                assert(form_parts(out) =~= form_parts(form) + field(name@, text(value)));
                out
            },
            None => {
                assert(form_parts(form) =~= form_parts(form) + field(name@, text(value)));
                form
            },
        }
    }

    /// Adds the file part to the form where the part could be made, and
    /// hands on the error where it could not.
    pub fn with_file_part(
        form: reqwest::multipart::Form,
        part: Result<reqwest::multipart::Part, reqwest::Error>,
    ) -> (out: Result<reqwest::multipart::Form, NotificationError>)
        ensures
            match part {
                Ok(p) => out matches Ok(f) && form_parts(f) == form_parts(form).push(
                    ("attachment"@, part_view(p)),
                ),
                Err(e) => out matches Err(NotificationError::Attachment(AttachmentError::Reqwest(inner)))
                    && inner == e,
            },
    {
        match part {
            Ok(p) => Ok(form_part(form, "attachment", p)),
            Err(e) => Err(NotificationError::Attachment(AttachmentError::Reqwest(e))),
        }
    }

    /// Encodes the notification as the multipart form that is posted to the
    /// API: the required fields, each optional field that is set, and the
    /// attachment, in this order. Fails where the attachment's media type
    /// does not parse, with the error of the media type as an error of the
    /// attachment.
    pub fn multipart(&self) -> (out: Result<reqwest::multipart::Form, NotificationError>)
        ensures
            match self.fault() {
                None => out matches Ok(form) && form_parts(form) == self.parts(),
                Some(cause) => out matches Err(
                    NotificationError::Attachment(AttachmentError::Reqwest(inner)),
                ) && inner == cause,
            },
    {
        let request = &self.request;
        let form = form_new();
        let form = form_text(form, "token", request.token.clone());
        let form = form_text(form, "user", request.user.clone());
        let form = form_text(form, "message", request.message.clone());
        assert(form_parts(form) =~= field("token"@, Some(request.token@)) + field(
            "user"@,
            Some(request.user@),
        ) + field("message"@, Some(request.message@)));

        let form = Self::append_part(form, "device", cloned_text(&request.device));
        let form = Self::append_part(form, "title", cloned_text(&request.title));
        let html = match request.html {
            Some(v) => Some(v.to_string()),
            None => None,
        };
        let form = Self::append_part(form, "html", html);
        let monospace = match request.monospace {
            Some(v) => Some(v.to_string()),
            None => None,
        };
        let form = Self::append_part(form, "monospace", monospace);
        let timestamp = match request.timestamp {
            Some(v) => Some(decimal_string(v)),
            None => None,
        };
        let form = Self::append_part(form, "timestamp", timestamp);
        let priority = match request.priority {
            Some(v) => Some(v.to_string()),
            None => None,
        };
        let form = Self::append_part(form, "priority", priority);
        let form = Self::append_part(form, "url", cloned_text(&request.url));
        let form = Self::append_part(form, "url_title", cloned_text(&request.url_title));
        let sound = match request.sound {
            Some(v) => Some(v.to_string()),
            None => None,
        };
        let form = Self::append_part(form, "sound", sound);
        assert(form_parts(form) == request.parts());

        match self.attachment {
            Some(a) => {
                let part = part_bytes(a.content.clone());
                let part = part_file_name(part, a.filename.clone());
                let part = part_mime_str(part, a.mime_type.as_str());
                let out = Self::with_file_part(form, part);
                assert(out matches Ok(f) ==> form_parts(f) =~= self.parts());
                out
            },
            None => {
                assert(form_parts(form) =~= self.parts());
                Ok(form)
            },
        }
    }
}

} // verus!
