//! Attachments: a named, typed byte content that a message carries.

use crate::locator::{parse_url, parsed_path_segments, path_segments, url_path_segments};
use crate::signature::{sniff, sniffed_media_type};
use vstd::prelude::*;

verus! {

/// Why an attachment could not be made.
#[derive(Debug)]
pub enum AttachmentError {
    /// The content could not be fetched.
    Reqwest(reqwest::Error),
    /// The source is no URL.
    Url(url::ParseError),
    /// The content matches no known file signature.
    Infer,
}

impl From<reqwest::Error> for AttachmentError {
    fn from(e: reqwest::Error) -> (out: Self) {
        AttachmentError::Reqwest(e)
    }
}

impl vstd::std_specs::convert::FromSpecImpl<reqwest::Error> for AttachmentError {
    open spec fn obeys_from_spec() -> bool {
        true
    }

    open spec fn from_spec(e: reqwest::Error) -> Self {
        AttachmentError::Reqwest(e)
    }
}

impl From<url::ParseError> for AttachmentError {
    fn from(e: url::ParseError) -> (out: Self) {
        AttachmentError::Url(e)
    }
}

impl vstd::std_specs::convert::FromSpecImpl<url::ParseError> for AttachmentError {
    open spec fn obeys_from_spec() -> bool {
        true
    }

    open spec fn from_spec(e: url::ParseError) -> Self {
        AttachmentError::Url(e)
    }
}

/// A file sent along with a message.
#[derive(Debug)]
pub struct Attachment {
    /// The file's name.
    pub filename: String,
    /// The media type of the content.
    pub mime_type: String,
    /// The content.
    pub content: Vec<u8>,
}

/// An attachment as plain values.
pub struct AttachmentView {
    /// The file's name.
    pub filename: Seq<char>,
    /// The media type of the content.
    pub mime_type: Seq<char>,
    /// The content.
    pub content: Seq<u8>,
}

impl View for Attachment {
    type V = AttachmentView;

    open spec fn view(&self) -> AttachmentView {
        AttachmentView {
            filename: self.filename@,
            mime_type: self.mime_type@,
            content: self.content@,
        }
    }
}

/// The name under which the content behind a URL is attached: the last
/// segment of the URL's path, or `filename` where the URL has no path
/// segments or the last one is empty.
pub open spec fn filename_of(segments: Option<Seq<Seq<char>>>) -> Seq<char> {
    match segments {
        Some(s) => if s.len() > 0 && s.last().len() > 0 {
            s.last()
        } else {
            "filename"@
        },
        None => "filename"@,
    }
}

/// The attachment made of a fetched content and the media type found for
/// it, if one was found.
pub open spec fn typed(filename: Seq<char>, mime_type: Option<Seq<char>>, content: Seq<u8>) -> Option<
    AttachmentView,
> {
    match mime_type {
        Some(m) => Some(AttachmentView { filename, mime_type: m, content }),
        None => None,
    }
}

impl Attachment {
    /// Makes an attachment of the three values as they are given.
    pub fn new(filename: &str, mime_type: &str, content: &[u8]) -> (attachment: Self)
        ensures
            attachment@ == (AttachmentView {
                filename: filename@,
                mime_type: mime_type@,
                content: content@,
            }),
    {
        Attachment {
            filename: filename.to_owned(),
            mime_type: mime_type.to_owned(),
            content: vstd::slice::slice_to_vec(content),
        }
    }

    /// Picks the file name out of the path segments of a URL.
    pub fn filename_from_segments(segments: Option<Vec<String>>) -> (name: String)
        ensures
            name@ == filename_of(
                match segments {
                    Some(s) => Some(s.deep_view()),
                    None => None,
                },
            ),
    {
        match segments {
            Some(s) => {
                let n: usize = s.len();
                if n > 0 && !s[n - 1].as_str().is_empty() {
                    assert(s.deep_view().last() == s[n - 1]@);
                    s[n - 1].clone()
                } else {
                    assert(n > 0 ==> s.deep_view().last() == s[n - 1]@);
                    "filename".to_owned()
                }
            },
            None => "filename".to_owned(),
        }
    }

    /// The file name for the content behind a URL, from what parsing the URL
    /// gave: the name picked out of the path segments where it parsed, the
    /// reason handed on where it did not.
    pub fn filename_from_parsed(parsed: Result<url::Url, url::ParseError>) -> (out: Result<
        String,
        AttachmentError,
    >)
        ensures
            match parsed {
                Ok(location) => out matches Ok(name) && name@ == filename_of(
                    url_path_segments(location),
                ),
                Err(e) => out matches Err(AttachmentError::Url(inner)) && inner == e,
            },
    {
        match parsed {
            Ok(location) => Ok(Self::filename_from_segments(path_segments(&location))),
            Err(e) => Err(AttachmentError::Url(e)),
        }
    }

    /// The file name for the content behind `url`; fails where `url` is no
    /// absolute URL. Nothing is fetched.
    pub fn filename_from_url(url: &str) -> (out: Result<String, AttachmentError>)
        ensures
            match parsed_path_segments(url@) {
                Ok(segments) => out matches Ok(name) && name@ == filename_of(segments),
                Err(reason) => out matches Err(AttachmentError::Url(inner)) && inner == reason,
            },
    {
        Self::filename_from_parsed(parse_url(url))
    }

    /// Makes an attachment of a file name, the media type found for the
    /// content, and the content; fails where no media type was found.
    pub fn with_media_type(filename: String, mime_type: Option<String>, content: Vec<u8>) -> (out:
        Result<Self, AttachmentError>)
        ensures
            match mime_type {
                Some(m) => out matches Ok(a) && a@ == (AttachmentView {
                    filename: filename@,
                    mime_type: m@,
                    content: content@,
                }),
                None => out matches Err(e) && e is Infer,
            },
    {
        match mime_type {
            Some(m) => Ok(Attachment { filename, mime_type: m, content }),
            None => Err(AttachmentError::Infer),
        }
    }

    /// Makes an attachment of a fetched content, with the media type that
    /// the content's leading bytes show; fails where they match no known
    /// signature.
    pub fn from_content(filename: String, content: Vec<u8>) -> (out: Result<Self, AttachmentError>)
        ensures
            match typed(filename@, sniffed_media_type(content@), content@) {
                Some(a) => out matches Ok(made) && made@ == a,
                None => out matches Err(e) && e is Infer,
            },
    {
        let mime_type = sniff(content.as_slice());
        Self::with_media_type(filename, mime_type, content)
    }
}

} // verus!
