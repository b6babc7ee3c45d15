//! The multipart form of a message, held in the `reqwest` crate's own types.
//!
//! Verus cannot look inside a `reqwest` form, so this module gives what a
//! form and a part hold a name, and states for each `reqwest` function that
//! the library calls what it does to them. These statements are believed,
//! not proved.

use vstd::prelude::*;
use vstd::utf8::encode_utf8;

verus! {

/// `reqwest::multipart::Form`, the form as it is handed to the HTTP client.
#[verifier::external_type_specification]
#[verifier::external_body]
pub struct ExForm(reqwest::multipart::Form);

/// `reqwest::multipart::Part`, one part of a form.
#[verifier::external_type_specification]
#[verifier::external_body]
pub struct ExPart(reqwest::multipart::Part);

/// `reqwest::Error`, the error of every fallible `reqwest` call.
#[verifier::external_type_specification]
#[verifier::external_body]
pub struct ExReqwestError(reqwest::Error);

/// What one part of a form carries.
pub struct PartView {
    /// The bytes of the body.
    pub body: Seq<u8>,
    /// The file name in the part's `Content-Disposition` header, if it has one.
    pub file_name: Option<Seq<char>>,
    /// The media type in the part's `Content-Type` header, if it has one.
    pub mime: Option<Seq<char>>,
}

/// The part that carries a text value: its UTF-8 bytes, with neither a file
/// name nor a media type.
pub open spec fn text_part(value: Seq<char>) -> PartView {
    PartView { body: encode_utf8(value), file_name: None, mime: None }
}

/// The body, file name and media type that a `reqwest::multipart::Part` was
/// given (its custom headers are left out: the library sets none).
pub uninterp spec fn part_view(part: reqwest::multipart::Part) -> PartView;

/// The parts of a `reqwest::multipart::Form`, each with the name of its
/// field, in the order in which they are written to the request body.
pub uninterp spec fn form_parts(form: reqwest::multipart::Form) -> Seq<(Seq<char>, PartView)>;

/// What `reqwest::multipart::Part::mime_str` makes of a media type: the
/// text that the part writes in its `Content-Type` header, or the error
/// where the `mime` crate does not parse the media type.
pub uninterp spec fn media_type(text: Seq<char>) -> Result<Seq<char>, reqwest::Error>;

/// `reqwest::multipart::Form::new`: a form without parts.
#[verifier::external_body]
pub(crate) fn form_new() -> (form: reqwest::multipart::Form)
    ensures
        form_parts(form) == Seq::<(Seq<char>, PartView)>::empty(),
{
    reqwest::multipart::Form::new()
}

/// `reqwest::multipart::Form::text`: the form with one more part at its
/// end, a text part for `value` under `name`.
#[verifier::external_body]
pub(crate) fn form_text(form: reqwest::multipart::Form, name: &'static str, value: String) -> (out:
    reqwest::multipart::Form)
    ensures
        form_parts(out) == form_parts(form).push((name@, text_part(value@))),
{
    form.text(name, value)
}

/// `reqwest::multipart::Form::part`: the form with `part` added at its end
/// under `name`.
#[verifier::external_body]
pub(crate) fn form_part(
    form: reqwest::multipart::Form,
    name: &'static str,
    part: reqwest::multipart::Part,
) -> (out: reqwest::multipart::Form)
    ensures
        form_parts(out) == form_parts(form).push((name@, part_view(part))),
{
    form.part(name, part)
}

/// `reqwest::multipart::Part::bytes`: a part whose body is `content`, with
/// neither a file name nor a media type.
#[verifier::external_body]
pub(crate) fn part_bytes(content: Vec<u8>) -> (part: reqwest::multipart::Part)
    ensures
        part_view(part) == (PartView { body: content@, file_name: None, mime: None }),
{
    reqwest::multipart::Part::bytes(content)
}

/// `reqwest::multipart::Part::file_name`: the same part with its file name
/// set.
#[verifier::external_body]
pub(crate) fn part_file_name(part: reqwest::multipart::Part, file_name: String) -> (out:
    reqwest::multipart::Part)
    ensures
        part_view(out) == (PartView { file_name: Some(file_name@), ..part_view(part) }),
{
    part.file_name(file_name)
}

/// `reqwest::multipart::Part::mime_str`: where the media type parses, the
/// same part with that media type set; an error where it does not.
#[verifier::external_body]
pub(crate) fn part_mime_str(part: reqwest::multipart::Part, mime: &str) -> (out: Result<
    reqwest::multipart::Part,
    reqwest::Error,
>)
    ensures
        match out {
            Ok(p) => media_type(mime@) matches Ok(m) && part_view(p) == (PartView {
                mime: Some(m),
                ..part_view(part)
            }),
            Err(e) => media_type(mime@) matches Err(cause) && cause == e,
        },
{
    part.mime_str(mime)
}

} // verus!
