//! The media type of a byte content, as the `infer` crate tells it from the
//! content's leading bytes.

use vstd::prelude::*;

verus! {

/// What `infer::get` makes of a content: the media type of the first of the
/// crate's known signatures that the content matches, `None` where it
/// matches none.
pub uninterp spec fn sniffed_media_type(content: Seq<u8>) -> Option<Seq<char>>;

/// `infer::get`, with the media type of the file type it finds copied into
/// a `String`. This statement is believed, not proved.
#[verifier::external_body]
pub(crate) fn sniff(content: &[u8]) -> (out: Option<String>)
    ensures
        match out {
            Some(mime) => sniffed_media_type(content@) == Some(mime@),
            None => sniffed_media_type(content@) is None,
        },
{
    infer::get(content).map(|kind| kind.mime_type().to_owned())
}

} // verus!
