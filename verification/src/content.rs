//! Content negotiation: which decoder the declared media type selects.
//!
//! A header value is handed in as the bytes it holds. It counts as text only
//! if every byte is visible ASCII (or a tab); anything else is treated like a
//! header that names no known media type.

use vstd::prelude::*;
use vstd::std_specs::convert::FromSpecImpl;
use vstd::string::*;

verus! {

/// The media types a request body may declare.
///
/// Only `Json` can be decoded. `Form` is recognised and rejected on its own
/// account, apart from `Unknown`, so that a decoder for it can be added
/// without a change to what is unknown.
#[derive(Clone, Copy, Debug, PartialEq, Eq, Structural)]
pub enum InputContentTypes {
    Json,
    Form,
    Unknown,
}

/// Prefix that announces a JSON body.
pub open spec fn json_prefix() -> Seq<char> {
    "application/json"@
}

/// Prefix that announces a URL-encoded form.
pub open spec fn form_prefix() -> Seq<char> {
    "application/x-www-form-urlencoded"@
}

/// A byte that may stand in a header value read as text.
pub open spec fn is_visible_ascii(b: u8) -> bool {
    (32 <= b && b < 127) || b == 9
}

/// The whole value can be read as text.
pub open spec fn is_text(value: Seq<u8>) -> bool {
    forall|i: int| 0 <= i < value.len() ==> is_visible_ascii(#[trigger] value[i])
}

/// `value` begins with the bytes of the ASCII text `prefix`; the comparison is
/// exact, so it is sensitive to case.
pub open spec fn starts_with(value: Seq<u8>, prefix: Seq<char>) -> bool {
    &&& prefix.len() <= value.len()
    &&& forall|i: int| 0 <= i < prefix.len() ==> #[trigger] value[i] == prefix[i] as u8
}

/// The bytes of an ASCII text.
pub open spec fn ascii(text: Seq<char>) -> Seq<u8> {
    Seq::new(text.len(), |i: int| text[i] as u8)
}

/// The classification of a content-type header, absent or present.
pub open spec fn classify(value: Option<Seq<u8>>) -> InputContentTypes {
    match value {
        None => InputContentTypes::Unknown,
        Some(v) => {
            if !is_text(v) {
                InputContentTypes::Unknown
            } else if starts_with(v, json_prefix()) {
                InputContentTypes::Json
            } else if starts_with(v, form_prefix()) {
                InputContentTypes::Form
            } else {
                InputContentTypes::Unknown
            }
        },
    }
}

/// A header that declares plain text selects no decoder.
pub proof fn lemma_plain_text_is_unknown()
    ensures
        classify(Some(ascii("text/plain"@))) == InputContentTypes::Unknown,
{
    reveal_strlit("text/plain");
    reveal_strlit("application/json");
    reveal_strlit("application/x-www-form-urlencoded");
    // The first byte is a `t`, where both known prefixes begin with an `a`.
    let value = ascii("text/plain"@);
    assert(value[0] != json_prefix()[0] as u8);
    assert(value[0] != form_prefix()[0] as u8);
}

/// A header that declares JSON, with or without parameters, selects the
/// JSON decoder.
pub proof fn lemma_json_is_json(parameters: Seq<u8>)
    requires
        is_text(parameters),
    ensures
        classify(Some(ascii(json_prefix()) + parameters)) == InputContentTypes::Json,
{
    reveal_strlit("application/json");
    let value = ascii(json_prefix()) + parameters;
    assert forall|i: int| 0 <= i < value.len() implies is_visible_ascii(#[trigger] value[i]) by {
        if i >= json_prefix().len() {
            assert(value[i] == parameters[i - json_prefix().len()]);
        }
    }
}

/// Whether every byte of `value` is visible ASCII or a tab.
pub fn is_visible_text(value: &[u8]) -> (ok: bool)
    ensures
        ok == is_text(value@),
{
    let mut i: usize = 0;
    while i < value.len()
        invariant
            i <= value.len(),
            forall|j: int| 0 <= j < i ==> is_visible_ascii(#[trigger] value@[j]),
        decreases value.len() - i,
    {
        let b: u8 = value[i];
        if !((b >= 32 && b < 127) || b == 9) {
            return false;
        }
        i += 1;
    }
    true
}

/// Whether `value` begins with the ASCII text `prefix`.
fn has_prefix(value: &[u8], prefix: &str) -> (found: bool)
    requires
        is_ascii(prefix),
    ensures
        found == starts_with(value@, prefix@),
{
    broadcast use is_ascii_spec_bytes;

    let wanted = prefix.as_bytes();
    if wanted.len() > value.len() {
        return false;
    }
    let mut i: usize = 0;
    while i < wanted.len()
        invariant
            i <= wanted.len() <= value.len(),
            wanted@.len() == prefix@.len(),
            forall|j: int| 0 <= j < wanted@.len() ==> wanted@[j] == prefix@[j] as u8,
            forall|j: int| 0 <= j < i ==> #[trigger] value@[j] == prefix@[j] as u8,
        decreases wanted.len() - i,
    {
        if value[i] != wanted[i] {
            return false;
        }
        i += 1;
    }
    true
}

impl<'a> From<Option<&'a [u8]>> for InputContentTypes {
    /// Classifies the content-type header of a request.
    ///
    /// `None` is an absent header. A present header is matched by prefix, so
    /// parameters after the media type (`; charset=utf-8`) do not matter.
    fn from(value: Option<&'a [u8]>) -> (kind: InputContentTypes)
        ensures
            kind == classify(
                match value {
                    Some(v) => Some(v@),
                    None => None,
                },
            ),
    {
        match value {
            None => InputContentTypes::Unknown,
            Some(v) => {
                proof {
                    reveal_strlit("application/json");
                    reveal_strlit("application/x-www-form-urlencoded");
                }
                if !is_visible_text(v) {
                    InputContentTypes::Unknown
                } else if has_prefix(v, "application/json") {
                    InputContentTypes::Json
                } else if has_prefix(v, "application/x-www-form-urlencoded") {
                    InputContentTypes::Form
                } else {
                    InputContentTypes::Unknown
                }
            },
        }
    }
}

impl<'a> FromSpecImpl<Option<&'a [u8]>> for InputContentTypes {
    open spec fn obeys_from_spec() -> bool {
        true
    }

    open spec fn from_spec(value: Option<&'a [u8]>) -> InputContentTypes {
        classify(
            match value {
                Some(v) => Some(v@),
                None => None,
            },
        )
    }
}

} // verus!
