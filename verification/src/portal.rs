//! The decisions taken on the answers of the desktop portal's ScreenCast
//! interface: the session handle a session was created with, the PipeWire node
//! that a started session streams, and the tokens that name each request.

use vstd::prelude::*;

verus! {

/// A value of a portal answer, as far as this client reads it.
#[derive(Debug)]
pub enum PortalValue {
    U32(u32),
    Str(String),
    ObjectPath(String),
    Array(Vec<PortalValue>),
    Structure(Vec<PortalValue>),
    /// Any other type of value.
    Other,
}

/// A character that may stand in an element of a D-Bus object path: an ASCII
/// letter or digit, or `_`.
pub open spec fn path_char(c: char) -> bool {
    ('a' <= c && c <= 'z') || ('A' <= c && c <= 'Z') || ('0' <= c && c <= '9') || c == '_'
}

/// A D-Bus object path: `/`, or `/` followed by non-empty elements of path
/// characters separated by single `/`.
pub open spec fn valid_object_path(s: Seq<char>) -> bool {
    &&& s.len() >= 1
    &&& s[0] == '/'
    &&& forall|i: int|
        1 <= i < s.len() ==> path_char(#[trigger] s[i]) || (s[i] == '/' && path_char(s[i - 1])
            && i + 1 < s.len())
}

/// `zvariant::ObjectPath::try_from(&str)` succeeds: the crate's `validate`
/// accepts `/` followed by zero or more non-empty runs of ASCII letters,
/// digits and `_`, separated by `/`, and nothing after them.
#[verifier::external_body]
fn object_path_accepted(s: &str) -> (r: bool)
    ensures r == valid_object_path(s@),
{
    zbus::zvariant::ObjectPath::try_from(s).is_ok()
}

/// Why a session handle could not be read.
#[derive(Clone, Copy, Debug, PartialEq, Eq, Structural)]
pub enum SessionHandleError {
    /// The handle is a string that is not a D-Bus object path.
    InvalidObjectPath,
    /// The handle is neither a string nor an object path.
    NotAPath,
}

/// How the user's interaction with a portal request ended, as the
/// `response` code of its `Response` signal tells.
#[derive(Clone, Copy, Debug, PartialEq, Eq, Structural)]
pub enum PortalOutcome {
    /// Code 0: the request succeeded and its results are there.
    Success,
    /// Code 1: the user cancelled the interaction.
    Cancelled,
    /// Code 2, or any other: the interaction ended in some other way.
    Other,
}

/// The outcome that a `response` code stands for.
pub open spec fn outcome_of(code: u32) -> PortalOutcome {
    if code == 0 {
        PortalOutcome::Success
    } else if code == 1 {
        PortalOutcome::Cancelled
    } else {
        PortalOutcome::Other
    }
}

/// A request succeeded exactly on code 0 and was cancelled exactly on code 1;
/// every other code ended it some other way.
pub proof fn lemma_outcome_codes(code: u32)
    ensures
        outcome_of(code) == PortalOutcome::Success <==> code == 0,
        outcome_of(code) == PortalOutcome::Cancelled <==> code == 1,
        outcome_of(code) == PortalOutcome::Other <==> code >= 2,
{
}

/// The outcome of a portal request with `response` code `code`; only a
/// successful request carries results to read.
pub fn portal_outcome(code: u32) -> (r: PortalOutcome)
    ensures r == outcome_of(code),
{
    if code == 0 {
        PortalOutcome::Success
    } else if code == 1 {
        PortalOutcome::Cancelled
    } else {
        PortalOutcome::Other
    }
}

/// The session handle a `CreateSession` answer holds: an object path as it
/// is, a string when it is an object path.
pub fn session_handle_from(handle: &PortalValue) -> (r: Result<String, SessionHandleError>)
    ensures
        match *handle {
            PortalValue::ObjectPath(p) => r matches Ok(s) && s@ == p@,
            PortalValue::Str(p) => if valid_object_path(p@) {
                r matches Ok(s) && s@ == p@
            } else {
                r == Err::<String, SessionHandleError>(SessionHandleError::InvalidObjectPath)
            },
            _ => r == Err::<String, SessionHandleError>(SessionHandleError::NotAPath),
        },
{
    match handle {
        PortalValue::ObjectPath(p) => Ok(p.clone()),
        PortalValue::Str(p) => {
            if object_path_accepted(p.as_str()) {
                Ok(p.clone())
            } else {
                Err(SessionHandleError::InvalidObjectPath)
            }
        },
        _ => Err(SessionHandleError::NotAPath),
    }
}

/// The PipeWire node that a `Start` answer's `streams` value names: the first
/// field, a `u32`, of the first stream, a structure.
pub open spec fn node_id_of(streams: Option<PortalValue>) -> Option<u32> {
    match streams {
        Some(PortalValue::Array(a)) => if a@.len() > 0 {
            match a@[0] {
                PortalValue::Structure(f) => if f@.len() > 0 {
                    match f@[0] {
                        PortalValue::U32(n) => Some(n),
                        _ => None,
                    }
                } else {
                    None
                },
                _ => None,
            }
        } else {
            None
        },
        _ => None,
    }
}

/// The PipeWire node that a `Start` answer's `streams` value names, if any.
pub fn node_id_from_streams(streams: Option<&PortalValue>) -> (r: Option<u32>)
    ensures
        streams matches Some(PortalValue::Array(a)) ==> (a@.len() >= 1 ==> (a@[0] matches PortalValue::Structure(f) ==> (f@.len() >= 1 ==> (f@[0] matches PortalValue::U32(n) ==> r == Some(n))))),
        r matches Some(n) ==> (streams matches Some(PortalValue::Array(a)) && (a@.len() >= 1 && (a@[0] matches PortalValue::Structure(f) && (f@.len() >= 1 && f@[0] == PortalValue::U32(n))))),
        r == node_id_of(
            match streams {
                Some(v) => Some(*v),
                None => None,
            },
        ),
{
    if let Some(PortalValue::Array(a)) = streams {
        if a.len() > 0 {
            if let PortalValue::Structure(fields) = &a[0] {
                if fields.len() > 0 {
                    if let PortalValue::U32(n) = &fields[0] {
                        return Some(*n);
                    }
                }
            }
        }
    }
    None
}

/// The node of a `Start` answer is the first field of its first stream, as
/// soon as that field is a `u32`, however many streams follow and whatever
/// else the first stream holds.
pub proof fn lemma_node_id_is_first_field_of_first_stream(streams: Vec<PortalValue>, n: u32)
    requires
        streams@.len() >= 1,
        streams@[0] matches PortalValue::Structure(fields) && fields@.len() >= 1 && fields@[0]
            == PortalValue::U32(n),
    ensures
        node_id_of(Some(PortalValue::Array(streams))) == Some(n),
{
}

/// Whenever the answer names a node, its streams are an array whose first
/// stream is a structure whose first field is that node as a `u32`.
pub proof fn lemma_named_node_is_first_field(v: Option<PortalValue>, n: u32)
    requires
        node_id_of(v) == Some(n),
    ensures
        v matches Some(PortalValue::Array(a)) && (a@.len() >= 1 && (a@[0] matches PortalValue::Structure(f) && (f@.len() >= 1 && f@[0] == PortalValue::U32(n)))),
{
}

/// A lowercase hexadecimal digit.
pub open spec fn lower_hex(c: char) -> bool {
    ('0' <= c && c <= '9') || ('a' <= c && c <= 'f')
}

/// The simple form of a version-4 UUID: 32 lowercase hexadecimal digits, the
/// 13th being the version `4` and the 17th holding the variant bits `10`.
pub open spec fn is_uuid_v4_simple(s: Seq<char>) -> bool {
    &&& s.len() == 32
    &&& forall|i: int| 0 <= i < 32 ==> lower_hex(#[trigger] s[i])
    &&& s[12] == '4'
    &&& (s[16] == '8' || s[16] == '9' || s[16] == 'a' || s[16] == 'b')
}

/// `uuid::Uuid::new_v4().simple().to_string()`: a random version-4 UUID in
/// its simple form. The crate masks the version and variant bits in
/// `new_v4` and writes each byte as two lowercase hexadecimal digits in
/// `format_simple`; nothing is claimed of the random digits but their range.
#[verifier::external_body]
fn uuid_v4_simple() -> (r: String)
    ensures is_uuid_v4_simple(r@),
{
    uuid::Uuid::new_v4().simple().to_string()
}

/// A fresh random token, to name a portal request or session.
pub fn generate_uuid_v4() -> (r: String)
    ensures is_uuid_v4_simple(r@),
{
    uuid_v4_simple()
}

/// Every character of a generated token may stand in an element of an object
/// path, so a token names a request path.
pub proof fn lemma_token_is_path_element(s: Seq<char>)
    requires is_uuid_v4_simple(s),
    ensures
        s.len() > 0,
        forall|i: int| 0 <= i < s.len() ==> path_char(#[trigger] s[i]),
{
    assert forall|i: int| 0 <= i < s.len() implies path_char(#[trigger] s[i]) by {
        assert(lower_hex(s[i]));
    }
}

/// The sources a screen-cast session selects: `types` = 2 (a window),
/// `cursor_mode` = 1 (the cursor hidden) and `persist_mode` = 2
/// (the permission lasts until revoked).
pub fn screencast_source_options() -> (r: Vec<(String, u32)>)
    ensures
        r@.len() == 3,
        r@[0].0@ == "types"@ && r@[0].1 == 2,
        r@[1].0@ == "cursor_mode"@ && r@[1].1 == 1,
        r@[2].0@ == "persist_mode"@ && r@[2].1 == 2,
{
    let mut r: Vec<(String, u32)> = Vec::new();
    r.push(("types".to_owned(), 2));
    r.push(("cursor_mode".to_owned(), 1));
    r.push(("persist_mode".to_owned(), 2));
    r
}

} // verus!
