//! The parts of the `http` crate's header types that the middleware uses,
//! each with the contract that `http`'s source gives it.

use http::header::{HeaderMap, HeaderName, HeaderValue, MaxSizeReached};
use vstd::prelude::*;
use vstd::string::StringSliceAdditionalSpecFns;

verus! {

#[verifier::external_type_specification]
#[verifier::external_body]
#[verifier::reject_recursive_types(T)]
pub struct ExHeaderMap<T>(HeaderMap<T>);

#[verifier::external_type_specification]
#[verifier::external_body]
pub struct ExHeaderName(HeaderName);

#[verifier::external_type_specification]
#[verifier::external_body]
pub struct ExHeaderValue(HeaderValue);

#[verifier::external_type_specification]
#[verifier::external_body]
pub struct ExMaxSizeReached(MaxSizeReached);

/// The fields a header map holds: each header name (in its lower-case text
/// form) mapped to the bytes of its values, in insertion order.
pub uninterp spec fn header_fields(map: HeaderMap) -> Map<Seq<char>, Seq<Seq<u8>>>;

/// The text of a header name, as `HeaderName::as_str` returns it.
pub uninterp spec fn header_name_str(name: HeaderName) -> Seq<char>;

/// The bytes of a header value, as `HeaderValue::as_bytes` returns them.
pub uninterp spec fn header_value_bytes(value: HeaderValue) -> Seq<u8>;

/// The number of distinct names a header map holds, as
/// `HeaderMap::keys_len` returns it.
pub uninterp spec fn header_key_count(map: HeaderMap) -> nat;

/// The most names a header map may hold for an insertion to be sure to
/// succeed: past it, `http`'s map may have to grow beyond its maximal table
/// size, and an insertion can then fail.
pub const HEADER_KEY_LIMIT: usize = 6553;

/// A byte that `HeaderValue::from_str` accepts: a tab, or anything from
/// the space upwards except DEL.
pub open spec fn is_header_value_byte(b: u8) -> bool {
    (b >= 32 && b != 127) || b == 9
}

/// A byte that `HeaderValue::from_static` accepts: a tab or visible ASCII.
pub open spec fn is_visible_ascii_byte(b: u8) -> bool {
    (32 <= b && b < 127) || b == 9
}

pub open spec fn all_header_value_bytes(bytes: Seq<u8>) -> bool {
    forall|i: int| 0 <= i < bytes.len() ==> is_header_value_byte(#[trigger] bytes[i])
}

pub open spec fn all_visible_ascii_bytes(bytes: Seq<u8>) -> bool {
    forall|i: int| 0 <= i < bytes.len() ==> is_visible_ascii_byte(#[trigger] bytes[i])
}

/// The text of the `host` header name.
pub open spec fn host_name() -> Seq<char> {
    seq!['h', 'o', 's', 't']
}

/// The text of the `user-agent` header name.
pub open spec fn user_agent_name() -> Seq<char> {
    seq!['u', 's', 'e', 'r', '-', 'a', 'g', 'e', 'n', 't']
}

/// `http::header::HOST`: the header name `host`.
#[verifier::external_body]
pub(crate) fn host_header() -> (name: HeaderName)
    ensures
        header_name_str(name) == host_name(),
{
    http::header::HOST
}

/// `http::header::USER_AGENT`: the header name `user-agent`.
#[verifier::external_body]
pub(crate) fn user_agent_header() -> (name: HeaderName)
    ensures
        header_name_str(name) == user_agent_name(),
{
    http::header::USER_AGENT
}

/// `HeaderValue::from_str`: succeeds exactly when every byte of the text is
/// a tab or at least a space and not DEL, and then holds those bytes.
#[verifier::external_body]
pub(crate) fn header_value_from_str(text: &str) -> (value: Option<HeaderValue>)
    ensures
        value is Some <==> all_header_value_bytes(text.spec_bytes()),
        value matches Some(v) ==> header_value_bytes(v) == text.spec_bytes(),
{
    HeaderValue::from_str(text).ok()
}

/// `HeaderValue::from_static`: holds the bytes of the text; it panics unless
/// every byte is a tab or visible ASCII.
#[verifier::external_body]
pub(crate) fn header_value_from_static(text: &'static str) -> (value: HeaderValue)
    requires
        all_visible_ascii_bytes(text.spec_bytes()),
    ensures
        header_value_bytes(value) == text.spec_bytes(),
{
    HeaderValue::from_static(text)
}

/// `HeaderMap::contains_key`: whether the map holds a value under the name.
#[verifier::external_body]
pub(crate) fn header_map_contains(map: &HeaderMap, name: &HeaderName) -> (found: bool)
    ensures
        found == header_fields(*map).dom().contains(header_name_str(*name)),
{
    map.contains_key(name)
}

/// `HeaderMap::try_insert`: on success the name afterwards holds the one
/// given value, all other names keep theirs, the count of names grows by one
/// exactly when the name is new, and the first value the name held before
/// comes back. It fails, before it changes anything, only when its table
/// would have to grow past its maximal size, which cannot happen while at
/// most `HEADER_KEY_LIMIT` names are held.
#[verifier::external_body]
pub(crate) fn header_map_try_insert(map: &mut HeaderMap, name: HeaderName, value: HeaderValue) -> (inserted: Result<Option<HeaderValue>, MaxSizeReached>)
    ensures
        inserted is Ok ==> header_fields(*final(map)) == header_fields(*old(map)).insert(
            header_name_str(name),
            seq![header_value_bytes(value)],
        ),
        inserted is Ok ==> header_key_count(*final(map)) == header_key_count(*old(map)) + if header_fields(
            *old(map),
        ).dom().contains(header_name_str(name)) {
            0int
        } else {
            1int
        },
        inserted is Ok ==> (inserted->Ok_0 is Some <==> header_fields(*old(map)).dom().contains(
            header_name_str(name),
        )),
        inserted is Ok && inserted->Ok_0 is Some ==> header_value_bytes(inserted->Ok_0->0)
            == header_fields(*old(map))[header_name_str(name)][0],
        inserted is Err ==> header_fields(*final(map)) == header_fields(*old(map)),
        inserted is Err ==> header_key_count(*final(map)) == header_key_count(*old(map)),
        inserted is Err ==> header_key_count(*old(map)) > HEADER_KEY_LIMIT,
{
    map.try_insert(name, value)
}

} // verus!
