//! Sets the headers a request needs, if they are missing.
//!
//! For now this only sets the `host` header on http/1.1, from the request's
//! host when it makes a valid header value, and always a `user-agent`, the
//! library's own identifier, for all versions.

use crate::context::{resolved_request_context, Context, RequestContext};
use crate::header::{
    all_header_value_bytes, header_fields, header_key_count, header_map_contains,
    header_map_try_insert, header_value_bytes, header_value_from_static, header_value_from_str,
    host_header, host_name, user_agent_header, user_agent_name, HEADER_KEY_LIMIT,
};
use http::header::{HeaderMap, HeaderValue};
use vstd::prelude::*;
use vstd::string::StringSliceAdditionalSpecFns;
use vstd::utf8::encode_utf8;

verus! {

/// Layer that applies [`AddRequiredRequestHeaders`], which adds the headers
/// a request needs.
///
/// See [`AddRequiredRequestHeaders`] for more details.
#[derive(Debug, Clone)]
#[non_exhaustive]
pub struct AddRequiredRequestHeadersLayer;

impl AddRequiredRequestHeadersLayer {
    /// Create a new [`AddRequiredRequestHeadersLayer`].
    pub fn new() -> (layer: Self)
        ensures
            layer == AddRequiredRequestHeadersLayer,
    {
        Self
    }

    /// Wraps the inner service in the middleware.
    pub fn layer<S>(&self, inner: S) -> (service: AddRequiredRequestHeaders<S>)
        ensures
            service.inner_service() == inner,
    {
        AddRequiredRequestHeaders { inner }
    }
}

impl Default for AddRequiredRequestHeadersLayer {
    fn default() -> (layer: Self)
        ensures
            layer == AddRequiredRequestHeadersLayer,
    {
        Self
    }
}

/// Middleware that sets the required headers on the request before the
/// inner service sees it.
#[derive(Debug, Clone)]
pub struct AddRequiredRequestHeaders<S> {
    inner: S,
}

impl<S> AddRequiredRequestHeaders<S> {
    /// The service the middleware hands requests on to.
    pub closed spec fn inner_service(self) -> S {
        self.inner
    }

    /// Create a new [`AddRequiredRequestHeaders`].
    pub fn new(inner: S) -> (service: Self)
        ensures
            service.inner_service() == inner,
    {
        Self { inner }
    }

    /// Gets a reference to the underlying service.
    pub fn get_ref(&self) -> (inner: &S)
        ensures
            *inner == self.inner_service(),
    {
        &self.inner
    }

    /// Gets a mutable reference to the underlying service.
    pub fn get_mut(&mut self) -> (inner: &mut S)
        ensures
            *inner == old(self).inner_service(),
            final(self).inner_service() == *final(inner),
    {
        &mut self.inner
    }

    /// Consumes the middleware, returning the underlying service.
    pub fn into_inner(self) -> (inner: S)
        ensures
            inner == self.inner_service(),
    {
        self.inner
    }
}

/// The text the library identifies itself with.
pub open spec fn rama_id_text() -> Seq<char> {
    seq!['r', 'a', 'm', 'a', '/', '0', '.', '2', '.', '0']
}

/// The bytes of the `user-agent` value the library sends.
pub open spec fn rama_id_bytes() -> Seq<u8> {
    rama_id_text().map_values(|c: char| c as u8)
}

/// The HTTP version a request is sent with.
#[derive(Debug, Clone, Copy, PartialEq, Eq)]
pub enum HttpVersion {
    Http09,
    Http10,
    Http11,
    H2,
    H3,
}

/// Whether the version is http/1.1, the one version `host` is set on.
pub open spec fn is_http11(version: HttpVersion) -> bool {
    version is Http11
}

/// The bytes of the request's host, where it is known.
pub open spec fn host_bytes(host: Option<String>) -> Option<Seq<u8>> {
    match host {
        Some(h) => Some(encode_utf8(h@)),
        None => None,
    }
}

/// The fields after a missing `host` is filled in: only on http/1.1, and
/// only where the host is known and every one of its bytes may stand in a
/// header value.
pub open spec fn with_host(
    fields: Map<Seq<char>, Seq<Seq<u8>>>,
    on_http11: bool,
    host: Option<Seq<u8>>,
) -> Map<Seq<char>, Seq<Seq<u8>>> {
    if !fields.dom().contains(host_name()) && on_http11 && host is Some && all_header_value_bytes(
        host->0,
    ) {
        fields.insert(host_name(), seq![host->0])
    } else {
        fields
    }
}

/// The fields after a missing `user-agent` is filled in with the library's
/// identifier.
pub open spec fn with_user_agent(fields: Map<Seq<char>, Seq<Seq<u8>>>) -> Map<
    Seq<char>,
    Seq<Seq<u8>>,
> {
    if fields.dom().contains(user_agent_name()) {
        fields
    } else {
        fields.insert(user_agent_name(), seq![rama_id_bytes()])
    }
}

/// The fields of a request once its required headers are set.
pub open spec fn with_required_headers(
    fields: Map<Seq<char>, Seq<Seq<u8>>>,
    on_http11: bool,
    host: Option<Seq<u8>>,
) -> Map<Seq<char>, Seq<Seq<u8>>> {
    with_user_agent(with_host(fields, on_http11, host))
}

/// The `user-agent` value the library identifies itself with.
pub fn rama_id_header_value() -> (value: HeaderValue)
    ensures
        header_value_bytes(value) == rama_id_bytes(),
{
    let text = "rama/0.2.0";
    proof {
        reveal_strlit("rama/0.2.0");
        assert(text@ == rama_id_text());
        vstd::utf8::is_ascii_chars_encode_utf8(text@);
        assert(text.spec_bytes() =~= rama_id_bytes());
    }
    header_value_from_static(text)
}

/// The number of names the fields gain once the required headers are set.
pub open spec fn added_key_count(
    fields: Map<Seq<char>, Seq<Seq<u8>>>,
    on_http11: bool,
    host: Option<Seq<u8>>,
) -> nat {
    (if with_host(fields, on_http11, host) == fields { 0nat } else { 1nat }) + (if with_host(
        fields,
        on_http11,
        host,
    ).dom().contains(user_agent_name()) {
        0nat
    } else {
        1nat
    })
}

/// Once the required headers are set, setting them again on the same
/// version with the same host changes nothing.
pub proof fn lemma_required_headers_idempotent(
    fields: Map<Seq<char>, Seq<Seq<u8>>>,
    on_http11: bool,
    host: Option<Seq<u8>>,
)
    ensures
        with_required_headers(with_required_headers(fields, on_http11, host), on_http11, host)
            == with_required_headers(fields, on_http11, host),
{
    assert(host_name().len() != user_agent_name().len());
}

/// After the required headers are set, the request always carries a
/// `user-agent`, and carries a `host` exactly when it had one already, or it
/// is sent with http/1.1 and the host it was given makes a valid header
/// value.
pub proof fn lemma_required_headers_present(
    fields: Map<Seq<char>, Seq<Seq<u8>>>,
    on_http11: bool,
    host: Option<Seq<u8>>,
)
    ensures
        with_required_headers(fields, on_http11, host).dom().contains(user_agent_name()),
        with_required_headers(fields, on_http11, host).dom().contains(host_name()) <==> (
        fields.dom().contains(host_name()) || (on_http11 && host is Some && all_header_value_bytes(
            host->0,
        ))),
{
    assert(host_name().len() != user_agent_name().len());
}

/// Setting the required headers never changes a header the request already
/// carries, and adds no header other than `host` and `user-agent`.
pub proof fn lemma_required_headers_only_fill_in(
    fields: Map<Seq<char>, Seq<Seq<u8>>>,
    on_http11: bool,
    host: Option<Seq<u8>>,
)
    ensures
        forall|name: Seq<char>|
            #![trigger fields.dom().contains(name)]
            fields.dom().contains(name) ==> with_required_headers(fields, on_http11, host).dom().contains(
                name,
            ) && with_required_headers(fields, on_http11, host)[name] == fields[name],
        forall|name: Seq<char>|
            #![trigger with_required_headers(fields, on_http11, host).dom().contains(name)]
            with_required_headers(fields, on_http11, host).dom().contains(name) ==> fields.dom().contains(
                name,
            ) || name == host_name() || name == user_agent_name(),
{
}

/// A header that was missing is filled in with exactly one value: `host`
/// with the bytes of the host, `user-agent` with the library's identifier.
pub proof fn lemma_required_headers_filled_values(
    fields: Map<Seq<char>, Seq<Seq<u8>>>,
    on_http11: bool,
    host: Option<Seq<u8>>,
)
    ensures
        !fields.dom().contains(user_agent_name()) ==> with_required_headers(
            fields,
            on_http11,
            host,
        )[user_agent_name()] == seq![rama_id_bytes()],
        !fields.dom().contains(host_name()) && on_http11 && host is Some && all_header_value_bytes(
            host->0,
        ) ==> with_required_headers(fields, on_http11, host)[host_name()] == seq![host->0],
{
    assert(host_name().len() != user_agent_name().len());
}

/// A known host stands for exactly the UTF-8 bytes of its text, whatever
/// characters it holds; an unknown host for none.
pub proof fn lemma_host_bytes_are_its_utf8(host: String)
    ensures
        host_bytes(Some(host)) == Some(encode_utf8(host@)),
        host_bytes(None) == None::<Seq<u8>>,
{
}

/// On http/1.1, a missing `host` is filled in with exactly the UTF-8 bytes of
/// a known host whenever they may all stand in a header value, whatever
/// characters the host holds; `user-agent` is kept or filled in as well.
pub proof fn lemma_http11_host_is_the_request_host(
    fields: Map<Seq<char>, Seq<Seq<u8>>>,
    host: String,
)
    requires
        !fields.dom().contains(host_name()),
        all_header_value_bytes(encode_utf8(host@)),
    ensures
        with_required_headers(fields, true, host_bytes(Some(host))).dom().contains(host_name()),
        with_required_headers(fields, true, host_bytes(Some(host)))[host_name()] == seq![
            encode_utf8(host@),
        ],
        with_required_headers(fields, true, host_bytes(Some(host))).dom().contains(user_agent_name()),
{
    assert(host_name().len() != user_agent_name().len());
}

/// The error when a header map is too full to take a required header.
#[derive(Debug, Clone, Copy, PartialEq, Eq)]
pub struct HeaderMapFull;

/// Sets the headers a request needs where they are missing, as the
/// middleware does before it hands the request on.
///
/// Where `host` is missing, the request context is looked up in the
/// context, or else the one worked out from the request is stored there;
/// on http/1.1 its host, when it makes a valid header value, becomes the
/// `host` header. A missing `user-agent` becomes the library's identifier.
/// Headers already present are left as they are. It fails only when the map
/// is too full to take a new name, and then no `user-agent` is added.
pub fn set_required_headers<S>(
    ctx: &mut Context<S>,
    headers: &mut HeaderMap,
    version: HttpVersion,
    from_request: RequestContext,
) -> (result: Result<(), HeaderMapFull>)
    ensures
        header_fields(*old(headers)).dom().contains(host_name()) ==> *final(ctx) == *old(ctx),
        !header_fields(*old(headers)).dom().contains(host_name()) ==> final(ctx).request_context_view()
            == Some(resolved_request_context(old(ctx).request_context_view(), from_request)),
        final(ctx).state_view() == old(ctx).state_view(),
        final(ctx).body_limit_view() == old(ctx).body_limit_view(),
        result is Ok ==> header_fields(*final(headers)) == with_required_headers(
            header_fields(*old(headers)),
            is_http11(version),
            host_bytes(resolved_request_context(old(ctx).request_context_view(), from_request).host),
        ),
        result is Ok ==> header_key_count(*final(headers)) == header_key_count(*old(headers))
            + added_key_count(
            header_fields(*old(headers)),
            is_http11(version),
            host_bytes(resolved_request_context(old(ctx).request_context_view(), from_request).host),
        ),
        result is Ok && version is Http11 && !header_fields(*old(headers)).dom().contains(host_name())
            ==> match (if old(ctx).request_context_view() is Some {
            old(ctx).request_context_view()->0.host
        } else {
            from_request.host
        }) {
            Some(h) => all_header_value_bytes(encode_utf8(h@)) ==> header_fields(
                *final(headers),
            ).dom().contains(host_name()) && header_fields(*final(headers))[host_name()] == seq![
                encode_utf8(h@),
            ],
            None => !header_fields(*final(headers)).dom().contains(host_name()),
        },
        result is Ok ==> header_fields(*final(headers)).dom().contains(user_agent_name()),
        header_key_count(*old(headers)) < HEADER_KEY_LIMIT ==> result is Ok,
        header_fields(*old(headers)).dom().contains(host_name()) && header_fields(
            *old(headers),
        ).dom().contains(user_agent_name()) ==> result is Ok,
        result is Err ==> header_key_count(*old(headers)) >= HEADER_KEY_LIMIT,
        result is Err ==> (header_fields(*final(headers)).dom().contains(user_agent_name())
            <==> header_fields(*old(headers)).dom().contains(user_agent_name())),
        result is Err ==> header_fields(*final(headers)) == header_fields(*old(headers))
            || header_fields(*final(headers)) == with_host(
            header_fields(*old(headers)),
            is_http11(version),
            host_bytes(resolved_request_context(old(ctx).request_context_view(), from_request).host),
        ),
{
    let host_key = host_header();
    if !header_map_contains(headers, &host_key) {
        let request_context = ctx.get_or_insert_request_context(from_request);
        if let HttpVersion::Http11 = version {
            if let Some(h) = &request_context.host {
                if let Some(value) = header_value_from_str(h.as_str()) {
                    match header_map_try_insert(headers, host_key, value) {
                        Ok(_) => {},
                        Err(_) => {
                            return Err(HeaderMapFull);
                        },
                    }
                }
            }
        }
    }
    let user_agent_key = user_agent_header();
    if !header_map_contains(headers, &user_agent_key) {
        let value = rama_id_header_value();
        match header_map_try_insert(headers, user_agent_key, value) {
            Ok(_) => {},
            Err(_) => {
                return Err(HeaderMapFull);
            },
        }
    }
    Ok(())
}

} // verus!
