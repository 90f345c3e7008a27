//! Limits on the size of request and response bodies.

use vstd::prelude::*;

verus! {

#[derive(Debug, Clone, Copy, PartialEq, Eq)]
enum BodyLimitKind {
    Request(usize),
    Response(usize),
    Symmetric(usize),
    Asymmetric { request: usize, response: usize },
}

/// A limit on the size of request bodies, of response bodies, or of both.
#[derive(Debug, Clone, Copy, PartialEq, Eq)]
pub struct BodyLimit {
    kind: BodyLimitKind,
}

impl BodyLimit {
    /// The limit on request bodies, if any.
    pub closed spec fn request_limit(self) -> Option<usize> {
        match self.kind {
            BodyLimitKind::Request(limit) => Some(limit),
            BodyLimitKind::Response(_) => None,
            BodyLimitKind::Symmetric(limit) => Some(limit),
            BodyLimitKind::Asymmetric { request, .. } => Some(request),
        }
    }

    /// The limit on response bodies, if any.
    pub closed spec fn response_limit(self) -> Option<usize> {
        match self.kind {
            BodyLimitKind::Request(_) => None,
            BodyLimitKind::Response(limit) => Some(limit),
            BodyLimitKind::Symmetric(limit) => Some(limit),
            BodyLimitKind::Asymmetric { response, .. } => Some(response),
        }
    }

    /// A limit on request bodies only.
    pub fn request_only(limit: usize) -> (body_limit: Self)
        ensures
            body_limit.request_limit() == Some(limit),
            body_limit.response_limit() == None::<usize>,
    {
        BodyLimit { kind: BodyLimitKind::Request(limit) }
    }

    /// A limit on response bodies only.
    pub fn response_only(limit: usize) -> (body_limit: Self)
        ensures
            body_limit.request_limit() == None::<usize>,
            body_limit.response_limit() == Some(limit),
    {
        BodyLimit { kind: BodyLimitKind::Response(limit) }
    }

    /// The same limit on request and on response bodies.
    pub fn symmetric(limit: usize) -> (body_limit: Self)
        ensures
            body_limit.request_limit() == Some(limit),
            body_limit.response_limit() == Some(limit),
    {
        BodyLimit { kind: BodyLimitKind::Symmetric(limit) }
    }

    /// One limit on request bodies and another on response bodies.
    pub fn asymmetric(request: usize, response: usize) -> (body_limit: Self)
        ensures
            body_limit.request_limit() == Some(request),
            body_limit.response_limit() == Some(response),
    {
        BodyLimit { kind: BodyLimitKind::Asymmetric { request, response } }
    }

    /// The limit on request bodies, if any.
    pub fn request(&self) -> (limit: Option<usize>)
        ensures
            limit == self.request_limit(),
    {
        match self.kind {
            BodyLimitKind::Request(limit) => Some(limit),
            BodyLimitKind::Response(_) => None,
            BodyLimitKind::Symmetric(limit) => Some(limit),
            BodyLimitKind::Asymmetric { request, .. } => Some(request),
        }
    }

    /// The limit on response bodies, if any.
    pub fn response(&self) -> (limit: Option<usize>)
        ensures
            limit == self.response_limit(),
    {
        match self.kind {
            BodyLimitKind::Request(_) => None,
            BodyLimitKind::Response(limit) => Some(limit),
            BodyLimitKind::Symmetric(limit) => Some(limit),
            BodyLimitKind::Asymmetric { response, .. } => Some(response),
        }
    }
}

} // verus!
