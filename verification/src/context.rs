//! The per-request context a service is called with: its state, the body
//! limit set for the connection, and what is known of the request, once
//! someone has worked it out.

use crate::body_limit::BodyLimit;
use vstd::prelude::*;

verus! {

/// What is known of a request beyond its headers: the host it is meant for,
/// where that is known.
#[derive(Debug, PartialEq, Eq)]
pub struct RequestContext {
    pub host: Option<String>,
}

impl Clone for RequestContext {
    fn clone(&self) -> (copy: Self)
        ensures
            copy == *self,
    {
        let host = match &self.host {
            Some(h) => Some(h.clone()),
            None => None,
        };
        RequestContext { host }
    }
}

/// The request context a call works with: the one the context already
/// holds, or else the one worked out from the request.
pub open spec fn resolved_request_context(
    held: Option<RequestContext>,
    from_request: RequestContext,
) -> RequestContext {
    match held {
        Some(rc) => rc,
        None => from_request,
    }
}

/// A request context already held is the one a call works with, whatever
/// the request offers; only where none is held does the request's own count.
pub proof fn lemma_held_request_context_wins(held: RequestContext, from_request: RequestContext)
    ensures
        resolved_request_context(Some(held), from_request) == held,
        resolved_request_context(None, from_request) == from_request,
{
}

/// The context of a service call.
#[derive(Debug)]
pub struct Context<S> {
    state: S,
    body_limit: Option<BodyLimit>,
    request_context: Option<RequestContext>,
}

impl<S> Context<S> {
    /// The state the context carries.
    pub closed spec fn state_view(self) -> S {
        self.state
    }

    /// The body limit the context carries, if any.
    pub closed spec fn body_limit_view(self) -> Option<BodyLimit> {
        self.body_limit
    }

    /// The request context the context carries, if any.
    pub closed spec fn request_context_view(self) -> Option<RequestContext> {
        self.request_context
    }

    /// A context with the given state, no body limit and no request context.
    pub fn new(state: S) -> (ctx: Self)
        ensures
            ctx.state_view() == state,
            ctx.body_limit_view() == None::<BodyLimit>,
            ctx.request_context_view() == None::<RequestContext>,
    {
        Context { state, body_limit: None, request_context: None }
    }

    /// Sets the body limit, replacing any earlier one.
    pub fn insert_body_limit(&mut self, limit: BodyLimit)
        ensures
            final(self).state_view() == old(self).state_view(),
            final(self).body_limit_view() == Some(limit),
            final(self).request_context_view() == old(self).request_context_view(),
    {
        self.body_limit = Some(limit);
    }

    /// The body limit, if one is set.
    pub fn body_limit(&self) -> (limit: Option<BodyLimit>)
        ensures
            limit == self.body_limit_view(),
    {
        self.body_limit
    }

    /// Sets the request context, replacing any earlier one.
    pub fn insert_request_context(&mut self, request_context: RequestContext)
        ensures
            final(self).state_view() == old(self).state_view(),
            final(self).body_limit_view() == old(self).body_limit_view(),
            final(self).request_context_view() == Some(request_context),
    {
        self.request_context = Some(request_context);
    }

    /// The request context, if one is held.
    pub fn request_context(&self) -> (request_context: Option<RequestContext>)
        ensures
            request_context == self.request_context_view(),
    {
        match &self.request_context {
            Some(rc) => Some(rc.clone()),
            None => None,
        }
    }

    /// The request context the context holds; where it holds none, the one
    /// worked out from the request, which it keeps from then on.
    pub fn get_or_insert_request_context(&mut self, from_request: RequestContext) -> (request_context: RequestContext)
        ensures
            request_context == resolved_request_context(old(self).request_context_view(), from_request),
            final(self).request_context_view() == Some(request_context),
            old(self).request_context_view() is Some ==> request_context == old(
                self,
            ).request_context_view()->0 && final(self).request_context_view() == old(
                self,
            ).request_context_view(),
            old(self).request_context_view() is None ==> request_context == from_request,
            final(self).state_view() == old(self).state_view(),
            final(self).body_limit_view() == old(self).body_limit_view(),
    {
        match &self.request_context {
            Some(rc) => rc.clone(),
            None => {
                self.request_context = Some(from_request.clone());
                from_request
            },
        }
    }

    /// The state.
    pub fn state(&self) -> (state: &S)
        ensures
            *state == self.state_view(),
    {
        &self.state
    }
}

impl<S: Clone> Clone for Context<S> {
    fn clone(&self) -> (ctx: Self)
        ensures
            ctx.body_limit_view() == self.body_limit_view(),
            ctx.request_context_view() == self.request_context_view(),
            cloned::<S>(self.state_view(), ctx.state_view()),
    {
        let request_context = match &self.request_context {
            Some(rc) => Some(rc.clone()),
            None => None,
        };
        Context { state: self.state.clone(), body_limit: self.body_limit, request_context }
    }
}

} // verus!
