//! The part of the hyper adapter that decides, per call, which body limits
//! apply: the request body gets the context's request limit, the response
//! body its response limit, and neither is limited without a body limit.

use crate::body_limit::BodyLimit;
use crate::context::Context;
use std::sync::Arc;
use vstd::prelude::*;

verus! {

/// `Arc::clone`: another handle to the same value.
#[verifier::external_body]
fn arc_clone<T>(arc: &Arc<T>) -> (copy: Arc<T>)
    ensures
        copy == *arc,
{
    arc.clone()
}

/// The limit on request bodies that a context's body limit sets, if any.
pub open spec fn request_body_limit(limit: Option<BodyLimit>) -> Option<usize> {
    match limit {
        Some(l) => l.request_limit(),
        None => None,
    }
}

/// The limit on response bodies that a context's body limit sets, if any.
pub open spec fn response_body_limit(limit: Option<BodyLimit>) -> Option<usize> {
    match limit {
        Some(l) => l.response_limit(),
        None => None,
    }
}

/// A call's request body is limited by exactly the body limit's own request
/// limit, and its response body by exactly its own response limit, each
/// independent of the other; without a body limit neither is limited.
pub proof fn lemma_call_limits_are_the_body_limits_own(limit: BodyLimit)
    ensures
        request_body_limit(Some(limit)) == limit.request_limit(),
        response_body_limit(Some(limit)) == limit.response_limit(),
        request_body_limit(None) == None::<usize>,
        response_body_limit(None) == None::<usize>,
{
}

/// With one limit for requests and another for responses, a call limits its
/// request body by the first and its response body by the second, whatever
/// their sizes.
pub proof fn lemma_asymmetric_limits_stay_apart(request: usize, response: usize, limit: BodyLimit)
    requires
        limit.request_limit() == Some(request),
        limit.response_limit() == Some(response),
    ensures
        request_body_limit(Some(limit)) == Some(request),
        response_body_limit(Some(limit)) == Some(response),
{
}

/// What one call of the adapter works with: its own copy of the context, a
/// handle to the inner service, and the limits for the two bodies.
pub struct CallPlan<S, T> {
    pub ctx: Context<S>,
    pub inner: Arc<T>,
    pub request_limit: Option<usize>,
    pub response_limit: Option<usize>,
}

/// Wrapper service that adapts a service to hyper.
///
/// Each call works on a clone of the context and a handle to the inner
/// service, so that the call can outlive the borrow of the adapter.
#[derive(Debug)]
pub struct HyperService<S, T> {
    ctx: Context<S>,
    inner: Arc<T>,
}

impl<S, T> HyperService<S, T> {
    /// The context every call starts from.
    pub closed spec fn context(self) -> Context<S> {
        self.ctx
    }

    /// The service calls are handed to.
    pub closed spec fn inner_service(self) -> T {
        *self.inner
    }

    /// Create a new [`HyperService`] from a [`Context`] and a service.
    pub fn new(ctx: Context<S>, inner: T) -> (service: Self)
        ensures
            service.context() == ctx,
            service.inner_service() == inner,
    {
        HyperService { ctx, inner: Arc::new(inner) }
    }

    /// The decisions a call makes before it runs the inner service: the
    /// context is cloned, and the request and response bodies are limited
    /// by the context's body limit, where it sets one for them.
    pub fn prepare_call(&self) -> (plan: CallPlan<S, T>)
        where S: Clone
        ensures
            plan.ctx.body_limit_view() == self.context().body_limit_view(),
            plan.ctx.request_context_view() == self.context().request_context_view(),
            cloned::<S>(self.context().state_view(), plan.ctx.state_view()),
            *plan.inner == self.inner_service(),
            plan.request_limit == request_body_limit(self.context().body_limit_view()),
            plan.response_limit == response_body_limit(self.context().body_limit_view()),
            self.context().body_limit_view() is Some ==> plan.request_limit == self.context().body_limit_view()->0.request_limit()
                && plan.response_limit == self.context().body_limit_view()->0.response_limit(),
            self.context().body_limit_view() is None ==> plan.request_limit is None
                && plan.response_limit is None,
    {
        let ctx = self.ctx.clone();
        let inner = arc_clone(&self.inner);
        let body_limit = ctx.body_limit();
        let request_limit = match body_limit {
            Some(limit) => limit.request(),
            None => None,
        };
        let response_limit = match body_limit {
            Some(limit) => limit.response(),
            None => None,
        };
        CallPlan { ctx, inner, request_limit, response_limit }
    }
}

impl<S: Clone, T: Clone> Clone for HyperService<S, T> {
    fn clone(&self) -> (service: Self)
        ensures
            service.context().body_limit_view() == self.context().body_limit_view(),
            service.context().request_context_view() == self.context().request_context_view(),
            cloned::<S>(self.context().state_view(), service.context().state_view()),
            service.inner_service() == self.inner_service(),
    {
        HyperService { ctx: self.ctx.clone(), inner: arc_clone(&self.inner) }
    }
}

} // verus!
