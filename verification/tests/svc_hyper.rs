use rama::body_limit::BodyLimit;
use rama::context::Context;
use rama::svc_hyper::HyperService;

#[test]
fn no_body_limit_limits_nothing() {
    let service = HyperService::new(Context::new(()), 1u8);
    let plan = service.prepare_call();
    assert_eq!(plan.request_limit, None);
    assert_eq!(plan.response_limit, None);
    assert_eq!(*plan.inner, 1);
    assert_eq!(plan.ctx.body_limit(), None);
}

#[test]
fn request_only_limit() {
    let mut ctx = Context::new(5u32);
    ctx.insert_body_limit(BodyLimit::request_only(1024));
    let plan = HyperService::new(ctx, ()).prepare_call();
    assert_eq!(plan.request_limit, Some(1024));
    assert_eq!(plan.response_limit, None);
    assert_eq!(*plan.ctx.state(), 5);
}

#[test]
fn response_only_limit() {
    let mut ctx = Context::new(());
    ctx.insert_body_limit(BodyLimit::response_only(2048));
    let plan = HyperService::new(ctx, ()).prepare_call();
    assert_eq!(plan.request_limit, None);
    assert_eq!(plan.response_limit, Some(2048));
}

#[test]
fn symmetric_and_asymmetric_limits() {
    let mut ctx = Context::new(());
    ctx.insert_body_limit(BodyLimit::symmetric(10));
    let plan = HyperService::new(ctx, ()).prepare_call();
    assert_eq!((plan.request_limit, plan.response_limit), (Some(10), Some(10)));

    let mut ctx = Context::new(());
    ctx.insert_body_limit(BodyLimit::asymmetric(10, 20));
    ctx.insert_body_limit(BodyLimit::asymmetric(30, 40));
    let service = HyperService::new(ctx, ());
    let plan = service.clone().prepare_call();
    assert_eq!((plan.request_limit, plan.response_limit), (Some(30), Some(40)));
}

#[test]
fn body_limit_getters() {
    assert_eq!(BodyLimit::request_only(3).request(), Some(3));
    assert_eq!(BodyLimit::request_only(3).response(), None);
    assert_eq!(BodyLimit::asymmetric(1, 2).response(), Some(2));
}

#[test]
fn calls_share_the_inner_service() {
    let service = HyperService::new(Context::new(()), String::from("svc"));
    let a = service.prepare_call();
    let b = service.prepare_call();
    assert!(std::sync::Arc::ptr_eq(&a.inner, &b.inner));
}

#[test]
fn calls_and_clones_keep_the_request_context() {
    let mut ctx = Context::new(());
    ctx.insert_request_context(rama::context::RequestContext { host: Some("a.example".to_owned()) });
    let service = HyperService::new(ctx, ());
    let expected = Some(rama::context::RequestContext { host: Some("a.example".to_owned()) });
    assert_eq!(service.prepare_call().ctx.request_context(), expected);
    assert_eq!(service.clone().prepare_call().ctx.request_context(), expected);
}
