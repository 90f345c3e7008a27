//! Request middleware that fills in the headers every outgoing request needs,
//! and the body-limit decisions of the hyper service adapter.

pub mod header;
pub mod required_header;
pub mod body_limit;
pub mod context;
pub mod svc_hyper;
