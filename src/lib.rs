//! A rule-driven forwarding and tunnelling HTTP proxy engine: the decisions
//! it makes (rule lookup, target normalisation, upstream resolution, port
//! planning, listener generations, log events) together with the small
//! certificate-authority helper that ships beside it.

pub mod text;
pub mod rules;
pub mod routing;
pub mod events;
pub mod lifecycle;
pub mod ca;
pub mod laws;
