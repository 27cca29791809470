//! A local, deterministic stand-in for an identity-provider API.
//!
//! The library holds what every action shares: the taxonomy of error kinds
//! and their statuses, the store of configured overrides, the templates of
//! success bodies, and the pipeline that answers a call. For one call the
//! pipeline takes the first branch that applies: a configured override, the
//! failure of an invalid request, or the rendering of the success body.

pub mod common;
pub mod http;
pub mod json;
pub mod opts;
pub mod templates;
pub mod user_pools;
