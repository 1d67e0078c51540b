//! What the gateway answers to each kind of request, as decisions on plain values.
//!
//! The functions here take what was read from a request or from an upstream
//! response and say what is to be sent; sending and receiving is the caller's part.

pub mod auth;
pub mod health;
pub mod misc;
pub mod proxy;
pub mod query;
pub mod reply;

pub use auth::{get_token, proxy_challenge};
pub use health::health_check;
pub use misc::{handle_invalid_request, redirect_to_https};
pub use proxy::{get_target_registry, handle_request};
pub use query::Query;
pub use reply::{readable_header, ClientAuthorization, Reply, ReplyView};
