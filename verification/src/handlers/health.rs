//! The liveness check.

use crate::handlers::reply::{make_reply, reply_with_header, Reply};
use vstd::prelude::*;
use vstd::string::*;

verus! {

/// Answers the liveness check: always a success with a fixed text, decided
/// without a look at any upstream.
pub fn health_check() -> (reply: Reply)
    ensures
        reply@ == reply_with_header(
            200,
            "Content-Type"@,
            "text/plain; charset=utf-8"@,
            "服务正常运行\n"@,
        ),
{
    make_reply(
        200,
        "Content-Type",
        "text/plain; charset=utf-8".to_string(),
        "服务正常运行\n".to_string(),
    )
}

} // verus!
