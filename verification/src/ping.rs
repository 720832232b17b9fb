//! The ping reply's text.

use vstd::prelude::*;
use crate::num::{dec_of, u64_dec};

verus! {

/// The reply reporting a round trip of `ms` milliseconds.
pub open spec fn pong_text(ms: int) -> Seq<char> {
    "pong "@ + dec_of(ms) + "ms"@
}

/// Build the reply reporting a round trip of `ms` milliseconds.
pub fn pong_message(ms: u64) -> (r: String)
    ensures
        r@ == pong_text(ms as int),
{
    let mut r = String::from_str("pong ");
    let d = u64_dec(ms);
    r.append(d.as_str());
    r.append("ms");
    proof {
        assert(r@ =~= pong_text(ms as int));
    }
    r
}

} // verus!
