//! Identifiers handed out to producers and consumer sessions: `💩-` followed
//! by eight lower-case hexadecimal digits of a random `u32`.
use vstd::prelude::*;
use vstd::string::*;
use crate::random::random_u32;
use crate::text::{hex_digits, push_hex_digits};

verus! {

/// The identifier made from the number `n`.
pub open spec fn id_text(n: nat) -> Seq<char> {
    "💩-"@ + hex_digits(n, 8)
}

/// The identifier made from `n` (`format!("💩-{:08x}", n)`).
pub fn id_from(n: u32) -> (r: String)
    ensures
        r@ == id_text(n as nat),
{
    let mut s = String::from_str("💩-");
    push_hex_digits(&mut s, n, 8);
    s
}

/// A fresh random identifier.
pub fn gen_id() -> (r: String)
    ensures
        exists|n: u32| r@ == #[trigger] id_text(n as nat),
{
    let n = random_u32();
    id_from(n)
}

} // verus!
