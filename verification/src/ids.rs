//! Correlation ids for generations and downloads.
//!
//! An id is derived from a millisecond timestamp and a sub-second nanosecond
//! reading supplied by the caller; uniqueness is best effort, exactly as good
//! as the clock readings are distinct. The rendering itself is injective:
//! distinct clock readings give distinct ids.

use vstd::prelude::*;

use crate::digits::{lemma_radix_seq_injective, lemma_radix_seq_is_digits, digit_char,
    is_digit_char, push_radix, radix_seq};
use crate::text::{chars_to_string, push_str_chars};

verus! {

/// The id rendered for the given clock reading: a fixed prefix, the
/// milliseconds in decimal, a separator, and the nanoseconds in hex.
pub open spec fn id_seq(now_millis: u64, subsec_nanos: u32) -> Seq<char> {
    "gen-"@ + radix_seq(now_millis as nat, 10) + "-"@ + radix_seq(subsec_nanos as nat, 16)
}

/// The hexadecimal suffix of an id.
pub fn rand_suffix(subsec_nanos: u32) -> (r: String)
    ensures
        r@ == radix_seq(subsec_nanos as nat, 16),
{
    let mut out: Vec<char> = Vec::new();
    push_radix(&mut out, subsec_nanos as u64, 16);
    chars_to_string(out)
}

/// Renders a fresh correlation id from a clock reading.
pub fn generate_id(now_millis: u64, subsec_nanos: u32) -> (r: String)
    ensures
        r@ == id_seq(now_millis, subsec_nanos),
        r@.len() > 0,
{
    let mut out: Vec<char> = Vec::new();
    push_str_chars(&mut out, "gen-");
    push_radix(&mut out, now_millis, 10);
    push_str_chars(&mut out, "-");
    push_radix(&mut out, subsec_nanos as u64, 16);
    let r = chars_to_string(out);
    proof {
        reveal_strlit("gen-");
        reveal_strlit("-");
        lemma_radix_seq_is_digits(now_millis as nat, 10);
        lemma_radix_seq_is_digits(subsec_nanos as nat, 16);
    }
    r
}

/// Ids are injective in the clock reading: two calls that see different
/// (milliseconds, nanoseconds) pairs return different ids.
pub proof fn lemma_id_seq_injective(m1: u64, n1: u32, m2: u64, n2: u32)
    requires
        id_seq(m1, n1) == id_seq(m2, n2),
    ensures
        m1 == m2,
        n1 == n2,
{
    reveal_strlit("gen-");
    reveal_strlit("-");
    let d1 = radix_seq(m1 as nat, 10);
    let d2 = radix_seq(m2 as nat, 10);
    let h1 = radix_seq(n1 as nat, 16);
    let h2 = radix_seq(n2 as nat, 16);
    lemma_radix_seq_is_digits(m1 as nat, 10);
    lemma_radix_seq_is_digits(m2 as nat, 10);
    lemma_radix_seq_is_digits(n1 as nat, 16);
    lemma_radix_seq_is_digits(n2 as nat, 16);
    lemma_digit_chars_not_dash();
    // The tail after the fixed prefix, for both readings.
    let t1 = d1 + "-"@ + h1;
    let t2 = d2 + "-"@ + h2;
    assert(t1 =~= ("gen-"@ + d1 + "-"@ + h1).skip(4));
    assert(t2 =~= ("gen-"@ + d2 + "-"@ + h2).skip(4));
    assert(t1 == t2);
    // The first separator in the tail sits exactly after the decimal part,
    // because decimal digits are never the separator character.
    lemma_first_dash(d1, h1, d2, h2);
    assert(d1 =~= t1.take(d1.len() as int));
    assert(d2 =~= t2.take(d2.len() as int));
    assert(d1 == d2);
    lemma_radix_seq_injective(m1 as nat, m2 as nat, 10);
    assert(h1 =~= t1.skip(d1.len() as int + 1));
    assert(h2 =~= t2.skip(d2.len() as int + 1));
    assert(h1 == h2);
    lemma_radix_seq_injective(n1 as nat, n2 as nat, 16);
}

/// Distinct clock readings give distinct correlation ids: uniqueness of the
/// returned ids is exactly as good as the clock readings are distinct.
pub proof fn lemma_id_seq_unique(m1: u64, n1: u32, m2: u64, n2: u32)
    requires
        m1 != m2 || n1 != n2,
    ensures
        id_seq(m1, n1) != id_seq(m2, n2),
{
    if id_seq(m1, n1) == id_seq(m2, n2) {
        lemma_id_seq_injective(m1, n1, m2, n2);
    }
}

proof fn lemma_digit_chars_not_dash()
    ensures
        forall|c: char| is_digit_char(c) ==> c != '-',
{
    assert forall|c: char| is_digit_char(c) implies c != '-' by {
        let d = choose|d: nat| d < 16 && c == digit_char(d);
        assert(digit_char(d) != '-');
    }
}

/// If two digit-dash-digit strings are equal and neither digit block holds a
/// dash, the blocks coincide.
proof fn lemma_first_dash(d1: Seq<char>, h1: Seq<char>, d2: Seq<char>, h2: Seq<char>)
    requires
        d1 + "-"@ + h1 == d2 + "-"@ + h2,
        forall|i: int| 0 <= i < d1.len() ==> #[trigger] d1[i] != '-',
        forall|i: int| 0 <= i < d2.len() ==> #[trigger] d2[i] != '-',
    ensures
        d1.len() == d2.len(),
{
    reveal_strlit("-");
    let s = d1 + "-"@ + h1;
    assert(s[d1.len() as int] == '-');
    assert(s[d2.len() as int] == '-');
    if d1.len() < d2.len() {
        assert(s[d1.len() as int] == d2[d1.len() as int]);
        assert(false);
    } else if d2.len() < d1.len() {
        assert(s[d2.len() as int] == d1[d2.len() as int]);
        assert(false);
    }
}

} // verus!
