//! Path normalization: raw asset paths returned by the remote API are turned
//! into canonical, lower-case, locally addressable relative paths by stripping
//! a fixed known prefix and folding the remainder to lower case.

use vstd::prelude::*;
use vstd::string::StrSliceExecFns;

use crate::text::{lower_char, lower_char_exec, lower_seq, lemma_lower_seq_idempotent, push_char};

verus! {

/// The prefix the remote API puts in front of every raw asset path.
pub open spec fn spec_raw_prefix() -> Seq<char> {
    "/lol-game-data/assets/"@
}

/// Whether a sequence begins with the raw remote prefix (case-sensitive).
pub open spec fn starts_with_prefix(s: Seq<char>) -> bool {
    s.len() >= spec_raw_prefix().len() && s.subrange(0, spec_raw_prefix().len() as int)
        == spec_raw_prefix()
}

/// What `normalize` returns: the remote prefix is stripped when present
/// (case-sensitive match) and the remainder is folded to lower case; a path
/// without the prefix is folded unchanged.
pub open spec fn spec_normalize(s: Seq<char>) -> Seq<char> {
    if starts_with_prefix(s) {
        lower_seq(s.skip(spec_raw_prefix().len() as int))
    } else {
        lower_seq(s)
    }
}

/// Whether `raw` begins with the raw remote prefix.
fn has_raw_prefix(raw: &str) -> (b: bool)
    ensures
        b == starts_with_prefix(raw@),
{
    proof {
        reveal_strlit("/lol-game-data/assets/");
    }
    let prefix: &str = "/lol-game-data/assets/";
    let n = raw.unicode_len();
    if n < 22 {
        return false;
    }
    let mut k: usize = 0;
    while k < 22
        invariant
            raw@.len() == n,
            n >= 22,
            prefix@ == spec_raw_prefix(),
            prefix@.len() == 22,
            0 <= k <= 22,
            forall|j: int| 0 <= j < k ==> raw@[j] == spec_raw_prefix()[j],
        decreases 22 - k,
    {
        if raw.get_char(k) != prefix.get_char(k) {
            proof {
                assert(raw@.subrange(0, 22)[k as int] == raw@[k as int]);
            }
            return false;
        }
        k += 1;
    }
    proof {
        assert(raw@.subrange(0, 22) =~= spec_raw_prefix());
    }
    true
}

/// Turns a raw asset path from the remote API into its canonical local form.
/// Never fails: a path without the known prefix is only folded to lower case.
pub fn normalize(raw: &str) -> (r: String)
    ensures
        r@ == spec_normalize(raw@),
{
    proof {
        reveal_strlit("/lol-game-data/assets/");
    }
    let n = raw.unicode_len();
    let start: usize = if has_raw_prefix(raw) {
        22
    } else {
        0
    };
    let mut out = String::new();
    let mut i: usize = start;
    while i < n
        invariant
            raw@.len() == n,
            start <= n,
            start <= i <= n,
            out@ == lower_seq(raw@.subrange(start as int, i as int)),
        decreases n - i,
    {
        let c = raw.get_char(i);
        let lc = lower_char_exec(c);
        push_char(&mut out, lc);
        proof {
            assert(raw@.subrange(start as int, i + 1) =~= raw@.subrange(start as int, i as int)
                + seq![raw@[i as int]]);
            assert(lower_seq(raw@.subrange(start as int, i + 1)) =~= lower_seq(
                raw@.subrange(start as int, i as int),
            ) + seq![lower_char(raw@[i as int])]);
        }
        i += 1;
    }
    proof {
        assert(raw@.subrange(start as int, n as int) =~= raw@.skip(start as int));
        if start == 0 {
            assert(raw@.subrange(0, n as int) =~= raw@);
        }
    }
    out
}

/// A path already in normal form: normalizing it changes nothing.
pub open spec fn spec_is_normal(s: Seq<char>) -> bool {
    spec_normalize(s) == s
}

/// Normalization is idempotent on every path whose normal form does not itself
/// begin with the raw remote prefix; stripping never re-exposes the prefix for
/// such paths, so a second pass only re-folds an already folded string.
pub proof fn lemma_normalize_idempotent(s: Seq<char>)
    requires
        !starts_with_prefix(spec_normalize(s)),
    ensures
        spec_normalize(spec_normalize(s)) == spec_normalize(s),
{
    if starts_with_prefix(s) {
        lemma_lower_seq_idempotent(s.skip(spec_raw_prefix().len() as int));
    } else {
        lemma_lower_seq_idempotent(s);
    }
}

} // verus!
