//! The accelerator grammar for global shortcut combinations.
//!
//! A combination such as `"Primary+Shift+Space"` is a `'+'`-separated
//! list of tokens: zero or more modifier names followed by exactly one
//! key name. [`valid_combination`] states the grammar over a sequence
//! of characters; [`is_valid_combination`] decides it and is proved to
//! agree with the statement on every input.

use vstd::prelude::*;
use vstd::string::StrSliceExecFns;

verus! {

/// The index of the first `'+'` in `s`, or `-1` when `s` has none.
pub open spec fn first_plus(s: Seq<char>) -> int
    decreases s.len(),
{
    if s.len() == 0 {
        -1
    } else if s[0] == '+' {
        0
    } else {
        let r: int = first_plus(s.subrange(1, s.len() as int));
        if r < 0 {
            -1
        } else {
            r + 1
        }
    }
}

/// `first_plus` finds exactly the least index holding `'+'`.
pub proof fn lemma_first_plus(s: Seq<char>)
    ensures
        first_plus(s) < 0 ==> forall|i: int| 0 <= i < s.len() ==> s[i] != '+',
        first_plus(s) >= 0 ==> first_plus(s) < s.len() && s[first_plus(s)] == '+',
        forall|i: int| 0 <= i < first_plus(s) ==> s[i] != '+',
    decreases s.len(),
{
    if s.len() == 0 {
    } else if s[0] == '+' {
    } else {
        let t = s.subrange(1, s.len() as int);
        lemma_first_plus(t);
        assert forall|i: int| 1 <= i < s.len() implies s[i] == t[i - 1] by {}
    }
}

/// Any index that holds the first `'+'` of `s` is `first_plus(s)`.
pub proof fn lemma_first_plus_unique(s: Seq<char>, j: int)
    requires
        0 <= j < s.len(),
        s[j] == '+',
        forall|i: int| 0 <= i < j ==> s[i] != '+',
    ensures
        first_plus(s) == j,
{
    lemma_first_plus(s);
    if first_plus(s) < 0 {
        assert(s[j] != '+');
    }
}

/// `s` holds no `'+'` at all exactly when `first_plus(s) < 0`.
pub proof fn lemma_no_plus(s: Seq<char>)
    requires
        forall|i: int| 0 <= i < s.len() ==> s[i] != '+',
    ensures
        first_plus(s) < 0,
{
    lemma_first_plus(s);
    if first_plus(s) >= 0 {
        assert(s[first_plus(s)] != '+');
    }
}

/// The modifier names the grammar accepts before the final key token.
pub open spec fn is_modifier_token(t: Seq<char>) -> bool {
    ||| t == "Primary"@
    ||| t == "CommandOrControl"@
    ||| t == "CmdOrCtrl"@
    ||| t == "Command"@
    ||| t == "Cmd"@
    ||| t == "Control"@
    ||| t == "Ctrl"@
    ||| t == "Shift"@
    ||| t == "Alt"@
    ||| t == "Option"@
    ||| t == "Super"@
    ||| t == "Meta"@
}

/// A single-character key: an upper-case letter or a digit.
pub open spec fn is_key_char(c: char) -> bool {
    ||| ('A' as u32) <= (c as u32) && (c as u32) <= ('Z' as u32)
    ||| ('0' as u32) <= (c as u32) && (c as u32) <= ('9' as u32)
}

/// The key names the grammar accepts as the final token.
pub open spec fn is_key_token(t: Seq<char>) -> bool {
    ||| (t.len() == 1 && is_key_char(t[0]))
    ||| t == "Space"@
    ||| t == "Enter"@
    ||| t == "Tab"@
    ||| t == "Escape"@
}

/// The grammar itself: the text before the first `'+'` must be a
/// modifier name and the remainder a valid combination; text without a
/// `'+'` must be a key name.
pub open spec fn valid_combination(s: Seq<char>) -> bool
    decreases s.len(),
{
    let j: int = first_plus(s);
    if j < 0 {
        is_key_token(s)
    } else if j < s.len() {
        is_modifier_token(s.subrange(0, j)) && valid_combination(
            s.subrange(j + 1, s.len() as int),
        )
    } else {
        // never reached: first_plus stays below s.len() (lemma_first_plus);
        // the arm bounds the recursion for the termination check
        false
    }
}

/// Whether the characters of `s` between `lo` and `hi` spell `t`.
fn token_matches(s: &str, lo: usize, hi: usize, t: &str) -> (r: bool)
    requires
        lo <= hi <= s@.len(),
    ensures
        r == (s@.subrange(lo as int, hi as int) == t@),
{
    let tlen: usize = t.unicode_len();
    if hi - lo != tlen {
        proof {
            assert(s@.subrange(lo as int, hi as int).len() != t@.len());
        }
        return false;
    }
    let mut i: usize = 0;
    while i < tlen
        invariant
            lo <= hi <= s@.len(),
            hi - lo == tlen,
            tlen == t@.len(),
            i <= tlen,
            forall|k: int| 0 <= k < i ==> s@[lo + k] == t@[k],
        decreases tlen - i,
    {
        let a = s.get_char(lo + i);
        let b = t.get_char(i);
        if a != b {
            proof {
                assert(s@.subrange(lo as int, hi as int)[i as int] == s@[lo + i]);
            }
            return false;
        }
        i += 1;
    }
    proof {
        assert(s@.subrange(lo as int, hi as int) =~= t@);
    }
    true
}

/// Whether the characters of `s` between `lo` and `hi` spell a
/// modifier name.
fn matches_modifier(s: &str, lo: usize, hi: usize) -> (r: bool)
    requires
        lo <= hi <= s@.len(),
    ensures
        r == is_modifier_token(s@.subrange(lo as int, hi as int)),
{
    token_matches(s, lo, hi, "Primary") || token_matches(s, lo, hi, "CommandOrControl")
        || token_matches(s, lo, hi, "CmdOrCtrl") || token_matches(s, lo, hi, "Command")
        || token_matches(s, lo, hi, "Cmd") || token_matches(s, lo, hi, "Control")
        || token_matches(s, lo, hi, "Ctrl") || token_matches(s, lo, hi, "Shift")
        || token_matches(s, lo, hi, "Alt") || token_matches(s, lo, hi, "Option")
        || token_matches(s, lo, hi, "Super") || token_matches(s, lo, hi, "Meta")
}

/// Whether the characters of `s` between `lo` and `hi` spell a key
/// name.
fn matches_key(s: &str, lo: usize, hi: usize) -> (r: bool)
    requires
        lo <= hi <= s@.len(),
    ensures
        r == is_key_token(s@.subrange(lo as int, hi as int)),
{
    if hi - lo == 1 {
        let c = s.get_char(lo);
        let n: u32 = c as u32;
        if (65 <= n && n <= 90) || (48 <= n && n <= 57) {
            proof {
                assert(s@.subrange(lo as int, hi as int)[0] == s@[lo as int]);
                assert(s@.subrange(lo as int, hi as int).len() == 1);
            }
            return true;
        }
    }
    token_matches(s, lo, hi, "Space") || token_matches(s, lo, hi, "Enter") || token_matches(
        s,
        lo,
        hi,
        "Tab",
    ) || token_matches(s, lo, hi, "Escape")
}

/// Decide the accelerator grammar: `true` exactly on the combinations
/// that [`valid_combination`] accepts.
pub fn is_valid_combination(s: &str) -> (r: bool)
    ensures
        r == valid_combination(s@),
{
    let n: usize = s.unicode_len();
    let mut pos: usize = 0;
    proof {
        assert(s@.subrange(0, n as int) =~= s@);
    }
    loop
        invariant
            pos <= n,
            n == s@.len(),
            valid_combination(s@) <==> valid_combination(s@.subrange(pos as int, n as int)),
        decreases n - pos,
    {
        let ghost suffix = s@.subrange(pos as int, n as int);
        let mut j: usize = pos;
        loop
            invariant
                pos <= j <= n,
                n == s@.len(),
                forall|k: int| pos <= k < j ==> s@[k] != '+',
            ensures
                pos <= j <= n,
                forall|k: int| pos <= k < j ==> s@[k] != '+',
                j < n ==> s@[j as int] == '+',
            decreases n - j,
        {
            if j >= n {
                break ;
            }
            if s.get_char(j) == '+' {
                break ;
            }
            j += 1;
        }
        if j >= n {
            proof {
                assert forall|i: int| 0 <= i < suffix.len() implies suffix[i] != '+' by {
                    assert(suffix[i] == s@[pos + i]);
                }
                lemma_no_plus(suffix);
            }
            let r = matches_key(s, pos, n);
            return r;
        }
        proof {
            assert(suffix[j - pos] == s@[j as int]);
            assert forall|i: int| 0 <= i < j - pos implies suffix[i] != '+' by {
                assert(suffix[i] == s@[pos + i]);
            }
            lemma_first_plus_unique(suffix, j - pos);
            assert(s@.subrange(pos as int, j as int) =~= suffix.subrange(0, j - pos));
        }
        if !matches_modifier(s, pos, j) {
            return false;
        }
        proof {
            assert(s@.subrange(j + 1, n as int) =~= suffix.subrange(
                j - pos + 1,
                suffix.len() as int,
            ));
        }
        pos = j + 1;
    }
}

} // verus!
