//! The text rules of a number input: which partial texts may be typed, and
//! which texts do not yet name a number.
use vstd::prelude::*;

verus! {

/// Typestate marker: a number input builder that still needs its state.
pub struct NeedsState;

/// Character `i` of `text` may stand where it stands: a digit anywhere, a
/// minus sign first when negatives are allowed, a decimal point once when
/// fractions are allowed.
pub open spec fn partial_char_ok(text: Seq<char>, i: int, allow_negative: bool, integer_only: bool) -> bool {
    let c = text[i];
    ||| ('0' <= c && c <= '9')
    ||| (c == '-' && i == 0 && allow_negative)
    ||| (c == '.' && !integer_only && forall|j: int| 0 <= j < i ==> text[j] != '.')
}

/// `text` can be the start of a number: every character may stand where it
/// stands (the empty text can).
pub open spec fn valid_partial(text: Seq<char>, allow_negative: bool, integer_only: bool) -> bool {
    forall|i: int| 0 <= i < text.len() ==> #[trigger] partial_char_ok(text, i, allow_negative, integer_only)
}

/// Whether `text` can be the start of a number.
pub fn is_valid_partial(text: &str, allow_negative: bool, integer_only: bool) -> (r: bool)
    ensures
        r == valid_partial(text@, allow_negative, integer_only),
{
    let n = text.unicode_len();
    let mut has_dot = false;
    let mut i: usize = 0;
    while i < n
        invariant
            n == text@.len(),
            i <= n,
            has_dot == exists|j: int| 0 <= j < i && text@[j] == '.',
            forall|k: int| 0 <= k < i ==> #[trigger] partial_char_ok(text@, k, allow_negative, integer_only),
        decreases n - i,
    {
        let c = text.get_char(i);
        if c == '-' {
            if i != 0 || !allow_negative {
                proof {
                    assert(!partial_char_ok(text@, i as int, allow_negative, integer_only));
                }
                return false;
            }
        } else if c == '.' {
            if integer_only || has_dot {
                proof {
                    if has_dot {
                        let j = choose|j: int| 0 <= j < i && text@[j] == '.';
                        assert(text@[j] == '.');
                    }
                    assert(!partial_char_ok(text@, i as int, allow_negative, integer_only));
                }
                return false;
            }
            has_dot = true;
        } else if !('0' <= c && c <= '9') {
            proof {
                assert(!partial_char_ok(text@, i as int, allow_negative, integer_only));
            }
            return false;
        }
        proof {
            assert(partial_char_ok(text@, i as int, allow_negative, integer_only));
        }
        i = i + 1;
    }
    true
}

/// `text` names no number yet: empty, or only a sign and/or a point.
pub open spec fn unfinished_number(text: Seq<char>) -> bool {
    ||| text.len() == 0
    ||| text == seq!['-']
    ||| text == seq!['.']
    ||| text == seq!['-', '.']
}

/// Whether `text` names no number yet.
pub fn is_unfinished_number(text: &str) -> (r: bool)
    ensures
        r == unfinished_number(text@),
{
    let n = text.unicode_len();
    if n == 0 {
        return true;
    }
    if n == 1 {
        let c = text.get_char(0);
        proof {
            assert(text@ == seq![text@[0]]);
        }
        return c == '-' || c == '.';
    }
    if n == 2 {
        let a = text.get_char(0);
        let b = text.get_char(1);
        proof {
            assert(text@ == seq![text@[0], text@[1]]);
        }
        return a == '-' && b == '.';
    }
    proof {
        assert(text@.len() != seq!['-'].len());
        assert(text@.len() != seq!['-', '.'].len());
    }
    false
}

/// What can start a number stays so when cut short: every prefix of a
/// valid partial text is valid, so a text can be typed one character at a
/// time.
pub proof fn law_valid_partial_prefix(text: Seq<char>, n: int, allow_negative: bool, integer_only: bool)
    requires
        valid_partial(text, allow_negative, integer_only),
        0 <= n <= text.len(),
    ensures
        valid_partial(text.subrange(0, n), allow_negative, integer_only),
{
    let p = text.subrange(0, n);
    assert forall|i: int| 0 <= i < p.len() implies #[trigger] partial_char_ok(p, i, allow_negative, integer_only) by {
        assert(partial_char_ok(text, i, allow_negative, integer_only));
    }
}

} // verus!
