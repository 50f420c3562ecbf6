//! Properties of walking a cursor, stated over the abstract positions that the
//! contracts of `BiDirectionalIterator` speak of.
use vstd::prelude::*;

use crate::{in_bounds, next_pos, next_result, prev_pos, prev_result, value_at, CharStreamError};

verus! {

/// Position after `k` forward steps from `p` over `len` characters.
pub open spec fn advance(len: int, p: int, k: nat) -> int
    decreases k,
{
    if k == 0 {
        p
    } else {
        next_pos(len, advance(len, p, (k - 1) as nat))
    }
}

/// Position after `k` backward steps from `p`.
pub open spec fn retreat(p: int, k: nat) -> int
    decreases k,
{
    if k == 0 {
        p
    } else {
        prev_pos(retreat(p, (k - 1) as nat))
    }
}

/// Forward steps move one character at a time until the end, and then stay
/// on the exhausted position.
pub proof fn lemma_advance(len: int, p: int, k: nat)
    requires
        in_bounds(len, p),
    ensures
        advance(len, p, k) == if p + k < len { p + k } else { len },
    decreases k,
{
    if k > 0 {
        lemma_advance(len, p, (k - 1) as nat);
    }
}

/// Backward steps move one character at a time, never before the first one.
pub proof fn lemma_retreat(p: int, k: nat)
    requires
        p >= 0,
    ensures
        retreat(p, k) == if p - k >= 0 { p - k } else { 0 },
    decreases k,
{
    if k > 0 {
        lemma_retreat(p, (k - 1) as nat);
    }
}

/// On a fresh cursor over a non-empty text, the first `len` forward steps
/// return the characters of the text in order, and the step after them fails.
pub proof fn lemma_next_walks_the_text(text: Seq<char>)
    requires
        text.len() > 0,
    ensures
        forall|i: int|
            0 <= i < text.len() ==> {
                &&& #[trigger] advance(text.len() as int, -1, i as nat) == i - 1
                &&& next_result(text, advance(text.len() as int, -1, i as nat)) == Ok::<
                    char,
                    CharStreamError,
                >(text[i])
            },
        next_result(text, advance(text.len() as int, -1, text.len())) == Err::<
            char,
            CharStreamError,
        >(CharStreamError::FallsOffEnd),
{
    let len = text.len() as int;
    assert forall|i: int| 0 <= i < len implies #[trigger] advance(len, -1, i as nat) == i - 1 by {
        lemma_advance(len, -1, i as nat);
    }
    lemma_advance(len, -1, text.len());
}

/// On a fresh cursor a backward step fails and leaves the cursor unstarted.
pub proof fn lemma_prev_fails_at_start(text: Seq<char>)
    ensures
        prev_result(text, -1) == Err::<char, CharStreamError>(CharStreamError::FallsOffEnd),
        prev_pos(-1) == -1,
{
}

/// After one forward step on a fresh cursor, a backward step fails and the
/// cursor stays on the first character, so that the next forward step returns
/// the second one.
pub proof fn lemma_prev_fails_on_first(text: Seq<char>)
    requires
        text.len() > 0,
    ensures
        next_pos(text.len() as int, -1) == 0,
        prev_result(text, 0) == Err::<char, CharStreamError>(CharStreamError::FallsOffEnd),
        prev_pos(0) == 0,
        text.len() >= 2 ==> next_result(text, prev_pos(0)) == Ok::<char, CharStreamError>(text[1]),
{
}

/// After `k` successful forward steps, `k - 1` backward steps all succeed, and
/// the last of them returns the character that the first forward step returned.
pub proof fn lemma_round_trip(text: Seq<char>, p: int, k: nat)
    requires
        in_bounds(text.len() as int, p),
        k >= 2,
        forall|j: nat| j < k ==> #[trigger] next_result(text, advance(text.len() as int, p, j)) is Ok,
    ensures
        forall|j: nat|
            j < k - 1 ==> #[trigger] prev_result(text, retreat(advance(text.len() as int, p, k), j))
                is Ok,
        prev_result(text, retreat(advance(text.len() as int, p, k), (k - 2) as nat)) == next_result(
            text,
            p,
        ),
{
    let len = text.len() as int;
    let last = (k - 1) as nat;
    assert(next_result(text, advance(len, p, last)) is Ok);
    lemma_advance(len, p, last);
    lemma_advance(len, p, k);
    assert(advance(len, p, k) == p + k);
    assert forall|j: nat| j < k - 1 implies #[trigger] prev_result(
        text,
        retreat(advance(len, p, k), j),
    ) is Ok by {
        lemma_retreat(p + k, j);
    }
    lemma_retreat(p + k, (k - 2) as nat);
    assert(next_result(text, advance(len, p, 0)) is Ok);
}

/// A forward step followed by a backward step brings a cursor that stands on a
/// character back to that character.
pub proof fn lemma_peek_next_then_prev(text: Seq<char>, p: int)
    requires
        0 <= p < text.len(),
    ensures
        prev_result(text, next_pos(text.len() as int, p)) is Ok,
        prev_pos(next_pos(text.len() as int, p)) == p,
        value_at(text, prev_pos(next_pos(text.len() as int, p))) == value_at(text, p),
{
}

/// Once forward steps have exhausted the cursor, every further forward step
/// fails and leaves it exhausted.
pub proof fn lemma_exhausted_stays(text: Seq<char>, p: int, k: nat)
    requires
        in_bounds(text.len() as int, p),
        p + k >= text.len(),
    ensures
        advance(text.len() as int, p, k) == text.len(),
        next_result(text, advance(text.len() as int, p, k)) == Err::<char, CharStreamError>(
            CharStreamError::FallsOffEnd,
        ),
        next_pos(text.len() as int, advance(text.len() as int, p, k)) == text.len(),
{
    lemma_advance(text.len() as int, p, k);
}

/// A cursor over an empty text never yields a character: every step and every
/// read fails, whatever position it holds.
pub proof fn lemma_empty_yields_nothing(text: Seq<char>, p: int)
    requires
        text.len() == 0,
        in_bounds(0, p),
    ensures
        next_result(text, p) == Err::<char, CharStreamError>(CharStreamError::FallsOffEnd),
        prev_result(text, p) == Err::<char, CharStreamError>(CharStreamError::FallsOffEnd),
        value_at(text, p) == Err::<char, CharStreamError>(CharStreamError::FallsOffEnd),
{
}

} // verus!
