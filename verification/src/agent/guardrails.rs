//! The limits of a run, and the checks that stop one: repeated errors, and
//! answers that do not finish.

use crate::text::{chars_of, contains, contains_sub, lowercase, lowercased, same_text, texts};
use vstd::prelude::*;

verus! {

/// Most characters of injected external context.
pub const MCP_CONTEXT_MAX_CHARS: usize = 6000;

/// Most tool calls for one message of the user.
pub const MAX_TOOL_CALLS_PER_MESSAGE: usize = 8;

/// Most tokens of a session, counted as a quarter of the bytes of each response.
pub const MAX_TOKENS_PER_SESSION: usize = 32_000;

/// Most time of a run, in milliseconds.
pub const MAX_TIME_MS: u64 = 600_000;

/// How many identical errors in a row mean that the run is stuck.
pub const SAME_ERROR_THRESHOLD: usize = 3;

/// The approximate number of tokens of a text of `bytes` bytes.
pub open spec fn approx_tokens(bytes: nat) -> nat {
    bytes / 4
}

/// The errors kept after one more failure: the new message is added, and
/// the oldest leaves once more than three are held.
pub open spec fn ring_push(ring: Seq<Seq<char>>, message: Seq<char>) -> Seq<Seq<char>> {
    let pushed = ring.push(message);
    if pushed.len() > SAME_ERROR_THRESHOLD {
        pushed.drop_first()
    } else {
        pushed
    }
}

/// The run is stuck: three errors are held and all are the same text.
pub open spec fn ring_stuck(ring: Seq<Seq<char>>) -> bool {
    ring.len() >= SAME_ERROR_THRESHOLD && forall|i: int|
        0 <= i < ring.len() ==> #[trigger] ring[i] == ring[0]
}

/// Records a failed tool result and tells whether the run is stuck.
pub fn record_failure(ring: &mut Vec<String>, message: String) -> (stuck: bool)
    ensures
        texts(final(ring)@) == ring_push(texts(old(ring)@), message@),
        old(ring)@.len() <= SAME_ERROR_THRESHOLD ==> final(ring)@.len() <= SAME_ERROR_THRESHOLD,
        stuck == ring_stuck(texts(final(ring)@)),
{
    ring.push(message);
    if ring.len() > SAME_ERROR_THRESHOLD {
        let _ = ring.remove(0);
    }
    proof {
        assert(texts(ring@) =~= ring_push(texts(old(ring)@), message@));
    }
    if ring.len() < SAME_ERROR_THRESHOLD {
        return false;
    }
    let mut i: usize = 1;
    while i < ring.len()
        invariant
            1 <= i <= ring.len(),
            ring@.len() >= SAME_ERROR_THRESHOLD,
            old(ring)@.len() <= SAME_ERROR_THRESHOLD ==> ring@.len() <= SAME_ERROR_THRESHOLD,
            texts(ring@) == ring_push(texts(old(ring)@), message@),
            forall|j: int| 0 <= j < i ==> #[trigger] texts(ring@)[j] == texts(ring@)[0],
        decreases ring.len() - i,
    {
        if !same_text(ring[i].as_str(), ring[0].as_str()) {
            proof {
                assert(texts(ring@)[i as int] != texts(ring@)[0]);
            }
            return false;
        }
        proof {
            assert(texts(ring@)[i as int] == texts(ring@)[0]);
        }
        i += 1;
    }
    true
}

/// Three failures in a row with one and the same message leave the run
/// stuck, whatever errors were held before.
pub proof fn law_three_identical_errors_stick(ring: Seq<Seq<char>>, message: Seq<char>)
    requires
        ring.len() <= SAME_ERROR_THRESHOLD,
    ensures
        ring_stuck(ring_push(ring_push(ring_push(ring, message), message), message)),
{
    let a = ring_push(ring, message);
    let b = ring_push(a, message);
    let c = ring_push(b, message);
    assert(a.last() == message);
    assert(b.last() == message && b[b.len() - 2] == message);
    assert(c.len() == 3);
    assert(c[0] == message && c[1] == message && c[2] == message);
}

/// Where the second of three failures differs from the first, the run is
/// stuck neither after the second nor after the third, whatever errors
/// were held before.
pub proof fn law_differing_error_does_not_stick(
    ring: Seq<Seq<char>>,
    message: Seq<char>,
    other: Seq<char>,
)
    requires
        ring.len() <= SAME_ERROR_THRESHOLD,
        other != message,
    ensures
        !ring_stuck(ring_push(ring_push(ring, message), other)),
        !ring_stuck(ring_push(ring_push(ring_push(ring, message), other), message)),
{
    let a = ring_push(ring, message);
    let b = ring_push(a, other);
    let c = ring_push(b, message);
    assert(a.last() == message);
    assert(b.last() == other && b[b.len() - 2] == message);
    if ring_stuck(b) {
        assert(b[b.len() - 1] == b[0] && b[b.len() - 2] == b[0]);
    }
    assert(c.last() == message && c[c.len() - 2] == other);
    if ring_stuck(c) {
        assert(c[c.len() - 1] == c[0] && c[c.len() - 2] == c[0]);
    }
}

/// Fewer than three failures since the last success never leave the run stuck.
pub proof fn law_two_errors_do_not_stick(first: Seq<char>, second: Seq<char>)
    ensures
        !ring_stuck(ring_push(Seq::empty(), first)),
        !ring_stuck(ring_push(ring_push(Seq::empty(), first), second)),
{
}

/// Below this many characters a response counts as short.
pub const SHORT_RESPONSE_CHARS: usize = 150;

/// Above this many characters a response counts as long.
pub const LONG_RESPONSE_CHARS: usize = 200;

/// A response looks like the end of the task: it is short, under 150
/// characters, or it holds one of the words that say so.
pub open spec fn looks_like_completion(response: Seq<char>) -> bool {
    let lower = lowercased(response);
    ||| response.len() < SHORT_RESPONSE_CHARS
    ||| contains_sub(lower, "done"@)
    ||| contains_sub(lower, "готово"@)
    ||| contains_sub(lower, "complete"@)
    ||| contains_sub(lower, "finished"@)
    ||| contains_sub(lower, "завершено"@)
}

/// A response that is no tool call must be answered by a demand to act: it
/// does not look like the end of the task, and it is long, over 200
/// characters.
pub open spec fn needs_steering(response: Seq<char>) -> bool {
    !looks_like_completion(response) && response.len() > LONG_RESPONSE_CHARS
}

/// Tests whether a response looks like the end of the task.
pub fn is_completion(response: &str) -> (r: bool)
    ensures
        r == looks_like_completion(response@),
{
    if chars_of(response).len() < SHORT_RESPONSE_CHARS {
        return true;
    }
    let lower = lowercase(response);
    let text = chars_of(lower.as_str());
    contains(&text, &chars_of("done")) || contains(&text, &chars_of("готово")) || contains(
        &text,
        &chars_of("complete"),
    ) || contains(&text, &chars_of("finished")) || contains(&text, &chars_of("завершено"))
}

/// Tests whether a response that is no tool call must be answered by a
/// demand to act.
pub fn must_steer(response: &str) -> (r: bool)
    ensures
        r == needs_steering(response@),
{
    !is_completion(response) && chars_of(response).len() > LONG_RESPONSE_CHARS
}

} // verus!
