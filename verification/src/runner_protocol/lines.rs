//! Where a line ends, when it is too long, and what a runner does after a poll.

use vstd::prelude::*;

use crate::runner_protocol;
use crate::runner_protocol::{LineView, PollOutcome, PollStep};

verus! {

/// A line goes up to its first line feed, with it, and up to the end of the bytes where
/// there is none.
pub proof fn line_ends_at_the_first_line_feed(bytes: Seq<u8>)
    ensures
        0 <= runner_protocol::line_part(bytes) <= bytes.len(),
        forall|i: int|
            0 <= i < runner_protocol::line_part(bytes) - 1 ==> #[trigger] bytes[i] != 10,
        bytes.len() > 0 ==> runner_protocol::line_part(bytes) > 0,
        runner_protocol::line_part(bytes) < bytes.len() ==> bytes[runner_protocol::line_part(bytes)
            - 1] == 10,
    decreases bytes.len(),
{
    if bytes.len() > 0 && bytes[0] != 10 {
        let rest = bytes.skip(1);
        line_ends_at_the_first_line_feed(rest);
        let n = runner_protocol::line_part(bytes);
        assert forall|i: int| 0 <= i < n - 1 implies #[trigger] bytes[i] != 10 by {
            if i > 0 {
                assert(rest[i - 1] == bytes[i]);
            }
        }
        if n < bytes.len() {
            assert(rest[n - 2] == bytes[n - 1]);
        }
    }
}

/// A piece is taken where the whole stays within the limit; from the first that is not, the
/// request is too long for good and keeps what it had.
pub proof fn piece_is_taken_within_the_limit(l: LineView, piece: Seq<u8>)
    ensures
        !l.exceeded && l.line.len() + piece.len() <= 307_200 ==> runner_protocol::longer(l, piece)
            == (LineView { line: l.line + piece, exceeded: false }),
        l.exceeded || l.line.len() + piece.len() > 307_200 ==> runner_protocol::longer(l, piece)
            == (LineView { line: l.line, exceeded: true }),
{
}

/// After one poll a runner stops, or fails where the poll failed; otherwise it polls again,
/// and gives up only on a failure that does not pass.
pub proof fn poll_goes_on_unless_it_cannot(once: bool, retryable: bool)
    ensures
        runner_protocol::step_after(true, PollOutcome::Idle) == PollStep::Stop,
        runner_protocol::step_after(true, PollOutcome::Completed) == PollStep::Stop,
        runner_protocol::step_after(true, PollOutcome::Failed { retryable }) == PollStep::Fail,
        runner_protocol::step_after(false, PollOutcome::Idle) == PollStep::Wait,
        runner_protocol::step_after(false, PollOutcome::Completed) == PollStep::Wait,
        runner_protocol::step_after(false, PollOutcome::Failed { retryable: true })
            == PollStep::Retry,
        runner_protocol::step_after(once, PollOutcome::Failed { retryable: false })
            == PollStep::Fail,
{
}

} // verus!
