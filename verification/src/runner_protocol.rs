//! The line protocol of the runners, how they are started, and when they go on polling.

pub mod lines;

use vstd::prelude::*;

use crate::text;
use crate::text::starts_with;

verus! {

/// How long a request may be.
pub const MAX_PROTOCOL_LINE_BYTES: usize = 307_200;

/// What is wrong with a request.
#[derive(Clone, Copy, Debug, PartialEq, Eq, Structural)]
pub enum ProtocolFault {
    /// It is longer than a request may be.
    TooLong,
}

/// What is said of a fault.
pub open spec fn fault_text(fault: ProtocolFault) -> Seq<char> {
    match fault {
        ProtocolFault::TooLong => "runner bridge protocol request exceeds the byte limit"@,
    }
}

/// Says what is wrong with a request.
pub fn fault_message(fault: ProtocolFault) -> (r: &'static str)
    ensures
        r@ == fault_text(fault),
{
    match fault {
        ProtocolFault::TooLong => "runner bridge protocol request exceeds the byte limit",
    }
}

/// A request as it is read piece by piece.
#[derive(Debug)]
pub struct BoundedLine {
    line: Vec<u8>,
    exceeded: bool,
}

/// What was read of a request: the bytes, as long as they are not too many.
#[verifier::ext_equal]
pub struct LineView {
    pub line: Seq<u8>,
    pub exceeded: bool,
}

impl View for BoundedLine {
    type V = LineView;

    closed spec fn view(&self) -> LineView {
        LineView { line: self.line@, exceeded: self.exceeded }
    }
}

/// How many of some bytes belong to a line: up to its end, or all.
pub open spec fn line_part(bytes: Seq<u8>) -> int
    decreases bytes.len(),
{
    if bytes.len() == 0 {
        0
    } else if bytes[0] == 10 {
        1
    } else {
        1 + line_part(bytes.skip(1))
    }
}

/// A request with a further piece.
pub open spec fn longer(l: LineView, piece: Seq<u8>) -> LineView {
    if !l.exceeded && l.line.len() + piece.len() <= MAX_PROTOCOL_LINE_BYTES {
        LineView { line: l.line + piece, exceeded: false }
    } else {
        LineView { line: l.line, exceeded: true }
    }
}

proof fn line_part_bounds(bytes: Seq<u8>)
    ensures
        0 <= line_part(bytes) <= bytes.len(),
        bytes.len() > 0 ==> line_part(bytes) >= 1,
    decreases bytes.len(),
{
    if bytes.len() > 0 && bytes[0] != 10 {
        line_part_bounds(bytes.skip(1));
    }
}

/// What came of a piece: how many bytes were taken, and whether the line has ended.
#[derive(Clone, Copy, Debug)]
pub struct PieceTaken {
    pub count: usize,
    pub ended: bool,
}

impl BoundedLine {
    #[verifier::type_invariant]
    spec fn well_formed(self) -> bool {
        self.line@.len() <= MAX_PROTOCOL_LINE_BYTES
    }

    /// A request of which nothing was read.
    pub fn new() -> (r: BoundedLine)
        ensures
            r@ == (LineView { line: Seq::empty(), exceeded: false }),
    {
        let r = BoundedLine { line: Vec::new(), exceeded: false };
        assert(r@.line =~= Seq::empty());
        r
    }

    /// Takes the next piece of a request from what is at hand.
    pub fn take_piece(&mut self, available: &[u8]) -> (r: PieceTaken)
        requires
            available@.len() > 0,
        ensures
            r.count == line_part(available@),
            1 <= r.count <= available@.len(),
            r.ended == (available@[r.count - 1] == 10),
            final(self)@ == longer(old(self)@, available@.take(r.count as int)),
    {
        proof {
            use_type_invariant(&*self);
            line_part_bounds(available@);
        }
        let mut at: usize = 0;
        assert(available@.skip(0) =~= available@);
        while at < available.len() && available[at] != 10
            invariant
                at <= available@.len(),
                line_part(available@) == at + line_part(available@.skip(at as int)),
            decreases available.len() - at,
        {
            proof {
                assert(available@.skip(at as int)[0] == available@[at as int]);
                assert(available@.skip(at as int).skip(1) =~= available@.skip(at + 1));
            }
            at += 1;
        }
        let count: usize = if at < available.len() {
            proof {
                assert(available@.skip(at as int)[0] == available@[at as int]);
            }
            at + 1
        } else {
            proof {
                assert(available@.skip(at as int) =~= Seq::empty());
            }
            at
        };
        let ghost piece = available@.take(count as int);
        let ghost before = self@;
        if !self.exceeded && count <= MAX_PROTOCOL_LINE_BYTES - self.line.len() {
            let mut whole: Vec<u8> = Vec::new();
            std::mem::swap(&mut whole, &mut self.line);
            let ghost start = whole@;
            let mut i: usize = 0;
            assert(start + piece.take(0) =~= start);
            while i < count
                invariant
                    i <= count <= available@.len(),
                    piece == available@.take(count as int),
                    whole@ == start + piece.take(i as int),
                decreases count - i,
            {
                whole.push(available[i]);
                proof {
                    assert(piece[i as int] == available@[i as int]);
                    assert(start + piece.take(i + 1) =~= (start + piece.take(i as int)).push(
                        piece[i as int],
                    ));
                }
                i += 1;
            }
            assert(piece.take(count as int) =~= piece);
            self.line = whole;
        } else {
            self.exceeded = true;
        }
        assert(self@ =~= longer(before, piece));
        PieceTaken { count, ended: available[count - 1] == 10 }
    }

    /// Ends a request: nothing where nothing was read.
    pub fn finish(self) -> (r: Result<Option<Vec<u8>>, ProtocolFault>)
        ensures
            if self@.exceeded {
                r == Err::<Option<Vec<u8>>, ProtocolFault>(ProtocolFault::TooLong)
            } else if self@.line.len() == 0 {
                r == Ok::<Option<Vec<u8>>, ProtocolFault>(None)
            } else {
                r matches Ok(Some(bytes)) && bytes@ == self@.line
            },
    {
        if self.exceeded {
            Err(ProtocolFault::TooLong)
        } else if self.line.len() == 0 {
            Ok(None)
        } else {
            Ok(Some(self.line))
        }
    }
}

/// A request after some pieces.
pub open spec fn after_pieces(pieces: Seq<Seq<u8>>) -> LineView
    decreases pieces.len(),
{
    if pieces.len() == 0 {
        LineView { line: Seq::empty(), exceeded: false }
    } else {
        longer(after_pieces(pieces.drop_last()), pieces.last())
    }
}

/// The bytes of some pieces.
pub open spec fn all_bytes(pieces: Seq<Seq<u8>>) -> Seq<u8>
    decreases pieces.len(),
{
    if pieces.len() == 0 {
        Seq::empty()
    } else {
        all_bytes(pieces.drop_last()) + pieces.last()
    }
}

/// A request is read whole, however it comes in pieces: it is refused just where it is
/// too long, and otherwise it holds every byte.
pub proof fn request_is_read_whole(pieces: Seq<Seq<u8>>)
    ensures
        after_pieces(pieces).exceeded <==> all_bytes(pieces).len() > MAX_PROTOCOL_LINE_BYTES,
        !after_pieces(pieces).exceeded ==> after_pieces(pieces).line == all_bytes(pieces),
    decreases pieces.len(),
{
    if pieces.len() > 0 {
        request_is_read_whole(pieces.drop_last());
    }
}

/// Whether a byte is white space.
pub open spec fn is_white(b: u8) -> bool {
    b == 32 || b == 9 || b == 10 || b == 12 || b == 13
}

/// Tells whether a line says nothing.
pub fn is_idle_line(line: &Vec<u8>) -> (r: bool)
    ensures
        r == forall|i: int| 0 <= i < line@.len() ==> is_white(#[trigger] line@[i]),
{
    let mut i: usize = 0;
    while i < line.len()
        invariant
            i <= line@.len(),
            forall|j: int| 0 <= j < i ==> is_white(#[trigger] line@[j]),
        decreases line.len() - i,
    {
        let b: u8 = line[i];
        if !(b == 32 || b == 9 || b == 10 || b == 12 || b == 13) {
            assert(!is_white(line@[i as int]));
            return false;
        }
        i += 1;
    }
    true
}

/// How a runner is started.
#[derive(Debug)]
pub enum RunnerMode {
    /// With a database of its own.
    Local { database_path: String },
    /// With a configuration.
    Configured { runtime_config_path: String },
}

/// Decides how a runner is started: with a database, or with a configuration, and not with
/// both.
pub fn runner_mode(database_path: &Option<String>, runtime_config_path: &Option<String>) -> (r: Result<
    RunnerMode,
    String,
>)
    ensures
        match (*database_path, *runtime_config_path) {
            (Some(db), None) => r matches Ok(RunnerMode::Local { database_path: p }) && p@ == db@,
            (None, Some(path)) => r matches Ok(RunnerMode::Configured { runtime_config_path: p })
                && p@ == path@,
            _ => r matches Err(e) && e@ == "exactly one runner runtime mode is required"@,
        },
{
    match (database_path, runtime_config_path) {
        (Some(db), None) => Ok(RunnerMode::Local { database_path: db.clone() }),
        (None, Some(path)) => Ok(RunnerMode::Configured { runtime_config_path: path.clone() }),
        _ => Err("exactly one runner runtime mode is required".to_owned()),
    }
}

/// Checks where a configuration is read from.
pub fn check_config_path(path: &str, is_file: bool) -> (r: Result<(), String>)
    ensures
        match r {
            Ok(_) => text::begins(path@, "/"@) && is_file,
            Err(e) => !(text::begins(path@, "/"@) && is_file) && e@
                == "runner runtime configuration path is invalid"@,
        },
{
    if !starts_with(path, "/") || !is_file {
        Err("runner runtime configuration path is invalid".to_owned())
    } else {
        Ok(())
    }
}

/// Checks the profile of a configuration: a runner that is configured hosts itself.
pub fn check_profile(self_hosted: bool) -> (r: Result<(), String>)
    ensures
        match r {
            Ok(_) => self_hosted,
            Err(e) => !self_hosted && e@ == "runner configured mode requires self_hosted profile"@,
        },
{
    if self_hosted {
        Ok(())
    } else {
        Err("runner configured mode requires self_hosted profile".to_owned())
    }
}

/// What came of a poll.
#[derive(Clone, Copy, Debug, PartialEq, Eq, Structural)]
pub enum PollOutcome {
    Idle,
    Completed,
    Failed { retryable: bool },
}

/// What a runner does after a poll.
#[derive(Clone, Copy, Debug, PartialEq, Eq, Structural)]
pub enum PollStep {
    /// It waits and polls again.
    Wait,
    /// It reports the failure, waits and polls again.
    Retry,
    /// It is done.
    Stop,
    /// It gives up with the failure.
    Fail,
}

/// What a runner does after a poll: a failure is put up with only where it may pass, and
/// where more than one poll was asked for.
pub open spec fn step_after(once: bool, outcome: PollOutcome) -> PollStep {
    match outcome {
        PollOutcome::Failed { retryable } => if !once && retryable {
            PollStep::Retry
        } else {
            PollStep::Fail
        },
        _ => if once {
            PollStep::Stop
        } else {
            PollStep::Wait
        },
    }
}

/// Decides what a runner does after a poll.
pub fn after_poll(once: bool, outcome: PollOutcome) -> (r: PollStep)
    ensures
        r == step_after(once, outcome),
{
    match outcome {
        PollOutcome::Failed { retryable } => if !once && retryable {
            PollStep::Retry
        } else {
            PollStep::Fail
        },
        PollOutcome::Idle => if once {
            PollStep::Stop
        } else {
            PollStep::Wait
        },
        PollOutcome::Completed => if once {
            PollStep::Stop
        } else {
            PollStep::Wait
        },
    }
}

/// A runner that polls once never polls again.
pub proof fn one_poll_ends(outcome: PollOutcome)
    ensures
        step_after(true, outcome) == PollStep::Stop || step_after(true, outcome) == PollStep::Fail,
{
}

} // verus!
