//! Runs a program of socket register operations one request at a time. Every
//! command write is followed by bounded polling of the command register until
//! it clears, and every status wait by bounded polling of the status register;
//! a bound that runs out ends the program with an error, never a panic.
use vstd::prelude::*;
use crate::socket::{
    S0_CR, S0_SR, S0_MR, S0_PORT0, MODE_TCP, CMD_OPEN, CMD_LISTEN, CMD_CLOSE, STATUS_CLOSED,
    STATUS_INIT, STATUS_LISTEN, POLL_INTERVAL_MS, MAX_RETRIES,
};
use crate::wire::{Transaction, read_socket, write_socket};

verus! {

/// One operation on the socket registers.
#[derive(Clone, Copy, Debug, PartialEq, Eq, Structural)]
pub enum Op {
    /// Write one byte to a socket register.
    Store { address: u16, value: u8 },
    /// Write a command, then wait for the command register to clear.
    Command(u8),
    /// Wait for the status register to show a value.
    AwaitStatus(u8),
}

/// Where the sequencer stands.
#[derive(Clone, Copy, Debug, PartialEq, Eq, Structural)]
pub enum Stage {
    /// Not started.
    Idle,
    /// A write was requested.
    AwaitWrite,
    /// A delay before the next poll was requested.
    Settle,
    /// A register read was requested.
    AwaitValue,
    /// The program has finished.
    Done,
}

/// Position in a program: the operation, the stage, and the polls left.
#[derive(Clone, Copy, Debug, PartialEq, Eq, Structural)]
pub struct Cursor {
    pub pc: usize,
    pub stage: Stage,
    pub tries_left: u8,
}

/// What the caller reports after performing a request.
#[derive(Clone, Copy, Debug, PartialEq, Eq, Structural)]
pub enum Event {
    /// Begin the program.
    Start,
    /// The requested write completed.
    Written,
    /// The requested read returned this byte.
    Value(u8),
    /// The requested delay has passed.
    Elapsed,
    /// The transaction failed on the bus.
    Fault,
}

/// Why a program did not complete.
#[derive(Clone, Copy, Debug, PartialEq, Eq, Structural)]
pub enum SocketError {
    /// A transaction failed on the bus.
    Transport,
    /// The command register still held this command after the last poll.
    CommandTimeout(u8),
    /// The status register never showed this value.
    StatusTimeout(u8),
    /// An event came that the sequencer was not waiting for.
    Unexpected,
}

/// What the sequencer asks the caller to do next.
#[derive(Clone, Copy, Debug, PartialEq, Eq, Structural)]
pub enum Request {
    /// Write `value` to socket register `address`, then report `Written`.
    Write { address: u16, value: u8 },
    /// Read socket register `address`, then report `Value`.
    Read { address: u16 },
    /// Wait this many milliseconds, then report `Elapsed`.
    Delay(u32),
    /// The program ran to its end.
    Completed,
    /// The program was given up.
    Failed(SocketError),
}

/// The request that starts operation `pc`, or success past the end.
pub open spec fn begin(prog: Seq<Op>, pc: int) -> (Cursor, Request) {
    if pc >= prog.len() {
        (Cursor { pc: pc as usize, stage: Stage::Done, tries_left: 0 }, Request::Completed)
    } else {
        match prog[pc] {
            Op::Store { address, value } => (
                Cursor { pc: pc as usize, stage: Stage::AwaitWrite, tries_left: 0 },
                Request::Write { address, value },
            ),
            Op::Command(c) => (
                Cursor { pc: pc as usize, stage: Stage::AwaitWrite, tries_left: 0 },
                Request::Write { address: S0_CR, value: c },
            ),
            Op::AwaitStatus(_) => (
                Cursor { pc: pc as usize, stage: Stage::AwaitValue, tries_left: MAX_RETRIES },
                Request::Read { address: S0_SR },
            ),
        }
    }
}

/// The register that an operation polls.
pub open spec fn polled_register(op: Op) -> u16 {
    match op {
        Op::Command(_) => S0_CR,
        _ => S0_SR,
    }
}

/// The value that ends an operation's polling.
pub open spec fn awaited_value(op: Op) -> u8 {
    match op {
        Op::AwaitStatus(s) => s,
        _ => 0,
    }
}

/// The error when an operation's polls run out.
pub open spec fn timeout_error(op: Op) -> SocketError {
    match op {
        Op::Command(c) => SocketError::CommandTimeout(c),
        Op::AwaitStatus(s) => SocketError::StatusTimeout(s),
        Op::Store { .. } => SocketError::Unexpected,
    }
}

/// The cursor that ends a program.
pub open spec fn finished(c: Cursor) -> Cursor {
    Cursor { pc: c.pc, stage: Stage::Done, tries_left: 0 }
}

/// One step of the sequencer: from cursor `c` on `prog`, after event `ev`,
/// the next cursor and the next request.
pub open spec fn transition(prog: Seq<Op>, c: Cursor, ev: Event) -> (Cursor, Request) {
    let stop = (finished(c), Request::Failed(SocketError::Unexpected));
    match c.stage {
        Stage::Idle => if ev == Event::Start {
            begin(prog, 0)
        } else {
            stop
        },
        Stage::Done => stop,
        _ => if ev == Event::Fault {
            (finished(c), Request::Failed(SocketError::Transport))
        } else if c.pc >= prog.len() {
            stop
        } else {
            let op = prog[c.pc as int];
            match c.stage {
                Stage::AwaitWrite => if ev != Event::Written {
                    stop
                } else if op is Command {
                    (
                        Cursor { stage: Stage::Settle, tries_left: MAX_RETRIES, ..c },
                        Request::Delay(POLL_INTERVAL_MS),
                    )
                } else {
                    begin(prog, c.pc + 1)
                },
                Stage::Settle => if ev == Event::Elapsed {
                    (
                        Cursor { stage: Stage::AwaitValue, ..c },
                        Request::Read { address: polled_register(op) },
                    )
                } else {
                    stop
                },
                _ => match ev {
                    Event::Value(v) => if v == awaited_value(op) {
                        begin(prog, c.pc + 1)
                    } else if c.tries_left == 0 {
                        (finished(c), Request::Failed(timeout_error(op)))
                    } else {
                        (
                            Cursor { stage: Stage::Settle, tries_left: (c.tries_left - 1) as u8, ..c },
                            Request::Delay(POLL_INTERVAL_MS),
                        )
                    },
                    _ => stop,
                },
            }
        },
    }
}

/// A program driven by the events its requests produce.
pub struct Sequencer {
    pub program: Vec<Op>,
    pub cursor: Cursor,
}

impl Sequencer {
    /// A sequencer that has not started `program`.
    pub fn new(program: Vec<Op>) -> (r: Sequencer)
        ensures
            r.program@ == program@,
            r.cursor == (Cursor { pc: 0, stage: Stage::Idle, tries_left: 0 }),
            cursor_ok(r.program@, r.cursor),
    {
        Sequencer { program, cursor: Cursor { pc: 0, stage: Stage::Idle, tries_left: 0 } }
    }

    fn begin(&self, pc: usize) -> (r: (Cursor, Request))
        requires
            pc <= self.program@.len(),
        ensures
            r == begin(self.program@, pc as int),
    {
        if pc >= self.program.len() {
            return (Cursor { pc, stage: Stage::Done, tries_left: 0 }, Request::Completed);
        }
        match self.program[pc] {
            Op::Store { address, value } => (
                Cursor { pc, stage: Stage::AwaitWrite, tries_left: 0 },
                Request::Write { address, value },
            ),
            Op::Command(c) => (
                Cursor { pc, stage: Stage::AwaitWrite, tries_left: 0 },
                Request::Write { address: S0_CR, value: c },
            ),
            Op::AwaitStatus(_) => (
                Cursor { pc, stage: Stage::AwaitValue, tries_left: MAX_RETRIES },
                Request::Read { address: S0_SR },
            ),
        }
    }

    /// Takes in what happened to the last request and returns the next one.
    pub fn step(&mut self, event: Event) -> (r: Request)
        ensures
            final(self).program@ == old(self).program@,
            (final(self).cursor, r) == transition(old(self).program@, old(self).cursor, event),
            cursor_ok(old(self).program@, old(self).cursor) && old(self).cursor.stage != Stage::Done
                ==> cursor_ok(final(self).program@, final(self).cursor) && (final(self).cursor.stage
                == Stage::Done || progress_measure(final(self).program@, final(self).cursor)
                < progress_measure(old(self).program@, old(self).cursor)),
    {
        let c = self.cursor;
        let n = self.program.len();
        proof {
            if cursor_ok(self.program@, self.cursor) && self.cursor.stage != Stage::Done {
                lemma_step_progress(self.program@, self.cursor, event);
            }
        }
        let stop = Cursor { pc: c.pc, stage: Stage::Done, tries_left: 0 };
        let (next, request) = match c.stage {
            Stage::Idle => if event == Event::Start {
                self.begin(0)
            } else {
                (stop, Request::Failed(SocketError::Unexpected))
            },
            Stage::Done => (stop, Request::Failed(SocketError::Unexpected)),
            _ => if event == Event::Fault {
                (stop, Request::Failed(SocketError::Transport))
            } else if c.pc >= n {
                (stop, Request::Failed(SocketError::Unexpected))
            } else {
                let op = self.program[c.pc];
                match c.stage {
                    Stage::AwaitWrite => if event != Event::Written {
                        (stop, Request::Failed(SocketError::Unexpected))
                    } else if let Op::Command(_) = op {
                        (
                            Cursor { pc: c.pc, stage: Stage::Settle, tries_left: MAX_RETRIES },
                            Request::Delay(POLL_INTERVAL_MS),
                        )
                    } else {
                        self.begin(c.pc + 1)
                    },
                    Stage::Settle => if event == Event::Elapsed {
                        let address = match op {
                            Op::Command(_) => S0_CR,
                            _ => S0_SR,
                        };
                        (
                            Cursor { pc: c.pc, stage: Stage::AwaitValue, tries_left: c.tries_left },
                            Request::Read { address },
                        )
                    } else {
                        (stop, Request::Failed(SocketError::Unexpected))
                    },
                    _ => match event {
                        Event::Value(v) => {
                            let (wanted, timeout) = match op {
                                Op::AwaitStatus(s) => (s, SocketError::StatusTimeout(s)),
                                Op::Command(cmd) => (0u8, SocketError::CommandTimeout(cmd)),
                                Op::Store { .. } => (0u8, SocketError::Unexpected),
                            };
                            if v == wanted {
                                self.begin(c.pc + 1)
                            } else if c.tries_left == 0 {
                                (stop, Request::Failed(timeout))
                            } else {
                                (
                                    Cursor {
                                        pc: c.pc,
                                        stage: Stage::Settle,
                                        tries_left: c.tries_left - 1,
                                    },
                                    Request::Delay(POLL_INTERVAL_MS),
                                )
                            }
                        },
                        _ => (stop, Request::Failed(SocketError::Unexpected)),
                    },
                }
            },
        };
        self.cursor = next;
        request
    }
}

impl Request {
    /// The controller transaction that performs this request, for the two
    /// requests that are transactions.
    pub fn transaction(&self) -> (r: Option<Transaction>)
        ensures
            match *self {
                Request::Write { address, value } => r is Some && r.unwrap().block
                    == crate::wire::Block::SocketRegisters && r.unwrap().phase
                    == crate::wire::Phase::Write && r.unwrap().address == address
                    && r.unwrap().payload@ == seq![value],
                Request::Read { address } => r is Some && r.unwrap().block
                    == crate::wire::Block::SocketRegisters && r.unwrap().phase
                    == crate::wire::Phase::Read && r.unwrap().address == address
                    && r.unwrap().payload@ == crate::wire::zeros(1),
                _ => r is None,
            },
    {
        match self {
            Request::Write { address, value } => Some(write_socket(*address, *value)),
            Request::Read { address } => Some(read_socket(*address)),
            _ => None,
        }
    }
}

/// The reopen program: close and wait for Closed, set TCP mode and the
/// source port, open and wait for Init, listen and wait for Listening.
pub open spec fn reopen_ops() -> Seq<Op> {
    seq![
        Op::Command(CMD_CLOSE),
        Op::AwaitStatus(STATUS_CLOSED),
        Op::Store { address: S0_MR, value: MODE_TCP },
        Op::Store { address: S0_PORT0, value: 0x01 },
        Op::Store { address: (S0_PORT0 + 1) as u16, value: 0xF6 },
        Op::Command(CMD_OPEN),
        Op::AwaitStatus(STATUS_INIT),
        Op::Command(CMD_LISTEN),
        Op::AwaitStatus(STATUS_LISTEN),
    ]
}

/// Builds the reopen program; the source port bytes are 502 big-endian.
pub fn reopen_program() -> (r: Vec<Op>)
    ensures
        r@ == reopen_ops(),
{
    let r: Vec<Op> = vec![
        Op::Command(CMD_CLOSE),
        Op::AwaitStatus(STATUS_CLOSED),
        Op::Store { address: S0_MR, value: MODE_TCP },
        Op::Store { address: S0_PORT0, value: 0x01 },
        Op::Store { address: S0_PORT0 + 1, value: 0xF6 },
        Op::Command(CMD_OPEN),
        Op::AwaitStatus(STATUS_INIT),
        Op::Command(CMD_LISTEN),
        Op::AwaitStatus(STATUS_LISTEN),
    ];
    assert(r@ =~= reopen_ops());
    r
}

/// Issues one command and waits for it to be taken.
pub fn command_program(command: u8) -> (r: Vec<Op>)
    ensures
        r@ == seq![Op::Command(command)],
{
    let r: Vec<Op> = vec![Op::Command(command)];
    assert(r@ =~= seq![Op::Command(command)]);
    r
}

/// Issues the Close command (a peer closed the connection).
pub fn close_program() -> (r: Vec<Op>)
    ensures
        r@ == seq![Op::Command(CMD_CLOSE)],
{
    command_program(CMD_CLOSE)
}

/// Issues the Listen command (the socket is open but not listening).
pub fn listen_program() -> (r: Vec<Op>)
    ensures
        r@ == seq![Op::Command(CMD_LISTEN)],
{
    command_program(CMD_LISTEN)
}

/// Requests per operation that the progress measure sets aside.
pub open spec fn op_weight() -> nat {
    2 * MAX_RETRIES as nat + 4
}

/// A cursor that fits its program.
pub open spec fn cursor_ok(prog: Seq<Op>, c: Cursor) -> bool {
    &&& c.pc <= prog.len()
    &&& c.tries_left <= MAX_RETRIES
    &&& (c.stage == Stage::AwaitWrite || c.stage == Stage::Settle || c.stage == Stage::AwaitValue)
        ==> c.pc < prog.len()
    &&& c.stage == Stage::Idle ==> c.pc == 0
    &&& (c.stage == Stage::Settle || c.stage == Stage::AwaitValue) ==> !(prog[c.pc as int] is Store)
    &&& c.stage == Stage::AwaitWrite ==> !(prog[c.pc as int] is AwaitStatus)
}

/// An upper bound on the requests that remain before the program ends.
pub open spec fn progress_measure(prog: Seq<Op>, c: Cursor) -> nat {
    match c.stage {
        Stage::Done => 0,
        Stage::Idle => prog.len() * op_weight() + 1,
        Stage::AwaitWrite => ((prog.len() - c.pc - 1) * op_weight() + op_weight() - 1) as nat,
        Stage::Settle => ((prog.len() - c.pc - 1) * op_weight() + 2 * c.tries_left + 2) as nat,
        Stage::AwaitValue => ((prog.len() - c.pc - 1) * op_weight() + 2 * c.tries_left + 1) as nat,
    }
}

proof fn lemma_begin(prog: Seq<Op>, pc: int)
    requires
        0 <= pc <= prog.len(),
        prog.len() <= usize::MAX,
    ensures
        cursor_ok(prog, begin(prog, pc).0),
        begin(prog, pc).0.stage == Stage::Done <==> begin(prog, pc).1 is Completed,
        begin(prog, pc).1 is Failed ==> false,
        begin(prog, pc).0.stage != Stage::Done ==> progress_measure(prog, begin(prog, pc).0) < (
        prog.len() - pc) * op_weight(),
        begin(prog, pc).0.stage != Stage::Done ==> begin(prog, pc).0.pc == pc,
{
    if pc < prog.len() {
        assert((prog.len() - pc - 1) * op_weight() + op_weight() == (prog.len() - pc) * op_weight())
            by (nonlinear_arith);
    }
}

/// Every step from a started, unfinished cursor either ends the program, with
/// `Completed` or `Failed`, or strictly lowers the progress measure. A program
/// of `n` operations therefore ends after at most `n * op_weight() + 1`
/// requests, whatever the controller answers.
pub proof fn lemma_step_progress(prog: Seq<Op>, c: Cursor, ev: Event)
    requires
        prog.len() <= usize::MAX,
        cursor_ok(prog, c),
        c.stage != Stage::Done,
    ensures
        cursor_ok(prog, transition(prog, c, ev).0),
        transition(prog, c, ev).0.stage == Stage::Done <==> (transition(prog, c, ev).1 is Completed
            || transition(prog, c, ev).1 is Failed),
        transition(prog, c, ev).0.stage == Stage::Done || progress_measure(
            prog,
            transition(prog, c, ev).0,
        ) < progress_measure(prog, c),
{
    let w = op_weight();
    match c.stage {
        Stage::Idle => {
            lemma_begin(prog, 0);
        },
        _ => {
            if ev != Event::Fault && c.pc < prog.len() {
                lemma_begin(prog, c.pc + 1);
                assert((prog.len() - c.pc - 1) * w >= 0) by (nonlinear_arith)
                    requires
                        c.pc < prog.len(),
                ;
            }
        },
    }
}

/// What completes operation `op` from `stage` on event `ev`.
pub open spec fn completes(op: Op, stage: Stage, ev: Event) -> bool {
    match op {
        Op::Store { .. } => stage == Stage::AwaitWrite && ev == Event::Written,
        Op::Command(_) => stage == Stage::AwaitValue && ev == Event::Value(0),
        Op::AwaitStatus(s) => stage == Stage::AwaitValue && ev == Event::Value(s),
    }
}

/// A program completes only on the step that completes its last operation
/// (or at the start, when it is empty).
pub proof fn lemma_completed_at_end(prog: Seq<Op>, c: Cursor, ev: Event)
    requires
        cursor_ok(prog, c),
        transition(prog, c, ev).1 is Completed,
    ensures
        (c.stage == Stage::Idle && prog.len() == 0) || (c.pc == prog.len() - 1 && completes(
            prog[c.pc as int],
            c.stage,
            ev,
        )),
{
}

/// The reopen program reports completion only on the step where the status
/// register was read back as Listening.
pub proof fn lemma_reopen_completes_listening(c: Cursor, ev: Event)
    requires
        cursor_ok(reopen_ops(), c),
        transition(reopen_ops(), c, ev).1 is Completed,
    ensures
        ev == Event::Value(STATUS_LISTEN),
        c.pc == 8 && c.stage == Stage::AwaitValue,
{
    lemma_completed_at_end(reopen_ops(), c, ev);
}

/// A reopen started from a new sequencer ends, whatever the controller
/// answers, after at most 397 requests: the progress measure starts there, and
/// every step that does not end the program lowers it.
pub proof fn lemma_reopen_bounded(c: Cursor, ev: Event)
    requires
        cursor_ok(reopen_ops(), c),
        c.stage != Stage::Done,
    ensures
        progress_measure(reopen_ops(), Cursor { pc: 0, stage: Stage::Idle, tries_left: 0 }) == 397,
        progress_measure(reopen_ops(), c) <= 397,
        cursor_ok(reopen_ops(), transition(reopen_ops(), c, ev).0),
        transition(reopen_ops(), c, ev).0.stage == Stage::Done || progress_measure(
            reopen_ops(),
            transition(reopen_ops(), c, ev).0,
        ) < progress_measure(reopen_ops(), c),
{
    assert(reopen_ops().len() == 9);
    lemma_step_progress(reopen_ops(), c, ev);
    if c.stage != Stage::Idle {
        assert((9 - c.pc - 1) * op_weight() <= 8 * op_weight()) by (nonlinear_arith)
            requires
                c.pc < 9,
        ;
    }
}

} // verus!
