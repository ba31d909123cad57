//! Socket lifecycle of the one TCP listening socket: its states as the status
//! register shows them, what the polling loop does in each, and a sequencer
//! that runs register programs (command, then bounded polling) one request at
//! a time. The caller performs each request and reports what happened.
use vstd::prelude::*;

verus! {

/// Socket 0 mode register.
pub const S0_MR: u16 = 0x0000;
/// Socket 0 command register.
pub const S0_CR: u16 = 0x0001;
/// Socket 0 status register.
pub const S0_SR: u16 = 0x0003;
/// Socket 0 source port, two bytes.
pub const S0_PORT0: u16 = 0x0004;
/// Socket 0 transmit write pointer, two bytes.
pub const S0_TX_WR0: u16 = 0x0024;
/// Socket 0 received size, two bytes.
pub const S0_RX_RSR0: u16 = 0x0026;
/// Socket 0 receive read pointer, two bytes.
pub const S0_RX_RD0: u16 = 0x0028;

/// Mode register value for TCP.
pub const MODE_TCP: u8 = 0x01;

pub const CMD_OPEN: u8 = 0x01;
pub const CMD_LISTEN: u8 = 0x02;
pub const CMD_CLOSE: u8 = 0x10;
pub const CMD_SEND: u8 = 0x20;
pub const CMD_RECV: u8 = 0x40;

pub const STATUS_CLOSED: u8 = 0x00;
pub const STATUS_INIT: u8 = 0x13;
pub const STATUS_LISTEN: u8 = 0x14;
pub const STATUS_ESTABLISHED: u8 = 0x17;
pub const STATUS_CLOSE_WAIT: u8 = 0x1C;

/// TCP port the socket listens on.
pub const MODBUS_PORT: u16 = 502;
/// Delay between two polls of a register, in milliseconds.
pub const POLL_INTERVAL_MS: u32 = 10;
/// Polls allowed after the first before a wait is given up.
pub const MAX_RETRIES: u8 = 20;

/// Connection state as the status register reports it.
#[derive(Clone, Copy, Debug, PartialEq, Eq, Structural)]
pub enum SocketState {
    Closed,
    Init,
    Listening,
    Established,
    CloseWait,
    /// Any other status (connecting, closing, ...), with its raw value.
    Transitional(u8),
}

/// The state that status value `raw` denotes.
pub open spec fn state_of(raw: u8) -> SocketState {
    if raw == STATUS_CLOSED {
        SocketState::Closed
    } else if raw == STATUS_INIT {
        SocketState::Init
    } else if raw == STATUS_LISTEN {
        SocketState::Listening
    } else if raw == STATUS_ESTABLISHED {
        SocketState::Established
    } else if raw == STATUS_CLOSE_WAIT {
        SocketState::CloseWait
    } else {
        SocketState::Transitional(raw)
    }
}

/// What the polling loop does about the socket in one state.
#[derive(Clone, Copy, Debug, PartialEq, Eq, Structural)]
pub enum PollAction {
    /// Run the reopen program.
    Reopen,
    /// Issue the Listen command.
    Listen,
    /// Wait for a peer.
    Idle,
    /// Drain pending inbound bytes through the protocol engine.
    Serve,
    /// Issue the Close command.
    Close,
    /// Do nothing this round.
    Wait,
}

/// The action for each state.
pub open spec fn action_of(s: SocketState) -> PollAction {
    match s {
        SocketState::Closed => PollAction::Reopen,
        SocketState::Init => PollAction::Listen,
        SocketState::Listening => PollAction::Idle,
        SocketState::Established => PollAction::Serve,
        SocketState::CloseWait => PollAction::Close,
        SocketState::Transitional(_) => PollAction::Wait,
    }
}

impl SocketState {
    /// Decodes the status register.
    pub fn from_status(raw: u8) -> (r: SocketState)
        ensures
            r == state_of(raw),
    {
        if raw == STATUS_CLOSED {
            SocketState::Closed
        } else if raw == STATUS_INIT {
            SocketState::Init
        } else if raw == STATUS_LISTEN {
            SocketState::Listening
        } else if raw == STATUS_ESTABLISHED {
            SocketState::Established
        } else if raw == STATUS_CLOSE_WAIT {
            SocketState::CloseWait
        } else {
            SocketState::Transitional(raw)
        }
    }

    /// What the polling loop does in this state.
    pub fn action(&self) -> (r: PollAction)
        ensures
            r == action_of(*self),
    {
        match self {
            SocketState::Closed => PollAction::Reopen,
            SocketState::Init => PollAction::Listen,
            SocketState::Listening => PollAction::Idle,
            SocketState::Established => PollAction::Serve,
            SocketState::CloseWait => PollAction::Close,
            SocketState::Transitional(_) => PollAction::Wait,
        }
    }

    /// Whether a peer is connected.
    pub fn is_connected(&self) -> (r: bool)
        ensures
            r == (*self == SocketState::Established),
    {
        match self {
            SocketState::Established => true,
            _ => false,
        }
    }
}

} // verus!
