use modbus_node::bytes::{word_from_be, word_to_be};
use modbus_node::sequencer::{
    close_program, listen_program, reopen_program, Event, Op, Request, Sequencer, SocketError,
};
use modbus_node::session::refresh_due;
use modbus_node::socket::{
    PollAction, SocketState, CMD_CLOSE, CMD_LISTEN, CMD_OPEN, CMD_RECV, CMD_SEND, MAX_RETRIES,
    MODE_TCP, S0_CR, S0_MR, S0_PORT0, S0_RX_RD0, S0_SR, S0_TX_WR0, STATUS_CLOSED,
    STATUS_CLOSE_WAIT, STATUS_ESTABLISHED, STATUS_INIT, STATUS_LISTEN,
};
use modbus_node::stream::{advance_pointer, plan_receive, plan_send};
use modbus_node::wire::{
    control_byte, network_config, read_common, read_rx_buffer, read_socket, version_ok,
    write_common, write_socket, write_socket_multi, write_tx_buffer, Block, Phase,
    TransportError, GAR0, SHAR0, SIPR0, SUBR0, VERSIONR,
};

/// A controller that answers SPI frames from a socket register file.
struct SimController {
    regs: [u8; 0x30],
    /// When set, the command register never clears and commands have no effect.
    stuck: bool,
    reads: usize,
}

impl SimController {
    fn new(status: u8, stuck: bool) -> Self {
        let mut regs = [0u8; 0x30];
        regs[S0_SR as usize] = status;
        SimController { regs, stuck, reads: 0 }
    }

    /// Clocks one frame through the controller; returns what came back.
    fn transfer(&mut self, frame: &[u8]) -> Vec<u8> {
        let address = u16::from_be_bytes([frame[0], frame[1]]) as usize;
        let control = frame[2];
        assert_eq!(control >> 3, 0x01, "socket register block");
        assert_eq!(control & 0x03, 0, "variable-length mode");
        let mut back = vec![0u8; frame.len()];
        if control & 0x04 != 0 {
            for (i, b) in frame[3..].iter().enumerate() {
                self.write(address + i, *b);
            }
        } else {
            self.reads += 1;
            for i in 0..frame.len() - 3 {
                back[3 + i] = self.regs[address + i];
            }
        }
        back
    }

    fn write(&mut self, address: usize, value: u8) {
        if address != S0_CR as usize {
            self.regs[address] = value;
            return;
        }
        self.regs[address] = value;
        if self.stuck {
            return;
        }
        let sr = S0_SR as usize;
        match value {
            CMD_CLOSE => self.regs[sr] = STATUS_CLOSED,
            CMD_OPEN if self.regs[S0_MR as usize] == MODE_TCP => self.regs[sr] = STATUS_INIT,
            CMD_LISTEN if self.regs[sr] == STATUS_INIT => self.regs[sr] = STATUS_LISTEN,
            _ => {}
        }
        self.regs[address] = 0;
    }
}

/// Runs a program against the simulated controller through the wire frames.
fn run(program: Vec<Op>, sim: &mut SimController) -> (Request, usize) {
    let mut seq = Sequencer::new(program);
    let mut event = Event::Start;
    let mut steps = 0;
    loop {
        let request = seq.step(event);
        steps += 1;
        event = match request {
            Request::Write { .. } => {
                let t = request.transaction().unwrap();
                sim.transfer(&t.frame());
                Event::Written
            }
            Request::Read { .. } => {
                let t = request.transaction().unwrap();
                let back = sim.transfer(&t.frame());
                Event::Value(t.read_byte(&back).unwrap())
            }
            Request::Delay(_) => Event::Elapsed,
            Request::Completed | Request::Failed(_) => return (request, steps),
        };
    }
}

#[test]
fn word_bytes_round_trip() {
    assert_eq!(word_from_be(0x01, 0xF6), 502);
    assert_eq!(word_to_be(0xABCD), [0xAB, 0xCD]);
    assert_eq!(word_from_be(0xFF, 0xFF), u16::MAX);
}

#[test]
fn control_bytes_for_each_block() {
    assert_eq!(control_byte(Block::Common, Phase::Read), 0x00);
    assert_eq!(control_byte(Block::Common, Phase::Write), 0x04);
    assert_eq!(control_byte(Block::SocketRegisters, Phase::Read), 0x08);
    assert_eq!(control_byte(Block::SocketRegisters, Phase::Write), 0x0C);
    assert_eq!(control_byte(Block::SocketTx, Phase::Write), 0x14);
    assert_eq!(control_byte(Block::SocketRx, Phase::Read), 0x18);
}

#[test]
fn register_access_frames() {
    assert_eq!(read_common(VERSIONR).frame(), vec![0x00, 0x39, 0x00, 0x00]);
    assert_eq!(write_common(SIPR0, &[10, 10, 10, 200]).frame(), vec![0x00, 0x0F, 0x04, 10, 10, 10, 200]);
    assert_eq!(read_socket(S0_SR).frame(), vec![0x00, 0x03, 0x08, 0x00]);
    assert_eq!(write_socket(S0_CR, CMD_OPEN).frame(), vec![0x00, 0x01, 0x0C, 0x01]);
    assert_eq!(write_socket_multi(S0_PORT0, &[0x01, 0xF6]).frame(), vec![0x00, 0x04, 0x0C, 0x01, 0xF6]);
    assert_eq!(read_rx_buffer(0x1234, 3).frame(), vec![0x12, 0x34, 0x18, 0, 0, 0]);
    assert_eq!(write_tx_buffer(0xFFFE, &[7, 8]).frame(), vec![0xFF, 0xFE, 0x14, 7, 8]);
}

#[test]
fn read_back_data_follows_header() {
    let t = read_rx_buffer(0, 3);
    assert_eq!(t.read_data(&[9, 9, 9, 1, 2, 3]), Ok(vec![1, 2, 3]));
    assert_eq!(t.read_data(&[9, 9, 9, 1, 2]), Err(TransportError::ShortResponse));
    let r = read_socket(S0_SR);
    assert_eq!(r.read_byte(&[0, 0, 0, 0x17]), Ok(0x17));
    assert_eq!(r.read_byte(&[0, 0, 0]), Err(TransportError::ShortResponse));
}

#[test]
fn version_check() {
    assert!(version_ok(0x04));
    assert!(!version_ok(0x03));
}

#[test]
fn network_config_writes_in_order() {
    let ts = network_config(&[10, 10, 10, 1], &[255, 255, 255, 0], &[2, 0, 0, 0, 0, 0x20], &[10, 10, 10, 200]);
    let frames: Vec<Vec<u8>> = ts.iter().map(|t| t.frame()).collect();
    assert_eq!(frames[0], vec![0x00, GAR0 as u8, 0x04, 10, 10, 10, 1]);
    assert_eq!(frames[1], vec![0x00, SUBR0 as u8, 0x04, 255, 255, 255, 0]);
    assert_eq!(frames[2], vec![0x00, SHAR0 as u8, 0x04, 2, 0, 0, 0, 0, 0x20]);
    assert_eq!(frames[3], vec![0x00, SIPR0 as u8, 0x04, 10, 10, 10, 200]);
}

#[test]
fn status_decoding_and_actions() {
    let cases = [
        (STATUS_CLOSED, SocketState::Closed, PollAction::Reopen),
        (STATUS_INIT, SocketState::Init, PollAction::Listen),
        (STATUS_LISTEN, SocketState::Listening, PollAction::Idle),
        (STATUS_ESTABLISHED, SocketState::Established, PollAction::Serve),
        (STATUS_CLOSE_WAIT, SocketState::CloseWait, PollAction::Close),
        (0x15, SocketState::Transitional(0x15), PollAction::Wait),
    ];
    for (raw, state, action) in cases {
        let s = SocketState::from_status(raw);
        assert_eq!(s, state);
        assert_eq!(s.action(), action);
        assert_eq!(s.is_connected(), raw == STATUS_ESTABLISHED);
    }
}

#[test]
fn pointer_advance_wraps() {
    assert_eq!(advance_pointer(0xFFF0, 0x20), 0x0010);
    assert_eq!(advance_pointer(5, 0), 5);
    assert_eq!(advance_pointer(1, 0x1_0000), 1);
}

#[test]
fn receive_plan_takes_what_fits() {
    assert!(plan_receive(0, 0x100, 260).is_none());
    let empty = plan_receive(12, 0x100, 0).unwrap();
    assert_eq!(empty.count, 0);
    assert_eq!(empty.buffer_read.payload.len(), 0);
    assert_eq!(
        empty.finish,
        vec![
            Op::Store { address: S0_RX_RD0, value: 0x01 },
            Op::Store { address: S0_RX_RD0 + 1, value: 0x00 },
            Op::Command(CMD_RECV),
        ]
    );
    let p = plan_receive(300, 0xFFF0, 260).unwrap();
    assert_eq!(p.count, 260);
    assert_eq!(p.buffer_read.address, 0xFFF0);
    assert_eq!(p.buffer_read.payload.len(), 260);
    assert_eq!(
        p.finish,
        vec![
            Op::Store { address: S0_RX_RD0, value: 0x00 },
            Op::Store { address: S0_RX_RD0 + 1, value: 0xF4 },
            Op::Command(CMD_RECV),
        ]
    );
    let q = plan_receive(12, 0x0100, 260).unwrap();
    assert_eq!(q.count, 12);
    assert_eq!(q.finish[1], Op::Store { address: S0_RX_RD0 + 1, value: 0x0C });
}

#[test]
fn send_plan_writes_and_advances() {
    assert!(plan_send(0, &[]).is_none());
    let p = plan_send(0x12FF, &[1, 2, 3]).unwrap();
    assert_eq!(p.buffer_write.frame(), vec![0x12, 0xFF, 0x14, 1, 2, 3]);
    assert_eq!(
        p.finish,
        vec![
            Op::Store { address: S0_TX_WR0, value: 0x13 },
            Op::Store { address: S0_TX_WR0 + 1, value: 0x02 },
            Op::Command(CMD_SEND),
        ]
    );
}

#[test]
fn reopen_from_closed_reaches_listening() {
    let mut sim = SimController::new(STATUS_CLOSED, false);
    let (result, steps) = run(reopen_program(), &mut sim);
    assert_eq!(result, Request::Completed);
    assert_eq!(sim.regs[S0_SR as usize], STATUS_LISTEN);
    assert_eq!(sim.regs[S0_MR as usize], MODE_TCP);
    assert_eq!(sim.regs[S0_PORT0 as usize..S0_PORT0 as usize + 2], [0x01, 0xF6]);
    let budget = 9 * (2 * MAX_RETRIES as usize + 4) + 1;
    assert!(steps <= budget);
}

#[test]
fn reopen_with_stuck_command_register_fails() {
    let mut sim = SimController::new(STATUS_CLOSED, true);
    let (result, _) = run(reopen_program(), &mut sim);
    assert_eq!(result, Request::Failed(SocketError::CommandTimeout(CMD_CLOSE)));
    assert_eq!(sim.reads, MAX_RETRIES as usize + 1);
}

#[test]
fn status_wait_times_out() {
    let mut seq = Sequencer::new(vec![Op::AwaitStatus(STATUS_LISTEN)]);
    let mut request = seq.step(Event::Start);
    let mut reads = 0;
    loop {
        request = match request {
            Request::Read { address } => {
                assert_eq!(address, S0_SR);
                reads += 1;
                seq.step(Event::Value(STATUS_INIT))
            }
            Request::Delay(_) => seq.step(Event::Elapsed),
            _ => break,
        };
    }
    assert_eq!(request, Request::Failed(SocketError::StatusTimeout(STATUS_LISTEN)));
    assert_eq!(reads, MAX_RETRIES as usize + 1);
}

#[test]
fn bus_fault_ends_program() {
    let mut seq = Sequencer::new(reopen_program());
    assert_eq!(seq.step(Event::Start), Request::Write { address: S0_CR, value: CMD_CLOSE });
    assert_eq!(seq.step(Event::Fault), Request::Failed(SocketError::Transport));
    assert_eq!(seq.step(Event::Written), Request::Failed(SocketError::Unexpected));
}

#[test]
fn close_and_listen_programs() {
    let mut sim = SimController::new(STATUS_INIT, false);
    assert_eq!(run(listen_program(), &mut sim).0, Request::Completed);
    assert_eq!(sim.regs[S0_SR as usize], STATUS_LISTEN);
    assert_eq!(run(close_program(), &mut sim).0, Request::Completed);
    assert_eq!(sim.regs[S0_SR as usize], STATUS_CLOSED);
}

#[test]
fn refresh_every_fourth_round() {
    assert!(refresh_due(0));
    assert!(!refresh_due(1));
    assert!(!refresh_due(3));
    assert!(refresh_due(4));
    assert!(refresh_due(u32::MAX - 3));
}
