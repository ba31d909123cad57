//! Byte-stream I/O over the socket's ring buffers: how many bytes a receive
//! takes and where, and what a send writes, with the pointer updates and the
//! completing command that follow each. Ring pointers wrap modulo 2^16.
use vstd::prelude::*;
use crate::bytes::{hi_byte, lo_byte, word_to_be};
use crate::sequencer::Op;
use crate::socket::{S0_RX_RD0, S0_TX_WR0, CMD_RECV, CMD_SEND};
use crate::wire::{Block, Phase, Transaction, read_rx_buffer, write_tx_buffer, zeros};

verus! {

/// A ring pointer advanced by `n` bytes.
pub open spec fn advanced(pointer: u16, n: int) -> u16 {
    ((pointer + n) % 65536) as u16
}

/// The operations that store a new pointer in the two-byte register at
/// `register` and then issue `command`.
pub open spec fn commit_ops(register: u16, pointer: u16, command: u8) -> Seq<Op> {
    seq![
        Op::Store { address: register, value: hi_byte(pointer) },
        Op::Store { address: (register + 1) as u16, value: lo_byte(pointer) },
        Op::Command(command),
    ]
}

/// Advances a ring pointer by `n` bytes, wrapping modulo 2^16.
pub fn advance_pointer(pointer: u16, n: usize) -> (r: u16)
    ensures
        r == advanced(pointer, n as int),
{
    let step = (n % 65536) as u16;
    let r = pointer.wrapping_add(step);
    assert(r == advanced(pointer, n as int));
    r
}

fn commit_program(register: u16, pointer: u16, command: u8) -> (r: Vec<Op>)
    requires
        register < 0xFFFF,
    ensures
        r@ == commit_ops(register, pointer, command),
{
    let b = word_to_be(pointer);
    let r: Vec<Op> = vec![
        Op::Store { address: register, value: b[0] },
        Op::Store { address: register + 1, value: b[1] },
        Op::Command(command),
    ];
    assert(r@ =~= commit_ops(register, pointer, command));
    r
}

/// One receive: how many bytes to take, the buffer read that takes them, and
/// the program that stores the advanced read pointer and issues Recv.
pub struct ReceivePlan {
    pub count: usize,
    pub buffer_read: Transaction,
    pub finish: Vec<Op>,
}

/// Plans a receive of the `available` bytes at `read_pointer` into a buffer of
/// `capacity` bytes: as many as fit (possibly none) are taken, then the read
/// pointer is written back and Recv issued. Nothing to do (`None`) only when
/// no byte is available.
pub fn plan_receive(available: u16, read_pointer: u16, capacity: usize) -> (r: Option<ReceivePlan>)
    ensures
        available == 0 <==> r is None,
        r is Some ==> {
            let p = r.unwrap();
            &&& p.count == if available as int <= capacity as int {
                available as int
            } else {
                capacity as int
            }
            &&& p.buffer_read.block == Block::SocketRx && p.buffer_read.phase == Phase::Read
            &&& p.buffer_read.address == read_pointer
            &&& p.buffer_read.payload@ == zeros(p.count as nat)
            &&& p.finish@ == commit_ops(S0_RX_RD0, advanced(read_pointer, p.count as int), CMD_RECV)
        },
{
    if available == 0 {
        return None;
    }
    let count: usize = if (available as usize) <= capacity {
        available as usize
    } else {
        capacity
    };
    let next = advance_pointer(read_pointer, count);
    Some(ReceivePlan {
        count,
        buffer_read: read_rx_buffer(read_pointer, count),
        finish: commit_program(S0_RX_RD0, next, CMD_RECV),
    })
}

/// One send: the buffer write and the program that stores the advanced write
/// pointer and issues Send.
pub struct SendPlan {
    pub buffer_write: Transaction,
    pub finish: Vec<Op>,
}

/// Plans sending `data` from write pointer `write_pointer`; nothing to do
/// (`None`) when `data` is empty.
pub fn plan_send(write_pointer: u16, data: &[u8]) -> (r: Option<SendPlan>)
    ensures
        data@.len() == 0 <==> r is None,
        r is Some ==> {
            let p = r.unwrap();
            &&& p.buffer_write.block == Block::SocketTx && p.buffer_write.phase == Phase::Write
            &&& p.buffer_write.address == write_pointer
            &&& p.buffer_write.payload@ == data@
            &&& p.finish@ == commit_ops(S0_TX_WR0, advanced(write_pointer, data@.len() as int), CMD_SEND)
        },
{
    if data.len() == 0 {
        return None;
    }
    let next = advance_pointer(write_pointer, data.len());
    Some(SendPlan {
        buffer_write: write_tx_buffer(write_pointer, data),
        finish: commit_program(S0_TX_WR0, next, CMD_SEND),
    })
}

} // verus!
