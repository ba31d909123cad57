//! Controller transport and register access: how one transaction with the
//! Ethernet controller is framed on SPI, and how the bytes clocked back are
//! read. Performing the transfer itself is the caller's part.
use vstd::prelude::*;
use crate::bytes::{hi_byte, lo_byte, word_to_be};

verus! {

/// Control-byte phase bit of a read.
pub const PHASE_READ: u8 = 0x00;
/// Control-byte phase bit of a write.
pub const PHASE_WRITE: u8 = 0x04;
/// Number of bytes that precede the payload: address (2) and control (1).
pub const FRAME_HEADER_LEN: usize = 3;

/// The address space that a transaction targets.
#[derive(Clone, Copy, Debug, PartialEq, Eq, Structural)]
pub enum Block {
    /// Common registers.
    Common,
    /// Socket 0 registers.
    SocketRegisters,
    /// Socket 0 transmit buffer.
    SocketTx,
    /// Socket 0 receive buffer.
    SocketRx,
}

/// Block-select value of an address space.
pub open spec fn block_code(b: Block) -> u8 {
    match b {
        Block::Common => 0x00,
        Block::SocketRegisters => 0x01,
        Block::SocketTx => 0x02,
        Block::SocketRx => 0x03,
    }
}

impl Block {
    /// Block-select value of this address space.
    pub fn code(&self) -> (r: u8)
        ensures
            r == block_code(*self),
    {
        match self {
            Block::Common => 0x00,
            Block::SocketRegisters => 0x01,
            Block::SocketTx => 0x02,
            Block::SocketRx => 0x03,
        }
    }
}

/// Direction of a transaction.
#[derive(Clone, Copy, Debug, PartialEq, Eq, Structural)]
pub enum Phase {
    Read,
    Write,
}

/// Control byte: block select in bits 7..3, the phase bit, and variable-length
/// mode (bits 1..0 zero).
pub open spec fn control_of(b: Block, p: Phase) -> u8 {
    (block_code(b) * 8 + if p == Phase::Write {
        4u8
    } else {
        0u8
    }) as u8
}

/// Computes the control byte of a transaction.
pub fn control_byte(block: Block, phase: Phase) -> (r: u8)
    ensures
        r == control_of(block, phase),
{
    let code = block.code();
    let bit = match phase {
        Phase::Read => PHASE_READ,
        Phase::Write => PHASE_WRITE,
    };
    assert(code < 4);
    assert(code < 4 && (bit == 0 || bit == 4) ==> (code << 3u8) | bit == code * 8 + bit)
        by (bit_vector);
    (code << 3u8) | bit
}

/// Failure of a transaction.
#[derive(Clone, Copy, Debug, PartialEq, Eq, Structural)]
pub enum TransportError {
    /// The SPI transfer itself failed.
    Bus,
    /// Fewer bytes came back than the frame holds.
    ShortResponse,
}

/// One transaction with the controller. For a write the payload is the data;
/// for a read it is as many placeholder bytes as are to be read.
pub struct Transaction {
    pub block: Block,
    pub phase: Phase,
    pub address: u16,
    pub payload: Vec<u8>,
}

/// The bytes put on the wire for a transaction.
pub open spec fn frame_bytes(block: Block, phase: Phase, address: u16, payload: Seq<u8>) -> Seq<
    u8,
> {
    seq![hi_byte(address), lo_byte(address), control_of(block, phase)] + payload
}

/// `n` zero bytes.
pub open spec fn zeros(n: nat) -> Seq<u8> {
    Seq::new(n, |i: int| 0u8)
}

impl Transaction {
    /// The bytes to clock out for this transaction.
    pub fn frame(&self) -> (r: Vec<u8>)
        ensures
            r@ == frame_bytes(self.block, self.phase, self.address, self.payload@),
    {
        let a = word_to_be(self.address);
        let mut out: Vec<u8> = vec![a[0], a[1], control_byte(self.block, self.phase)];
        let n = self.payload.len();
        let mut i: usize = 0;
        while i < n
            invariant
                n == self.payload@.len(),
                i <= n,
                out@ == seq![hi_byte(self.address), lo_byte(self.address), control_of(self.block, self.phase)]
                    + self.payload@.subrange(0, i as int),
            decreases n - i,
        {
            out.push(self.payload[i]);
            i = i + 1;
            assert(out@ =~= seq![hi_byte(self.address), lo_byte(self.address), control_of(self.block, self.phase)]
                + self.payload@.subrange(0, i as int));
        }
        assert(self.payload@.subrange(0, n as int) =~= self.payload@);
        out
    }

    /// The data that a read returned, taken from the bytes clocked back
    /// during the whole frame: everything after the address and control bytes.
    pub fn read_data(&self, received: &[u8]) -> (r: Result<Vec<u8>, TransportError>)
        ensures
            received@.len() < 3 + self.payload@.len() ==> r == Err::<Vec<u8>, TransportError>(
                TransportError::ShortResponse,
            ),
            received@.len() >= 3 + self.payload@.len() ==> r is Ok && r.unwrap()@
                == received@.subrange(3, 3 + self.payload@.len() as int),
    {
        let n = self.payload.len();
        if received.len() < FRAME_HEADER_LEN || received.len() - FRAME_HEADER_LEN < n {
            return Err(TransportError::ShortResponse);
        }
        let mut out: Vec<u8> = Vec::new();
        let mut i: usize = 0;
        while i < n
            invariant
                n == self.payload@.len(),
                received@.len() >= 3 + n,
                received@.len() == received.len(),
                i <= n,
                out@ == received@.subrange(3, 3 + i),
            decreases n - i,
        {
            let k: usize = i + 3;
            out.push(received[k]);
            i = i + 1;
            assert(out@ =~= received@.subrange(3, 3 + i));
        }
        Ok(out)
    }

    /// The single byte that a one-byte register read returned.
    pub fn read_byte(&self, received: &[u8]) -> (r: Result<u8, TransportError>)
        ensures
            received@.len() < 4 ==> r == Err::<u8, TransportError>(TransportError::ShortResponse),
            received@.len() >= 4 ==> r == Ok::<u8, TransportError>(received@[3]),
    {
        if received.len() < 4 {
            Err(TransportError::ShortResponse)
        } else {
            Ok(received[3])
        }
    }
}

/// `n` zero bytes, as placeholders to clock out during a read.
fn placeholders(n: usize) -> (r: Vec<u8>)
    ensures
        r@ == zeros(n as nat),
{
    let mut out: Vec<u8> = Vec::new();
    let mut i: usize = 0;
    while i < n
        invariant
            i <= n,
            out@ == zeros(i as nat),
        decreases n - i,
    {
        out.push(0u8);
        i = i + 1;
        assert(out@ =~= zeros(i as nat));
    }
    out
}

/// A copy of `data` as an owned vector.
fn owned(data: &[u8]) -> (r: Vec<u8>)
    ensures
        r@ == data@,
{
    let mut out: Vec<u8> = Vec::new();
    let mut i: usize = 0;
    while i < data.len()
        invariant
            i <= data@.len(),
            out@ == data@.subrange(0, i as int),
        decreases data@.len() - i,
    {
        out.push(data[i]);
        i = i + 1;
        assert(out@ =~= data@.subrange(0, i as int));
    }
    assert(data@.subrange(0, data@.len() as int) =~= data@);
    out
}

/// Reads one byte of a common register.
pub fn read_common(address: u16) -> (r: Transaction)
    ensures
        r.block == Block::Common && r.phase == Phase::Read && r.address == address,
        r.payload@ == zeros(1),
{
    Transaction { block: Block::Common, phase: Phase::Read, address, payload: placeholders(1) }
}

/// Writes bytes to common registers starting at `address`.
pub fn write_common(address: u16, data: &[u8]) -> (r: Transaction)
    ensures
        r.block == Block::Common && r.phase == Phase::Write && r.address == address,
        r.payload@ == data@,
{
    Transaction { block: Block::Common, phase: Phase::Write, address, payload: owned(data) }
}

/// Reads one byte of a socket register.
pub fn read_socket(address: u16) -> (r: Transaction)
    ensures
        r.block == Block::SocketRegisters && r.phase == Phase::Read && r.address == address,
        r.payload@ == zeros(1),
{
    Transaction {
        block: Block::SocketRegisters,
        phase: Phase::Read,
        address,
        payload: placeholders(1),
    }
}

/// Writes one byte to a socket register.
pub fn write_socket(address: u16, value: u8) -> (r: Transaction)
    ensures
        r.block == Block::SocketRegisters && r.phase == Phase::Write && r.address == address,
        r.payload@ == seq![value],
{
    let payload: Vec<u8> = vec![value];
    Transaction { block: Block::SocketRegisters, phase: Phase::Write, address, payload }
}

/// Writes bytes to socket registers starting at `address`.
pub fn write_socket_multi(address: u16, data: &[u8]) -> (r: Transaction)
    ensures
        r.block == Block::SocketRegisters && r.phase == Phase::Write && r.address == address,
        r.payload@ == data@,
{
    Transaction { block: Block::SocketRegisters, phase: Phase::Write, address, payload: owned(data) }
}

/// Reads `len` bytes of the receive buffer at ring offset `offset`.
pub fn read_rx_buffer(offset: u16, len: usize) -> (r: Transaction)
    ensures
        r.block == Block::SocketRx && r.phase == Phase::Read && r.address == offset,
        r.payload@ == zeros(len as nat),
{
    Transaction { block: Block::SocketRx, phase: Phase::Read, address: offset, payload: placeholders(len) }
}

/// Writes bytes to the transmit buffer at ring offset `offset`.
pub fn write_tx_buffer(offset: u16, data: &[u8]) -> (r: Transaction)
    ensures
        r.block == Block::SocketTx && r.phase == Phase::Write && r.address == offset,
        r.payload@ == data@,
{
    Transaction { block: Block::SocketTx, phase: Phase::Write, address: offset, payload: owned(data) }
}

/// Chip version register.
pub const VERSIONR: u16 = 0x0039;
/// Version that a supported controller reports.
pub const EXPECTED_VERSION: u8 = 0x04;
/// Gateway address, four bytes.
pub const GAR0: u16 = 0x0001;
/// Subnet mask, four bytes.
pub const SUBR0: u16 = 0x0005;
/// Source hardware (MAC) address, six bytes.
pub const SHAR0: u16 = 0x0009;
/// Source IP address, four bytes.
pub const SIPR0: u16 = 0x000F;

/// Whether the version register identifies a supported controller.
pub fn version_ok(version: u8) -> (r: bool)
    ensures
        r == (version == EXPECTED_VERSION),
{
    version == EXPECTED_VERSION
}

/// The common-register writes that configure the network: gateway, subnet
/// mask, MAC address and IP address, in that order.
pub fn network_config(gateway: &[u8; 4], subnet: &[u8; 4], mac: &[u8; 6], ip: &[u8; 4]) -> (r: Vec<
    Transaction,
>)
    ensures
        r@.len() == 4,
        forall|i: int| 0 <= i < 4 ==> r@[i].block == Block::Common && r@[i].phase == Phase::Write,
        r@[0].address == GAR0 && r@[0].payload@ == gateway@,
        r@[1].address == SUBR0 && r@[1].payload@ == subnet@,
        r@[2].address == SHAR0 && r@[2].payload@ == mac@,
        r@[3].address == SIPR0 && r@[3].payload@ == ip@,
{
    let mut r: Vec<Transaction> = Vec::new();
    r.push(write_common(GAR0, gateway.as_slice()));
    r.push(write_common(SUBR0, subnet.as_slice()));
    r.push(write_common(SHAR0, mac.as_slice()));
    r.push(write_common(SIPR0, ip.as_slice()));
    r
}

} // verus!
