//! Modbus TCP protocol engine: MBAP framing, request parsing, the register
//! map over a sensor snapshot, and response construction. No hardware access.
use vstd::prelude::*;
use vstd::slice::slice_subrange;
use crate::bytes::{be_word, hi_byte, lo_byte, word_bytes, word_from_be, word_to_be, lemma_word_round_trip};

verus! {

/// Read Holding Registers.
pub const READ_HOLDING_REGISTERS: u8 = 0x03;
/// Read Input Registers (handled exactly like holding registers).
pub const READ_INPUT_REGISTERS: u8 = 0x04;

/// The function code is not supported.
pub const ILLEGAL_FUNCTION: u8 = 0x01;
/// A requested register lies outside the register space.
pub const ILLEGAL_DATA_ADDRESS: u8 = 0x02;
/// The request is too short, or its register count is out of range.
pub const ILLEGAL_DATA_VALUE: u8 = 0x03;

/// Status word: everything fine.
pub const STATUS_OK: u16 = 0;
/// Status word: the sensor could not be read.
pub const STATUS_SENSOR_ERROR: u16 = 1;
/// Status word: the network is not available.
pub const STATUS_NETWORK_ERROR: u16 = 2;

/// Number of 16-bit words in the register space.
pub const REGISTER_COUNT: u16 = 10;
/// Largest register count that one read request may ask for.
pub const MAX_READ_COUNT: u16 = 125;
/// Modbus address of the temperature, two registers (`f32`).
pub const TEMP_REGISTERS: u16 = 40001;
/// Modbus address of the humidity, two registers (`f32`).
pub const HUMIDITY_REGISTERS: u16 = 40003;
/// Modbus address of the status word.
pub const STATUS_REGISTER: u16 = 40005;
/// Modbus address of the uptime, two registers (`u32`).
pub const UPTIME_REGISTERS: u16 = 40006;
/// First Modbus address of the reserved words.
pub const RESERVED_START: u16 = 40008;
/// Last Modbus address of the reserved words.
pub const RESERVED_END: u16 = 40010;

/// Size of the MBAP header on the wire.
pub const MBAP_LEN: usize = 7;

/// IEEE-754 single-precision encoding of 25.5.
pub const DEFAULT_TEMPERATURE_BITS: u32 = 0x41CC_0000;
/// IEEE-754 single-precision encoding of 60.0.
pub const DEFAULT_HUMIDITY_BITS: u32 = 0x4270_0000;

/// Modbus Application Protocol header: the first seven bytes of every frame.
#[derive(Clone, Copy, Debug, PartialEq, Eq, Structural)]
pub struct MbapHeader {
    pub transaction_id: u16,
    pub protocol_id: u16,
    /// Number of bytes that follow the length field (unit id and PDU).
    pub length: u16,
    pub unit_id: u8,
}

/// The header that the first seven bytes of `b` encode.
pub open spec fn header_of(b: Seq<u8>) -> MbapHeader
    recommends
        b.len() >= 7,
{
    MbapHeader {
        transaction_id: be_word(b[0], b[1]),
        protocol_id: be_word(b[2], b[3]),
        length: be_word(b[4], b[5]),
        unit_id: b[6],
    }
}

/// The seven bytes that encode `h` on the wire.
pub open spec fn header_bytes(h: MbapHeader) -> Seq<u8> {
    word_bytes(h.transaction_id) + word_bytes(h.protocol_id) + word_bytes(h.length) + seq![
        h.unit_id,
    ]
}

impl MbapHeader {
    /// Parses the header from the start of `data`; fails when fewer than
    /// seven bytes are given or the protocol id is not 0 (Modbus).
    pub fn from_bytes(data: &[u8]) -> (r: Result<MbapHeader, ()>)
        ensures
            data@.len() < 7 ==> r == Err::<MbapHeader, ()>(()),
            data@.len() >= 7 && header_of(data@).protocol_id != 0 ==> r == Err::<MbapHeader, ()>(()),
            data@.len() >= 7 && header_of(data@).protocol_id == 0 ==> r == Ok::<MbapHeader, ()>(
                header_of(data@),
            ),
    {
        if data.len() < 7 {
            return Err(());
        }
        let protocol_id = word_from_be(data[2], data[3]);
        if protocol_id != 0 {
            return Err(());
        }
        Ok(MbapHeader {
            transaction_id: word_from_be(data[0], data[1]),
            protocol_id,
            length: word_from_be(data[4], data[5]),
            unit_id: data[6],
        })
    }

    /// Writes the header into the first seven bytes of `buffer`, leaving the
    /// rest as it was; fails, writing nothing, when the buffer is shorter.
    pub fn to_bytes(&self, buffer: &mut [u8]) -> (r: Result<(), ()>)
        ensures
            old(buffer)@.len() < 7 ==> r is Err && final(buffer)@ == old(buffer)@,
            old(buffer)@.len() >= 7 ==> r is Ok && final(buffer)@ == header_bytes(*self)
                + old(buffer)@.subrange(7, old(buffer)@.len() as int),
    {
        if buffer.len() < 7 {
            return Err(());
        }
        let t = word_to_be(self.transaction_id);
        let p = word_to_be(self.protocol_id);
        let l = word_to_be(self.length);
        buffer[0] = t[0];
        buffer[1] = t[1];
        buffer[2] = p[0];
        buffer[3] = p[1];
        buffer[4] = l[0];
        buffer[5] = l[1];
        buffer[6] = self.unit_id;
        assert(buffer@ =~= header_bytes(*self) + old(buffer)@.subrange(7, old(buffer)@.len() as int));
        Ok(())
    }
}

/// Decoding the encoding of any header gives the header back, whatever bytes
/// follow it; so `from_bytes` returns every valid header (protocol id 0) that
/// `to_bytes` wrote.
pub proof fn lemma_header_round_trip(h: MbapHeader, rest: Seq<u8>)
    ensures
        header_of(header_bytes(h) + rest) == h,
{
    lemma_word_round_trip(h.transaction_id);
    lemma_word_round_trip(h.protocol_id);
    lemma_word_round_trip(h.length);
    let b = header_bytes(h) + rest;
    assert(b[0] == hi_byte(h.transaction_id) && b[1] == lo_byte(h.transaction_id));
    assert(b[2] == hi_byte(h.protocol_id) && b[3] == lo_byte(h.protocol_id));
    assert(b[4] == hi_byte(h.length) && b[5] == lo_byte(h.length));
    assert(b[6] == h.unit_id);
}

/// What a request PDU parses to: `(function code, start address, count)`, or
/// the exception code that rejects it.
pub open spec fn request_of(d: Seq<u8>) -> Result<(u8, u16, u16), u8> {
    if d.len() < 5 {
        Err(ILLEGAL_DATA_VALUE)
    } else if d[0] != READ_HOLDING_REGISTERS && d[0] != READ_INPUT_REGISTERS {
        Err(ILLEGAL_FUNCTION)
    } else if be_word(d[3], d[4]) == 0 || be_word(d[3], d[4]) > MAX_READ_COUNT {
        Err(ILLEGAL_DATA_VALUE)
    } else {
        Ok((d[0], be_word(d[1], d[2]), be_word(d[3], d[4])))
    }
}

/// Parses a read request PDU (the bytes after the MBAP header).
pub fn parse_modbus_request(data: &[u8]) -> (r: Result<(u8, u16, u16), u8>)
    ensures
        r == request_of(data@),
{
    if data.len() < 5 {
        return Err(ILLEGAL_DATA_VALUE);
    }
    let function_code = data[0];
    let start_addr = word_from_be(data[1], data[2]);
    let count = word_from_be(data[3], data[4]);
    if function_code != READ_HOLDING_REGISTERS && function_code != READ_INPUT_REGISTERS {
        return Err(ILLEGAL_FUNCTION);
    }
    if count == 0 || count > MAX_READ_COUNT {
        return Err(ILLEGAL_DATA_VALUE);
    }
    Ok((function_code, start_addr, count))
}

/// A consistent snapshot of the values the register space exposes. The two
/// measurements are kept as their IEEE-754 single-precision bit patterns.
#[derive(Clone, Copy, Debug, PartialEq, Eq, Structural)]
pub struct SensorData {
    /// Temperature in degrees Celsius, as `f32` bits.
    pub temperature_bits: u32,
    /// Relative humidity in percent, as `f32` bits.
    pub humidity_bits: u32,
    pub status: u16,
    /// Uptime counter.
    pub uptime: u32,
}

impl Default for SensorData {
    /// 25.5 degrees, 60 percent, status OK, no uptime.
    fn default() -> (r: SensorData)
        ensures
            r == (SensorData {
                temperature_bits: DEFAULT_TEMPERATURE_BITS,
                humidity_bits: DEFAULT_HUMIDITY_BITS,
                status: STATUS_OK,
                uptime: 0,
            }),
    {
        SensorData {
            temperature_bits: DEFAULT_TEMPERATURE_BITS,
            humidity_bits: DEFAULT_HUMIDITY_BITS,
            status: STATUS_OK,
            uptime: 0,
        }
    }
}

/// High word of a 32-bit value.
pub open spec fn high_word(v: u32) -> u16 {
    (v / 65536) as u16
}

/// Low word of a 32-bit value.
pub open spec fn low_word(v: u32) -> u16 {
    (v % 65536) as u16
}

/// Word `index` of the register space of snapshot `s`: temperature in words
/// 0 and 1, humidity in 2 and 3, status in 4, uptime in 5 and 6 (high half
/// first), and zero in the reserved words 7 to 9.
pub open spec fn register_word(s: SensorData, index: int) -> u16 {
    if index == 0 {
        high_word(s.temperature_bits)
    } else if index == 1 {
        low_word(s.temperature_bits)
    } else if index == 2 {
        high_word(s.humidity_bits)
    } else if index == 3 {
        low_word(s.humidity_bits)
    } else if index == 4 {
        s.status
    } else if index == 5 {
        high_word(s.uptime)
    } else if index == 6 {
        low_word(s.uptime)
    } else {
        0
    }
}

/// Big-endian bytes of the `count` words of the register space that start at
/// `start`.
pub open spec fn register_bytes(s: SensorData, start: int, count: nat) -> Seq<u8>
    decreases count,
{
    if count == 0 {
        Seq::empty()
    } else {
        register_bytes(s, start, (count - 1) as nat) + word_bytes(
            register_word(s, start + count - 1),
        )
    }
}

/// Whether some of the `count` words that start at `start` lie outside the
/// register space.
pub open spec fn out_of_space(start: int, count: int) -> bool {
    count > 0 && start + count > REGISTER_COUNT
}

/// Splits a 32-bit value into two words, high half first.
pub fn u32_to_registers(value: u32) -> (r: [u16; 2])
    ensures
        r@ == seq![high_word(value), low_word(value)],
{
    let hi = (value >> 16u32) as u16;
    let lo = (value & 0xFFFFu32) as u16;
    assert(value >> 16u32 == value / 65536) by (bit_vector);
    assert(value & 0xFFFFu32 == value % 65536) by (bit_vector);
    let r = [hi, lo];
    assert(r@ =~= seq![high_word(value), low_word(value)]);
    r
}

impl SensorData {
    /// Word `index` of the register space, or `None` outside it.
    pub fn register(&self, index: u16) -> (r: Option<u16>)
        ensures
            index < REGISTER_COUNT ==> r == Some(register_word(*self, index as int)),
            index >= REGISTER_COUNT ==> r is None,
    {
        match index {
            0 => Some(u32_to_registers(self.temperature_bits)[0]),
            1 => Some(u32_to_registers(self.temperature_bits)[1]),
            2 => Some(u32_to_registers(self.humidity_bits)[0]),
            3 => Some(u32_to_registers(self.humidity_bits)[1]),
            4 => Some(self.status),
            5 => Some(u32_to_registers(self.uptime)[0]),
            6 => Some(u32_to_registers(self.uptime)[1]),
            7..=9 => Some(0),
            _ => None,
        }
    }

    /// Replaces the two measurements (as `f32` bits), keeping status and uptime.
    pub fn set_measurement(&mut self, temperature_bits: u32, humidity_bits: u32)
        ensures
            *final(self) == (SensorData { temperature_bits, humidity_bits, ..*old(self) }),
    {
        self.temperature_bits = temperature_bits;
        self.humidity_bits = humidity_bits;
    }

    /// Advances the uptime counter by one tick, wrapping at `u32::MAX`.
    pub fn tick(&mut self)
        ensures
            final(self).uptime == (old(self).uptime + 1) % 0x1_0000_0000,
            final(self).temperature_bits == old(self).temperature_bits,
            final(self).humidity_bits == old(self).humidity_bits,
            final(self).status == old(self).status,
    {
        self.uptime = self.uptime.wrapping_add(1);
    }
}

/// Reads `count` consecutive registers from `start`: their big-endian bytes,
/// or `ILLEGAL_DATA_ADDRESS` when any of them lies outside the register space
/// (all or nothing).
pub fn read_registers(start: u16, count: u16, snapshot: &SensorData) -> (r: Result<Vec<u8>, u8>)
    ensures
        out_of_space(start as int, count as int) ==> r == Err::<Vec<u8>, u8>(ILLEGAL_DATA_ADDRESS),
        !out_of_space(start as int, count as int) ==> r is Ok && r.unwrap()@ == register_bytes(
            *snapshot,
            start as int,
            count as nat,
        ),
{
    if count > 0 && start as u32 + count as u32 > REGISTER_COUNT as u32 {
        return Err(ILLEGAL_DATA_ADDRESS);
    }
    let mut out: Vec<u8> = Vec::new();
    let mut i: u16 = 0;
    while i < count
        invariant
            i <= count,
            count > 0 ==> start + count <= REGISTER_COUNT,
            out@ == register_bytes(*snapshot, start as int, i as nat),
        decreases count - i,
    {
        let index: u16 = start + i;
        let word = match snapshot.register(index) {
            Some(w) => w,
            None => 0,
        };
        let b = word_to_be(word);
        out.push(b[0]);
        out.push(b[1]);
        i = i + 1;
        assert(out@ =~= register_bytes(*snapshot, start as int, i as nat));
    }
    Ok(out)
}

/// Writes the registers that `read_registers` reads into the start of
/// `response_buffer` and returns how many bytes it wrote. Fails, writing
/// nothing, with `ILLEGAL_DATA_ADDRESS` when a register lies outside the space,
/// else with `ILLEGAL_DATA_VALUE` when the buffer is too small.
pub fn handle_read_registers(
    start_addr: u16,
    count: u16,
    sensor_data: &SensorData,
    response_buffer: &mut [u8],
) -> (r: Result<usize, u8>)
    ensures
        out_of_space(start_addr as int, count as int) ==> r == Err::<usize, u8>(
            ILLEGAL_DATA_ADDRESS,
        ),
        !out_of_space(start_addr as int, count as int) && old(response_buffer)@.len() < 2
            * count ==> r == Err::<usize, u8>(ILLEGAL_DATA_VALUE),
        r is Err ==> final(response_buffer)@ == old(response_buffer)@,
        r is Ok ==> r.unwrap() == 2 * count && final(response_buffer)@
            == register_bytes(*sensor_data, start_addr as int, count as nat) + old(
            response_buffer,
        )@.subrange(2 * count as int, old(response_buffer)@.len() as int),
        !out_of_space(start_addr as int, count as int) && old(response_buffer)@.len() >= 2
            * count ==> r is Ok,
{
    let words = read_registers(start_addr, count, sensor_data);
    let data = match words {
        Ok(d) => d,
        Err(code) => {
            return Err(code);
        },
    };
    proof {
        lemma_register_bytes_len(*sensor_data, start_addr as int, count as nat);
    }
    if data.len() > response_buffer.len() {
        return Err(ILLEGAL_DATA_VALUE);
    }
    let n = data.len();
    let mut i: usize = 0;
    while i < n
        invariant
            n == data@.len(),
            n <= response_buffer@.len(),
            i <= n,
            response_buffer@.len() == old(response_buffer)@.len(),
            forall|k: int| 0 <= k < i ==> response_buffer@[k] == data@[k],
            forall|k: int| n <= k < response_buffer@.len() ==> response_buffer@[k] == old(
                response_buffer,
            )@[k],
        decreases n - i,
    {
        response_buffer[i] = data[i];
        i = i + 1;
    }
    assert(response_buffer@ =~= data@ + old(response_buffer)@.subrange(
        n as int,
        old(response_buffer)@.len() as int,
    ));
    Ok(n)
}

/// The register bytes of `count` words are `2 * count` bytes long.
pub proof fn lemma_register_bytes_len(s: SensorData, start: int, count: nat)
    ensures
        register_bytes(s, start, count).len() == 2 * count,
    decreases count,
{
    if count > 0 {
        lemma_register_bytes_len(s, start, (count - 1) as nat);
    }
}

/// A read of registers inside the space returns exactly two bytes per
/// register, and what it returns, `register_bytes(s, start, count)`, is a
/// function of the start, the count and the snapshot alone.
pub proof fn lemma_read_registers_exact(s: SensorData, start: u16, count: u16)
    requires
        start + count <= REGISTER_COUNT,
    ensures
        !out_of_space(start as int, count as int),
        register_bytes(s, start as int, count as nat).len() == 2 * count,
{
    lemma_register_bytes_len(s, start as int, count as nat);
}

/// Splitting a 32-bit pattern into register words and joining the two words,
/// high half first, reproduces the pattern bit for bit; this holds of the
/// temperature, humidity and uptime words of every snapshot.
pub proof fn lemma_words_round_trip(s: SensorData)
    ensures
        register_word(s, 0) * 65536 + register_word(s, 1) == s.temperature_bits,
        register_word(s, 2) * 65536 + register_word(s, 3) == s.humidity_bits,
        register_word(s, 5) * 65536 + register_word(s, 6) == s.uptime,
{
}

/// Length field of a response carrying `n` register bytes: unit id, function
/// code, byte count and the bytes.
pub open spec fn response_length(n: nat) -> u16 {
    (3 + n) as u16
}

/// The frame that answers a read with `data`: the request's header with a new
/// length, the function code, the byte count and the bytes.
pub open spec fn response_bytes(h: MbapHeader, function_code: u8, data: Seq<u8>) -> Seq<u8> {
    header_bytes(MbapHeader { length: response_length(data.len()), ..h }) + seq![
        function_code,
        data.len() as u8,
    ] + data
}

/// The exception frame for `function_code` with `code`: the request's header
/// with length 3, the function code with its high bit set, and the code.
pub open spec fn exception_bytes(h: MbapHeader, function_code: u8, code: u8) -> Seq<u8> {
    header_bytes(MbapHeader { length: 3, ..h }) + seq![function_code | 0x80, code]
}

/// Builds the response frame for a successful read.
pub fn build_response(header: &MbapHeader, function_code: u8, register_bytes: &[u8]) -> (r: Vec<
    u8,
>)
    requires
        register_bytes@.len() <= 255,
    ensures
        r@ == response_bytes(*header, function_code, register_bytes@),
{
    let n = register_bytes.len();
    let h = MbapHeader { length: 3 + n as u16, ..*header };
    let mut out: Vec<u8> = vec![0u8, 0, 0, 0, 0, 0, 0];
    let _written = h.to_bytes(out.as_mut_slice());
    out.push(function_code);
    out.push(n as u8);
    let mut i: usize = 0;
    while i < n
        invariant
            n == register_bytes@.len(),
            i <= n,
            out@ == header_bytes(h) + seq![function_code, n as u8] + register_bytes@.subrange(
                0,
                i as int,
            ),
        decreases n - i,
    {
        out.push(register_bytes[i]);
        i = i + 1;
        assert(out@ =~= header_bytes(h) + seq![function_code, n as u8] + register_bytes@.subrange(
            0,
            i as int,
        ));
    }
    assert(register_bytes@.subrange(0, n as int) =~= register_bytes@);
    out
}

/// Builds the exception frame that rejects a request with `code`.
pub fn build_exception_response(header: &MbapHeader, function_code: u8, code: u8) -> (r: Vec<u8>)
    ensures
        r@ == exception_bytes(*header, function_code, code),
{
    let h = MbapHeader { length: 3, ..*header };
    let mut out: Vec<u8> = vec![0u8, 0, 0, 0, 0, 0, 0];
    let _written = h.to_bytes(out.as_mut_slice());
    out.push(function_code | 0x80);
    out.push(code);
    assert(out@ =~= exception_bytes(*header, function_code, code));
    out
}

/// The answer to one inbound frame against snapshot `s`. A frame shorter than
/// its header, with a protocol id other than 0, or whose PDU is shorter than
/// five bytes is malformed and gets no answer. A well-formed request that is
/// rejected gets an exception frame; a valid read gets the registers.
pub open spec fn reply_of(frame: Seq<u8>, s: SensorData) -> Option<Seq<u8>> {
    if frame.len() < 7 {
        None
    } else {
        let h = header_of(frame);
        let pdu = frame.subrange(7, frame.len() as int);
        if h.protocol_id != 0 || pdu.len() < 5 {
            None
        } else {
            match request_of(pdu) {
                Err(code) => Some(exception_bytes(h, pdu[0], code)),
                Ok((fc, start, count)) => if out_of_space(start as int, count as int) {
                    Some(exception_bytes(h, fc, ILLEGAL_DATA_ADDRESS))
                } else {
                    Some(response_bytes(h, fc, register_bytes(s, start as int, count as nat)))
                },
            }
        }
    }
}

/// Processes one inbound frame against a snapshot and returns the frame to
/// send back, if any.
pub fn handle_request(frame: &[u8], snapshot: &SensorData) -> (r: Option<Vec<u8>>)
    ensures
        r is None <==> reply_of(frame@, *snapshot) is None,
        r is Some ==> r.unwrap()@ == reply_of(frame@, *snapshot).unwrap(),
{
    let header = match MbapHeader::from_bytes(frame) {
        Ok(h) => h,
        Err(_) => {
            return None;
        },
    };
    let pdu = slice_subrange(frame, MBAP_LEN, frame.len());
    assert(pdu@ =~= frame@.subrange(7, frame@.len() as int));
    if pdu.len() < 5 {
        return None;
    }
    match parse_modbus_request(pdu) {
        Err(code) => Some(build_exception_response(&header, pdu[0], code)),
        Ok((fc, start, count)) => match read_registers(start, count, snapshot) {
            Err(code) => Some(build_exception_response(&header, fc, code)),
            Ok(data) => {
                proof {
                    lemma_register_bytes_len(*snapshot, start as int, count as nat);
                }
                Some(build_response(&header, fc, data.as_slice()))
            },
        },
    }
}

} // verus!
