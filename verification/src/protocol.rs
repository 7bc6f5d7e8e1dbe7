//! Register-access protocol of the gyroscope: command framing with even
//! parity, status checking and extraction of the 16-bit data field.
//!
//! A register read is one 32-bit command word: bit 31 set (read opcode),
//! bits 28..=26 reserved as zero, bits 25..=17 the 9-bit register address,
//! bits 16..=1 zero (write-phase data, unused on reads), and bit 0 a parity
//! bit chosen so that the whole word has an even number of set bits.
//!
//! A response carries a status field in bits 27..=26, which must read the
//! normal-operation code `0b01`, and the 16 data bits in bits 25..=10. The
//! data bits are a two's-complement 16-bit signed integer. Response parity
//! is *not* checked by default — a known integrity gap kept for
//! compatibility — but strict checking can be switched on.

use vstd::prelude::*;

verus! {

/// The addressable device registers, each with a fixed 9-bit address.
#[derive(Clone, Copy, PartialEq, Eq, Structural, Debug)]
pub enum Register {
    /// Instantaneous rotation rate.
    Rate,
    /// Die temperature.
    Temperature,
    /// Self-test memory, low word.
    SelfTestLow,
    /// Self-test memory, high word.
    SelfTestHigh,
    /// Quadrature error.
    Quadrature,
    /// Fault flags.
    Fault,
    /// Part identifier; its high byte is the fixed device signature.
    PartId,
    /// Serial number, high word.
    SerialHigh,
    /// Serial number, low word.
    SerialLow,
}

/// Fixed address of each register.
pub open spec fn spec_address(reg: Register) -> u16 {
    match reg {
        Register::Rate => 0x00,
        Register::Temperature => 0x02,
        Register::SelfTestLow => 0x04,
        Register::SelfTestHigh => 0x06,
        Register::Quadrature => 0x08,
        Register::Fault => 0x0a,
        Register::PartId => 0x0c,
        Register::SerialHigh => 0x0e,
        Register::SerialLow => 0x10,
    }
}

impl Register {
    /// The register's address on the bus.
    pub fn address(self) -> (r: u16)
        ensures
            r == spec_address(self),
            r <= 0x1ff,
    {
        match self {
            Register::Rate => 0x00,
            Register::Temperature => 0x02,
            Register::SelfTestLow => 0x04,
            Register::SelfTestHigh => 0x06,
            Register::Quadrature => 0x08,
            Register::Fault => 0x0a,
            Register::PartId => 0x0c,
            Register::SerialHigh => 0x0e,
            Register::SerialLow => 0x10,
        }
    }
}

/// True iff the number of set bits in `v` is odd.
pub open spec fn odd_parity(v: u32) -> bool
    decreases v,
{
    if v == 0 {
        false
    } else {
        (v % 2 == 1) != odd_parity((v / 2) as u32)
    }
}

/// `v` with its lowest set bit cleared (zero stays zero).
pub open spec fn clear_lowest_bit(v: u32) -> u32 {
    v & ((v - 1) as u32)
}

/// Clearing the lowest set bit of a nonzero word flips its parity.
proof fn lemma_clear_lowest_bit_flips_parity(v: u32)
    requires
        v != 0,
    ensures
        odd_parity(clear_lowest_bit(v)) == !odd_parity(v),
    decreases v,
{
    if v % 2 == 1 {
        assert(clear_lowest_bit(v) == ((v - 1) as u32) && ((v - 1) as u32) % 2 == 0)
            by (bit_vector)
            requires
                v % 2 == 1,
        ;
        assert(((v - 1) as u32) / 2 == v / 2);
    } else {
        let w = (v / 2) as u32;
        assert(clear_lowest_bit(v) % 2 == 0 && (clear_lowest_bit(v) / 2) as u32
            == clear_lowest_bit((v / 2) as u32) && v / 2 != 0) by (bit_vector)
            requires
                v % 2 == 0 && v != 0,
        ;
        lemma_clear_lowest_bit_flips_parity(w);
    }
}

/// Parity of a 32-bit word: true iff the number of set bits is odd.
///
/// Computed by repeatedly clearing the lowest set bit and toggling a flag
/// until the word is zero.
pub fn calculate_parity(value: u32) -> (r: bool)
    ensures
        r == odd_parity(value),
{
    let mut v: u32 = value;
    let mut parity: bool = false;
    while v != 0
        invariant
            (parity != odd_parity(v)) == odd_parity(value),
        decreases v,
    {
        proof {
            lemma_clear_lowest_bit_flips_parity(v);
            assert(clear_lowest_bit(v) < v) by (bit_vector)
                requires
                    v != 0,
            ;
        }
        v = v & (v - 1);
        parity = !parity;
    }
    parity
}

/// Setting bit 0 of an even word flips its parity.
proof fn lemma_set_bit_zero_flips_parity(v: u32)
    requires
        v % 2 == 0,
    ensures
        odd_parity(v | 1) == !odd_parity(v),
{
    assert((v | 1) % 2 == 1 && (v | 1) / 2 == v / 2 && (v | 1) != 0) by (bit_vector)
        requires
            v % 2 == 0,
    ;
    assert(odd_parity(v | 1) == !odd_parity(((v | 1) / 2) as u32));
    if v != 0 {
        assert(odd_parity(v) == odd_parity((v / 2) as u32));
    }
}

/// The read command word before its parity bit is chosen.
pub open spec fn spec_read_command_base(reg: Register) -> u32 {
    0x8000_0000u32 | ((spec_address(reg) as u32) << 17)
}

/// The full read command word: the base with bit 0 set exactly when the
/// base has an odd number of set bits, so the total is even.
pub open spec fn spec_read_command(reg: Register) -> u32 {
    if odd_parity(spec_read_command_base(reg)) {
        spec_read_command_base(reg) | 1
    } else {
        spec_read_command_base(reg)
    }
}

/// Encode a register read as a 32-bit command word.
pub fn encode_read_command(reg: Register) -> (cmd: u32)
    ensures
        cmd == spec_read_command(reg),
        !odd_parity(cmd),
        cmd >> 31 == 1,
        (cmd >> 26) & 0x7 == 0,
        (cmd >> 17) & 0x1ff == spec_address(reg),
        (cmd >> 1) & 0xffff == 0,
{
    let addr: u16 = reg.address();
    let base: u32 = 0x8000_0000u32 | ((addr as u32) << 17);
    let ghost a = addr as u32;
    proof {
        assert(base % 2 == 0
            && base >> 31 == 1 && (base | 1) >> 31 == 1
            && (base >> 26) & 0x7 == 0 && ((base | 1) >> 26) & 0x7 == 0
            && (base >> 17) & 0x1ff == a && ((base | 1) >> 17) & 0x1ff == a
            && (base >> 1) & 0xffff == 0 && ((base | 1) >> 1) & 0xffff == 0)
            by (bit_vector)
            requires
                a <= 0x1ff && base == 0x8000_0000u32 | (a << 17),
        ;
        lemma_set_bit_zero_flips_parity(base);
    }
    if calculate_parity(base) {
        base | 1
    } else {
        base
    }
}

/// Status field of a response: bits 27..=26.
pub open spec fn spec_status(resp: u32) -> u32 {
    (resp >> 26) & 0x3
}

/// The 16 data bits of a response: bits 25..=10.
pub open spec fn spec_data_bits(resp: u32) -> u16 {
    ((resp >> 10) & 0xffff) as u16
}

/// A 16-bit word reinterpreted as a two's-complement signed integer.
pub open spec fn as_signed_16(d: u16) -> int {
    if d < 0x8000 {
        d as int
    } else {
        d - 0x10000
    }
}

/// The data bits of a response, as the signed value they encode.
pub open spec fn spec_decoded(resp: u32) -> i16 {
    spec_data_bits(resp) as i16
}

/// A response is valid when its status field reads the normal-operation
/// code; under strict parity checking the whole word must also have even
/// parity.
pub open spec fn spec_frame_valid(resp: u32, strict_parity: bool) -> bool {
    spec_status(resp) == 1 && (strict_parity ==> !odd_parity(resp))
}

/// The rate sample a response yields: its decoded data on a valid frame,
/// zero otherwise (an invalid frame degrades to a zero reading).
pub open spec fn spec_sample(resp: u32, strict_parity: bool) -> int {
    if spec_frame_valid(resp, strict_parity) {
        as_signed_16(spec_data_bits(resp))
    } else {
        0
    }
}

/// Why a response frame was rejected.
#[derive(Clone, Copy, PartialEq, Eq, Structural, Debug)]
pub enum FrameError {
    /// The status field did not read the normal-operation code; carries the
    /// observed status. An all-zero frame (no response from the device)
    /// lands here with status zero.
    BadStatus { status: u8 },
    /// Strict parity checking was on and the frame's parity was odd.
    ParityMismatch,
}

/// Decode a response frame: check the status field (and, when
/// `strict_parity` is set, the frame's parity), then extract the 16 data
/// bits and reinterpret them as a two's-complement signed integer.
///
/// By default the parity of the response is not verified — the known
/// permissive behavior; pass `strict_parity` to close that gap.
pub fn decode_response(response: u32, strict_parity: bool) -> (r: Result<i16, FrameError>)
    ensures
        spec_frame_valid(response, strict_parity) ==> r == Ok::<i16, FrameError>(
            spec_decoded(response)),
        spec_decoded(response) as int == as_signed_16(spec_data_bits(response)),
        spec_status(response) != 1 ==> r == Err::<i16, FrameError>(FrameError::BadStatus {
            status: spec_status(response) as u8,
        }),
        spec_status(response) == 1 && !spec_frame_valid(response, strict_parity) ==> r
            == Err::<i16, FrameError>(FrameError::ParityMismatch),
{
    let status: u32 = (response >> 26) & 0x3;
    proof {
        assert((response >> 26) & 0x3 <= 0x3) by (bit_vector);
        assert(((response >> 10) & 0xffff) <= 0xffff) by (bit_vector);
        let ghost d = spec_data_bits(response);
        assert((((response >> 10) & 0xffff) as u16) as i16 as int == if ((response >> 10)
            & 0xffff) < 0x8000 {
            ((response >> 10) & 0xffff) as int
        } else {
            ((response >> 10) & 0xffff) - 0x10000
        }) by (bit_vector);
    }
    if status != 1 {
        Err(FrameError::BadStatus { status: status as u8 })
    } else if strict_parity && calculate_parity(response) {
        Err(FrameError::ParityMismatch)
    } else {
        let data: u16 = ((response >> 10) & 0xffff) as u16;
        Ok(data as i16)
    }
}

/// A command word as the four bytes the bus sends, most significant first.
pub fn command_bytes(cmd: u32) -> (r: [u8; 4])
    ensures
        cmd == r[0] * 0x100_0000 + r[1] * 0x1_0000 + r[2] * 0x100 + r[3],
{
    proof {
        assert(cmd >> 24 <= 0xff && (cmd >> 16) & 0xff <= 0xff && (cmd >> 8) & 0xff <= 0xff
            && cmd & 0xff <= 0xff && cmd == (cmd >> 24) * 0x100_0000 + ((cmd >> 16) & 0xff)
            * 0x1_0000 + ((cmd >> 8) & 0xff) * 0x100 + (cmd & 0xff)) by (bit_vector);
    }
    [(cmd >> 24) as u8, ((cmd >> 16) & 0xff) as u8, ((cmd >> 8) & 0xff) as u8, (cmd & 0xff) as u8]
}

/// Four received bytes, most significant first, as one response word.
pub fn response_word(bytes: [u8; 4]) -> (r: u32)
    ensures
        r == bytes[0] * 0x100_0000 + bytes[1] * 0x1_0000 + bytes[2] * 0x100 + bytes[3],
{
    let ghost b0 = bytes[0];
    let ghost b1 = bytes[1];
    let ghost b2 = bytes[2];
    let ghost b3 = bytes[3];
    proof {
        assert(((b0 as u32) << 24) | ((b1 as u32) << 16) | ((b2 as u32) << 8) | (b3 as u32)
            == b0 * 0x100_0000 + b1 * 0x1_0000 + b2 * 0x100 + b3) by (bit_vector);
    }
    ((bytes[0] as u32) << 24) | ((bytes[1] as u32) << 16) | ((bytes[2] as u32) << 8) | (
    bytes[3] as u32)
}

/// Protocol round trip: the read command for any register carries that
/// register's address recoverably in bits 25..=17, and a valid-status
/// response with a 16-bit payload embedded in the data bits decodes to
/// exactly that payload, reinterpreted as a two's-complement signed
/// integer.
pub proof fn lemma_protocol_round_trip(reg: Register, payload: u16)
    ensures
        (spec_read_command(reg) >> 17) & 0x1ff == spec_address(reg),
        spec_frame_valid(spec_rate_response(payload), false),
        spec_data_bits(spec_rate_response(payload)) == payload,
        as_signed_16(spec_data_bits(spec_rate_response(payload))) == as_signed_16(payload),
{
    let a = spec_address(reg) as u32;
    let base = spec_read_command_base(reg);
    assert(a <= 0x1ff);
    assert((base >> 17) & 0x1ff == a && ((base | 1) >> 17) & 0x1ff == a) by (bit_vector)
        requires
            a <= 0x1ff && base == 0x8000_0000u32 | (a << 17),
    ;
    let p = payload as u32;
    let resp = spec_rate_response(payload);
    assert((resp >> 26) & 0x3 == 1 && ((resp >> 10) & 0xffff) == p) by (bit_vector)
        requires
            p <= 0xffff && resp == (1u32 << 26) | (p << 10),
    ;
}

/// A synthetic response frame with normal-operation status and `payload`
/// in the data bits.
pub open spec fn spec_rate_response(payload: u16) -> u32 {
    (1u32 << 26) | ((payload as u32) << 10)
}

} // verus!
