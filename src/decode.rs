use vstd::arithmetic::div_mod::lemma_fundamental_div_mod_converse;
use vstd::arithmetic::power2::{lemma2_to64, lemma_pow2_unfold, pow2};
use vstd::prelude::*;

use crate::frame::{checksum_ok, RawFrame, ReadError};
use crate::pulse::{pulse_timed_out, timed_out};

verus! {

/// Number of data bits in a frame: five bytes of eight bits.
pub const DATA_BITS: usize = 40;

/// The value of one bit slot: 1 when its high pulse lasted strictly longer
/// than the low pulse that started it, else 0.
pub open spec fn bit_of(low_ns: u64, high_ns: u64) -> int {
    if high_ns > low_ns {
        1
    } else {
        0
    }
}

/// The number formed by the first `n` bits of byte `k`, most significant bit
/// first.
pub open spec fn byte_prefix(lows: Seq<u64>, highs: Seq<u64>, k: int, n: nat) -> int
    decreases n,
{
    if n == 0 {
        0
    } else {
        let i = 8 * k + n - 1;
        2 * byte_prefix(lows, highs, k, (n - 1) as nat) + bit_of(lows[i], highs[i])
    }
}

/// Byte `k` of the frame: the eight bit slots `8k .. 8k + 8`, most
/// significant bit first.
pub open spec fn assembled_byte(lows: Seq<u64>, highs: Seq<u64>, k: int) -> u8 {
    byte_prefix(lows, highs, k, 8) as u8
}

/// The five bytes that the forty bit slots spell.
pub open spec fn assembled_frame(lows: Seq<u64>, highs: Seq<u64>) -> RawFrame {
    RawFrame {
        humidity_high: assembled_byte(lows, highs, 0),
        humidity_low: assembled_byte(lows, highs, 1),
        temperature_high: assembled_byte(lows, highs, 2),
        temperature_low: assembled_byte(lows, highs, 3),
        checksum: assembled_byte(lows, highs, 4),
    }
}

/// Some pulse of the data phase, low or high, reached the timeout.
pub open spec fn data_timed_out(lows: Seq<u64>, highs: Seq<u64>) -> bool {
    exists|i: int| 0 <= i < DATA_BITS && (timed_out(lows[i]) || timed_out(highs[i]))
}

/// What the data phase yields: a timeout if any pulse reached it, else the
/// assembled frame if its checksum holds, else a checksum error.
pub open spec fn frame_result(lows: Seq<u64>, highs: Seq<u64>) -> Result<RawFrame, ReadError> {
    if data_timed_out(lows, highs) {
        Err(ReadError::Timeout)
    } else if checksum_ok(assembled_frame(lows, highs)) {
        Ok(assembled_frame(lows, highs))
    } else {
        Err(ReadError::Checksum)
    }
}

/// Decides one bit from the low pulse that starts its slot and the high
/// pulse that follows.
pub fn bit_value(low_ns: u64, high_ns: u64) -> (r: u8)
    ensures
        r == bit_of(low_ns, high_ns),
{
    if high_ns > low_ns {
        1
    } else {
        0
    }
}

proof fn lemma_byte_prefix_bound(lows: Seq<u64>, highs: Seq<u64>, k: int, n: nat)
    ensures
        0 <= byte_prefix(lows, highs, k, n) < pow2(n),
    decreases n,
{
    if n > 0 {
        lemma_byte_prefix_bound(lows, highs, k, (n - 1) as nat);
        lemma_pow2_unfold(n);
    } else {
        lemma2_to64();
    }
}

/// Packs the eight bit slots of byte `k`, most significant bit first.
fn assemble_byte(lows: &Vec<u64>, highs: &Vec<u64>, k: usize) -> (r: u8)
    requires
        lows.len() == DATA_BITS,
        highs.len() == DATA_BITS,
        k < 5,
    ensures
        r == assembled_byte(lows@, highs@, k as int),
{
    let mut byte: u8 = 0;
    let mut n: usize = 0;
    while n < 8
        invariant
            n <= 8,
            k < 5,
            lows.len() == DATA_BITS,
            highs.len() == DATA_BITS,
            byte == byte_prefix(lows@, highs@, k as int, n as nat),
        decreases 8 - n,
    {
        let i = 8 * k + n;
        proof {
            lemma_byte_prefix_bound(lows@, highs@, k as int, (n + 1) as nat);
            lemma2_to64();
        }
        byte = 2 * byte + bit_value(lows[i], highs[i]);
        n = n + 1;
    }
    byte
}

/// Dividing the first `m` bits of a byte by `2^(m - n)` leaves its first `n`
/// bits.
proof fn lemma_prefix_split(lows: Seq<u64>, highs: Seq<u64>, k: int, n: nat, m: nat)
    requires
        n <= m,
    ensures
        0 <= byte_prefix(lows, highs, k, m) - byte_prefix(lows, highs, k, n) * pow2(
            (m - n) as nat,
        ) < pow2((m - n) as nat),
    decreases m,
{
    if m == n {
        lemma2_to64();
        assert(pow2((m - n) as nat) == 1);
    } else {
        lemma_prefix_split(lows, highs, k, n, (m - 1) as nat);
        lemma_pow2_unfold((m - n) as nat);
        let high = byte_prefix(lows, highs, k, n);
        let p = pow2((m - 1 - n) as nat);
        let x = byte_prefix(lows, highs, k, (m - 1) as nat);
        let i = 8 * k + m - 1;
        let b = bit_of(lows[i], highs[i]);
        assert(byte_prefix(lows, highs, k, m) == 2 * x + b);
        assert(pow2((m - n) as nat) == 2 * p);
        assert(high * (2 * p) == 2 * (high * p)) by (nonlinear_arith);
        assert(0 <= 2 * x + b - high * (2 * p) < 2 * p) by (nonlinear_arith)
            requires
                0 <= x - high * p < p,
                0 <= b <= 1,
                high * (2 * p) == 2 * (high * p),
        ;
        assert(high * pow2((m - n) as nat) == high * (2 * p));
    }
}

/// Bit slot `i` lands in byte `i / 8` at bit position `7 - i % 8` (counting
/// from the least significant bit), and that bit is 1 exactly when the
/// slot's high pulse outlasted its low pulse.
pub proof fn bit_slot_placement(lows: Seq<u64>, highs: Seq<u64>, i: int)
    requires
        lows.len() == DATA_BITS,
        highs.len() == DATA_BITS,
        0 <= i < DATA_BITS,
    ensures
        (assembled_byte(lows, highs, i / 8) as int / pow2((7 - i % 8) as nat) as int) % 2 == bit_of(
            lows[i],
            highs[i],
        ),
{
    let k = i / 8;
    let j = i % 8;
    let p = pow2((7 - j) as nat) as int;
    lemma_byte_prefix_bound(lows, highs, k, 8);
    lemma2_to64();
    lemma_prefix_split(lows, highs, k, (j + 1) as nat, 8);
    let whole = byte_prefix(lows, highs, k, 8);
    let top = byte_prefix(lows, highs, k, (j + 1) as nat);
    lemma_fundamental_div_mod_converse(whole, p, top, whole - top * p);
    assert(assembled_byte(lows, highs, k) == whole);
    lemma_fundamental_div_mod_converse(
        top,
        2,
        byte_prefix(lows, highs, k, j as nat),
        bit_of(lows[i], highs[i]),
    );
}

/// A pulse that reaches the timeout in any bit slot, low or high, makes the
/// data phase fail with a timeout, whatever the other pulses are.
pub proof fn timed_out_pulse_fails(lows: Seq<u64>, highs: Seq<u64>, i: int)
    requires
        lows.len() == DATA_BITS,
        highs.len() == DATA_BITS,
        0 <= i < DATA_BITS,
        timed_out(lows[i]) || timed_out(highs[i]),
    ensures
        frame_result(lows, highs) == Err::<RawFrame, ReadError>(ReadError::Timeout),
{
}

/// When no pulse timed out, the data phase accepts the assembled frame
/// exactly when its fifth byte equals the sum of the other four modulo 256,
/// and otherwise reports a checksum error.
pub proof fn checksum_decides(lows: Seq<u64>, highs: Seq<u64>)
    requires
        lows.len() == DATA_BITS,
        highs.len() == DATA_BITS,
        !data_timed_out(lows, highs),
    ensures
        ({
            let f = assembled_frame(lows, highs);
            &&& frame_result(lows, highs) is Ok <==> f.checksum == (f.humidity_high
                + f.humidity_low + f.temperature_high + f.temperature_low) % 256
            &&& frame_result(lows, highs) is Ok ==> frame_result(lows, highs) == Ok::<
                RawFrame,
                ReadError,
            >(f)
            &&& frame_result(lows, highs) is Err ==> frame_result(lows, highs) == Err::<
                RawFrame,
                ReadError,
            >(ReadError::Checksum)
        }),
{
}

/// Turns the forty measured pulse pairs of the data phase into a frame.
///
/// Every pulse, low or high, is held against the timeout first; then each
/// slot gives one bit, the bits make five bytes most significant bit first,
/// and the fifth byte must match the sum of the other four.
pub fn decode_frame(lows: &Vec<u64>, highs: &Vec<u64>) -> (r: Result<RawFrame, ReadError>)
    requires
        lows.len() == DATA_BITS,
        highs.len() == DATA_BITS,
    ensures
        r == frame_result(lows@, highs@),
{
    let mut i: usize = 0;
    while i < DATA_BITS
        invariant
            i <= DATA_BITS,
            lows.len() == DATA_BITS,
            highs.len() == DATA_BITS,
            forall|j: int| 0 <= j < i ==> !timed_out(lows@[j]) && !timed_out(highs@[j]),
        decreases DATA_BITS - i,
    {
        if pulse_timed_out(lows[i]) || pulse_timed_out(highs[i]) {
            return Err(ReadError::Timeout);
        }
        i = i + 1;
    }
    let frame = RawFrame {
        humidity_high: assemble_byte(lows, highs, 0),
        humidity_low: assemble_byte(lows, highs, 1),
        temperature_high: assemble_byte(lows, highs, 2),
        temperature_low: assemble_byte(lows, highs, 3),
        checksum: assemble_byte(lows, highs, 4),
    };
    if frame.checksum_valid() {
        Ok(frame)
    } else {
        Err(ReadError::Checksum)
    }
}

} // verus!
