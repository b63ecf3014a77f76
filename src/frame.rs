use vstd::prelude::*;

verus! {

/// Why a read transaction failed.
#[derive(Clone, Copy, Debug, PartialEq, Eq, Structural)]
pub enum ReadError {
    /// A pulse reached the pulse timeout, or an acknowledgement pulse fell
    /// outside its window.
    Timeout,
    /// The checksum byte does not match the four data bytes.
    Checksum,
}

/// The five bytes of one successful transaction, in the order of the wire.
#[derive(Clone, Copy, Debug, PartialEq, Eq, Structural)]
pub struct RawFrame {
    pub humidity_high: u8,
    pub humidity_low: u8,
    pub temperature_high: u8,
    pub temperature_low: u8,
    pub checksum: u8,
}

/// The low eight bits of the sum of the four data bytes.
pub open spec fn data_sum_byte(f: RawFrame) -> int {
    (f.humidity_high + f.humidity_low + f.temperature_high + f.temperature_low) % 256
}

/// A frame passes the checksum when its fifth byte is the sum of the four
/// data bytes, modulo 256.
pub open spec fn checksum_ok(f: RawFrame) -> bool {
    f.checksum == data_sum_byte(f)
}

/// Relative humidity in tenths of a percent: the two humidity bytes read as
/// one unsigned big-endian number.
pub open spec fn humidity_tenths(f: RawFrame) -> int {
    f.humidity_high * 256 + f.humidity_low
}

/// The fifteen magnitude bits of the temperature: bit 7 of the high byte is
/// the sign and takes no part.
pub open spec fn temperature_magnitude(f: RawFrame) -> int {
    (f.temperature_high % 128) * 256 + f.temperature_low
}

/// Temperature in tenths of a degree Celsius, in sign-magnitude encoding:
/// negative when bit 7 of the high byte is set.
pub open spec fn temperature_tenths(f: RawFrame) -> int {
    if f.temperature_high >= 128 {
        -temperature_magnitude(f)
    } else {
        temperature_magnitude(f)
    }
}

impl RawFrame {
    /// Whether the checksum byte equals the sum of the data bytes, computed
    /// sixteen bits wide and cut to eight.
    pub fn checksum_valid(&self) -> (r: bool)
        ensures
            r == checksum_ok(*self),
    {
        let sum: u16 = self.humidity_high as u16 + self.humidity_low as u16
            + self.temperature_high as u16 + self.temperature_low as u16;
        self.checksum as u16 == sum % 256
    }
}

/// Decodes the temperature of a frame, in tenths of a degree Celsius.
pub fn decode_temperature(frame: &RawFrame) -> (r: i16)
    ensures
        r == temperature_tenths(*frame),
{
    let high = frame.temperature_high;
    let low = frame.temperature_low;
    let magnitude: u16 = (((high & 0x7F) as u16) << 8) | low as u16;
    assert(magnitude == (high % 128) * 256 + low && magnitude < 0x8000) by (bit_vector)
        requires
            magnitude == (((high & 0x7F) as u16) << 8) | low as u16,
    ;
    let value = magnitude as i16;
    if high & 0x80 != 0 {
        assert(high & 0x80 != 0 ==> high >= 128) by (bit_vector);
        -value
    } else {
        assert(high & 0x80 == 0 ==> high < 128) by (bit_vector);
        value
    }
}

/// Decodes the relative humidity of a frame, in tenths of a percent.
pub fn decode_humidity(frame: &RawFrame) -> (r: u16)
    ensures
        r == humidity_tenths(*frame),
{
    let high = frame.humidity_high;
    let low = frame.humidity_low;
    let value: u16 = ((high as u16) << 8) | low as u16;
    assert(value == high * 256 + low) by (bit_vector)
        requires
            value == ((high as u16) << 8) | low as u16,
    ;
    value
}

/// Decoding reads nothing but the frame's bytes: frames with the same five
/// bytes decode to the same temperature and the same humidity, however often
/// the decoders are called.
pub proof fn decoding_depends_on_bytes_alone(a: RawFrame, b: RawFrame)
    requires
        a.humidity_high == b.humidity_high,
        a.humidity_low == b.humidity_low,
        a.temperature_high == b.temperature_high,
        a.temperature_low == b.temperature_low,
        a.checksum == b.checksum,
    ensures
        temperature_tenths(a) == temperature_tenths(b),
        humidity_tenths(a) == humidity_tenths(b),
{
}

/// Sign-magnitude temperature: with bit 7 of the high byte set the value is
/// the negated magnitude, with it clear the magnitude itself, where the
/// magnitude is the high byte's other seven bits followed by the low byte.
pub proof fn temperature_sign_magnitude(f: RawFrame)
    ensures
        f.temperature_high & 0x80 != 0 ==> temperature_tenths(f) == -(((f.temperature_high
            & 0x7F) as int) * 256 + f.temperature_low),
        f.temperature_high & 0x80 == 0 ==> temperature_tenths(f) == ((f.temperature_high
            & 0x7F) as int) * 256 + f.temperature_low,
{
    let high = f.temperature_high;
    assert(high & 0x7F == high % 128) by (bit_vector);
    assert(high & 0x80 != 0 <==> high >= 128) by (bit_vector);
}

} // verus!
