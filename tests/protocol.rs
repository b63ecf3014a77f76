use dht22_rs::{
    ack_pulse_ok, bit_value, decode_frame, decode_humidity, decode_temperature,
    pulse_continues, pulse_timed_out, Action, CommandType, DHT22Cli, Level, PinMode, RawFrame,
    ReadError, ReadTransaction, ACK_MAX_NS, ACK_MIN_NS, DATA_BITS, PULSE_TIMEOUT_NS,
};

const LOW_NS: u64 = 54_000;
const ZERO_HIGH_NS: u64 = 26_000;
const ONE_HIGH_NS: u64 = 70_000;

fn frame(bytes: [u8; 5]) -> RawFrame {
    RawFrame {
        humidity_high: bytes[0],
        humidity_low: bytes[1],
        temperature_high: bytes[2],
        temperature_low: bytes[3],
        checksum: bytes[4],
    }
}

/// The low and high pulse lengths a sensor would send for these bytes.
fn pulses_for(bytes: [u8; 5]) -> (Vec<u64>, Vec<u64>) {
    let mut lows = Vec::new();
    let mut highs = Vec::new();
    for i in 0..DATA_BITS {
        let bit = (bytes[i / 8] >> (7 - i % 8)) & 1;
        lows.push(LOW_NS);
        highs.push(if bit == 1 { ONE_HIGH_NS } else { ZERO_HIGH_NS });
    }
    (lows, highs)
}

/// Runs a transaction with the given acknowledgement and data pulses and
/// returns its outcome, with the number of measurements it asked for.
fn run_transaction(ack: &[u64], lows: &[u64], highs: &[u64]) -> (Result<RawFrame, ReadError>, usize) {
    let mut t = ReadTransaction::new();
    let mut pulses: Vec<(Level, u64)> = Vec::new();
    pulses.push((Level::High, ack[0]));
    pulses.push((Level::Low, ack[1]));
    pulses.push((Level::High, ack[2]));
    for i in 0..lows.len() {
        pulses.push((Level::Low, lows[i]));
        pulses.push((Level::High, highs[i]));
    }
    let mut measured = 0;
    for _ in 0..200 {
        match t.next_action() {
            Action::Finish(r) => return (r, measured),
            Action::Measure { level, timeout_ns } => {
                assert_eq!(timeout_ns, PULSE_TIMEOUT_NS);
                let (expected_level, d) = pulses[measured];
                assert_eq!(level, expected_level);
                measured += 1;
                t.complete(d);
            }
            _ => t.complete(0),
        }
    }
    panic!("transaction did not finish");
}

#[test]
fn realistic_frame_decodes() {
    let bytes = [0x02, 0x8C, 0x01, 0x05, 0x94];
    let (lows, highs) = pulses_for(bytes);
    let r = decode_frame(&lows, &highs);
    assert_eq!(r, Ok(frame(bytes)));
    let f = r.unwrap();
    assert_eq!(decode_temperature(&f), 261);
    assert_eq!(decode_humidity(&f), 652);
    let celsius = decode_temperature(&f) as f32 * 0.1;
    let percent = decode_humidity(&f) as f32 * 0.1;
    assert!((celsius - 26.1).abs() < 1e-4);
    assert!((percent - 65.2).abs() < 1e-4);
}

#[test]
fn wrong_checksum_is_data_corruption() {
    let (lows, highs) = pulses_for([0x02, 0x8C, 0x01, 0x05, 0x93]);
    assert_eq!(decode_frame(&lows, &highs), Err(ReadError::Checksum));
    // The four data bytes sum to 0x94, so 0x92 is no match either.
    let (lows, highs) = pulses_for([0x02, 0x8C, 0x01, 0x05, 0x92]);
    assert_eq!(decode_frame(&lows, &highs), Err(ReadError::Checksum));
}

#[test]
fn sign_bit_negates_temperature() {
    let f = frame([0x02, 0x8C, 0x81, 0x05, 0x14]);
    assert_eq!(decode_temperature(&f), -261);
    let celsius = decode_temperature(&f) as f32 * 0.1;
    assert!((celsius + 26.1).abs() < 1e-4);
}

#[test]
fn temperature_extremes() {
    assert_eq!(decode_temperature(&frame([0, 0, 0x7F, 0xFF, 0x7E])), 32767);
    assert_eq!(decode_temperature(&frame([0, 0, 0xFF, 0xFF, 0xFE])), -32767);
    assert_eq!(decode_temperature(&frame([0, 0, 0x80, 0x00, 0x80])), 0);
    assert_eq!(decode_temperature(&frame([0, 0, 0x00, 0x00, 0x00])), 0);
}

#[test]
fn humidity_extremes() {
    assert_eq!(decode_humidity(&frame([0xFF, 0xFF, 0, 0, 0xFE])), 65535);
    assert_eq!(decode_humidity(&frame([0, 0, 0, 0, 0])), 0);
    assert_eq!(decode_humidity(&frame([0x01, 0x00, 0, 0, 0x01])), 256);
}

#[test]
fn decoding_twice_gives_the_same() {
    let f = frame([0x02, 0x8C, 0x81, 0x05, 0x14]);
    assert_eq!(decode_temperature(&f), decode_temperature(&f));
    assert_eq!(decode_humidity(&f), decode_humidity(&f));
    assert_eq!(f, frame([0x02, 0x8C, 0x81, 0x05, 0x14]));
}

#[test]
fn checksum_is_sum_modulo_256() {
    // 0x02 + 0x8C + 0x01 + 0x05 = 0x94.
    assert!(frame([0x02, 0x8C, 0x01, 0x05, 0x94]).checksum_valid());
    assert!(!frame([0x02, 0x8C, 0x01, 0x05, 0x92]).checksum_valid());
    assert!(!frame([0x02, 0x8C, 0x01, 0x05, 0x93]).checksum_valid());
    assert!(frame([0xFF, 0xFF, 0xFF, 0xFF, 0xFC]).checksum_valid());
    assert!(!frame([0xFF, 0xFF, 0xFF, 0xFF, 0xFF]).checksum_valid());
    assert!(frame([0x80, 0x80, 0x00, 0x00, 0x00]).checksum_valid());
    assert!(frame([0, 0, 0, 0, 0]).checksum_valid());
}

#[test]
fn bit_is_one_only_when_high_outlasts_low() {
    assert_eq!(bit_value(54_000, 70_000), 1);
    assert_eq!(bit_value(54_000, 26_000), 0);
    assert_eq!(bit_value(54_000, 54_000), 0);
    assert_eq!(bit_value(54_000, 54_001), 1);
    assert_eq!(bit_value(0, 0), 0);
}

#[test]
fn equal_pulses_decode_to_zero_bits() {
    let lows = vec![50_000; DATA_BITS];
    let highs = vec![50_000; DATA_BITS];
    assert_eq!(decode_frame(&lows, &highs), Ok(frame([0, 0, 0, 0, 0])));
}

#[test]
fn bits_are_packed_most_significant_first() {
    let mut lows = vec![LOW_NS; DATA_BITS];
    let mut highs = vec![ZERO_HIGH_NS; DATA_BITS];
    // Bit slot 0 is bit 7 of byte 0; slot 15 is bit 0 of byte 1; the
    // checksum bits carry their sum.
    highs[0] = ONE_HIGH_NS;
    highs[15] = ONE_HIGH_NS;
    highs[32] = ONE_HIGH_NS;
    highs[39] = ONE_HIGH_NS;
    lows[1] = 10_000;
    highs[1] = 10_000;
    assert_eq!(decode_frame(&lows, &highs), Ok(frame([0x80, 0x01, 0, 0, 0x81])));
}

#[test]
fn pulse_at_timeout_fails() {
    let (lows, mut highs) = pulses_for([0x02, 0x8C, 0x01, 0x05, 0x94]);
    highs[6] = PULSE_TIMEOUT_NS;
    assert_eq!(decode_frame(&lows, &highs), Err(ReadError::Timeout));
    let (mut lows, highs) = pulses_for([0x02, 0x8C, 0x01, 0x05, 0x94]);
    lows[39] = PULSE_TIMEOUT_NS;
    assert_eq!(decode_frame(&lows, &highs), Err(ReadError::Timeout));
}

#[test]
fn pulse_just_below_timeout_passes() {
    let bytes = [0x02, 0x8C, 0x01, 0x05, 0x94];
    let (mut lows, mut highs) = pulses_for(bytes);
    // Slot 6 carries a 1 bit (0x02), so a longer high pulse keeps it.
    highs[6] = PULSE_TIMEOUT_NS - 1;
    // Slot 0 carries a 0 bit: a long low pulse with a shorter high keeps it.
    lows[0] = PULSE_TIMEOUT_NS - 1;
    assert_eq!(decode_frame(&lows, &highs), Ok(frame(bytes)));
    assert!(pulse_timed_out(PULSE_TIMEOUT_NS));
    assert!(pulse_timed_out(PULSE_TIMEOUT_NS + 1));
    assert!(!pulse_timed_out(PULSE_TIMEOUT_NS - 1));
}

#[test]
fn timeout_wins_over_checksum() {
    let (lows, mut highs) = pulses_for([0x02, 0x8C, 0x01, 0x05, 0x93]);
    highs[0] = PULSE_TIMEOUT_NS + 5;
    assert_eq!(decode_frame(&lows, &highs), Err(ReadError::Timeout));
}

#[test]
fn acknowledgement_window_bounds() {
    assert_eq!(ACK_MIN_NS, 70_000);
    assert_eq!(ACK_MAX_NS, 90_000);
    assert!(!ack_pulse_ok(69_000));
    assert!(!ack_pulse_ok(69_999));
    assert!(ack_pulse_ok(70_000));
    assert!(ack_pulse_ok(80_000));
    assert!(ack_pulse_ok(90_000));
    assert!(!ack_pulse_ok(90_001));
    assert!(!ack_pulse_ok(91_000));
}

#[test]
fn pulse_timer_stops_on_level_change_or_timeout() {
    assert!(pulse_continues(Level::High, Level::High, 0, PULSE_TIMEOUT_NS));
    assert!(pulse_continues(Level::Low, Level::Low, PULSE_TIMEOUT_NS, PULSE_TIMEOUT_NS));
    assert!(!pulse_continues(Level::Low, Level::Low, PULSE_TIMEOUT_NS + 1, PULSE_TIMEOUT_NS));
    assert!(!pulse_continues(Level::Low, Level::High, 10, PULSE_TIMEOUT_NS));
    assert!(!pulse_continues(Level::High, Level::Low, 10, PULSE_TIMEOUT_NS));
}

#[test]
fn transaction_opens_with_setup_actions() {
    let mut t = ReadTransaction::new();
    let expected = [
        Action::EnablePullUp,
        Action::SetMode(PinMode::Output),
        Action::Drive(Level::High),
        Action::SleepMicros(1000),
        Action::Drive(Level::Low),
        Action::SleepMicros(1100),
        Action::Drive(Level::High),
        Action::SetMode(PinMode::Input),
    ];
    for a in expected.iter() {
        assert_eq!(t.next_action(), *a);
        t.complete(12345);
    }
    assert_eq!(
        t.next_action(),
        Action::Measure { level: Level::High, timeout_ns: PULSE_TIMEOUT_NS }
    );
}

#[test]
fn transaction_reads_realistic_frame() {
    let bytes = [0x02, 0x8C, 0x01, 0x05, 0x94];
    let (lows, highs) = pulses_for(bytes);
    let (r, measured) = run_transaction(&[30_000, 80_000, 80_000], &lows, &highs);
    assert_eq!(r, Ok(frame(bytes)));
    assert_eq!(measured, 3 + 2 * DATA_BITS);
}

#[test]
fn transaction_reports_checksum_failure() {
    let (lows, highs) = pulses_for([0x02, 0x8C, 0x01, 0x05, 0x93]);
    let (r, _) = run_transaction(&[30_000, 80_000, 80_000], &lows, &highs);
    assert_eq!(r, Err(ReadError::Checksum));
}

#[test]
fn transaction_acknowledgement_boundaries() {
    let (lows, highs) = pulses_for([0x02, 0x8C, 0x01, 0x05, 0x94]);
    for (low, high, ok) in [
        (70_000, 70_000, true),
        (90_000, 90_000, true),
        (69_000, 80_000, false),
        (91_000, 80_000, false),
        (80_000, 69_000, false),
        (80_000, 91_000, false),
    ] {
        let (r, measured) = run_transaction(&[30_000, low, high], &lows, &highs);
        if ok {
            assert_eq!(r, Ok(frame([0x02, 0x8C, 0x01, 0x05, 0x94])));
        } else {
            assert_eq!(r, Err(ReadError::Timeout));
            // The transaction stops at the failing pulse.
            assert!(measured <= 3);
        }
    }
}

#[test]
fn transaction_first_acknowledgement_timeout() {
    let (lows, highs) = pulses_for([0x02, 0x8C, 0x01, 0x05, 0x94]);
    let (r, measured) = run_transaction(&[PULSE_TIMEOUT_NS, 80_000, 80_000], &lows, &highs);
    assert_eq!(r, Err(ReadError::Timeout));
    assert_eq!(measured, 1);
    let (r, _) = run_transaction(&[PULSE_TIMEOUT_NS - 1, 80_000, 80_000], &lows, &highs);
    assert_eq!(r, Ok(frame([0x02, 0x8C, 0x01, 0x05, 0x94])));
}

#[test]
fn transaction_data_timeout() {
    let (lows, mut highs) = pulses_for([0x02, 0x8C, 0x01, 0x05, 0x94]);
    highs[20] = PULSE_TIMEOUT_NS;
    let (r, _) = run_transaction(&[30_000, 80_000, 80_000], &lows, &highs);
    assert_eq!(r, Err(ReadError::Timeout));
}

#[test]
fn finished_transaction_stays_finished() {
    let mut t = ReadTransaction::new();
    for _ in 0..8 {
        t.complete(0);
    }
    t.complete(30_000);
    t.complete(10_000);
    assert_eq!(t.next_action(), Action::Finish(Err(ReadError::Timeout)));
    t.complete(80_000);
    t.complete(80_000);
    assert_eq!(t.next_action(), Action::Finish(Err(ReadError::Timeout)));
}

#[test]
fn command_line_types() {
    let cli = DHT22Cli { command_type: CommandType::Temp };
    assert_eq!(cli.command_type, CommandType::Temp);
    assert_ne!(CommandType::Temp, CommandType::Humid);
}
