use tm1637::{BusEvent, Error, SimBus, TM1637};

const DELAY: u16 = 1;

fn bit_ev(out: &mut Vec<BusEvent>, b: bool) {
    out.push(BusEvent::ClkLow);
    if b {
        out.push(BusEvent::DioHigh);
    } else {
        out.push(BusEvent::DioLow);
    }
    out.push(BusEvent::ClkHigh);
    out.push(BusEvent::Delay(DELAY));
}

fn byte_ev(out: &mut Vec<BusEvent>, byte: u8) {
    for i in 0..8 {
        bit_ev(out, (byte >> i) & 1 == 1);
    }
}

/// A byte transfer acknowledged on the first poll.
fn acked_byte_ev(out: &mut Vec<BusEvent>, byte: u8) {
    byte_ev(out, byte);
    bit_ev(out, true);
    out.push(BusEvent::ReadDio(true));
}

fn start_ev(out: &mut Vec<BusEvent>) {
    bit_ev(out, true);
    out.push(BusEvent::DioLow);
}

fn stop_ev(out: &mut Vec<BusEvent>) {
    bit_ev(out, false);
    out.push(BusEvent::DioHigh);
    out.push(BusEvent::Delay(DELAY));
}

/// A whole successful transaction, every byte acknowledged at once.
fn txn_ev(payload: &[u8]) -> Vec<BusEvent> {
    let mut v = Vec::new();
    start_ev(&mut v);
    for &b in payload {
        acked_byte_ev(&mut v, b);
    }
    stop_ev(&mut v);
    v
}

#[test]
fn init_sends_auto_increment_opcode() {
    let bus = SimBus::new(vec![true], None);
    let mut tm = TM1637::new(bus);
    let r = tm.init();
    assert!(matches!(r, Ok(())));
    let bus = tm.release();
    assert_eq!(bus.log().as_slice(), txn_ev(&[0x40]).as_slice());
}

#[test]
fn write_raw_masks_address() {
    let bus = SimBus::new(vec![true; 3], None);
    let mut tm = TM1637::new(bus);
    let r = tm.print_raw(0xAB, &[0x12, 0x34]);
    assert!(matches!(r, Ok(())));
    let bus = tm.release();
    assert_eq!(
        bus.log().as_slice(),
        txn_ev(&[0xC0 | 0x0B, 0x12, 0x34]).as_slice()
    );
}

#[test]
fn write_raw_small_address_kept() {
    let bus = SimBus::new(vec![true; 2], None);
    let mut tm = TM1637::new(bus);
    let r = tm.print_raw(0x03, &[0x7F]);
    assert!(matches!(r, Ok(())));
    let bus = tm.release();
    assert_eq!(bus.log().as_slice(), txn_ev(&[0xC3, 0x7F]).as_slice());
}

#[test]
fn empty_write_sends_address_only() {
    let bus = SimBus::new(vec![true], None);
    let mut tm = TM1637::new(bus);
    let r = tm.print_raw(3, &[]);
    assert!(matches!(r, Ok(())));
    let bus = tm.release();
    assert_eq!(bus.log().as_slice(), txn_ev(&[0xC3]).as_slice());
}

#[test]
fn print_raw_iter_same_wire_traffic() {
    let bus = SimBus::new(vec![true; 2], None);
    let mut tm = TM1637::new(bus);
    let r = tm.print_raw_iter(1, &[0x40]);
    assert!(matches!(r, Ok(())));
    let bus = tm.release();
    assert_eq!(bus.log().as_slice(), txn_ev(&[0xC1, 0x40]).as_slice());
}

#[test]
fn set_brightness_masks_level() {
    let bus = SimBus::new(vec![true], None);
    let mut tm = TM1637::new(bus);
    let r = tm.set_brightness(0xFF);
    assert!(matches!(r, Ok(())));
    let bus = tm.release();
    assert_eq!(bus.log().as_slice(), txn_ev(&[0x88 | 0x07]).as_slice());
}

#[test]
fn set_brightness_small_level_kept() {
    let bus = SimBus::new(vec![true], None);
    let mut tm = TM1637::new(bus);
    let r = tm.set_brightness(3);
    assert!(matches!(r, Ok(())));
    let bus = tm.release();
    assert_eq!(bus.log().as_slice(), txn_ev(&[0x8B]).as_slice());
}

#[test]
fn print_hex_emits_table_patterns() {
    let bus = SimBus::new(vec![true; 4], None);
    let mut tm = TM1637::new(bus);
    let r = tm.print_hex(0, &[0, 1, 15]);
    assert!(matches!(r, Ok(())));
    let bus = tm.release();
    assert_eq!(
        bus.log().as_slice(),
        txn_ev(&[0xC0, 0x3F, 0x06, 0x71]).as_slice()
    );
}

#[test]
fn print_hex_masks_digits() {
    let bus = SimBus::new(vec![true; 2], None);
    let mut tm = TM1637::new(bus);
    let r = tm.print_hex(0, &[0xF2]);
    assert!(matches!(r, Ok(())));
    let bus = tm.release();
    assert_eq!(bus.log().as_slice(), txn_ev(&[0xC0, 0x5B]).as_slice());
}

#[test]
fn print_chars_emits_letter_patterns() {
    let bus = SimBus::new(vec![true; 3], None);
    let mut tm = TM1637::new(bus);
    let r = tm.print_chars(0, &['H', 'i']);
    assert!(matches!(r, Ok(())));
    let bus = tm.release();
    assert_eq!(bus.log().as_slice(), txn_ev(&[0xC0, 0x74, 0x30]).as_slice());
}

#[test]
fn ack_timeout_after_full_poll_budget() {
    // The chip never pulls the data line low: the script is empty, every
    // sample reads high.
    let bus = SimBus::new(Vec::new(), None);
    let mut tm = TM1637::new(bus);
    let r = tm.send(0x40);
    assert!(matches!(r, Err(Error::Ack)));
    let bus = tm.release();
    let mut expected = Vec::new();
    byte_ev(&mut expected, 0x40);
    bit_ev(&mut expected, true);
    for _ in 0..255 {
        expected.push(BusEvent::ReadDio(false));
        expected.push(BusEvent::Delay(DELAY));
    }
    assert_eq!(bus.log().as_slice(), expected.as_slice());
    let mut polls: usize = 0;
    for ev in bus.log() {
        if matches!(ev, BusEvent::ReadDio(_)) {
            polls += 1;
        }
    }
    assert_eq!(polls, 255);
}

#[test]
fn ack_on_first_poll_returns_at_once() {
    let bus = SimBus::new(vec![true], None);
    let mut tm = TM1637::new(bus);
    let r = tm.send(0x12);
    assert!(matches!(r, Ok(())));
    let bus = tm.release();
    let mut expected = Vec::new();
    byte_ev(&mut expected, 0x12);
    bit_ev(&mut expected, true);
    expected.push(BusEvent::ReadDio(true));
    // No polling delay after the acknowledgement.
    assert_eq!(bus.log().as_slice(), expected.as_slice());
}

#[test]
fn ack_on_later_poll() {
    let bus = SimBus::new(vec![false, false, true], None);
    let mut tm = TM1637::new(bus);
    let r = tm.send(0x00);
    assert!(matches!(r, Ok(())));
    let bus = tm.release();
    let mut expected = Vec::new();
    byte_ev(&mut expected, 0x00);
    bit_ev(&mut expected, true);
    expected.push(BusEvent::ReadDio(false));
    expected.push(BusEvent::Delay(DELAY));
    expected.push(BusEvent::ReadDio(false));
    expected.push(BusEvent::Delay(DELAY));
    expected.push(BusEvent::ReadDio(true));
    assert_eq!(bus.log().as_slice(), expected.as_slice());
}

#[test]
fn ack_timeout_mid_payload_stops_short() {
    // The address command and the first data byte are acknowledged; the
    // second data byte never is. No stop condition is emitted.
    let bus = SimBus::new(vec![true, true], None);
    let mut tm = TM1637::new(bus);
    let r = tm.print_raw(0, &[0x01, 0x02]);
    assert!(matches!(r, Err(Error::Ack)));
    let bus = tm.release();
    let mut expected = Vec::new();
    start_ev(&mut expected);
    acked_byte_ev(&mut expected, 0xC0);
    acked_byte_ev(&mut expected, 0x01);
    byte_ev(&mut expected, 0x02);
    bit_ev(&mut expected, true);
    for _ in 0..255 {
        expected.push(BusEvent::ReadDio(false));
        expected.push(BusEvent::Delay(DELAY));
    }
    assert_eq!(bus.log().as_slice(), expected.as_slice());
}

#[test]
fn clear_matches_zero_write() {
    let bus = SimBus::new(vec![true; 5], None);
    let mut tm = TM1637::new(bus);
    let r = tm.clear();
    assert!(matches!(r, Ok(())));
    let cleared = tm.release();

    let bus = SimBus::new(vec![true; 5], None);
    let mut tm = TM1637::new(bus);
    let r = tm.print_raw(0, &[0, 0, 0, 0]);
    assert!(matches!(r, Ok(())));
    let written = tm.release();

    assert_eq!(cleared.log().as_slice(), written.log().as_slice());
    assert_eq!(
        cleared.log().as_slice(),
        txn_ev(&[0xC0, 0, 0, 0, 0]).as_slice()
    );
}

#[test]
fn line_fault_aborts_transaction() {
    // Inject a fault at every position of the successful transaction in
    // turn. A faulting drive or sample must abort on the spot: nothing is
    // recorded at or after the fault, and the stop condition never comes.
    // (A delay cannot fault; those positions run to completion.)
    let full = txn_ev(&[0xC1, 0x55, 0xAA]);
    for f in 0..full.len() {
        let bus = SimBus::new(vec![true; 3], Some(f));
        let mut tm = TM1637::new(bus);
        let r = tm.print_raw(1, &[0x55, 0xAA]);
        let bus = tm.release();
        match full[f] {
            BusEvent::Delay(_) => {
                assert!(matches!(r, Ok(())));
                assert_eq!(bus.log().as_slice(), full.as_slice());
            }
            _ => {
                assert!(matches!(r, Err(Error::IO(_))));
                assert_eq!(bus.log().as_slice(), &full[..f]);
            }
        }
    }
}

#[test]
fn from_wraps_line_error() {
    let e: Error<u8> = Error::from(7u8);
    assert!(matches!(e, Error::IO(7)));
}
