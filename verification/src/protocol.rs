//! The wire protocol: bus events, command encoding, and bit timing.
//!
//! A transaction is described as a mathematical sequence of [`BusEvent`]s.
//! The spec functions here build the event sequences that the driver in
//! [`crate::driver`] promises to emit, so that every contract pins down the
//! exact traffic on the two lines.

use vstd::prelude::*;

verus! {

/// One observable action on the two-wire bus, in the order the driver
/// performs them: clock edges, data-line drives, data-line samples (with the
/// sampled "is low" level), and microsecond delays.
#[derive(Clone, Copy, Debug, PartialEq, Eq, Structural)]
pub enum BusEvent {
    ClkLow,
    ClkHigh,
    DioLow,
    DioHigh,
    ReadDio(bool),
    Delay(u16),
}

/// Highest clock rate the chip tolerates, in kHz.
pub const MAX_FREQ_KHZ: u16 = 500;

/// Opcode selecting automatic address increment for data writes.
pub const ADDRESS_AUTO_INCREMENT_1_MODE: u8 = 0x40;

/// Opcode bits of the "set address" command.
pub const ADDRESS_COMMAND_BITS: u8 = 0xc0;

/// The address operand is masked to these bits before being combined.
pub const ADDRESS_COMMAND_MASK: u8 = 0x0f;

/// Opcode bits of the "brightness + display on" command.
pub const DISPLAY_CONTROL_BRIGHTNESS_BITS: u8 = 0x88;

/// The brightness operand is masked to these bits before being combined.
pub const DISPLAY_CONTROL_BRIGHTNESS_MASK: u8 = 0x07;

/// Integer division rounding towards positive infinity, for positive `b`.
pub open spec fn ceil_div(a: int, b: int) -> int {
    (a + b - 1) / b
}

/// Half-period of the bus clock in microseconds for a given maximum
/// frequency: two of these delays make one full clock period, so the period
/// never undercuts `1 / max_freq`.
pub open spec fn bit_delay_spec(max_freq_khz: u16) -> int {
    ceil_div(1000, 2 * max_freq_khz)
}

/// The delay the driver inserts after each clock edge.
pub open spec fn delay_val() -> u16 {
    bit_delay_spec(MAX_FREQ_KHZ) as u16
}

/// The "set address" command byte: the opcode with the address masked to the
/// chip's four address bits.
pub open spec fn address_command(address: u8) -> u8 {
    ADDRESS_COMMAND_BITS | (address & ADDRESS_COMMAND_MASK)
}

/// The "brightness" command byte: the opcode (which also turns the display
/// on) with the level masked to three bits.
pub open spec fn brightness_command(level: u8) -> u8 {
    DISPLAY_CONTROL_BRIGHTNESS_BITS | (level & DISPLAY_CONTROL_BRIGHTNESS_MASK)
}

/// Whether bit `i` (counted from the least significant end) of `byte` is set.
pub open spec fn bit_of(byte: u8, i: int) -> bool {
    ((byte >> (i as u8)) & 1) == 1
}

/// The four events of one clocked bit: clock low, data set to the bit value,
/// clock high, and one bit-period delay (the chip samples while the clock is
/// high).
pub open spec fn bit_events(b: bool) -> Seq<BusEvent> {
    seq![
        BusEvent::ClkLow,
        (if b { BusEvent::DioHigh } else { BusEvent::DioLow }),
        BusEvent::ClkHigh,
        BusEvent::Delay(delay_val()),
    ]
}

/// The events of the `n` lowest bits of `byte`, least significant first.
pub open spec fn bits_events(byte: u8, n: int) -> Seq<BusEvent>
    decreases n,
{
    if n <= 0 {
        Seq::empty()
    } else {
        bits_events(byte, n - 1) + bit_events(bit_of(byte, n - 1))
    }
}

/// The events of all eight bits of `byte`, least significant first.
pub open spec fn byte_events(byte: u8) -> Seq<BusEvent> {
    bits_events(byte, 8)
}

/// `k` acknowledgement polls that each saw the data line still high: a
/// sample followed by one bit-period delay.
pub open spec fn poll_high_events(k: int) -> Seq<BusEvent>
    decreases k,
{
    if k <= 0 {
        Seq::empty()
    } else {
        poll_high_events(k - 1) + seq![BusEvent::ReadDio(false), BusEvent::Delay(delay_val())]
    }
}

/// A successful acknowledgement phase: release the data line (one high bit),
/// then `k` polls that saw it high, then the poll that saw the chip pull it
/// low.
pub open spec fn ack_ok_events(k: int) -> Seq<BusEvent> {
    bit_events(true) + poll_high_events(k) + seq![BusEvent::ReadDio(true)]
}

/// A full byte transfer whose acknowledgement arrived on poll `k`.
pub open spec fn sent_byte_events(byte: u8, k: int) -> Seq<BusEvent> {
    byte_events(byte) + ack_ok_events(k)
}

/// A byte transfer whose acknowledgement never came: all 255 polls saw the
/// data line high.
pub open spec fn timeout_byte_events(byte: u8) -> Seq<BusEvent> {
    byte_events(byte) + bit_events(true) + poll_high_events(255)
}

/// The start condition: data falls while the clock is high.
pub open spec fn start_events() -> Seq<BusEvent> {
    bit_events(true) + seq![BusEvent::DioLow]
}

/// The stop condition: data rises while the clock is high, with a settling
/// delay.
pub open spec fn stop_events() -> Seq<BusEvent> {
    bit_events(false) + seq![BusEvent::DioHigh, BusEvent::Delay(delay_val())]
}

/// Each byte's acknowledgement poll count is one of the 255 allowed polls.
pub open spec fn valid_acks(acks: Seq<int>, n: int) -> bool {
    &&& acks.len() == n
    &&& forall|i: int| 0 <= i < n ==> 0 <= #[trigger] acks[i] < 255
}

/// The events of a sequence of byte transfers, where byte `i` was
/// acknowledged on poll `acks[i]`.
pub open spec fn payload_events(payload: Seq<u8>, acks: Seq<int>) -> Seq<BusEvent>
    decreases payload.len(),
{
    if payload.len() == 0 {
        Seq::empty()
    } else {
        payload_events(payload.drop_last(), acks.drop_last())
            + sent_byte_events(payload.last(), acks.last())
    }
}

/// One complete transaction: start condition, each payload byte with its
/// acknowledgement, stop condition.
pub open spec fn txn_events(payload: Seq<u8>, acks: Seq<int>) -> Seq<BusEvent> {
    start_events() + payload_events(payload, acks) + stop_events()
}

/// Trace `t1` extends trace `t0` by exactly one complete, acknowledged
/// transaction carrying `payload`.
pub open spec fn writes_txn(t0: Seq<BusEvent>, t1: Seq<BusEvent>, payload: Seq<u8>) -> bool {
    exists|acks: Seq<int>|
        valid_acks(acks, payload.len() as int) && t1 == t0 + #[trigger] txn_events(payload, acks)
}

/// Trace `t1` extends `t0` by a transaction that was cut short by a missing
/// acknowledgement on byte `j`: the start condition, the first `j` bytes
/// acknowledged, then byte `j` with all 255 polls seeing the line high.
/// No stop condition is emitted.
pub open spec fn ack_timeout_txn(t0: Seq<BusEvent>, t1: Seq<BusEvent>, payload: Seq<u8>) -> bool {
    exists|j: int, acks: Seq<int>|
        0 <= j < payload.len() && valid_acks(acks, j) && t1 == t0 + start_events()
            + #[trigger] payload_events(payload.take(j), acks) + timeout_byte_events(payload[j])
}

/// A proper prefix of one clocked bit: the extension a bit transfer leaves
/// behind when one of its three pin drives faults (the faulting drive itself
/// is never recorded).
pub open spec fn partial_bit_ext(b: bool, ext: Seq<BusEvent>) -> bool {
    exists|n: int| 0 <= n <= 2 && ext == #[trigger] bit_events(b).take(n)
}

/// The extension a byte transfer leaves behind when a pin drive or a sample
/// faults: some acknowledged-free prefix of its bits, or the full bits with
/// a partial release, or the released line with some polls already taken.
pub open spec fn partial_send_ext(byte: u8, ext: Seq<BusEvent>) -> bool {
    ||| exists|i: int, p: Seq<BusEvent>|
        #![trigger bits_events(byte, i).add(p)]
        0 <= i < 8 && partial_bit_ext(bit_of(byte, i), p) && ext == bits_events(byte, i) + p
    ||| exists|p: Seq<BusEvent>|
        #![trigger byte_events(byte).add(p)]
        partial_bit_ext(true, p) && ext == byte_events(byte) + p
    ||| exists|k: int|
        0 <= k < 255 && ext == byte_events(byte) + bit_events(true) + #[trigger] poll_high_events(
            k,
        )
}

/// The extension a start condition leaves behind when it faults: a partial
/// high bit, or the full high bit with the falling data edge missing.
pub open spec fn partial_start_ext(ext: Seq<BusEvent>) -> bool {
    ||| partial_bit_ext(true, ext)
    ||| ext == bit_events(true)
}

/// The extension a stop condition leaves behind when it faults: a partial
/// low bit, or the full low bit with the rising data edge missing.
pub open spec fn partial_stop_ext(ext: Seq<BusEvent>) -> bool {
    ||| partial_bit_ext(false, ext)
    ||| ext == bit_events(false)
}

/// Trace `t1` extends `t0` by a transaction carrying `payload` that a pin
/// fault cut short: in the start condition, in byte `j` after the first `j`
/// bytes were acknowledged, or in the stop condition. Whatever the cut, the
/// stop condition is never completed and nothing follows the fault.
pub open spec fn aborted_txn(t0: Seq<BusEvent>, t1: Seq<BusEvent>, payload: Seq<u8>) -> bool {
    ||| exists|ext: Seq<BusEvent>| #[trigger] partial_start_ext(ext) && t1 == t0 + ext
    ||| exists|j: int, acks: Seq<int>, p: Seq<BusEvent>|
        #![trigger payload_events(payload.take(j), acks), partial_send_ext(payload[j], p)]
        0 <= j < payload.len() && valid_acks(acks, j) && partial_send_ext(payload[j], p) && t1
            == t0 + start_events() + payload_events(payload.take(j), acks) + p
    ||| exists|acks: Seq<int>, p: Seq<BusEvent>|
        #![trigger payload_events(payload, acks).add(p)]
        valid_acks(acks, payload.len() as int) && partial_stop_ext(p) && t1 == t0 + start_events()
            + payload_events(payload, acks) + p
}

/// Computes the per-bit delay in microseconds from the maximum clock
/// frequency, rounding up so that a full clock period (one low phase plus
/// one high phase) never exceeds the chip's maximum toggle rate.
pub fn bit_delay_us(max_freq_khz: u16) -> (r: u16)
    requires
        1 <= max_freq_khz,
    ensures
        r as int == bit_delay_spec(max_freq_khz),
{
    let d: u32 = 2 * (max_freq_khz as u32);
    let q: u32 = (1000 + d - 1) / d;
    proof {
        assert(q <= 500) by (nonlinear_arith)
            requires
                d >= 2,
                q == (1000 + d - 1) as int / d as int,
        ;
    }
    q as u16
}

} // verus!

