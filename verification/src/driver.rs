//! The driver: composes the bus capability into whole chip transactions,
//! each stated as the exact event sequence it leaves on the bus.

use vstd::prelude::*;
use crate::bus::Bus;
use crate::protocol::ADDRESS_AUTO_INCREMENT_1_MODE;
use crate::protocol::ADDRESS_COMMAND_BITS;
use crate::protocol::ADDRESS_COMMAND_MASK;
use crate::protocol::DISPLAY_CONTROL_BRIGHTNESS_BITS;
use crate::protocol::DISPLAY_CONTROL_BRIGHTNESS_MASK;
use crate::protocol::MAX_FREQ_KHZ;
use crate::protocol::BusEvent;
use crate::protocol::bit_delay_us;
use crate::protocol::bit_events;
use crate::protocol::bit_of;
use crate::protocol::bits_events;
use crate::protocol::byte_events;
use crate::protocol::delay_val;
use crate::protocol::partial_bit_ext;
use crate::protocol::partial_send_ext;
use crate::protocol::partial_start_ext;
use crate::protocol::partial_stop_ext;
use crate::protocol::poll_high_events;
use crate::protocol::sent_byte_events;
use crate::protocol::start_events;
use crate::protocol::stop_events;
use crate::protocol::timeout_byte_events;
use crate::protocol::ack_timeout_txn;
use crate::protocol::aborted_txn;
use crate::protocol::address_command;
use crate::protocol::brightness_command;
use crate::protocol::payload_events;
use crate::protocol::txn_events;
use crate::protocol::valid_acks;
use crate::protocol::writes_txn;
use crate::encode::char_pattern;
use crate::encode::char_payload;
use crate::encode::char_to_raw;
use crate::encode::hex_digit_pattern;
use crate::encode::hex_pattern;
use crate::encode::hex_payload;

verus! {

/// How a transaction failed: the chip never acknowledged a byte, or a line
/// operation itself failed. A failed transaction is abandoned on the spot;
/// no stop condition is attempted.
#[derive(Debug)]
pub enum Error<E> {
    /// The chip did not pull the data line low within the polling budget.
    Ack,
    /// The underlying line operation failed; carries the line's own error.
    IO(E),
}

impl<E> vstd::std_specs::convert::FromSpecImpl<E> for Error<E> {
    open spec fn obeys_from_spec() -> bool {
        true
    }

    open spec fn from_spec(err: E) -> Self {
        Error::IO(err)
    }
}

impl<E> From<E> for Error<E> {
    /// Wraps a line error.
    fn from(err: E) -> (r: Error<E>) {
        Error::IO(err)
    }
}

/// The display driver. It owns a [`Bus`] capability for its lifetime and
/// performs one complete, self-contained transaction per public call; no
/// state survives between calls.
pub struct TM1637<B: Bus> {
    bus: B,
}

impl<B: Bus> TM1637<B> {
    /// The history of bus actions this driver has performed.
    pub closed spec fn trace(&self) -> Seq<BusEvent> {
        self.bus.trace()
    }

    /// Wraps a bus capability.
    pub fn new(bus: B) -> (r: TM1637<B>)
        ensures
            r.trace() == bus.trace(),
    {
        TM1637 { bus }
    }

    /// Hands the bus capability back.
    pub fn release(self) -> (r: B)
        ensures
            r.trace() == self.trace(),
    {
        self.bus
    }

    /// Blocks for one bit period, computed from the chip's maximum clock
    /// frequency.
    fn delay(&mut self)
        ensures
            final(self).trace() == old(self).trace().push(BusEvent::Delay(delay_val())),
    {
        let us = bit_delay_us(MAX_FREQ_KHZ);
        self.bus.delay_us(us);
    }

    /// Clocks one bit out: clock low, data set to the bit, clock high, and
    /// one bit-period delay while the chip samples.
    pub fn send_bit_and_delay(&mut self, value: bool) -> (r: Result<(), Error<B::Fault>>)
        ensures
            match r {
                Ok(()) => final(self).trace() == old(self).trace() + bit_events(value),
                Err(Error::Ack) => false,
                Err(Error::IO(_)) => exists|n: int|
                    0 <= n <= 2 && final(self).trace() == old(self).trace() + #[trigger] bit_events(
                        value,
                    ).take(n),
            },
    {
        let ghost t0 = self.trace();
        match self.bus.clk_low() {
            Ok(()) => {},
            Err(e) => {
                proof {
                    assert(self.trace() =~= t0 + bit_events(value).take(0));
                }
                return Err(Error::IO(e));
            },
        }
        let dio_result = if value {
            self.bus.dio_high()
        } else {
            self.bus.dio_low()
        };
        match dio_result {
            Ok(()) => {},
            Err(e) => {
                proof {
                    assert(self.trace() =~= t0 + bit_events(value).take(1));
                }
                return Err(Error::IO(e));
            },
        }
        match self.bus.clk_high() {
            Ok(()) => {},
            Err(e) => {
                proof {
                    assert(self.trace() =~= t0 + bit_events(value).take(2));
                }
                return Err(Error::IO(e));
            },
        }
        self.delay();
        proof {
            assert(self.trace() =~= t0 + bit_events(value));
        }
        Ok(())
    }

    /// Transfers one byte, least significant bit first, then releases the
    /// data line and polls it for the chip's acknowledgement, up to 255
    /// times with one bit period between polls. Success comes the moment
    /// the line reads low; a full poll budget with the line high is an
    /// acknowledgement timeout.
    #[verifier::loop_isolation(false)]
    pub fn send(&mut self, byte: u8) -> (r: Result<(), Error<B::Fault>>)
        ensures
            match r {
                Ok(()) => exists|k: int|
                    0 <= k < 255 && final(self).trace() == old(self).trace()
                        + #[trigger] sent_byte_events(byte, k),
                Err(Error::Ack) => final(self).trace() == old(self).trace() + timeout_byte_events(
                    byte,
                ),
                Err(Error::IO(_)) => exists|ext: Seq<BusEvent>|
                    #[trigger] partial_send_ext(byte, ext) && final(self).trace() == old(
                        self,
                    ).trace() + ext,
            },
    {
        let ghost t0 = self.trace();
        let mut rest: u8 = byte;
        let mut i: u8 = 0;
        proof {
            assert(byte >> 0u8 == byte) by (bit_vector);
        }
        while i < 8
            invariant
                i <= 8,
                rest == byte >> i,
                self.trace() == t0 + bits_events(byte, i as int),
            decreases 8 - i,
        {
            let value: bool = (rest & 1) != 0;
            proof {
                assert((((byte >> i) & 1) != 0) == (((byte >> i) & 1) == 1)) by (bit_vector);
                assert(value == bit_of(byte, i as int));
            }
            match self.send_bit_and_delay(value) {
                Ok(()) => {},
                Err(e) => {
                    proof {
                        let told = t0 + bits_events(byte, i as int);
                        let n = choose|n: int|
                            0 <= n <= 2 && self.trace() == told + #[trigger] bit_events(
                                value,
                            ).take(n);
                        let p = bit_events(value).take(n);
                        assert(partial_bit_ext(bit_of(byte, i as int), p));
                        assert(self.trace() =~= t0 + (bits_events(byte, i as int) + p));
                        assert(partial_send_ext(byte, bits_events(byte, i as int).add(p)));
                    }
                    return Err(e);
                },
            }
            let ghost iprev = i;
            rest = rest >> 1;
            i = i + 1;
            proof {
                assert((byte >> iprev) >> 1 == byte >> ((iprev + 1) as u8)) by (bit_vector)
                    requires
                        iprev < 8,
                ;
                assert(bits_events(byte, i as int) == bits_events(byte, iprev as int) + bit_events(
                    bit_of(byte, iprev as int),
                ));
                assert(self.trace() =~= t0 + bits_events(byte, i as int));
            }
        }
        match self.send_bit_and_delay(true) {
            Ok(()) => {},
            Err(e) => {
                proof {
                    let told = t0 + byte_events(byte);
                    let n = choose|n: int|
                        0 <= n <= 2 && self.trace() == told + #[trigger] bit_events(true).take(n);
                    let p = bit_events(true).take(n);
                    assert(partial_bit_ext(true, p));
                    assert(self.trace() =~= t0 + (byte_events(byte) + p));
                    assert(partial_send_ext(byte, byte_events(byte).add(p)));
                }
                return Err(e);
            },
        }
        let ghost tack = self.trace();
        let mut j: u8 = 0;
        while j < 255
            invariant
                j <= 255,
                tack == t0 + byte_events(byte) + bit_events(true),
                self.trace() == tack + poll_high_events(j as int),
            decreases 255 - j,
        {
            match self.bus.dio_is_low() {
                Err(e) => {
                    proof {
                        let ext = byte_events(byte) + bit_events(true) + poll_high_events(j as int);
                        assert(self.trace() =~= t0 + ext);
                        assert(partial_send_ext(byte, ext));
                    }
                    return Err(Error::IO(e));
                },
                Ok(low) => {
                    if low {
                        proof {
                            assert(self.trace() =~= t0 + sent_byte_events(byte, j as int));
                        }
                        return Ok(());
                    }
                    self.delay();
                    let ghost jprev = j;
                    j = j + 1;
                    proof {
                        assert(poll_high_events(j as int) == poll_high_events(jprev as int) + seq![
                            BusEvent::ReadDio(false),
                            BusEvent::Delay(delay_val()),
                        ]);
                        assert(self.trace() =~= tack + poll_high_events(j as int));
                    }
                },
            }
        }
        proof {
            assert(self.trace() =~= t0 + timeout_byte_events(byte));
        }
        Err(Error::Ack)
    }

    /// Runs one complete transaction: start condition, the command byte,
    /// every data byte in order, stop condition. A missing acknowledgement
    /// or a line fault abandons the transaction at once; the stop condition
    /// is then never emitted.
    #[verifier::loop_isolation(false)]
    fn transaction(&mut self, cmd: u8, data: &[u8]) -> (r: Result<(), Error<B::Fault>>)
        ensures
            match r {
                Ok(()) => writes_txn(old(self).trace(), final(self).trace(), seq![cmd] + data@),
                Err(Error::Ack) => ack_timeout_txn(
                    old(self).trace(),
                    final(self).trace(),
                    seq![cmd] + data@,
                ),
                Err(Error::IO(_)) => aborted_txn(
                    old(self).trace(),
                    final(self).trace(),
                    seq![cmd] + data@,
                ),
            },
    {
        let ghost payload = seq![cmd] + data@;
        let ghost t0 = self.trace();
        proof {
            assert(payload.len() == 1 + data@.len());
            assert(payload[0] == cmd);
        }
        match self.start() {
            Ok(()) => {},
            Err(e) => {
                return Err(e);
            },
        }
        let ghost tstart = self.trace();
        let ghost noacks = Seq::<int>::empty();
        match self.send(cmd) {
            Ok(()) => {},
            Err(Error::Ack) => {
                proof {
                    assert(payload.take(0) =~= Seq::<u8>::empty());
                    assert(valid_acks(noacks, 0));
                    assert(payload_events(payload.take(0), noacks) == Seq::<BusEvent>::empty());
                    assert(self.trace() =~= t0 + start_events() + payload_events(
                        payload.take(0),
                        noacks,
                    ) + timeout_byte_events(payload[0]));
                    assert(ack_timeout_txn(t0, self.trace(), payload));
                }
                return Err(Error::Ack);
            },
            Err(Error::IO(e)) => {
                proof {
                    let p = choose|p: Seq<BusEvent>|
                        #[trigger] partial_send_ext(cmd, p) && self.trace() == tstart + p;
                    assert(payload.take(0) =~= Seq::<u8>::empty());
                    assert(valid_acks(noacks, 0));
                    assert(partial_send_ext(payload[0], p));
                    assert(payload_events(payload.take(0), noacks) == Seq::<BusEvent>::empty());
                    assert(self.trace() =~= t0 + start_events() + payload_events(
                        payload.take(0),
                        noacks,
                    ) + p);
                    assert(aborted_txn(t0, self.trace(), payload));
                }
                return Err(Error::IO(e));
            },
        }
        let ghost k0 = choose|k: int|
            0 <= k < 255 && self.trace() == tstart + #[trigger] sent_byte_events(cmd, k);
        let ghost mut acks = seq![k0];
        proof {
            assert(valid_acks(acks, 1));
            assert(payload.take(1) =~= seq![cmd]);
            assert(seq![cmd].drop_last() =~= Seq::<u8>::empty());
            assert(acks.drop_last() =~= noacks);
            assert(payload_events(seq![cmd], acks) == payload_events(Seq::<u8>::empty(), noacks)
                + sent_byte_events(cmd, k0));
            assert(self.trace() =~= t0 + start_events() + payload_events(payload.take(1), acks));
        }
        let mut idx: usize = 0;
        while idx < data.len()
            invariant
                idx <= data@.len(),
                valid_acks(acks, 1 + idx as int),
                self.trace() == t0 + start_events() + payload_events(
                    payload.take(1 + idx as int),
                    acks,
                ),
            decreases data@.len() - idx,
        {
            let b = data[idx];
            proof {
                assert(payload[1 + idx as int] == b);
            }
            let ghost tcur = self.trace();
            match self.send(b) {
                Ok(()) => {
                    proof {
                        let k = choose|k: int|
                            0 <= k < 255 && self.trace() == tcur + #[trigger] sent_byte_events(
                                b,
                                k,
                            );
                        let acksprev = acks;
                        acks = acks.push(k);
                        assert(valid_acks(acks, 2 + idx as int));
                        assert(payload.take(2 + idx as int) =~= payload.take(1 + idx as int).push(
                            b,
                        ));
                        assert(payload.take(2 + idx as int).drop_last() =~= payload.take(
                            1 + idx as int,
                        ));
                        assert(acks.drop_last() =~= acksprev);
                        assert(payload_events(payload.take(2 + idx as int), acks) == payload_events(
                            payload.take(1 + idx as int),
                            acksprev,
                        ) + sent_byte_events(b, k));
                        assert(self.trace() =~= t0 + start_events() + payload_events(
                            payload.take(2 + idx as int),
                            acks,
                        ));
                    }
                },
                Err(Error::Ack) => {
                    proof {
                        assert(self.trace() =~= t0 + start_events() + payload_events(
                            payload.take(1 + idx as int),
                            acks,
                        ) + timeout_byte_events(payload[1 + idx as int]));
                        assert(ack_timeout_txn(t0, self.trace(), payload));
                    }
                    return Err(Error::Ack);
                },
                Err(Error::IO(e)) => {
                    proof {
                        let p = choose|p: Seq<BusEvent>|
                            #[trigger] partial_send_ext(b, p) && self.trace() == tcur + p;
                        assert(partial_send_ext(payload[1 + idx as int], p));
                        assert(self.trace() =~= t0 + start_events() + payload_events(
                            payload.take(1 + idx as int),
                            acks,
                        ) + p);
                        assert(aborted_txn(t0, self.trace(), payload));
                    }
                    return Err(Error::IO(e));
                },
            }
            idx = idx + 1;
        }
        proof {
            assert(payload.take(1 + idx as int) =~= payload);
        }
        let ghost tdone = self.trace();
        match self.stop() {
            Ok(()) => {
                proof {
                    assert(self.trace() =~= t0 + txn_events(payload, acks));
                    assert(writes_txn(t0, self.trace(), payload));
                }
                Ok(())
            },
            Err(e) => {
                proof {
                    let p = choose|p: Seq<BusEvent>|
                        #[trigger] partial_stop_ext(p) && self.trace() == tdone + p;
                    assert(self.trace() =~= t0 + start_events() + (payload_events(payload, acks)
                        + p));
                    assert(aborted_txn(t0, self.trace(), payload));
                }
                Err(e)
            },
        }
    }

    /// Puts the chip in automatic address-increment mode. Must be called
    /// once before data writes; a failure is handed back unchanged.
    pub fn init(&mut self) -> (r: Result<(), Error<B::Fault>>)
        ensures
            match r {
                Ok(()) => writes_txn(
                    old(self).trace(),
                    final(self).trace(),
                    seq![ADDRESS_AUTO_INCREMENT_1_MODE],
                ),
                Err(Error::Ack) => ack_timeout_txn(
                    old(self).trace(),
                    final(self).trace(),
                    seq![ADDRESS_AUTO_INCREMENT_1_MODE],
                ),
                Err(Error::IO(_)) => aborted_txn(
                    old(self).trace(),
                    final(self).trace(),
                    seq![ADDRESS_AUTO_INCREMENT_1_MODE],
                ),
            },
    {
        let none: Vec<u8> = Vec::new();
        let r = self.transaction(ADDRESS_AUTO_INCREMENT_1_MODE, none.as_slice());
        proof {
            assert(seq![ADDRESS_AUTO_INCREMENT_1_MODE] + none@ =~= seq![
                ADDRESS_AUTO_INCREMENT_1_MODE,
            ]);
        }
        r
    }

    /// Writes four blank patterns starting at address zero: the same
    /// transaction, byte for byte, as `print_raw` with address `0` and four
    /// zero bytes, one per display position of a four-digit module.
    pub fn clear(&mut self) -> (r: Result<(), Error<B::Fault>>)
        ensures
            match r {
                Ok(()) => writes_txn(
                    old(self).trace(),
                    final(self).trace(),
                    seq![address_command(0)] + seq![0u8, 0u8, 0u8, 0u8],
                ),
                Err(Error::Ack) => ack_timeout_txn(
                    old(self).trace(),
                    final(self).trace(),
                    seq![address_command(0)] + seq![0u8, 0u8, 0u8, 0u8],
                ),
                Err(Error::IO(_)) => aborted_txn(
                    old(self).trace(),
                    final(self).trace(),
                    seq![address_command(0)] + seq![0u8, 0u8, 0u8, 0u8],
                ),
            },
    {
        let mut zeros: Vec<u8> = Vec::new();
        zeros.push(0);
        zeros.push(0);
        zeros.push(0);
        zeros.push(0);
        let r = self.print_raw(0, zeros.as_slice());
        proof {
            assert(zeros@ =~= seq![0u8, 0u8, 0u8, 0u8]);
        }
        r
    }

    /// Writes raw segment patterns starting at the given address. The
    /// address command byte is the address opcode with the address masked to
    /// four bits, whatever the address's magnitude; an empty slice sends the
    /// address command alone.
    pub fn print_raw(&mut self, address: u8, bytes: &[u8]) -> (r: Result<(), Error<B::Fault>>)
        ensures
            match r {
                Ok(()) => writes_txn(
                    old(self).trace(),
                    final(self).trace(),
                    seq![address_command(address)] + bytes@,
                ),
                Err(Error::Ack) => ack_timeout_txn(
                    old(self).trace(),
                    final(self).trace(),
                    seq![address_command(address)] + bytes@,
                ),
                Err(Error::IO(_)) => aborted_txn(
                    old(self).trace(),
                    final(self).trace(),
                    seq![address_command(address)] + bytes@,
                ),
            },
    {
        self.print_raw_iter(address, bytes)
    }

    /// As `print_raw`, with the byte sequence given as a slice to iterate
    /// over.
    pub fn print_raw_iter(&mut self, address: u8, bytes: &[u8]) -> (r: Result<
        (),
        Error<B::Fault>,
    >)
        ensures
            match r {
                Ok(()) => writes_txn(
                    old(self).trace(),
                    final(self).trace(),
                    seq![address_command(address)] + bytes@,
                ),
                Err(Error::Ack) => ack_timeout_txn(
                    old(self).trace(),
                    final(self).trace(),
                    seq![address_command(address)] + bytes@,
                ),
                Err(Error::IO(_)) => aborted_txn(
                    old(self).trace(),
                    final(self).trace(),
                    seq![address_command(address)] + bytes@,
                ),
            },
    {
        let cmd = ADDRESS_COMMAND_BITS | (address & ADDRESS_COMMAND_MASK);
        self.transaction(cmd, bytes)
    }

    /// Writes hex digits starting at the given address, each translated to
    /// its fixed segment pattern; digits are masked to their low four bits.
    #[verifier::loop_isolation(false)]
    pub fn print_hex(&mut self, address: u8, digits: &[u8]) -> (r: Result<(), Error<B::Fault>>)
        ensures
            match r {
                Ok(()) => writes_txn(
                    old(self).trace(),
                    final(self).trace(),
                    seq![address_command(address)] + hex_payload(digits@),
                ),
                Err(Error::Ack) => ack_timeout_txn(
                    old(self).trace(),
                    final(self).trace(),
                    seq![address_command(address)] + hex_payload(digits@),
                ),
                Err(Error::IO(_)) => aborted_txn(
                    old(self).trace(),
                    final(self).trace(),
                    seq![address_command(address)] + hex_payload(digits@),
                ),
            },
    {
        let mut patterns: Vec<u8> = Vec::new();
        let mut idx: usize = 0;
        while idx < digits.len()
            invariant
                idx <= digits@.len(),
                patterns@.len() == idx as int,
                forall|m: int| 0 <= m < idx as int ==> patterns@[m] == hex_pattern(digits@[m]),
            decreases digits@.len() - idx,
        {
            let p = hex_digit_pattern(digits[idx]);
            patterns.push(p);
            idx = idx + 1;
        }
        proof {
            assert(patterns@ =~= hex_payload(digits@));
        }
        self.print_raw_iter(address, patterns.as_slice())
    }

    /// Writes letters starting at the given address, each translated
    /// case-insensitively to its segment pattern; characters without a
    /// defined shape come out blank.
    #[verifier::loop_isolation(false)]
    pub fn print_chars(&mut self, address: u8, chars: &[char]) -> (r: Result<(), Error<B::Fault>>)
        ensures
            match r {
                Ok(()) => writes_txn(
                    old(self).trace(),
                    final(self).trace(),
                    seq![address_command(address)] + char_payload(chars@),
                ),
                Err(Error::Ack) => ack_timeout_txn(
                    old(self).trace(),
                    final(self).trace(),
                    seq![address_command(address)] + char_payload(chars@),
                ),
                Err(Error::IO(_)) => aborted_txn(
                    old(self).trace(),
                    final(self).trace(),
                    seq![address_command(address)] + char_payload(chars@),
                ),
            },
    {
        let mut patterns: Vec<u8> = Vec::new();
        let mut idx: usize = 0;
        while idx < chars.len()
            invariant
                idx <= chars@.len(),
                patterns@.len() == idx as int,
                forall|m: int| 0 <= m < idx as int ==> patterns@[m] == char_pattern(chars@[m]),
            decreases chars@.len() - idx,
        {
            let p = char_to_raw(chars[idx]);
            patterns.push(p);
            idx = idx + 1;
        }
        proof {
            assert(patterns@ =~= char_payload(chars@));
        }
        self.print_raw_iter(address, patterns.as_slice())
    }

    /// Sets the display brightness and turns the display on. The command
    /// byte is the brightness opcode (which encodes "display on") with the
    /// level masked to three bits, whatever the level's magnitude.
    pub fn set_brightness(&mut self, level: u8) -> (r: Result<(), Error<B::Fault>>)
        ensures
            match r {
                Ok(()) => writes_txn(
                    old(self).trace(),
                    final(self).trace(),
                    seq![brightness_command(level)],
                ),
                Err(Error::Ack) => ack_timeout_txn(
                    old(self).trace(),
                    final(self).trace(),
                    seq![brightness_command(level)],
                ),
                Err(Error::IO(_)) => aborted_txn(
                    old(self).trace(),
                    final(self).trace(),
                    seq![brightness_command(level)],
                ),
            },
    {
        let cmd = DISPLAY_CONTROL_BRIGHTNESS_BITS | (level & DISPLAY_CONTROL_BRIGHTNESS_MASK);
        let none: Vec<u8> = Vec::new();
        let r = self.transaction(cmd, none.as_slice());
        proof {
            assert(seq![brightness_command(level)] + none@ =~= seq![brightness_command(level)]);
        }
        r
    }

    /// Signals transaction start: the data line falls while the clock is
    /// held high.
    pub fn start(&mut self) -> (r: Result<(), Error<B::Fault>>)
        ensures
            match r {
                Ok(()) => final(self).trace() == old(self).trace() + start_events(),
                Err(Error::Ack) => false,
                Err(Error::IO(_)) => exists|ext: Seq<BusEvent>|
                    #[trigger] partial_start_ext(ext) && final(self).trace() == old(self).trace()
                        + ext,
            },
    {
        let ghost t0 = self.trace();
        match self.send_bit_and_delay(true) {
            Ok(()) => {},
            Err(e) => {
                proof {
                    let n = choose|n: int|
                        0 <= n <= 2 && self.trace() == t0 + #[trigger] bit_events(true).take(n);
                    assert(partial_bit_ext(true, bit_events(true).take(n)));
                    assert(partial_start_ext(bit_events(true).take(n)));
                }
                return Err(e);
            },
        }
        match self.bus.dio_low() {
            Ok(()) => {},
            Err(e) => {
                proof {
                    assert(partial_start_ext(bit_events(true)));
                }
                return Err(Error::IO(e));
            },
        }
        proof {
            assert(self.trace() =~= t0 + start_events());
        }
        Ok(())
    }

    /// Signals transaction end: the data line rises while the clock is held
    /// high, with a settling delay.
    pub fn stop(&mut self) -> (r: Result<(), Error<B::Fault>>)
        ensures
            match r {
                Ok(()) => final(self).trace() == old(self).trace() + stop_events(),
                Err(Error::Ack) => false,
                Err(Error::IO(_)) => exists|ext: Seq<BusEvent>|
                    #[trigger] partial_stop_ext(ext) && final(self).trace() == old(self).trace()
                        + ext,
            },
    {
        let ghost t0 = self.trace();
        match self.send_bit_and_delay(false) {
            Ok(()) => {},
            Err(e) => {
                proof {
                    let n = choose|n: int|
                        0 <= n <= 2 && self.trace() == t0 + #[trigger] bit_events(false).take(n);
                    assert(partial_bit_ext(false, bit_events(false).take(n)));
                    assert(partial_stop_ext(bit_events(false).take(n)));
                }
                return Err(e);
            },
        }
        match self.bus.dio_high() {
            Ok(()) => {},
            Err(e) => {
                proof {
                    assert(partial_stop_ext(bit_events(false)));
                }
                return Err(Error::IO(e));
            },
        }
        self.delay();
        proof {
            assert(self.trace() =~= t0 + stop_events());
        }
        Ok(())
    }
}

} // verus!
