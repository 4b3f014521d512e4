//! A simulated bus: scripted chip answers, optional injected line fault,
//! and a runtime log of every action, for exercising the driver without
//! hardware.

use vstd::prelude::*;
use crate::bus::Bus;
use crate::protocol::BusEvent;

verus! {

/// The fault the simulated bus injects in place of a hardware pin error.
#[derive(Clone, Copy, Debug, PartialEq, Eq, Structural)]
pub struct SimFault;

/// A bus whose chip side is a script: `reads` holds the answers the chip
/// gives to successive data-line samples (`true` meaning "pulled low";
/// exhausted script reads as high), and `fail_at`, if set, makes the
/// operation that would be recorded at that log position fail instead.
/// Every successful action is logged, so a test can compare the log against
/// the event sequence the driver's contract promises.
pub struct SimBus {
    log: Vec<BusEvent>,
    reads: Vec<bool>,
    next_read: usize,
    fail_at: Option<usize>,
}

impl SimBus {
    /// A fresh bus with an empty log.
    pub fn new(reads: Vec<bool>, fail_at: Option<usize>) -> (r: SimBus)
        ensures
            r.trace() == Seq::<BusEvent>::empty(),
    {
        SimBus { log: Vec::new(), reads, next_read: 0, fail_at }
    }

    /// The actions performed so far, oldest first.
    pub fn log(&self) -> (r: &Vec<BusEvent>)
        ensures
            r@ == self.trace(),
    {
        &self.log
    }

    /// Whether the next operation is the one scripted to fail.
    fn hits_fault(&self) -> (r: bool)
        ensures
            r == (self.fail_at matches Some(f) && f == self.log@.len()),
    {
        match self.fail_at {
            Some(f) => f == self.log.len(),
            None => false,
        }
    }
}

impl Bus for SimBus {
    type Fault = SimFault;

    closed spec fn trace(&self) -> Seq<BusEvent> {
        self.log@
    }

    fn clk_low(&mut self) -> (r: Result<(), SimFault>) {
        if self.hits_fault() {
            Err(SimFault)
        } else {
            self.log.push(BusEvent::ClkLow);
            Ok(())
        }
    }

    fn clk_high(&mut self) -> (r: Result<(), SimFault>) {
        if self.hits_fault() {
            Err(SimFault)
        } else {
            self.log.push(BusEvent::ClkHigh);
            Ok(())
        }
    }

    fn dio_low(&mut self) -> (r: Result<(), SimFault>) {
        if self.hits_fault() {
            Err(SimFault)
        } else {
            self.log.push(BusEvent::DioLow);
            Ok(())
        }
    }

    fn dio_high(&mut self) -> (r: Result<(), SimFault>) {
        if self.hits_fault() {
            Err(SimFault)
        } else {
            self.log.push(BusEvent::DioHigh);
            Ok(())
        }
    }

    fn dio_is_low(&mut self) -> (r: Result<bool, SimFault>) {
        if self.hits_fault() {
            Err(SimFault)
        } else {
            let low: bool = if self.next_read < self.reads.len() {
                let v = self.reads[self.next_read];
                self.next_read = self.next_read + 1;
                v
            } else {
                false
            };
            self.log.push(BusEvent::ReadDio(low));
            Ok(low)
        }
    }

    fn delay_us(&mut self, us: u16) {
        self.log.push(BusEvent::Delay(us));
    }
}

} // verus!
