//! The capability a transaction runs over: two lines and a delay source.

use vstd::prelude::*;
use crate::protocol::BusEvent;

verus! {

/// The two bus lines (clock and data) and the microsecond-delay source,
/// seen as one capability because the order of actions across the two lines
/// is what the protocol is about.
///
/// `trace` is the history of every action performed so far. Each method
/// appends exactly its own event on success and leaves the trace unchanged
/// on a fault, so a driver built on this trait can pin down its complete
/// wire behaviour. Implementations adapt real pins, or simulate them as
/// [`crate::sim::SimBus`] does.
pub trait Bus {
    /// The error of a failed line operation.
    type Fault;

    /// Every bus action performed so far, oldest first. An adapter over
    /// real pins keeps no history; the empty default stands for it.
    open spec fn trace(&self) -> Seq<BusEvent> {
        Seq::empty()
    }

    /// Drives the clock line low.
    fn clk_low(&mut self) -> (r: Result<(), Self::Fault>)
        ensures
            r is Ok ==> final(self).trace() == old(self).trace().push(BusEvent::ClkLow),
            r is Err ==> final(self).trace() == old(self).trace(),
    ;

    /// Drives the clock line high.
    fn clk_high(&mut self) -> (r: Result<(), Self::Fault>)
        ensures
            r is Ok ==> final(self).trace() == old(self).trace().push(BusEvent::ClkHigh),
            r is Err ==> final(self).trace() == old(self).trace(),
    ;

    /// Drives the data line low.
    fn dio_low(&mut self) -> (r: Result<(), Self::Fault>)
        ensures
            r is Ok ==> final(self).trace() == old(self).trace().push(BusEvent::DioLow),
            r is Err ==> final(self).trace() == old(self).trace(),
    ;

    /// Drives (releases) the data line high.
    fn dio_high(&mut self) -> (r: Result<(), Self::Fault>)
        ensures
            r is Ok ==> final(self).trace() == old(self).trace().push(BusEvent::DioHigh),
            r is Err ==> final(self).trace() == old(self).trace(),
    ;

    /// Samples whether the chip holds the data line low.
    fn dio_is_low(&mut self) -> (r: Result<bool, Self::Fault>)
        ensures
            (r matches Ok(v) ==> final(self).trace() == old(self).trace().push(
                BusEvent::ReadDio(v),
            )),
            r is Err ==> final(self).trace() == old(self).trace(),
    ;

    /// Blocks the caller for `us` microseconds.
    fn delay_us(&mut self, us: u16)
        ensures
            final(self).trace() == old(self).trace().push(BusEvent::Delay(us)),
    ;
}

} // verus!
