use vstd::prelude::*;
use crate::emulator::abstractions::{Pin, PinDirection, PinView, Tickable};

verus! {

#[verifier::external_type_specification]
#[verifier::external_body]
pub struct ExFrequencyTicker(gametime::FrequencyTicker);

/// gametime's `Frequency::from_khz(khz).ticker(TimeStamp::start())`: a
/// ticker of `khz` kilohertz from the first time stamp. The value is opaque;
/// nothing is stated of it.
#[verifier::external_body]
fn khz_ticker(khz: u64) -> gametime::FrequencyTicker {
    gametime::Frequency::from_khz(khz).ticker(gametime::TimeStamp::start())
}

/// A clock source: each tick toggles its output pin.
pub struct Oscilator {
    pub pin: Pin,
    ticker: gametime::FrequencyTicker,
}

impl Oscilator {
    /// The output pin.
    pub closed spec fn spec_pin(&self) -> PinView {
        self.pin@
    }

    /// An oscillator of `khz` kilohertz whose output "phi1o" starts low.
    pub fn new(khz: u64) -> (r: Self)
        ensures
            r.spec_pin().name == "phi1o"@,
            r.spec_pin().direction == PinDirection::Output,
            !r.spec_pin().value,
            r.spec_pin().group_id is None,
    {
        Oscilator { pin: Pin::output("phi1o"), ticker: khz_ticker(khz) }
    }
}

impl Tickable for Oscilator {
    /// The output toggled; the ticker stays.
    closed spec fn ticked(&self, before: &Self) -> bool {
        &&& self.pin@ == before.pin@.spec_write(!before.pin@.value).0
        &&& self.ticker == before.ticker
    }

    /// Toggles the output.
    fn tick(&mut self)
        ensures
            final(self).spec_pin() == old(self).spec_pin().spec_write(!old(self).spec_pin().value).0,
    {
        let _ = self.pin.toggle();
    }
}

} // verus!
