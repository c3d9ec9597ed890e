use vstd::prelude::*;

verus! {

/// A load-average reading (or threshold) as a fixed-point number of
/// thousandths. The host reports load averages as fractional values; the
/// wait logic only ever compares them, so carrying them scaled by 1000
/// keeps every comparison exact.
#[derive(Clone, Copy, PartialEq, Eq, Structural, Debug)]
pub struct LoadAvg {
    /// The value in thousandths: a one-minute load of 1.5 is 1500.
    pub milli: i64,
}

impl LoadAvg {
    /// The value of this reading, in thousandths, as a mathematical integer.
    pub open spec fn value(self) -> int {
        self.milli as int
    }

    /// Wraps a count of thousandths as a load-average value.
    pub fn from_milli(milli: i64) -> (r: LoadAvg)
        ensures
            r.value() == milli as int,
    {
        LoadAvg { milli }
    }

    /// The substitute reading used when the host cannot report a value.
    pub fn zero() -> (r: LoadAvg)
        ensures
            r.value() == 0,
    {
        LoadAvg { milli: 0 }
    }
}

} // verus!
