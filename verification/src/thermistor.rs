//! Reading a thermistor through a resistor divider: which samples carry a
//! temperature at all, and the divider ratio of those that do.

use vstd::prelude::*;

verus! {

/// The largest code the twelve-bit converter delivers.
pub const FULL_SCALE: u16 = 4095;

/// The fixed resistor in series with the thermistor, in ohms.
pub const SERIES_RESISTOR_OHMS: u32 = 10_000;

/// What a raw converter code says about the sensing divider.
#[derive(Clone, Copy, Debug, PartialEq, Eq)]
pub enum Sample {
    /// No current flows through the divider: the sensor is disconnected.
    OpenCircuit,
    /// The thermistor's resistance is the series resistance times
    /// `upper / lower`.
    Divider { upper: u16, lower: u16 },
}

/// The meaning of a code: full scale is an open circuit, and any other code
/// divides the series resistance by the span left above it.
pub open spec fn sample_of(code: u16) -> Sample {
    if code == FULL_SCALE {
        Sample::OpenCircuit
    } else {
        Sample::Divider { upper: code, lower: (FULL_SCALE - code) as u16 }
    }
}

/// Classifies a raw code. The full-scale code is reported as an open circuit
/// and never reaches the divider formula, whose denominator it would make
/// zero. Code 0 is not singled out: it yields the ratio `0 / 4095`.
pub fn classify(code: u16) -> (sample: Sample)
    requires
        code <= FULL_SCALE,
    ensures
        sample == sample_of(code),
        sample is Divider ==> sample->lower > 0,
{
    if code == FULL_SCALE {
        Sample::OpenCircuit
    } else {
        Sample::Divider { upper: code, lower: FULL_SCALE - code }
    }
}

/// The divider ratio rises strictly with the code: of two codes below full
/// scale, the larger one has the larger `upper / lower`, compared here by
/// cross-multiplication.
pub proof fn lemma_divider_ratio_rises(a: u16, b: u16)
    requires
        a < b,
        b < FULL_SCALE,
    ensures
        sample_of(a) is Divider,
        sample_of(b) is Divider,
        sample_of(a)->upper * sample_of(b)->lower < sample_of(b)->upper * sample_of(a)->lower,
{
    let x = a as int;
    let y = b as int;
    assert(x * (4095 - y) < y * (4095 - x)) by (nonlinear_arith)
        requires
            0 <= x < y,
            y < 4095,
    ;
}

} // verus!
