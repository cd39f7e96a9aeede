use vstd::prelude::*;

use crate::message::{classify, classify_spec, DisplayMessage};
use crate::timing::{distance_cm, distance_spec, elapsed_spec, elapsed_ticks};

verus! {

/// Where the ranging loop stands within one echo window.
#[derive(Clone, Copy, Debug, PartialEq, Eq, Structural)]
pub enum EchoPhase {
    /// Waiting for the echo line to go high (the pulse has left).
    AwaitingRise,
    /// The echo line went high at tick `start`; waiting for it to fall.
    AwaitingFall { start: u64 },
}

/// One completed measurement.
#[derive(Clone, Copy, Debug, PartialEq, Eq, Structural)]
pub struct Measurement {
    /// Ticks between the rising and the falling edge of the echo line.
    pub elapsed: u64,
    /// Distance in whole centimetres.
    pub distance_cm: u64,
    /// What the display shows for it.
    pub message: DisplayMessage,
}

/// The measurement for an echo that rose at tick `start` and fell at tick `end`.
pub open spec fn measurement_spec(start: u64, end: u64) -> Measurement {
    let elapsed = elapsed_spec(start, end) as u64;
    let cm = distance_spec(elapsed as int) as u64;
    Measurement { elapsed, distance_cm: cm, message: classify_spec(cm) }
}

/// Next phase and completed measurement, if any, after sampling the echo line as
/// `echo_high` at tick `now`.
pub open spec fn poll_spec(phase: EchoPhase, echo_high: bool, now: u64) -> (EchoPhase, Option<
    Measurement,
>) {
    match phase {
        EchoPhase::AwaitingRise => if echo_high {
            (EchoPhase::AwaitingFall { start: now }, None)
        } else {
            (phase, None)
        },
        EchoPhase::AwaitingFall { start } => if echo_high {
            (phase, None)
        } else {
            (EchoPhase::AwaitingRise, Some(measurement_spec(start, now)))
        },
    }
}

/// Turns two timer snapshots, taken at the rising and at the falling edge of the echo line,
/// into a measurement: the wrapping difference of the snapshots, converted to centimetres
/// and classified.
pub fn measure(start: u64, end: u64) -> (r: Measurement)
    ensures
        r == measurement_spec(start, end),
        r.elapsed as int == elapsed_spec(start, end),
        r.distance_cm as int == distance_spec(r.elapsed as int),
        r.message == classify_spec(r.distance_cm),
{
    let elapsed = elapsed_ticks(start, end);
    let cm = distance_cm(elapsed);
    Measurement { elapsed, distance_cm: cm, message: classify(cm) }
}

/// The decisions of the ranging loop: it is fed one sample of the echo line and of the
/// timer at a time, and hands back a measurement at each falling edge.
pub struct Ranger {
    phase: EchoPhase,
}

impl Ranger {
    pub closed spec fn phase_spec(&self) -> EchoPhase {
        self.phase
    }

    /// A ranger waiting for the next pulse.
    pub fn new() -> (r: Ranger)
        ensures
            r.phase_spec() == EchoPhase::AwaitingRise,
    {
        Ranger { phase: EchoPhase::AwaitingRise }
    }

    /// The current phase.
    pub fn phase(&self) -> (r: EchoPhase)
        ensures
            r == self.phase_spec(),
    {
        self.phase
    }

    /// Takes one sample: the level of the echo line and the timer at the moment it was read.
    /// A rise records the start tick; a fall completes the measurement and starts over.
    pub fn poll(&mut self, echo_high: bool, now: u64) -> (r: Option<Measurement>)
        ensures
            (final(self).phase_spec(), r) == poll_spec(old(self).phase_spec(), echo_high, now),
    {
        match self.phase {
            EchoPhase::AwaitingRise => {
                if echo_high {
                    self.phase = EchoPhase::AwaitingFall { start: now };
                }
                None
            },
            EchoPhase::AwaitingFall { start } => {
                if echo_high {
                    None
                } else {
                    self.phase = EchoPhase::AwaitingRise;
                    Some(measure(start, now))
                }
            },
        }
    }
}

/// A rise seen at tick `start` and then a fall seen at tick `end` give exactly the
/// measurement of the two snapshots, and leave the loop waiting for the next pulse.
pub proof fn lemma_rise_then_fall(start: u64, end: u64)
    ensures
        ({
            let (p1, m1) = poll_spec(EchoPhase::AwaitingRise, true, start);
            let (p2, m2) = poll_spec(p1, false, end);
            m1 is None && p2 == EchoPhase::AwaitingRise && m2 == Some(measurement_spec(start, end))
        }),
{
}

/// Samples that do not change the level of the echo line change nothing: the loop keeps
/// waiting and reports no measurement.
pub proof fn lemma_steady_line_waits(phase: EchoPhase, now: u64)
    ensures
        phase is AwaitingRise ==> poll_spec(phase, false, now) == (phase, None::<Measurement>),
        phase is AwaitingFall ==> poll_spec(phase, true, now) == (phase, None::<Measurement>),
{
}

} // verus!
