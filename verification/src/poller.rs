//! The fan service poller's decision logic: when a tick should poll, how a
//! temperature reading resolves to a target duty cycle through the shared
//! curve, and which fans need a hardware write. The host performs the
//! actual sensor reads and fan writes and hands their results in as plain
//! values.
use vstd::prelude::*;
use crate::curve::TempSpeedPoint;
use crate::curve::curve_well_formed;
use crate::curve::lemma_lookup_none;
use crate::curve::spec_lookup;
use crate::curve::MAX_FAN_SPEED;
use crate::shared::SharedCurve;

verus! {

/// Seconds between two poll runs, measured from the end of the previous
/// successful run.
pub const POLL_INTERVAL_SECS: u64 = 10;

/// Why one poll cycle failed. Each cycle fails as a unit and the next
/// scheduled cycle retries independently.
#[derive(Clone, Copy, PartialEq, Eq, Structural, Debug)]
pub enum PollError {
    /// The device could not be resolved at all.
    DeviceUnavailable,
    /// The fan count or the temperature sensor could not be read.
    SensorReadFailed,
    /// A fan's current speed could not be read.
    FanReadFailed,
    /// A fan's new speed could not be written.
    FanWriteFailed,
    /// No curve breakpoint bounds the current temperature: every calibration
    /// point lies above the reading, and the core assumes no safe default.
    LookupExhausted,
}

impl PollError {
    /// A human-readable description of the failed poll cycle.
    pub fn message(&self) -> (r: &'static str)
        ensures
            *self is DeviceUnavailable ==> r@ == "Failed to resolve a device for this poll"@,
            *self is SensorReadFailed ==> r@
                == "Failed to read the fan count or temperature sensor"@,
            *self is FanReadFailed ==> r@ == "Failed to read a fan's current speed"@,
            *self is FanWriteFailed ==> r@ == "Failed to write a fan's new speed"@,
            *self is LookupExhausted ==> r@ == "No curve breakpoint applies to this temperature"@,
    {
        match self {
            PollError::DeviceUnavailable => "Failed to resolve a device for this poll",
            PollError::SensorReadFailed => "Failed to read the fan count or temperature sensor",
            PollError::FanReadFailed => "Failed to read a fan's current speed",
            PollError::FanWriteFailed => "Failed to write a fan's new speed",
            PollError::LookupExhausted => "No curve breakpoint applies to this temperature",
        }
    }
}

/// The poll scheduler: the first tick runs immediately, every later tick
/// waits until the fixed interval has elapsed since the end of the previous
/// run.
pub struct FanServicePoller {
    pub first_time: bool,
}

impl FanServicePoller {
    /// A fresh scheduler that has not run yet.
    pub fn new() -> (p: FanServicePoller)
        ensures
            p.first_time,
    {
        FanServicePoller { first_time: true }
    }

    /// Whether a tick should poll now: immediately on the first tick,
    /// afterwards once the interval has elapsed since the previous run.
    pub fn should_poll(&self, elapsed_secs: u64) -> (r: bool)
        ensures
            r == (self.first_time || elapsed_secs >= POLL_INTERVAL_SECS),
    {
        self.first_time || elapsed_secs >= POLL_INTERVAL_SECS
    }

    /// Records that a poll ran: the scheduler leaves its initial state and
    /// later ticks are gated by the interval alone.
    pub fn mark_polled(&mut self)
        ensures
            !final(self).first_time,
    {
        self.first_time = false;
    }
}

/// Resolves a poll's target duty cycle from the curve lookup's answer: an
/// empty lookup is the distinguished exhaustion failure, never a guessed
/// default speed.
pub fn resolve_target_speed(lookup: Option<u32>) -> (r: Result<u32, PollError>)
    ensures
        match r {
            Ok(v) => lookup == Some(v),
            Err(e) => lookup is None && e == PollError::LookupExhausted,
        },
{
    match lookup {
        Some(v) => Ok(v),
        None => Err(PollError::LookupExhausted),
    }
}

/// One poll's curve consultation: reads the shared curve once under its
/// lock and resolves the target duty cycle for the temperature reading.
/// The answer comes from one whole, well-formed curve value.
pub fn resolve_speed_for_temperature(shared: &SharedCurve, temp: i32) -> (r: Result<u32, PollError>)
    ensures
        match r {
            Ok(v) => {
                &&& exists|s: Seq<TempSpeedPoint>|
                    curve_well_formed(s) && #[trigger] spec_lookup(s, temp) == Some(v)
                &&& v <= MAX_FAN_SPEED
            },
            Err(e) => {
                &&& e == PollError::LookupExhausted
                &&& exists|s: Seq<TempSpeedPoint>|
                    curve_well_formed(s) && #[trigger] spec_lookup(s, temp) is None && (forall|
                        k: int,
                    |
                        0 <= k < s.len() ==> (#[trigger] s[k]).temperature > temp)
            },
        },
{
    let looked_up = shared.lookup_speed_for_temperature(temp);
    proof {
        if looked_up is None {
            let s0 = choose|s: Seq<TempSpeedPoint>|
                curve_well_formed(s) && looked_up == #[trigger] spec_lookup(s, temp);
            lemma_lookup_none(s0, temp);
        }
    }
    resolve_target_speed(looked_up)
}

/// The fans whose current speed differs from the target: exactly those, in
/// index order, need a hardware write; a fan already at the target is
/// skipped so no redundant write is issued.
pub fn fans_needing_update(current: &Vec<u32>, target: u32) -> (r: Vec<usize>)
    ensures
        forall|k: int|
            0 <= k < r@.len() ==> (#[trigger] r@[k]) < current@.len() && current@[r@[k] as int]
                != target,
        forall|i: int|
            0 <= i < current@.len() && (#[trigger] current@[i]) != target ==> exists|k: int|
                0 <= k < r@.len() && (#[trigger] r@[k]) == i,
        forall|a: int, b: int| 0 <= a < b < r@.len() ==> (#[trigger] r@[a]) < (#[trigger] r@[b]),
{
    let n = current.len();
    let mut out: Vec<usize> = Vec::new();
    let mut i: usize = 0;
    while i < n
        invariant
            i <= n,
            n == current@.len(),
            forall|k: int|
                0 <= k < out@.len() ==> (#[trigger] out@[k]) < i && current@[out@[k] as int]
                    != target,
            forall|j: int|
                0 <= j < i && (#[trigger] current@[j]) != target ==> exists|k: int|
                    0 <= k < out@.len() && (#[trigger] out@[k]) == j,
            forall|a: int, b: int|
                0 <= a < b < out@.len() ==> (#[trigger] out@[a]) < (#[trigger] out@[b]),
        decreases n - i,
    {
        if current[i] != target {
            let ghost out0 = out@;
            out.push(i);
            proof {
                assert forall|j: int|
                    0 <= j < i + 1 && (#[trigger] current@[j]) != target implies exists|k: int|
                    0 <= k < out@.len() && (#[trigger] out@[k]) == j by {
                    if j < i {
                        let k0 = choose|k: int| 0 <= k < out0.len() && (#[trigger] out0[k]) == j;
                        assert(out@[k0] == out0[k0]);
                    } else {
                        assert(out@[out@.len() - 1] == i);
                    }
                }
            }
        }
        i += 1;
    }
    out
}

} // verus!
