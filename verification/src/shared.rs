//! The concurrency boundary around one fan curve: a reader/writer lock whose
//! invariant only admits well-formed curves, so the UI and the poller always
//! observe the curve before or after a commit and never a torn mixture.
use vstd::prelude::*;
use vstd::rwlock::RwLock;
use vstd::rwlock::RwLockPredicate;
use crate::curve::FanCurve;
use crate::curve::TempSpeedPoint;
use crate::curve::ValidationError;
use crate::curve::curve_well_formed;
use crate::curve::lemma_lookup_yields_whole_point;
use crate::curve::spec_lookup;
use crate::curve::MAX_FAN_SPEED;
use crate::curve::MAX_TEMP;
use crate::curve::MIN_TEMP;

verus! {

/// The lock's invariant: only a well-formed curve may sit behind the shared
/// boundary.
pub struct WellFormedCurve;

impl RwLockPredicate<FanCurve> for WellFormedCurve {
    open spec fn inv(self, c: FanCurve) -> bool {
        c.well_formed()
    }
}

/// Shares one fan curve between the UI and the poller. Every operation holds
/// the whole curve's lock for its own short critical section: at most one
/// structural mutation runs at a time, and each lookup reads one complete
/// curve value.
pub struct SharedCurve {
    lock: RwLock<FanCurve, WellFormedCurve>,
}

impl SharedCurve {
    /// Puts a curve behind the shared boundary.
    pub fn new(curve: FanCurve) -> SharedCurve
        requires
            curve.well_formed(),
    {
        SharedCurve { lock: RwLock::new(curve, Ghost(WellFormedCurve)) }
    }

    /// The poller's read path: a descending lookup under a read lock. The
    /// answer is the lookup on one whole, well-formed curve value, and a
    /// resolved speed is the untorn speed field of one of its points, so it
    /// never exceeds the top duty cycle.
    pub fn lookup_speed_for_temperature(&self, temp: i32) -> (r: Option<u32>)
        ensures
            exists|s: Seq<TempSpeedPoint>|
                curve_well_formed(s) && r == #[trigger] spec_lookup(s, temp),
            r matches Some(v) ==> v <= MAX_FAN_SPEED,
    {
        let handle = self.lock.acquire_read();
        let r = handle.borrow().lookup_speed_for_temperature(temp);
        let ghost sv = handle.view()@;
        handle.release_read();
        proof {
            assert(curve_well_formed(sv) && r == spec_lookup(sv, temp));
            lemma_lookup_yields_whole_point(sv, temp);
        }
        r
    }

    /// The UI's structural path: validates the pair and inserts or updates
    /// under the write lock. Acceptance depends on the pair alone, and a
    /// rejected pair leaves the curve exactly as the writer found it.
    pub fn insert_or_update(&self, temperature: i32, speed: u32) -> (r: Result<
        (),
        ValidationError,
    >)
        ensures
            match r {
                Ok(()) => (TempSpeedPoint { temperature, speed }).valid(),
                Err(e) => {
                    &&& !(TempSpeedPoint { temperature, speed }).valid()
                    &&& e is TemperatureOutOfRange <==> !(MIN_TEMP <= temperature <= MAX_TEMP)
                },
            },
    {
        let (mut curve, handle) = self.lock.acquire_write();
        let r = curve.insert_or_update(temperature, speed);
        handle.release_write(curve);
        r
    }

    /// The UI's per-point commit path (a widget drag): writes the committed
    /// pair into the point at a stable position under the write lock.
    /// Returns whether the write was applied; an index beyond the curve or a
    /// pair that would break the curve's order is refused without a write.
    pub fn update_point_at(&self, index: usize, temperature: i32, speed: u32) -> (r: bool)
        ensures
            r ==> (TempSpeedPoint { temperature, speed }).valid(),
    {
        let (mut curve, handle) = self.lock.acquire_write();
        let applied = if index < curve.len() {
            curve.update_point_at(index, temperature, speed)
        } else {
            false
        };
        handle.release_write(curve);
        applied
    }

    /// A whole-curve snapshot for building the editor panel: the points of
    /// one well-formed curve value, still strictly ascending by temperature.
    pub fn snapshot(&self) -> (r: Vec<TempSpeedPoint>)
        ensures
            curve_well_formed(r@),
    {
        let handle = self.lock.acquire_read();
        let mut out: Vec<TempSpeedPoint> = Vec::new();
        {
            let c = handle.borrow();
            let n = c.len();
            let mut i: usize = 0;
            while i < n
                invariant
                    i <= n,
                    n == c@.len(),
                    out@ =~= c@.subrange(0, i as int),
                decreases n - i,
            {
                out.push(c.point_at(i));
                proof {
                    assert(out@ =~= c@.subrange(0, i + 1 as int));
                }
                i += 1;
            }
            proof {
                assert(out@ =~= c@);
            }
        }
        handle.release_read();
        out
    }
}

} // verus!
