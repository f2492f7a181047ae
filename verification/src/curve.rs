//! The fan-curve data model: validated temperature/speed points and an
//! ordered curve kept strictly ascending by temperature.
use vstd::prelude::*;

verus! {

/// Lowest temperature (celsius) a curve point may hold.
pub const MIN_TEMP: i32 = 5;

/// Highest temperature (celsius) a curve point may hold.
pub const MAX_TEMP: i32 = 95;

/// Fan duty cycle is a percentage, so 100 is the top speed.
pub const MAX_FAN_SPEED: u32 = 100;

/// One (temperature, speed) breakpoint of the curve.
#[derive(Clone, Copy, PartialEq, Eq, Structural, Debug)]
pub struct TempSpeedPoint {
    pub temperature: i32,
    pub speed: u32,
}

/// Why a point was rejected: each field has a declared range.
#[derive(Clone, Copy, PartialEq, Eq, Structural, Debug)]
pub enum ValidationError {
    TemperatureOutOfRange,
    SpeedOutOfRange,
}

impl ValidationError {
    /// A human-readable description of the rejected range.
    pub fn message(&self) -> (r: &'static str)
        ensures
            *self is TemperatureOutOfRange ==> r@ == "Temperature must be between 5C and 95C"@,
            *self is SpeedOutOfRange ==> r@ == "Fan speed must be between 0% and 100%"@,
    {
        match self {
            ValidationError::TemperatureOutOfRange => "Temperature must be between 5C and 95C",
            ValidationError::SpeedOutOfRange => "Fan speed must be between 0% and 100%",
        }
    }
}

impl TempSpeedPoint {
    /// Both fields are within their declared ranges.
    pub open spec fn valid(self) -> bool {
        MIN_TEMP <= self.temperature <= MAX_TEMP && self.speed <= MAX_FAN_SPEED
    }

    /// Validated constructor: fails rather than producing an out-of-range point.
    /// The temperature range is checked first, as the error carries only one cause.
    pub fn try_new(temperature: i32, speed: u32) -> (r: Result<TempSpeedPoint, ValidationError>)
        ensures
            match r {
                Ok(p) => p == (TempSpeedPoint { temperature, speed }) && p.valid(),
                Err(e) => {
                    &&& !(MIN_TEMP <= temperature <= MAX_TEMP && speed <= MAX_FAN_SPEED)
                    &&& e is TemperatureOutOfRange <==> !(MIN_TEMP <= temperature <= MAX_TEMP)
                },
            },
    {
        if temperature < MIN_TEMP || temperature > MAX_TEMP {
            Err(ValidationError::TemperatureOutOfRange)
        } else if speed > MAX_FAN_SPEED {
            Err(ValidationError::SpeedOutOfRange)
        } else {
            Ok(TempSpeedPoint { temperature, speed })
        }
    }

    /// The point's temperature.
    pub fn temp(&self) -> (t: i32)
        ensures
            t == self.temperature,
    {
        self.temperature
    }

    /// The point's fan speed.
    pub fn speed(&self) -> (s: u32)
        ensures
            s == self.speed,
    {
        self.speed
    }

    /// Overwrites the temperature in place.
    pub fn update_temp(&mut self, temp: i32)
        ensures
            *final(self) == (TempSpeedPoint { temperature: temp, speed: old(self).speed }),
    {
        self.temperature = temp;
    }

    /// Overwrites the speed in place.
    pub fn update_speed(&mut self, speed: u32)
        ensures
            *final(self) == (TempSpeedPoint { temperature: old(self).temperature, speed }),
    {
        self.speed = speed;
    }
}

/// Temperatures strictly increase along the sequence.
pub open spec fn sorted_strict(s: Seq<TempSpeedPoint>) -> bool {
    forall|i: int, j: int|
        0 <= i < j < s.len() ==> #[trigger] s[i].temperature < #[trigger] s[j].temperature
}

/// Every point of the sequence is within the declared ranges.
pub open spec fn all_valid(s: Seq<TempSpeedPoint>) -> bool {
    forall|i: int| 0 <= i < s.len() ==> (#[trigger] s[i]).valid()
}

/// The curve's invariant: sorted with no duplicate temperatures, all points valid.
pub open spec fn curve_well_formed(s: Seq<TempSpeedPoint>) -> bool {
    sorted_strict(s) && all_valid(s)
}

/// Some point of the sequence holds this exact temperature.
pub open spec fn has_temp(s: Seq<TempSpeedPoint>, t: i32) -> bool {
    exists|i: int| 0 <= i < s.len() && (#[trigger] s[i]).temperature == t
}

/// The index holding this temperature (unique on a sorted sequence).
pub open spec fn index_of_temp(s: Seq<TempSpeedPoint>, t: i32) -> int {
    choose|i: int| 0 <= i < s.len() && (#[trigger] s[i]).temperature == t
}

/// Where a new point with temperature `t` belongs: before the first point
/// whose temperature is at least `t`, or at the end if there is none.
pub open spec fn insert_position(s: Seq<TempSpeedPoint>, t: i32) -> int
    decreases s.len(),
{
    if s.len() == 0 {
        0
    } else if s[0].temperature >= t {
        0
    } else {
        1 + insert_position(s.drop_first(), t)
    }
}

/// Descending lookup: the speed of the last (hottest) point whose temperature
/// is at most `temp`, or nothing when every point lies above `temp`.
pub open spec fn spec_lookup(s: Seq<TempSpeedPoint>, temp: i32) -> Option<u32>
    decreases s.len(),
{
    if s.len() == 0 {
        Option::None
    } else if s.last().temperature <= temp {
        Option::Some(s.last().speed)
    } else {
        spec_lookup(s.drop_last(), temp)
    }
}

/// On a strictly sorted curve no two distinct points share a temperature.
pub proof fn lemma_well_formed_no_duplicates(s: Seq<TempSpeedPoint>)
    requires
        curve_well_formed(s),
    ensures
        forall|i: int, j: int|
            0 <= i < s.len() && 0 <= j < s.len() && i != j
                ==> #[trigger] s[i].temperature != #[trigger] s[j].temperature,
{
    assert forall|i: int, j: int|
        0 <= i < s.len() && 0 <= j < s.len() && i != j
            implies #[trigger] s[i].temperature != #[trigger] s[j].temperature by {
        if i < j {
            assert(s[i].temperature < s[j].temperature);
        } else {
            assert(s[j].temperature < s[i].temperature);
        }
    }
}

/// The hottest applicable threshold wins: on a sorted curve, if the point at
/// `i` lies at or below `temp` and its successor (if any) lies above, the
/// descending lookup answers with exactly that point's speed.
pub proof fn lemma_lookup_hottest(s: Seq<TempSpeedPoint>, temp: i32, i: int)
    requires
        sorted_strict(s),
        0 <= i < s.len(),
        s[i].temperature <= temp,
        i + 1 < s.len() ==> s[i + 1].temperature > temp,
    ensures
        spec_lookup(s, temp) == Some(s[i].speed),
    decreases s.len(),
{
    if i == s.len() - 1 {
        assert(s.last() == s[i]);
    } else {
        assert(s.last().temperature > temp) by {
            if i + 1 < s.len() - 1 {
                assert(s[i + 1].temperature < s[s.len() - 1].temperature);
            }
        }
        let d = s.drop_last();
        assert forall|a: int, b: int|
            0 <= a < b < d.len() implies #[trigger] d[a].temperature
            < #[trigger] d[b].temperature by {
            assert(d[a] == s[a] && d[b] == s[b]);
        }
        assert(d[i] == s[i]);
        assert(i + 1 < d.len() ==> d[i + 1] == s[i + 1]);
        lemma_lookup_hottest(d, temp, i);
    }
}

/// The lookup comes back empty exactly when every breakpoint lies above `temp`.
pub proof fn lemma_lookup_none(s: Seq<TempSpeedPoint>, temp: i32)
    ensures
        spec_lookup(s, temp) is None <==> (forall|i: int|
            0 <= i < s.len() ==> (#[trigger] s[i]).temperature > temp),
    decreases s.len(),
{
    if s.len() == 0 {
    } else if s.last().temperature <= temp {
        assert(s[s.len() - 1].temperature <= temp);
    } else {
        let d = s.drop_last();
        lemma_lookup_none(d, temp);
        if forall|i: int| 0 <= i < d.len() ==> (#[trigger] d[i]).temperature > temp {
            assert forall|i: int| 0 <= i < s.len() implies (#[trigger] s[i]).temperature
                > temp by {
                if i < d.len() {
                    assert(d[i] == s[i]);
                } else {
                    assert(s[i] == s.last());
                }
            }
        } else {
            let w = choose|i: int| 0 <= i < d.len() && (#[trigger] d[i]).temperature <= temp;
            assert(s[w] == d[w]);
        }
    }
}

/// A looked-up speed is always the whole speed field of some breakpoint at or
/// below `temp`: a reader never sees a partial or mixed value.
pub proof fn lemma_lookup_yields_whole_point(s: Seq<TempSpeedPoint>, temp: i32)
    ensures
        spec_lookup(s, temp) matches Some(v) ==> exists|i: int|
            0 <= i < s.len() && (#[trigger] s[i]).temperature <= temp && s[i].speed == v,
    decreases s.len(),
{
    if s.len() == 0 {
    } else if s.last().temperature <= temp {
        assert(s[s.len() - 1].temperature <= temp);
    } else {
        let d = s.drop_last();
        lemma_lookup_yields_whole_point(d, temp);
        if spec_lookup(s, temp) is Some {
            let v = spec_lookup(s, temp)->0;
            let w = choose|i: int|
                0 <= i < d.len() && (#[trigger] d[i]).temperature <= temp && d[i].speed == v;
            assert(s[w] == d[w]);
        }
    }
}

proof fn lemma_insert_position_is(s: Seq<TempSpeedPoint>, t: i32, i: int)
    requires
        0 <= i <= s.len(),
        forall|k: int| 0 <= k < i ==> #[trigger] s[k].temperature < t,
        i < s.len() ==> s[i].temperature >= t,
    ensures
        insert_position(s, t) == i,
    decreases s.len(),
{
    if s.len() == 0 {
    } else if i == 0 {
    } else {
        assert(s[0].temperature < t);
        let d = s.drop_first();
        assert forall|k: int| 0 <= k < i - 1 implies #[trigger] d[k].temperature < t by {
            assert(d[k] == s[k + 1]);
        }
        assert(i - 1 < d.len() ==> d[i - 1] == s[i]);
        lemma_insert_position_is(d, t, i - 1);
    }
}

proof fn lemma_insert_keeps_well_formed(s: Seq<TempSpeedPoint>, i: int, p: TempSpeedPoint)
    requires
        curve_well_formed(s),
        p.valid(),
        0 <= i <= s.len(),
        forall|k: int| 0 <= k < i ==> #[trigger] s[k].temperature < p.temperature,
        forall|k: int| i <= k < s.len() ==> #[trigger] s[k].temperature > p.temperature,
    ensures
        curve_well_formed(s.insert(i, p)),
{
    let r = s.insert(i, p);
    assert forall|a: int, b: int|
        0 <= a < b < r.len() implies #[trigger] r[a].temperature < #[trigger] r[b].temperature by {
        if a < i {
            assert(r[a] == s[a]);
        } else if a == i {
            assert(r[a] == p);
        } else {
            assert(r[a] == s[a - 1]);
        }
        if b < i {
            assert(r[b] == s[b]);
        } else if b == i {
            assert(r[b] == p);
        } else {
            assert(r[b] == s[b - 1]);
        }
    }
    assert forall|a: int| 0 <= a < r.len() implies (#[trigger] r[a]).valid() by {
        if a < i {
            assert(r[a] == s[a]);
        } else if a == i {
            assert(r[a] == p);
        } else {
            assert(r[a] == s[a - 1]);
        }
    }
}

/// An ordered collection of points, strictly ascending by temperature.
pub struct FanCurve {
    points: Vec<TempSpeedPoint>,
}

impl View for FanCurve {
    type V = Seq<TempSpeedPoint>;

    closed spec fn view(&self) -> Seq<TempSpeedPoint> {
        self.points@
    }
}

impl FanCurve {
    /// The curve's invariant, stated over its view.
    pub open spec fn well_formed(&self) -> bool {
        curve_well_formed(self@)
    }

    /// Creates an empty curve.
    pub fn new() -> (c: FanCurve)
        ensures
            c@ == Seq::<TempSpeedPoint>::empty(),
            c.well_formed(),
    {
        let c = FanCurve { points: Vec::new() };
        proof {
            assert(c@ =~= Seq::<TempSpeedPoint>::empty());
        }
        c
    }

    /// Number of breakpoints in the curve.
    pub fn len(&self) -> (n: usize)
        ensures
            n == self@.len(),
    {
        self.points.len()
    }

    /// The breakpoint at a position.
    pub fn point_at(&self, i: usize) -> (p: TempSpeedPoint)
        requires
            i < self@.len(),
        ensures
            p == self@[i as int],
    {
        self.points[i]
    }

    /// Validates the pair; updates the speed in place when a point with this
    /// exact temperature exists, otherwise inserts a new point where the
    /// ascending order puts it. A rejected pair leaves the curve untouched.
    pub fn insert_or_update(&mut self, temperature: i32, speed: u32) -> (r: Result<
        (),
        ValidationError,
    >)
        requires
            old(self).well_formed(),
        ensures
            final(self).well_formed(),
            match r {
                Ok(()) => {
                    let p = (TempSpeedPoint { temperature, speed });
                    &&& p.valid()
                    &&& if has_temp(old(self)@, temperature) {
                        final(self)@ == old(self)@.update(
                            index_of_temp(old(self)@, temperature),
                            p,
                        )
                    } else {
                        final(self)@ == old(self)@.insert(
                            insert_position(old(self)@, temperature),
                            p,
                        )
                    }
                },
                Err(e) => {
                    &&& final(self)@ == old(self)@
                    &&& !(TempSpeedPoint { temperature, speed }).valid()
                    &&& e is TemperatureOutOfRange <==> !(MIN_TEMP <= temperature <= MAX_TEMP)
                },
            },
    {
        let p = match TempSpeedPoint::try_new(temperature, speed) {
            Ok(p) => p,
            Err(e) => {
                return Err(e);
            },
        };
        let ghost s0 = self.points@;
        let n = self.points.len();
        let mut i: usize = 0;
        while i < n
            invariant
                i <= n,
                n == self.points@.len(),
                self.points@ == s0,
                s0 == old(self)@,
                curve_well_formed(s0),
                p == (TempSpeedPoint { temperature, speed }),
                p.valid(),
                forall|k: int| 0 <= k < i ==> #[trigger] s0[k].temperature < temperature,
            decreases n - i,
        {
            let t_i = self.points[i].temperature;
            if t_i == temperature {
                let ghost gi = i as int;
                self.points[i] = p;
                proof {
                    assert(has_temp(s0, temperature));
                    let k = index_of_temp(s0, temperature);
                    lemma_well_formed_no_duplicates(s0);
                    assert(k == gi);
                    assert(self.points@[gi] == p);
                    assert(self.points@ =~= s0.update(gi, p));
                    assert forall|a: int, b: int|
                        0 <= a < b < self.points@.len()
                            implies #[trigger] self.points@[a].temperature
                            < #[trigger] self.points@[b].temperature by {
                        assert(s0[a].temperature < s0[b].temperature);
                        assert(self.points@[a].temperature == s0[a].temperature);
                        assert(self.points@[b].temperature == s0[b].temperature);
                    }
                    assert forall|a: int| 0 <= a < self.points@.len()
                        implies (#[trigger] self.points@[a]).valid() by {
                        if a != gi {
                            assert(self.points@[a] == s0[a]);
                        }
                    }
                }
                return Ok(());
            }
            if t_i > temperature {
                let ghost gi = i as int;
                proof {
                    assert forall|k: int| gi <= k < s0.len()
                        implies #[trigger] s0[k].temperature > temperature by {
                        if k > gi {
                            assert(s0[gi].temperature < s0[k].temperature);
                        }
                    }
                    assert(!has_temp(s0, temperature)) by {
                        if has_temp(s0, temperature) {
                            let k = choose|k: int|
                                0 <= k < s0.len() && (#[trigger] s0[k]).temperature == temperature;
                            assert(s0[k].temperature < temperature || s0[k].temperature
                                > temperature);
                        }
                    }
                    lemma_insert_position_is(s0, temperature, gi);
                    lemma_insert_keeps_well_formed(s0, gi, p);
                }
                self.points.insert(i, p);
                return Ok(());
            }
            i += 1;
        }
        proof {
            assert(!has_temp(s0, temperature)) by {
                if has_temp(s0, temperature) {
                    let k = choose|k: int|
                        0 <= k < s0.len() && (#[trigger] s0[k]).temperature == temperature;
                    assert(s0[k].temperature < temperature);
                }
            }
            lemma_insert_position_is(s0, temperature, s0.len() as int);
            lemma_insert_keeps_well_formed(s0, s0.len() as int, p);
        }
        self.points.push(p);
        proof {
            assert(self.points@ =~= s0.insert(s0.len() as int, p));
        }
        Ok(())
    }

    /// Writes a committed (temperature, speed) back into the breakpoint at a
    /// stable position. The write is applied only when it keeps the curve
    /// well formed: both values in range and the temperature in strict order
    /// with both neighbours; otherwise the curve is left untouched.
    pub fn update_point_at(&mut self, index: usize, temperature: i32, speed: u32) -> (r: bool)
        requires
            old(self).well_formed(),
            index < old(self)@.len(),
        ensures
            final(self).well_formed(),
            r == ({
                &&& (TempSpeedPoint { temperature, speed }).valid()
                &&& index > 0 ==> old(self)@[index as int - 1].temperature < temperature
                &&& index + 1 < old(self)@.len() ==> temperature < old(self)@[index as int
                    + 1].temperature
            }),
            r ==> final(self)@ == old(self)@.update(
                index as int,
                (TempSpeedPoint { temperature, speed }),
            ),
            !r ==> final(self)@ == old(self)@,
    {
        let ghost s0 = self.points@;
        let p = match TempSpeedPoint::try_new(temperature, speed) {
            Ok(p) => p,
            Err(_) => {
                return false;
            },
        };
        if index > 0 && self.points[index - 1].temperature >= temperature {
            return false;
        }
        let n = self.points.len();
        if index + 1 < n && self.points[index + 1].temperature <= temperature {
            return false;
        }
        let ghost gi = index as int;
        self.points[index] = p;
        proof {
            let r = self.points@;
            assert forall|a: int, b: int|
                0 <= a < b < r.len() implies #[trigger] r[a].temperature
                < #[trigger] r[b].temperature by {
                if a != gi && b != gi {
                    assert(r[a] == s0[a] && r[b] == s0[b]);
                } else if a == gi {
                    assert(r[b] == s0[b]);
                    if b > gi + 1 {
                        assert(s0[gi + 1].temperature < s0[b].temperature);
                    }
                } else {
                    assert(r[a] == s0[a]);
                    if a < gi - 1 {
                        assert(s0[a].temperature < s0[gi - 1].temperature);
                    }
                }
            }
            assert forall|a: int| 0 <= a < r.len() implies (#[trigger] r[a]).valid() by {
                if a != gi {
                    assert(r[a] == s0[a]);
                }
            }
        }
        true
    }

    /// Scans from the highest temperature downward and returns the speed of
    /// the first point whose temperature is at most `temp`; nothing when
    /// `temp` lies below every breakpoint.
    pub fn lookup_speed_for_temperature(&self, temp: i32) -> (r: Option<u32>)
        ensures
            r == spec_lookup(self@, temp),
    {
        let mut i = self.points.len();
        proof {
            assert(self.points@.subrange(0, self.points@.len() as int) =~= self.points@);
        }
        while i > 0
            invariant
                i <= self.points@.len(),
                spec_lookup(self@, temp) == spec_lookup(self.points@.subrange(0, i as int), temp),
            decreases i,
        {
            let ghost pre = self.points@.subrange(0, i as int);
            let p = self.points[i - 1];
            proof {
                assert(pre.last() == p);
                assert(pre.drop_last() =~= self.points@.subrange(0, i as int - 1));
            }
            if p.temperature <= temp {
                return Some(p.speed);
            }
            i -= 1;
        }
        proof {
            assert(self.points@.subrange(0, 0) =~= Seq::<TempSpeedPoint>::empty());
        }
        None
    }
}

} // verus!
