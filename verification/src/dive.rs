//! What is recorded of a dive, and the stops that its ascent is made of.
use vstd::prelude::*;
use crate::depth_utils::{get_ascent_time, spec_ascent_time};
use crate::error::DecoError;
use crate::fixed::saturate;
use crate::gas::GasMix;
use crate::pressure_unit::{msw, msw_of, Pa, Pressure};
use crate::setup::DINC;

verus! {

/// One reading of a dive: when it was taken, the absolute pressure then, and
/// which of the dive's gases was breathed.
#[derive(Debug, Clone, Copy)]
pub struct DiveMeasurement {
    pub time_ms: usize,
    pub depth: Pa,
    pub gas: usize,
}

/// A recorded dive: its gases and its readings, in the order in which they
/// were taken.
#[derive(Debug, Clone, Copy)]
pub struct DiveProfile<P: Pressure, const G: usize, const M: usize> {
    pub dive_id: usize,
    pub max_depth: P,
    pub gases: [GasMix; G],
    pub measurements: [DiveMeasurement; M],
}

/// A stop of an ascent: its depth, how long it lasts in milliseconds, and
/// the gas to breathe there where one is named. A stop that lasts no time
/// is none.
#[derive(Debug, Clone, Copy)]
pub struct Stop {
    depth: msw,
    duration: u64,
    gas: Option<GasMix>,
}

impl Stop {
    pub closed spec fn spec_depth(self) -> msw {
        self.depth
    }

    pub closed spec fn spec_duration(self) -> u64 {
        self.duration
    }

    pub closed spec fn spec_gas(self) -> Option<GasMix> {
        self.gas
    }

    pub fn new<P: Pressure>(depth: P, duration: u64, gas: Option<GasMix>) -> (r: Stop)
        ensures
            r.spec_depth().0 == msw_of(depth),
            r.spec_duration() == duration,
            r.spec_gas() == gas,
    {
        Stop { depth: depth.to_msw(), duration, gas }
    }

    pub fn depth(&self) -> (r: msw)
        ensures
            r == self.spec_depth(),
    {
        self.depth
    }

    pub fn duration(&self) -> (r: u64)
        ensures
            r == self.spec_duration(),
    {
        self.duration
    }

    pub fn gas(&self) -> (r: Option<GasMix>)
        ensures
            r == self.spec_gas(),
    {
        self.gas
    }
}

/// The depth, in millionths of a metre of sea water, that belongs to slot
/// `slot` of a schedule of `num_stops` slots: the deepest comes first, and
/// the last slot lies at the surface.
pub open spec fn slot_depth(num_stops: int, slot: int) -> int {
    saturate(DINC * (num_stops - 1 - slot))
}

/// The sum of the durations of the first `n` of `stops`.
pub open spec fn total_duration(stops: Seq<Stop>, n: nat) -> int
    decreases n,
{
    if n == 0 {
        0
    } else {
        total_duration(stops, (n - 1) as nat) + stops[n - 1].spec_duration()
    }
}

/// The first of the first `n` of `stops` that lasts any time, if there is
/// one.
pub open spec fn first_lasting(stops: Seq<Stop>, n: nat) -> Option<int>
    decreases n,
{
    if n == 0 {
        None
    } else {
        match first_lasting(stops, (n - 1) as nat) {
            Some(k) => Some(k),
            None => if stops[n - 1].spec_duration() != 0 {
                Some(n - 1)
            } else {
                None
            },
        }
    }
}

/// `v` held to the largest number of milliseconds.
pub open spec fn millis_clamp(v: int) -> int {
    if v > u64::MAX {
        u64::MAX as int
    } else {
        v
    }
}

/// What the first lasting stop is: it lasts, none before it does, and there
/// is none exactly where no stop lasts.
pub proof fn lemma_first_lasting(stops: Seq<Stop>, n: nat)
    ensures
        match first_lasting(stops, n) {
            Some(k) => {
                &&& 0 <= k < n
                &&& stops[k].spec_duration() != 0
                &&& forall|j: int| 0 <= j < k ==> (#[trigger] stops[j]).spec_duration() == 0
            },
            None => forall|j: int| 0 <= j < n ==> (#[trigger] stops[j]).spec_duration() == 0,
        },
    decreases n,
{
    if n > 0 {
        lemma_first_lasting(stops, (n - 1) as nat);
    }
}

/// The stops of an ascent, the deepest first.
#[derive(Debug, Clone, Copy)]
pub struct StopSchedule<const NUM_STOPS: usize> {
    stops: [Stop; NUM_STOPS],
}

impl<const NUM_STOPS: usize> Default for StopSchedule<NUM_STOPS> {
    /// The schedule without a stop: each slot at its depth, none lasting any
    /// time.
    fn default() -> (r: Self)
        ensures
            r.blank(),
    {
        let mut stops: [Stop; NUM_STOPS] = [Stop { depth: msw(0), duration: 0, gas: None };NUM_STOPS];
        let mut i: usize = 0;
        while i < NUM_STOPS
            invariant
                i <= NUM_STOPS,
                forall|j: int|
                    NUM_STOPS - i <= j < NUM_STOPS ==> {
                        &&& (#[trigger] stops[j]).depth.0 == slot_depth(NUM_STOPS as int, j)
                        &&& stops[j].duration == 0
                        &&& stops[j].gas is None
                    },
            decreases NUM_STOPS - i,
        {
            stops[NUM_STOPS - i - 1] = Stop { depth: msw(DINC).times(i), duration: 0, gas: None };
            i = i + 1;
        }
        StopSchedule { stops }
    }
}

impl<const NUM_STOPS: usize> StopSchedule<NUM_STOPS> {
    pub closed spec fn spec_stops(self) -> [Stop; NUM_STOPS] {
        self.stops
    }

    /// Each slot lies at the depth that belongs to it.
    pub open spec fn on_grid(self) -> bool {
        forall|j: int|
            0 <= j < NUM_STOPS ==> (#[trigger] self.spec_stops()[j]).spec_depth().0 == slot_depth(
                NUM_STOPS as int,
                j,
            )
    }

    /// Each slot lies at its depth, and none holds a stop.
    pub open spec fn blank(self) -> bool {
        &&& self.on_grid()
        &&& forall|j: int|
            0 <= j < NUM_STOPS ==> (#[trigger] self.spec_stops()[j]).spec_duration() == 0
                && self.spec_stops()[j].spec_gas() is None
    }

    /// The place of the first stop of the ascent: the first slot whose stop
    /// lasts any time.
    pub open spec fn spec_first_stop(self) -> Option<int> {
        first_lasting(self.spec_stops()@, NUM_STOPS as nat)
    }

    /// The time in milliseconds from the arrival at the first stop to the
    /// surface: all stops and the ascent from the first of them, at `rate` per
    /// minute. Zero where there is no stop.
    pub open spec fn spec_deco_tts(self, rate: int) -> int {
        match self.spec_first_stop() {
            Some(k) => millis_clamp(
                millis_clamp(total_duration(self.spec_stops()@, NUM_STOPS as nat))
                    + spec_ascent_time(self.spec_stops()[k].spec_depth().0 as int, rate),
            ),
            None => 0,
        }
    }

    pub fn new(stops: [Stop; NUM_STOPS]) -> (r: Self)
        ensures
            r.spec_stops() == stops,
    {
        StopSchedule { stops }
    }

    pub fn stops(&self) -> (r: [Stop; NUM_STOPS])
        ensures
            r == self.spec_stops(),
    {
        self.stops
    }

    /// The first stop of the ascent.
    pub fn first_stop(&self) -> (r: Option<&Stop>)
        ensures
            r is Some == self.spec_first_stop() is Some,
            r is Some ==> *r->Some_0 == self.spec_stops()[self.spec_first_stop()->Some_0],
    {
        let mut i: usize = 0;
        while i < NUM_STOPS
            invariant
                i <= NUM_STOPS,
                first_lasting(self.stops@, i as nat) is None,
            decreases NUM_STOPS - i,
        {
            if self.stops[i].duration != 0 {
                proof {
                    lemma_first_lasting_found(self.stops@, i as int, NUM_STOPS as nat);
                }
                return Some(&self.stops[i]);
            }
            i = i + 1;
        }
        None
    }

    /// The time in milliseconds from the arrival at the first stop to the
    /// surface, at `max_deco_ascent_rate` per minute.
    pub fn get_deco_tts(&self, max_deco_ascent_rate: msw) -> (r: u64)
        requires
            max_deco_ascent_rate.0 > 0,
        ensures
            r == self.spec_deco_tts(max_deco_ascent_rate.0 as int),
    {
        match self.first_stop() {
            Some(first_stop) => {
                let mut stops_time: u64 = 0;
                let mut i: usize = 0;
                while i < NUM_STOPS
                    invariant
                        i <= NUM_STOPS,
                        total_duration(self.stops@, i as nat) >= 0,
                        stops_time == millis_clamp(total_duration(self.stops@, i as nat)),
                    decreases NUM_STOPS - i,
                {
                    let d: u64 = self.stops[i].duration;
                    stops_time = if stops_time > u64::MAX - d {
                        u64::MAX
                    } else {
                        stops_time + d
                    };
                    i = i + 1;
                }
                let stops_ascent_time: u64 = get_ascent_time(first_stop.depth, max_deco_ascent_rate);
                if stops_time > u64::MAX - stops_ascent_time {
                    u64::MAX
                } else {
                    stops_time + stops_ascent_time
                }
            },
            None => 0,
        }
    }

    /// The time in milliseconds that the ascent from `current_depth` to the
    /// first stop takes at `max_ascent_rate` per minute; zero where there is
    /// no stop. It is refused where the first stop lies under
    /// `current_depth`.
    pub fn get_tt_first_stop_ascent_now<P: Pressure>(&self, current_depth: P, max_ascent_rate: msw) -> (r:
        Result<u64, DecoError>)
        requires
            max_ascent_rate.0 > 0,
        ensures
            match self.spec_first_stop() {
                None => r == Ok::<u64, DecoError>(0),
                Some(k) => {
                    let first = self.spec_stops()[k].spec_depth().0 as int;
                    if msw_of(current_depth) < first {
                        r == Err::<u64, DecoError>(DecoError::InputOutOfRange)
                    } else {
                        r == Ok::<u64, DecoError>(
                            spec_ascent_time(
                                saturate(msw_of(current_depth) - first),
                                max_ascent_rate.0 as int,
                            ) as u64,
                        )
                    }
                },
            },
    {
        let first_stop: msw = match self.first_stop() {
            Some(stop) => stop.depth,
            None => {
                return Ok(0);
            },
        };
        let current_depth: msw = current_depth.to_msw();
        if current_depth.0 < first_stop.0 {
            return Err(DecoError::InputOutOfRange);
        }
        let diff: msw = current_depth.minus(first_stop);
        Ok(get_ascent_time(diff, max_ascent_rate))
    }
}

/// A stop that lasts, with none lasting before it, is the first lasting
/// stop of every longer run.
pub proof fn lemma_first_lasting_found(stops: Seq<Stop>, k: int, n: nat)
    requires
        0 <= k < n,
        first_lasting(stops, k as nat) is None,
        stops[k].spec_duration() != 0,
    ensures
        first_lasting(stops, n) == Some(k),
    decreases n,
{
    if n > k + 1 {
        lemma_first_lasting_found(stops, k, (n - 1) as nat);
    }
}

} // verus!
