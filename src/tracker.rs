use vstd::prelude::*;

use crate::phase::{classify, classify_spec, SunPosition};

verus! {

/// What one tick of the tracking loop observes.
#[derive(Clone, Copy, Debug, PartialEq, Eq, Structural)]
pub struct TickInput {
    /// The current time, in seconds since the Unix epoch.
    pub now_secs: i64,
    /// The sun's altitude now, in thousandths of a degree.
    pub altitude_mdeg: i64,
    /// Whether the local wall-clock hour is at most 12.
    pub is_morning: bool,
    /// Today's predicted solar noon, in seconds since the Unix epoch; used
    /// only when this tick reaches sunrise.
    pub today_noon_secs: i64,
}

/// What one tick of the tracking loop asks its caller to do, in this order.
#[derive(Clone, Copy, Debug, PartialEq, Eq, Structural)]
pub struct TickOutcome {
    /// Publish the solar-noon event.
    pub solar_noon: bool,
    /// Publish this altitude, in thousandths of a degree, as telemetry.
    pub telemetry_mdeg: i64,
    /// Publish this phase as a transition event.
    pub transition: Option<SunPosition>,
    /// The solar-noon instant that was scheduled on this tick.
    pub scheduled_noon: Option<i64>,
    /// Sleep for a minute before the next tick.
    pub sleep: bool,
}

/// The state that the tracking loop carries from one tick to the next.
#[derive(Clone, Copy, Debug, PartialEq, Eq, Structural)]
pub struct LoopState {
    /// The phase that was last published, if any.
    pub last_published_phase: Option<SunPosition>,
    /// The solar-noon instant still waiting to be announced, if any.
    pub pending_noon_instant: Option<i64>,
}

/// Whether a pending solar noon is due at `now`: it lies strictly before.
pub open spec fn noon_due(s: LoopState, now: int) -> bool {
    match s.pending_noon_instant {
        Some(t) => now > t,
        None => false,
    }
}

/// The state and the outcome of one tick from state `s` on input `i`.
pub open spec fn step(s: LoopState, i: TickInput) -> (LoopState, TickOutcome) {
    let due = noon_due(s, i.now_secs as int);
    let pending = if due { None } else { s.pending_noon_instant };
    let phase = classify_spec(i.altitude_mdeg as int, i.is_morning);
    if s.last_published_phase == Some(phase) {
        (
            LoopState { last_published_phase: s.last_published_phase, pending_noon_instant: pending },
            TickOutcome {
                solar_noon: due,
                telemetry_mdeg: i.altitude_mdeg,
                transition: None,
                scheduled_noon: None,
                sleep: true,
            },
        )
    } else {
        let scheduled = if phase == SunPosition::Sunrise {
            Some(i.today_noon_secs)
        } else {
            None
        };
        (
            LoopState {
                last_published_phase: Some(phase),
                pending_noon_instant: if phase == SunPosition::Sunrise {
                    scheduled
                } else {
                    pending
                },
            },
            TickOutcome {
                solar_noon: due,
                telemetry_mdeg: i.altitude_mdeg,
                transition: Some(phase),
                scheduled_noon: scheduled,
                sleep: false,
            },
        )
    }
}

impl LoopState {
    /// The state at start-up: nothing published, no noon pending.
    pub fn new() -> (r: LoopState)
        ensures
            r.last_published_phase is None,
            r.pending_noon_instant is None,
    {
        LoopState { last_published_phase: None, pending_noon_instant: None }
    }

    /// Runs one tick: announces a pending solar noon that is due, reports
    /// the altitude, classifies it, and publishes the phase when it differs
    /// from the last one published. Reaching sunrise schedules today's solar
    /// noon, replacing any earlier one.
    pub fn tick(&mut self, input: TickInput) -> (r: TickOutcome)
        ensures
            (*final(self), r) == step(*old(self), input),
    {
        let mut solar_noon = false;
        if let Some(t) = self.pending_noon_instant {
            if input.now_secs > t {
                solar_noon = true;
                self.pending_noon_instant = None;
            }
        }
        let phase = classify(input.altitude_mdeg, input.is_morning);
        let unchanged = match self.last_published_phase {
            Some(last) => last == phase,
            None => false,
        };
        if unchanged {
            return TickOutcome {
                solar_noon,
                telemetry_mdeg: input.altitude_mdeg,
                transition: None,
                scheduled_noon: None,
                sleep: true,
            };
        }
        let mut scheduled_noon = None;
        if phase == SunPosition::Sunrise {
            self.pending_noon_instant = Some(input.today_noon_secs);
            scheduled_noon = Some(input.today_noon_secs);
        }
        self.last_published_phase = Some(phase);
        TickOutcome {
            solar_noon,
            telemetry_mdeg: input.altitude_mdeg,
            transition: Some(phase),
            scheduled_noon,
            sleep: false,
        }
    }
}

/// The final state and the outcomes of running the ticks `inputs` in order
/// from state `s`.
pub open spec fn run(s: LoopState, inputs: Seq<TickInput>) -> (LoopState, Seq<TickOutcome>)
    decreases inputs.len(),
{
    if inputs.len() == 0 {
        (s, Seq::empty())
    } else {
        let (mid, outs) = run(s, inputs.drop_last());
        let (next, o) = step(mid, inputs.last());
        (next, outs.push(o))
    }
}

/// Six ticks whose altitudes classify as night, night, civil dawn, civil
/// dawn, sunrise and sunset publish exactly the three changes of phase
/// (besides announcing night first when nothing was published yet), and
/// report the altitude on every tick.
pub proof fn lemma_morning_transitions(s: LoopState, inputs: Seq<TickInput>)
    requires
        inputs.len() == 6,
        s.last_published_phase is None || s.last_published_phase == Some(SunPosition::Night),
        classify_spec(inputs[0].altitude_mdeg as int, inputs[0].is_morning) == SunPosition::Night,
        classify_spec(inputs[1].altitude_mdeg as int, inputs[1].is_morning) == SunPosition::Night,
        classify_spec(inputs[2].altitude_mdeg as int, inputs[2].is_morning)
            == SunPosition::CivilDawn,
        classify_spec(inputs[3].altitude_mdeg as int, inputs[3].is_morning)
            == SunPosition::CivilDawn,
        classify_spec(inputs[4].altitude_mdeg as int, inputs[4].is_morning)
            == SunPosition::Sunrise,
        classify_spec(inputs[5].altitude_mdeg as int, inputs[5].is_morning) == SunPosition::Sunset,
    ensures
        run(s, inputs).1.len() == 6,
        forall|k: int|
            0 <= k < 6 ==> #[trigger] run(s, inputs).1[k].telemetry_mdeg == inputs[k].altitude_mdeg,
        run(s, inputs).1[0].transition == if s.last_published_phase is None {
            Some(SunPosition::Night)
        } else {
            None
        },
        run(s, inputs).1[1].transition is None,
        run(s, inputs).1[2].transition == Some(SunPosition::CivilDawn),
        run(s, inputs).1[3].transition is None,
        run(s, inputs).1[4].transition == Some(SunPosition::Sunrise),
        run(s, inputs).1[5].transition == Some(SunPosition::Sunset),
        run(s, inputs).0.last_published_phase == Some(SunPosition::Sunset),
{
    reveal_with_fuel(run, 7);
    assert(inputs.drop_last().drop_last().drop_last().drop_last().drop_last().drop_last()
        =~= Seq::<TickInput>::empty());
}

/// Reaching sunrise schedules the predicted noon; the first tick after that
/// instant announces solar noon once and clears it, so no later tick
/// announces it again.
pub proof fn lemma_noon_fires_once(
    s: LoopState,
    sunrise: TickInput,
    later: TickInput,
    again: TickInput,
)
    requires
        classify_spec(sunrise.altitude_mdeg as int, sunrise.is_morning) == SunPosition::Sunrise,
        s.last_published_phase != Some(SunPosition::Sunrise),
        later.now_secs > sunrise.today_noon_secs,
    ensures
        step(s, sunrise).0.pending_noon_instant == Some(sunrise.today_noon_secs),
        step(s, sunrise).1.scheduled_noon == Some(sunrise.today_noon_secs),
        step(step(s, sunrise).0, later).1.solar_noon,
        step(step(s, sunrise).0, later).0.pending_noon_instant is None,
        !step(step(step(s, sunrise).0, later).0, again).1.solar_noon,
{
}

} // verus!
