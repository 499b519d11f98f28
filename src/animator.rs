//! The animator: one iteration takes the pending usage sample and theme
//! command, if any, and decides the delay and the next animation tick.
use vstd::prelude::*;
use crate::rate::{delay_of, frame_delay_ms, FALLBACK_USAGE, BASE_DELAY_MS};
use crate::rate::delay_at_extremes;
use crate::sampler::sample_of;
use crate::theme::{theme_after, theme_of_command, ThemeMode, DARK_COMMAND, LIGHT_COMMAND};

verus! {

/// Number of frames in one animation cycle.
pub const FRAME_COUNT: usize = 5;

/// Largest frame index.
pub const MAX_FRAME: usize = 4;

/// What the interface receives once per iteration to pick an icon.
#[derive(Clone, Copy, Debug, PartialEq, Eq, Structural)]
pub struct Tick {
    pub frame: usize,
    pub theme: ThemeMode,
}

impl Tick {
    /// Whether the icon comes from the dark sequence.
    pub fn is_dark(&self) -> (r: bool)
        ensures
            r == (self.theme == ThemeMode::Dark),
    {
        self.theme.is_dark()
    }

    /// The tick as the pair `(frame, is_dark)` carried to the interface.
    pub fn to_pair(&self) -> (r: (usize, bool))
        ensures
            r == (self.frame, self.theme == ThemeMode::Dark),
    {
        (self.frame, self.is_dark())
    }
}

/// The outcome of one iteration: wait `delay_ms`, then deliver `tick`.
#[derive(Clone, Copy, Debug, PartialEq, Eq, Structural)]
pub struct Step {
    pub delay_ms: u64,
    pub tick: Tick,
}

/// What one iteration found pending: a usage sample and a theme command,
/// each possibly absent.
#[derive(Clone, Copy, Debug, PartialEq, Eq, Structural)]
pub struct Event {
    pub usage: Option<u64>,
    pub command: Option<usize>,
}

/// The animator's state: the frame to show next, the current theme, and the
/// last usage sample received.
#[derive(Clone, Copy, Debug, PartialEq, Eq, Structural)]
pub struct Animator {
    pub frame: usize,
    pub theme: ThemeMode,
    pub usage_cache: u64,
}

/// The cached usage after an optional pending sample has been taken.
pub open spec fn cache_after(cache: u64, usage: Option<u64>) -> u64 {
    match usage {
        Some(u) => u,
        None => cache,
    }
}

/// The state after one iteration.
pub open spec fn next_state(s: Animator, e: Event) -> Animator {
    Animator {
        frame: ((s.frame + 1) % (FRAME_COUNT as int)) as usize,
        theme: theme_after(s.theme, e.command),
        usage_cache: cache_after(s.usage_cache, e.usage),
    }
}

/// The outcome of one iteration: the delay follows the freshest usage, the
/// tick carries the current frame and the freshest theme.
pub open spec fn step_of(s: Animator, e: Event) -> Step {
    Step {
        delay_ms: delay_of(cache_after(s.usage_cache, e.usage) as int) as u64,
        tick: Tick { frame: s.frame, theme: theme_after(s.theme, e.command) },
    }
}

/// The state after a run of iterations.
pub open spec fn state_after(s: Animator, events: Seq<Event>) -> Animator
    decreases events.len(),
{
    if events.len() == 0 {
        s
    } else {
        next_state(state_after(s, events.drop_last()), events.last())
    }
}

/// The outcomes of a run of iterations, in order.
pub open spec fn steps_of(s: Animator, events: Seq<Event>) -> Seq<Step>
    decreases events.len(),
{
    if events.len() == 0 {
        Seq::empty()
    } else {
        steps_of(s, events.drop_last()).push(step_of(state_after(s, events.drop_last()), events.last()))
    }
}

/// The state the animator starts in.
pub open spec fn initial_animator() -> Animator {
    Animator { frame: 0, theme: ThemeMode::Light, usage_cache: FALLBACK_USAGE }
}

impl Animator {
    /// The frame index is within the cycle.
    pub open spec fn wf(&self) -> bool {
        self.frame < FRAME_COUNT
    }

    /// Frame 0, light theme, and the fallback usage.
    pub fn new() -> (r: Animator)
        ensures
            r == initial_animator(),
            r.wf(),
    {
        Animator { frame: 0, theme: ThemeMode::Light, usage_cache: FALLBACK_USAGE }
    }

    /// One iteration: take the pending sample (else keep the cached one),
    /// apply the pending command (else keep the theme), compute the delay,
    /// and advance the frame, wrapping after the last.
    pub fn step(&mut self, usage: Option<u64>, command: Option<usize>) -> (r: Step)
        requires
            old(self).wf(),
        ensures
            final(self).wf(),
            r == step_of(*old(self), Event { usage, command }),
            *final(self) == next_state(*old(self), Event { usage, command }),
    {
        let cache = match usage {
            Some(u) => u,
            None => self.usage_cache,
        };
        let theme = self.theme.apply(command);
        let shown = self.frame;
        let delay_ms = frame_delay_ms(cache);
        self.usage_cache = cache;
        self.theme = theme;
        self.frame = if shown >= MAX_FRAME {
            0
        } else {
            shown + 1
        };
        Step { delay_ms, tick: Tick { frame: shown, theme } }
    }

    /// Runs one iteration per event and returns their outcomes in order.
    pub fn run(&mut self, events: &Vec<Event>) -> (r: Vec<Step>)
        requires
            old(self).wf(),
        ensures
            final(self).wf(),
            r@ == steps_of(*old(self), events@),
            *final(self) == state_after(*old(self), events@),
    {
        let ghost start = *self;
        let mut out: Vec<Step> = Vec::new();
        let mut i: usize = 0;
        while i < events.len()
            invariant
                i <= events.len(),
                self.wf(),
                out@ == steps_of(start, events@.take(i as int)),
                *self == state_after(start, events@.take(i as int)),
            decreases events.len() - i,
        {
            let e = events[i];
            proof {
                assert(events@.take(i + 1).drop_last() =~= events@.take(i as int));
            }
            let s = self.step(e.usage, e.command);
            out.push(s);
            i = i + 1;
        }
        proof {
            assert(events@.take(i as int) =~= events@);
        }
        out
    }
}

/// The `i`-th outcome of a run is one iteration from the state reached after
/// the first `i` events.
pub proof fn step_in_run(s: Animator, events: Seq<Event>, i: int)
    requires
        0 <= i < events.len(),
    ensures
        steps_of(s, events).len() == events.len(),
        steps_of(s, events)[i] == step_of(state_after(s, events.take(i)), events[i]),
    decreases events.len(),
{
    if i == events.len() - 1 {
        assert(events.take(i) =~= events.drop_last());
        steps_len(s, events.drop_last());
    } else {
        step_in_run(s, events.drop_last(), i);
        assert(events.drop_last().take(i) =~= events.take(i));
    }
}

/// A run yields one outcome per event.
pub proof fn steps_len(s: Animator, events: Seq<Event>)
    ensures
        steps_of(s, events).len() == events.len(),
    decreases events.len(),
{
    if events.len() > 0 {
        steps_len(s, events.drop_last());
    }
}

/// After `n` iterations the frame has advanced by `n`, modulo the cycle.
pub proof fn frame_after_run(s: Animator, events: Seq<Event>)
    requires
        s.wf(),
    ensures
        state_after(s, events).frame == (s.frame + events.len()) % (FRAME_COUNT as int),
    decreases events.len(),
{
    if events.len() > 0 {
        frame_after_run(s, events.drop_last());
    }
}

/// The frames shown are `0, 1, 2, 3, 4, 0, 1, ...` from the start, whatever
/// the usage samples and theme commands, for a run of any length.
pub proof fn frames_cycle(events: Seq<Event>, i: int)
    requires
        0 <= i < events.len(),
    ensures
        steps_of(initial_animator(), events)[i].tick.frame == i % (FRAME_COUNT as int),
{
    step_in_run(initial_animator(), events, i);
    frame_after_run(initial_animator(), events.take(i));
}

/// The theme of each tick is the one its own iteration's command selects; an
/// iteration without a command shows the theme of the tick before it (or the
/// starting theme for the first tick). Every command is applied on its own
/// tick, one per iteration, and no other tick changes the theme.
pub proof fn theme_follows_commands(s: Animator, events: Seq<Event>, i: int)
    requires
        0 <= i < events.len(),
    ensures
        events[i].command is Some ==> steps_of(s, events)[i].tick.theme == theme_of_command(
            events[i].command->Some_0,
        ),
        events[i].command is None && i == 0 ==> steps_of(s, events)[i].tick.theme == s.theme,
        events[i].command is None && i > 0 ==> steps_of(s, events)[i].tick.theme == steps_of(
            s,
            events,
        )[i - 1].tick.theme,
{
    step_in_run(s, events, i);
    if i > 0 {
        step_in_run(s, events, i - 1);
        assert(events.take(i).drop_last() =~= events.take(i - 1));
    } else {
        assert(events.take(0) =~= Seq::<Event>::empty());
    }
}

/// A dark command followed later by a light command, with no command in
/// between: every tick from the first up to the second is dark, and the
/// tick of the second is light.
pub proof fn dark_then_light(s: Animator, events: Seq<Event>, i: int, j: int)
    requires
        0 <= i < j < events.len(),
        events[i].command == Some(DARK_COMMAND),
        events[j].command == Some(LIGHT_COMMAND),
        forall|k: int| i < k < j ==> #[trigger] events[k].command is None,
    ensures
        forall|k: int| i <= k < j ==> #[trigger] steps_of(s, events)[k].tick.theme == ThemeMode::Dark,
        steps_of(s, events)[j].tick.theme == ThemeMode::Light,
{
    theme_follows_commands(s, events, j);
    assert forall|k: int| i <= k < j implies #[trigger] steps_of(s, events)[k].tick.theme
        == ThemeMode::Dark by {
        dark_until(s, events, i, k);
    }
}

proof fn dark_until(s: Animator, events: Seq<Event>, i: int, k: int)
    requires
        0 <= i <= k < events.len(),
        events[i].command == Some(DARK_COMMAND),
        forall|m: int| i < m <= k ==> #[trigger] events[m].command is None,
    ensures
        steps_of(s, events)[k].tick.theme == ThemeMode::Dark,
    decreases k - i,
{
    theme_follows_commands(s, events, k);
    if k > i {
        dark_until(s, events, i, k - 1);
    }
}

/// With no pending sample an iteration keeps the cached usage and derives
/// its delay from it.
pub proof fn silent_sampler_keeps_cache(s: Animator, command: Option<usize>)
    ensures
        next_state(s, Event { usage: None, command }).usage_cache == s.usage_cache,
        step_of(s, Event { usage: None, command }).delay_ms == delay_of(s.usage_cache as int),
{
}

/// Usage that reaches the animator only as fallback samples (or not at all).
pub open spec fn only_fallback(events: Seq<Event>) -> bool {
    forall|k: int|
        0 <= k < events.len() ==> #[trigger] events[k].usage is None || events[k].usage == Some(
            sample_of(None),
        )
}

/// Before any successful measurement (only fallback samples, or none) every
/// delay is the base 200 ms.
pub proof fn fallback_gives_base_delay(events: Seq<Event>, i: int)
    requires
        0 <= i < events.len(),
        only_fallback(events),
    ensures
        steps_of(initial_animator(), events)[i].delay_ms == BASE_DELAY_MS,
{
    step_in_run(initial_animator(), events, i);
    cache_stays_fallback(events.take(i));
    delay_at_extremes(FALLBACK_USAGE as int);
}

proof fn cache_stays_fallback(events: Seq<Event>)
    requires
        only_fallback(events),
    ensures
        state_after(initial_animator(), events).usage_cache == FALLBACK_USAGE,
    decreases events.len(),
{
    if events.len() > 0 {
        let d = events.drop_last();
        assert(only_fallback(d)) by {
            assert forall|k: int| 0 <= k < d.len() implies #[trigger] d[k].usage is None
                || d[k].usage == Some(sample_of(None)) by {
                assert(d[k] == events[k]);
            }
        }
        cache_stays_fallback(d);
        assert(events.last() == events[events.len() - 1]);
    }
}

} // verus!
