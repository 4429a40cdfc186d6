//! The loop that draws the dashboard: what each event does to its state,
//! and when it ends.
use crate::progress_bar::{
    is_region_of, AnimatedBarRegion, AnimatedProgressBar, BarRegion, ProgressBar,
    ProgressBarProps, StaticProgressBar,
};
use crate::progress_bar::filled_part;
use crate::targets::{round_to_units, TargetProgress};
use crate::text::{integer_text_spec, whole_units_text};
use vstd::prelude::*;

verus! {

/// The time between two ticks of the clock, in milliseconds.
pub const CLOCK_MILLIS: u64 = 1000;

/// A key of the terminal.
#[derive(Clone, Copy, Debug, PartialEq, Eq, Structural)]
pub enum Key {
    Char(char),
    Other,
}

/// What happened to a key.
#[derive(Clone, Copy, Debug, PartialEq, Eq, Structural)]
pub enum KeyKind {
    Press,
    Repeat,
    Release,
}

/// What can happen while the loop runs.
#[derive(Clone, Copy, Debug, PartialEq, Eq, Structural)]
pub enum LoopEvent {
    /// The clock ticked; the time is now this many seconds since the epoch.
    ClockTick(i64),
    /// The timer of the animated bars ticked.
    AnimationTick,
    /// The terminal reported a key.
    KeyEvent(Key, KeyKind),
}

/// What the loop does after an event.
#[derive(Clone, Copy, Debug, PartialEq, Eq, Structural)]
pub enum LoopAction {
    /// Draw the whole frame again.
    Render,
    /// Stop.
    Exit,
}

/// The state of the loop. Nothing else holds state: a frame is drawn from
/// this and from what was fetched before the loop began.
#[derive(Clone, Debug)]
pub struct RenderLoop {
    /// The time of the last clock tick, in seconds since the epoch.
    pub time: i64,
    /// Whether the user asked to quit.
    pub should_exit: bool,
    /// The animated bars on display.
    pub bars: Vec<AnimatedProgressBar>,
}

/// Whether `event` is the key that quits: `q`, pressed or held.
pub open spec fn is_quit_spec(event: LoopEvent) -> bool {
    event matches LoopEvent::KeyEvent(Key::Char(c), kind) && c == 'q' && kind != KeyKind::Release
}

/// Whether every one of `bars` stands within the scale.
pub open spec fn all_wf(bars: Seq<AnimatedProgressBar>) -> bool {
    forall|i: int| 0 <= i < bars.len() ==> (#[trigger] bars[i]).wf()
}

/// Whether every one of `bars` has arrived.
pub open spec fn all_done(bars: Seq<AnimatedProgressBar>) -> bool {
    forall|i: int| 0 <= i < bars.len() ==> (#[trigger] bars[i]).is_done_spec()
}

/// The bars one tick later.
pub open spec fn all_ticked(bars: Seq<AnimatedProgressBar>) -> Seq<AnimatedProgressBar> {
    bars.map_values(|bar: AnimatedProgressBar| bar.ticked())
}

/// Whether `event` is the key that quits.
pub fn is_quit(event: LoopEvent) -> (quit: bool)
    ensures
        quit == is_quit_spec(event),
{
    match event {
        LoopEvent::KeyEvent(Key::Char(c), kind) => c == 'q' && !(kind == KeyKind::Release),
        _ => false,
    }
}

impl RenderLoop {
    /// A loop is well formed when its bars are.
    pub open spec fn wf(&self) -> bool {
        all_wf(self.bars@)
    }

    /// Whether the loop is over: the user asked to quit, or there are
    /// animated bars and all of them have arrived. One bar that is done
    /// ends nothing while another is running.
    pub open spec fn finished_spec(&self) -> bool {
        self.should_exit || (self.bars@.len() > 0 && all_done(self.bars@))
    }

    /// What the loop does in this state.
    pub open spec fn action_spec(&self) -> LoopAction {
        if self.finished_spec() {
            LoopAction::Exit
        } else {
            LoopAction::Render
        }
    }

    /// The loop as it starts at `time`, with `bars` on display.
    pub fn new(time: i64, bars: Vec<AnimatedProgressBar>) -> (state: Self)
        ensures
            state.time == time,
            !state.should_exit,
            state.bars@ == bars@,
    {
        RenderLoop { time, should_exit: false, bars }
    }

    /// Whether the loop is over.
    pub fn finished(&self) -> (over: bool)
        ensures
            over == self.finished_spec(),
    {
        if self.should_exit {
            return true;
        }
        if self.bars.len() == 0 {
            return false;
        }
        let mut i: usize = 0;
        while i < self.bars.len()
            invariant
                !self.should_exit,
                0 < self.bars.len(),
                i <= self.bars.len(),
                forall|j: int| 0 <= j < i ==> (#[trigger] self.bars@[j]).is_done_spec(),
            decreases self.bars.len() - i,
        {
            if !self.bars[i].is_done() {
                assert(!self.bars@[i as int].is_done_spec());
                return false;
            }
            i = i + 1;
        }
        true
    }

    /// What the loop does in this state: what it does when it is first
    /// shown, and after every event.
    pub fn action(&self) -> (action: LoopAction)
        ensures
            action == self.action_spec(),
    {
        if self.finished() {
            LoopAction::Exit
        } else {
            LoopAction::Render
        }
    }

    /// Takes one event into the state and tells what to do next. A clock
    /// tick sets the time, an animation tick moves every bar by one tick,
    /// the key that quits sets the flag, which is never taken back; any
    /// other key changes nothing.
    pub fn handle(&mut self, event: LoopEvent) -> (action: LoopAction)
        requires
            old(self).wf(),
        ensures
            final(self).wf(),
            final(self).time == match event {
                LoopEvent::ClockTick(now) => now,
                _ => old(self).time,
            },
            final(self).should_exit == (old(self).should_exit || is_quit_spec(event)),
            final(self).bars@ == match event {
                LoopEvent::AnimationTick => all_ticked(old(self).bars@),
                _ => old(self).bars@,
            },
            action == final(self).action_spec(),
    {
        match event {
            LoopEvent::ClockTick(now) => {
                self.time = now;
            },
            LoopEvent::AnimationTick => {
                let mut i: usize = 0;
                while i < self.bars.len()
                    invariant
                        i <= self.bars.len(),
                        self.bars@.len() == old(self).bars@.len(),
                        self.time == old(self).time,
                        self.should_exit == old(self).should_exit,
                        all_wf(old(self).bars@),
                        forall|j: int|
                            0 <= j < i ==> #[trigger] self.bars@[j] == old(self).bars@[j].ticked(),
                        forall|j: int|
                            i <= j < self.bars.len() ==> #[trigger] self.bars@[j] == old(
                                self,
                            ).bars@[j],
                    decreases self.bars.len() - i,
                {
                    let mut bar = self.bars[i];
                    bar.tick();
                    self.bars.set(i, bar);
                    i = i + 1;
                }
                assert(self.bars@ =~= all_ticked(old(self).bars@));
            },
            LoopEvent::KeyEvent(_, _) => {
                if is_quit(event) {
                    self.should_exit = true;
                }
            },
        }
        self.action()
    }
}

/// While the user has not asked to quit and one bar is still running, the
/// loop goes on, however many other bars are done.
pub proof fn lemma_one_bar_done_ends_nothing(state: RenderLoop, running: int)
    requires
        !state.should_exit,
        0 <= running < state.bars@.len(),
        !state.bars@[running].is_done_spec(),
    ensures
        state.action_spec() == LoopAction::Render,
{
}

/// Without animated bars only the user ends the loop.
pub proof fn lemma_without_bars_only_quit_ends(state: RenderLoop)
    requires
        state.bars@.len() == 0,
    ensures
        state.finished_spec() == state.should_exit,
{
}

/// What the dashboard is drawn from: the rows that were fetched before the
/// loop began.
#[derive(Clone, Debug)]
pub struct MainProps {
    pub target_progresses: Vec<TargetProgress>,
}

impl Default for MainProps {
    /// No rows.
    fn default() -> (props: Self)
        ensures
            props.target_progresses@.len() == 0,
    {
        MainProps { target_progresses: Vec::new() }
    }
}

/// One whole frame of the dashboard.
#[derive(Clone, Debug)]
pub struct MainFrame {
    /// The heading above the bars.
    pub title: String,
    /// One still bar for each row, in the order of the rows.
    pub bars: Vec<BarRegion>,
    /// One region for each animated bar of the loop, in their order.
    pub moving: Vec<AnimatedBarRegion>,
    /// The line below the box.
    pub hint: String,
    /// Whether the loop is over and nothing more is to be drawn.
    pub exit: bool,
}

/// Whether `region` is the still bar of `row`: labelled with the target's
/// name, filled up to its ratio on the scale of a bar, with the target
/// value in whole units behind it.
pub open spec fn is_bar_of(region: &BarRegion, row: &TargetProgress) -> bool {
    &&& region.label@ == row.name@
    &&& region.filled == filled_part(row.percentage.on_bar_spec())
    &&& region.filled + region.unfilled == crate::progress_bar::FULL
    &&& region.value@ == integer_text_spec(round_to_units(row.target_value as int))
}

/// The frame of the dashboard in the state `state`: a function of the
/// state and the rows alone. Every row gets its bar, whatever its ratio,
/// and every animated bar its region.
#[allow(non_snake_case)]
pub fn Main(state: &RenderLoop, props: &MainProps) -> (frame: MainFrame)
    requires
        state.wf(),
        forall|i: int|
            0 <= i < props.target_progresses@.len() ==> (#[trigger] props.target_progresses@[i]).percentage.wf(),
    ensures
        frame.title@ == "Resolutions 2025"@,
        frame.hint@ == "Press \"q\" to quit."@,
        frame.exit == state.finished_spec(),
        frame.bars@.len() == props.target_progresses@.len(),
        forall|i: int|
            0 <= i < props.target_progresses@.len() ==> is_bar_of(
                #[trigger] &frame.bars@[i],
                &props.target_progresses@[i],
            ),
        frame.moving@.len() == state.bars@.len(),
        forall|i: int|
            0 <= i < state.bars@.len() ==> is_region_of(#[trigger] frame.moving@[i], state.bars@[i]),
{
    let mut bars: Vec<BarRegion> = Vec::new();
    let mut i: usize = 0;
    while i < props.target_progresses.len()
        invariant
            i <= props.target_progresses.len(),
            bars@.len() == i,
            forall|j: int|
                0 <= j < props.target_progresses@.len() ==> (#[trigger] props.target_progresses@[j]).percentage.wf(),
            forall|j: int|
                0 <= j < i ==> is_bar_of(#[trigger] &bars@[j], &props.target_progresses@[j]),
        decreases props.target_progresses.len() - i,
    {
        let row = &props.target_progresses[i];
        let bar_props = ProgressBarProps {
            progress_percentage: row.percentage.on_bar(),
            title: row.name.clone(),
            target: whole_units_text(row.target_value),
        };
        bars.push(StaticProgressBar(&bar_props));
        i = i + 1;
    }
    let mut moving: Vec<AnimatedBarRegion> = Vec::new();
    let mut k: usize = 0;
    while k < state.bars.len()
        invariant
            k <= state.bars.len(),
            moving@.len() == k,
            all_wf(state.bars@),
            forall|j: int| 0 <= j < k ==> is_region_of(#[trigger] moving@[j], state.bars@[j]),
        decreases state.bars.len() - k,
    {
        moving.push(ProgressBar(&state.bars[k]));
        k = k + 1;
    }
    MainFrame {
        title: "Resolutions 2025".to_owned(),
        bars,
        moving,
        hint: "Press \"q\" to quit.".to_owned(),
        exit: state.finished(),
    }
}

} // verus!
