//! Progress bars: the animated bar that walks towards a goal tick by tick,
//! and the still bar of the dashboard.
use crate::targets::{Ratio, MAX_NUMERATOR};
use vstd::prelude::*;

verus! {

/// The full width of a bar, 100 percent, in tenths of a percentage point.
/// Every position on a bar is measured on this scale.
pub const FULL: u32 = 1000;

/// How far the animated bar moves with each tick: half a percentage point.
pub const STEP: u32 = 5;

/// The time between two ticks of the animated bar, in milliseconds.
pub const TICK_MILLIS: u64 = 100;

/// The least integer that is not below `n / d`, for `d` other than zero.
pub open spec fn ceil_div(n: int, d: int) -> int
    recommends
        d != 0,
{
    if d > 0 {
        -((-n) / d)
    } else {
        -(n / (-d))
    }
}

/// What `ceil_div` is by its meaning: a position `p` lies at or beyond
/// `ceil_div(n, d)` exactly when it lies at or beyond the fraction `n / d`
/// itself.
pub proof fn lemma_ceil_div_is_least(n: int, d: int, p: int)
    requires
        d != 0,
    ensures
        d > 0 ==> (p >= ceil_div(n, d) <==> p * d >= n),
        d < 0 ==> (p >= ceil_div(n, d) <==> p * d <= n),
{
    if d > 0 {
        lemma_ceil_div_bounds(n, d);
        let q = ceil_div(n, d);
        assert(p >= q <==> p * d >= n) by (nonlinear_arith)
            requires
                d > 0,
                (q - 1) * d < n <= q * d,
        ;
    } else {
        lemma_ceil_div_bounds(-n, -d);
        let q = ceil_div(n, d);
        assert(q == ceil_div(-n, -d));
        assert(p >= q <==> p * d <= n) by (nonlinear_arith)
            requires
                d < 0,
                (q - 1) * (-d) < -n <= q * (-d),
        ;
    }
}

/// For a positive `d`, `ceil_div(n, d) * d` is the first multiple of `d`
/// that is not below `n`.
pub proof fn lemma_ceil_div_bounds(n: int, d: int)
    requires
        d > 0,
    ensures
        (ceil_div(n, d) - 1) * d < n <= ceil_div(n, d) * d,
{
    let f = (-n) / d;
    let r = (-n) % d;
    assert(-n == d * f + r && 0 <= r < d) by (nonlinear_arith)
        requires
            d > 0,
            f == (-n) / d,
            r == (-n) % d,
    ;
    assert((-f - 1) * d < n <= (-f) * d) by (nonlinear_arith)
        requires
            -n == d * f + r,
            0 <= r < d,
    ;
}

/// For a positive `d`, only one `q` has `(q - 1) * d < n <= q * d`: it is
/// `ceil_div(n, d)`.
pub proof fn lemma_ceil_div_unique(n: int, d: int, q: int)
    requires
        d > 0,
        (q - 1) * d < n <= q * d,
    ensures
        q == ceil_div(n, d),
{
    lemma_ceil_div_bounds(n, d);
    let c = ceil_div(n, d);
    assert(q == c) by (nonlinear_arith)
        requires
            d > 0,
            (q - 1) * d < n <= q * d,
            (c - 1) * d < n <= c * d,
    ;
}

impl Ratio {
    /// Where this ratio lies on the scale of a bar: the first position that
    /// is not below it.
    pub open spec fn on_bar_spec(&self) -> int {
        ceil_div(self.numerator * FULL, self.denominator as int)
    }

    /// Where this ratio lies on the scale of a bar, rounded up to the next
    /// position. Nothing is clamped: a ratio above one lies beyond `FULL`,
    /// a negative one below zero.
    pub fn on_bar(&self) -> (position: i128)
        requires
            self.wf(),
        ensures
            position == self.on_bar_spec(),
    {
        assert(-MAX_NUMERATOR * 1000 <= self.numerator * (FULL as int) <= MAX_NUMERATOR * 1000)
            by (nonlinear_arith)
            requires
                -MAX_NUMERATOR <= self.numerator <= MAX_NUMERATOR,
                FULL == 1000,
        ;
        let scaled: i128 = self.numerator * (FULL as i128);
        let d: i128 = self.denominator as i128;
        // The fraction with a positive denominator.
        let n: i128 = if d < 0 {
            -scaled
        } else {
            scaled
        };
        let m: u128 = if d < 0 {
            (-d) as u128
        } else {
            d as u128
        };
        if n > 0 {
            let q: u128 = ((n as u128) + (m - 1)) / m;
            proof {
                let a = n as int + m as int - 1;
                assert((q as int - 1) * m < n <= q as int * m) by (nonlinear_arith)
                    requires
                        m > 0,
                        q as int == a / (m as int),
                        a == n as int + m as int - 1,
                ;
                assert(q <= n) by (nonlinear_arith)
                    requires
                        m >= 1,
                        n > 0,
                        (q as int - 1) * m < n,
                ;
                lemma_ceil_div_unique(n as int, m as int, q as int);
            }
            q as i128
        } else {
            let f: u128 = ((-n) as u128) / m;
            proof {
                let a = -(n as int);
                assert((-(f as int) - 1) * m < n <= -(f as int) * m) by (nonlinear_arith)
                    requires
                        m > 0,
                        a >= 0,
                        a == -(n as int),
                        f as int == a / (m as int),
                ;
                assert(f <= a) by (nonlinear_arith)
                    requires
                        m >= 1,
                        a >= 0,
                        f as int == a / (m as int),
                ;
                lemma_ceil_div_unique(n as int, m as int, -(f as int));
            }
            -(f as i128)
        }
    }
}

/// What an animated bar is doing.
#[derive(Clone, Copy, Debug, PartialEq, Eq, Structural)]
pub enum BarState {
    /// The bar is still moving; it stands at this position.
    Running(u32),
    /// The bar has arrived and moves no more.
    Done,
}

/// A bar that starts empty and walks towards a goal, one step with each
/// tick. It never looks at the store again: the goal is fixed when the bar
/// is made.
///
/// A bar cannot show more than `FULL`. Where the goal lies beyond `FULL`,
/// the bar stops at `FULL` and is done there, short of the goal:
/// `saturates` tells.
#[derive(Clone, Copy, Debug, PartialEq, Eq, Structural)]
pub struct AnimatedProgressBar {
    /// Where the bar stands.
    pub ratio: u32,
    /// Where the bar is headed.
    pub goal: i128,
    /// How far the bar moves with one tick.
    pub step: u32,
}

/// How many ticks a bar that starts empty needs until it is done.
pub open spec fn ticks_needed(goal: int, step: int) -> int
    recommends
        step > 0,
{
    if goal <= 0 {
        0
    } else if goal <= FULL {
        ceil_div(goal, step)
    } else {
        ceil_div(FULL as int, step)
    }
}

impl AnimatedProgressBar {
    /// A bar is well formed when it stands within the scale.
    pub open spec fn wf(&self) -> bool {
        self.ratio <= FULL
    }

    /// The bar that starts empty.
    pub open spec fn fresh(goal: i128, step: u32) -> Self {
        AnimatedProgressBar { ratio: 0, goal, step }
    }

    /// Whether the bar has arrived: at its goal, or at the end of the scale.
    pub open spec fn is_done_spec(&self) -> bool {
        self.ratio >= self.goal || self.ratio >= FULL
    }

    /// The state that the bar is in.
    pub open spec fn state_spec(&self) -> BarState {
        if self.is_done_spec() {
            BarState::Done
        } else {
            BarState::Running(self.ratio)
        }
    }

    /// The bar one tick later: a step further, at most `FULL`, while it is
    /// running; unchanged once it is done.
    pub open spec fn ticked(self) -> Self {
        if self.is_done_spec() {
            self
        } else if self.ratio + self.step >= FULL {
            AnimatedProgressBar { ratio: FULL, ..self }
        } else {
            AnimatedProgressBar { ratio: (self.ratio + self.step) as u32, ..self }
        }
    }

    /// The bar `ticks` ticks later.
    pub open spec fn after(self, ticks: nat) -> Self
        decreases ticks,
    {
        if ticks == 0 {
            self
        } else {
            self.after((ticks - 1) as nat).ticked()
        }
    }

    /// An empty bar headed for `goal`, which moves by `step` with each tick.
    pub fn new(goal: i128, step: u32) -> (bar: Self)
        ensures
            bar == Self::fresh(goal, step),
            bar.wf(),
    {
        AnimatedProgressBar { ratio: 0, goal, step }
    }

    /// Whether the bar has arrived.
    pub fn is_done(&self) -> (done: bool)
        ensures
            done == self.is_done_spec(),
    {
        (self.ratio as i128) >= self.goal || self.ratio >= FULL
    }

    /// The state that the bar is in.
    pub fn state(&self) -> (state: BarState)
        ensures
            state == self.state_spec(),
    {
        if self.is_done() {
            BarState::Done
        } else {
            BarState::Running(self.ratio)
        }
    }

    /// Whether the goal lies beyond the scale, so that the bar ends at
    /// `FULL` without reaching it.
    pub fn saturates(&self) -> (beyond: bool)
        ensures
            beyond == (self.goal > FULL),
    {
        self.goal > (FULL as i128)
    }

    /// Moves the bar by one tick and tells the state it is in then. A bar
    /// that is done tells so and nothing else: whether anything ends with
    /// it is for the caller to decide.
    pub fn tick(&mut self) -> (state: BarState)
        requires
            old(self).wf(),
        ensures
            *final(self) == old(self).ticked(),
            final(self).wf(),
            state == final(self).state_spec(),
    {
        if !self.is_done() {
            if self.step >= FULL - self.ratio {
                self.ratio = FULL;
            } else {
                self.ratio = self.ratio + self.step;
            }
        }
        self.state()
    }
}

/// A tick never moves a bar backwards, nor off the scale.
pub proof fn lemma_tick_never_recedes(bar: AnimatedProgressBar)
    requires
        bar.wf(),
    ensures
        bar.ticked().wf(),
        bar.ticked().ratio >= bar.ratio,
        bar.ticked().goal == bar.goal,
        bar.ticked().step == bar.step,
{
}

/// While a bar is running, a tick moves it by exactly its step, or to the
/// end of the scale where the step would lead beyond it.
pub proof fn lemma_tick_advances_by_step(bar: AnimatedProgressBar)
    requires
        bar.wf(),
        !bar.is_done_spec(),
    ensures
        bar.ticked().ratio == if bar.ratio + bar.step <= FULL {
            bar.ratio + bar.step
        } else {
            FULL as int
        },
{
}

/// A bar that is done stays as it is, whatever number of ticks follows.
pub proof fn lemma_done_is_final(bar: AnimatedProgressBar, ticks: nat)
    requires
        bar.is_done_spec(),
    ensures
        bar.after(ticks) == bar,
    decreases ticks,
{
    if ticks > 0 {
        lemma_done_is_final(bar, (ticks - 1) as nat);
    }
}

/// The position of a bar never decreases over time: later is never less.
pub proof fn lemma_ratio_never_decreases(bar: AnimatedProgressBar, earlier: nat, later: nat)
    requires
        bar.wf(),
        earlier <= later,
    ensures
        bar.after(later).wf(),
        bar.after(earlier).ratio <= bar.after(later).ratio,
    decreases later,
{
    if later > 0 {
        if earlier < later {
            lemma_ratio_never_decreases(bar, earlier, (later - 1) as nat);
        } else {
            lemma_ratio_never_decreases(bar, (later - 1) as nat, (later - 1) as nat);
        }
        lemma_tick_never_recedes(bar.after((later - 1) as nat));
    }
}

/// Where a bar that started empty stands after `ticks` ticks, up to the
/// tick at which it is done: at `ticks` steps, or at the end of the scale;
/// and before that tick it is not done.
pub proof fn lemma_position_after(goal: i128, step: u32, ticks: nat)
    requires
        step > 0,
        ticks <= ticks_needed(goal as int, step as int),
    ensures
        AnimatedProgressBar::fresh(goal, step).after(ticks).goal == goal,
        AnimatedProgressBar::fresh(goal, step).after(ticks).step == step,
        AnimatedProgressBar::fresh(goal, step).after(ticks).ratio == if ticks * step <= FULL {
            ticks * step
        } else {
            FULL as int
        },
        ticks < ticks_needed(goal as int, step as int) ==> !AnimatedProgressBar::fresh(
            goal,
            step,
        ).after(ticks).is_done_spec(),
    decreases ticks,
{
    let bar = AnimatedProgressBar::fresh(goal, step);
    let needed = ticks_needed(goal as int, step as int);
    let within: int = if goal <= FULL {
        goal as int
    } else {
        FULL as int
    };
    if needed > 0 {
        lemma_ceil_div_bounds(within, step as int);
        assert(ticks < needed ==> ticks * step < within) by (nonlinear_arith)
            requires
                step > 0,
                (needed - 1) * step < within,
        ;
    }
    if ticks > 0 {
        let before = (ticks - 1) as nat;
        lemma_position_after(goal, step, before);
        assert(before * step + step == ticks * step) by (nonlinear_arith)
            requires
                before + 1 == ticks,
        ;
        assert(before * step < within) by (nonlinear_arith)
            requires
                step > 0,
                before <= needed - 1,
                (needed - 1) * step < within,
        ;
    }
}

/// A bar that starts empty is done after exactly `ticks_needed` ticks, and
/// not before.
pub proof fn lemma_done_after_ticks_needed(goal: i128, step: u32)
    requires
        step > 0,
    ensures
        ticks_needed(goal as int, step as int) >= 0,
        AnimatedProgressBar::fresh(goal, step).after(
            ticks_needed(goal as int, step as int) as nat,
        ).is_done_spec(),
        forall|ticks: nat|
            ticks < ticks_needed(goal as int, step as int) ==> !(#[trigger] AnimatedProgressBar::fresh(
                goal,
                step,
            ).after(ticks)).is_done_spec(),
{
    let needed = ticks_needed(goal as int, step as int);
    let within: int = if goal <= FULL {
        goal as int
    } else {
        FULL as int
    };
    if goal > 0 {
        lemma_ceil_div_bounds(within, step as int);
        assert(needed >= 1) by (nonlinear_arith)
            requires
                step > 0,
                within > 0,
                within <= needed * step,
        ;
    }
    lemma_position_after(goal, step, needed as nat);
    assert forall|ticks: nat| ticks < needed implies !(#[trigger] AnimatedProgressBar::fresh(
        goal,
        step,
    ).after(ticks)).is_done_spec() by {
        lemma_position_after(goal, step, ticks);
    }
}

/// A bar that starts empty, with a goal on the scale, is done after
/// `ceil(goal / step)` ticks and not before, and then stands at that many
/// steps, or at the end of the scale.
pub proof fn lemma_reaches_goal_in_ceil_ticks(goal: i128, step: u32)
    requires
        step > 0,
        0 <= goal <= FULL,
    ensures
        ceil_div(goal as int, step as int) >= 0,
        AnimatedProgressBar::fresh(goal, step).after(
            ceil_div(goal as int, step as int) as nat,
        ).is_done_spec(),
        forall|ticks: nat|
            ticks < ceil_div(goal as int, step as int) ==> !(#[trigger] AnimatedProgressBar::fresh(
                goal,
                step,
            ).after(ticks)).is_done_spec(),
        AnimatedProgressBar::fresh(goal, step).after(
            ceil_div(goal as int, step as int) as nat,
        ).ratio == if ceil_div(goal as int, step as int) * step <= FULL {
            ceil_div(goal as int, step as int) * step
        } else {
            FULL as int
        },
{
    if goal == 0 {
        assert(ceil_div(0, step as int) == 0) by (nonlinear_arith)
            requires
                step > 0,
        ;
    }
    lemma_done_after_ticks_needed(goal, step);
    lemma_position_after(goal, step, ticks_needed(goal as int, step as int) as nat);
}

/// A bar that is headed for where a ratio lies on the scale is done exactly
/// when it has reached the ratio itself, or the end of the scale: rounding
/// the goal up to a position changes nothing for any position.
pub proof fn lemma_done_means_ratio_reached(ratio: Ratio, bar: AnimatedProgressBar)
    requires
        ratio.wf(),
        bar.goal == ratio.on_bar_spec(),
    ensures
        ratio.denominator > 0 ==> (bar.is_done_spec() <==> bar.ratio * ratio.denominator
            >= ratio.numerator * FULL || bar.ratio >= FULL),
        ratio.denominator < 0 ==> (bar.is_done_spec() <==> bar.ratio * ratio.denominator
            <= ratio.numerator * FULL || bar.ratio >= FULL),
{
    lemma_ceil_div_is_least(ratio.numerator * FULL, ratio.denominator as int, bar.ratio as int);
}

/// What a bar is drawn from.
#[derive(Clone, Debug)]
pub struct ProgressBarProps {
    /// The progress to show, on the scale of a bar. The animated bar walks
    /// towards it; the still bar shows it at once.
    pub progress_percentage: i128,
    /// The label in front of the bar.
    pub title: String,
    /// The text behind the bar: what is to be reached.
    pub target: String,
}

impl Default for ProgressBarProps {
    /// No progress, the label "Progress" and no text behind the bar.
    fn default() -> (props: Self)
        ensures
            props.progress_percentage == 0,
            props.title@ == "Progress"@,
            props.target@ == Seq::<char>::empty(),
    {
        ProgressBarProps {
            progress_percentage: 0,
            title: "Progress".to_owned(),
            target: String::new(),
        }
    }
}

/// The part of a bar that is filled when it shows `position`: the position
/// itself, held within the scale.
pub open spec fn filled_part(position: int) -> int {
    if position < 0 {
        0
    } else if position > FULL {
        FULL as int
    } else {
        position
    }
}

/// One still bar of a frame: a label, a bar and a text behind it.
#[derive(Clone, Debug)]
pub struct BarRegion {
    pub label: String,
    /// The filled part of the bar, on the scale of a bar.
    pub filled: u32,
    /// The rest of the bar.
    pub unfilled: u32,
    pub value: String,
}

/// One animated bar of a frame, as it stands at one moment.
#[derive(Clone, Copy, Debug, PartialEq, Eq, Structural)]
pub struct AnimatedBarRegion {
    /// The filled part of the bar, on the scale of a bar.
    pub filled: u32,
    /// The rest of the bar.
    pub unfilled: u32,
    /// The whole percentage points of the text beside the bar.
    pub percent: u32,
    /// The tenths of a percentage point of that text, 0 to 9.
    pub tenths: u32,
    /// Whether the bar has arrived.
    pub done: bool,
}

/// The still bar that shows the progress of `props` at once. It has no
/// timer and tells nothing about being done.
#[allow(non_snake_case)]
pub fn StaticProgressBar(props: &ProgressBarProps) -> (region: BarRegion)
    ensures
        region.label == props.title,
        region.value == props.target,
        region.filled == filled_part(props.progress_percentage as int),
        region.filled + region.unfilled == FULL,
{
    let filled: u32 = if props.progress_percentage < 0 {
        0
    } else if props.progress_percentage > (FULL as i128) {
        FULL
    } else {
        props.progress_percentage as u32
    };
    BarRegion {
        label: props.title.clone(),
        filled,
        unfilled: FULL - filled,
        value: props.target.clone(),
    }
}

/// Whether `region` shows `bar` as it stands: filled up to its position,
/// with that position in percentage points and tenths.
pub open spec fn is_region_of(region: AnimatedBarRegion, bar: AnimatedProgressBar) -> bool {
    &&& region.filled == bar.ratio
    &&& region.filled + region.unfilled == FULL
    &&& region.percent * 10 + region.tenths == bar.ratio
    &&& region.tenths < 10
    &&& region.done == bar.is_done_spec()
}

/// The animated bar as it is to be drawn now: filled up to where `bar`
/// stands, with that position as a text of percentage points and tenths.
/// That the bar is done is told in the region, for the caller to act on.
#[allow(non_snake_case)]
pub fn ProgressBar(bar: &AnimatedProgressBar) -> (region: AnimatedBarRegion)
    requires
        bar.wf(),
    ensures
        is_region_of(region, *bar),
{
    AnimatedBarRegion {
        filled: bar.ratio,
        unfilled: FULL - bar.ratio,
        percent: bar.ratio / 10,
        tenths: bar.ratio % 10,
        done: bar.is_done(),
    }
}

} // verus!
