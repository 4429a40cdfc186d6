use nyr::progress_bar::{
    AnimatedProgressBar, BarState, ProgressBar, ProgressBarProps, StaticProgressBar, FULL, STEP,
    TICK_MILLIS,
};
use nyr::targets::Ratio;

fn ticks_until_done(goal: i128, step: u32) -> u64 {
    let mut bar = AnimatedProgressBar::new(goal, step);
    let mut ticks: u64 = 0;
    while !bar.is_done() {
        bar.tick();
        ticks += 1;
    }
    ticks
}

#[test]
fn bar_starts_empty() {
    let bar = AnimatedProgressBar::new(450, STEP);
    assert_eq!(bar.ratio, 0);
    assert_eq!(bar.goal, 450);
    assert_eq!(bar.step, 5);
    assert_eq!(bar.state(), BarState::Running(0));
    assert!(!bar.saturates());
}

#[test]
fn bar_reaches_forty_five_percent_after_ninety_ticks() {
    let mut bar = AnimatedProgressBar::new(450, STEP);
    for tick in 1..90u32 {
        assert_eq!(bar.tick(), BarState::Running(tick * 5));
    }
    assert_eq!(bar.tick(), BarState::Done);
    assert_eq!(bar.ratio, 450);
    assert_eq!(90 * TICK_MILLIS, 9000);
    assert_eq!(ticks_until_done(450, STEP), 90);
}

#[test]
fn bar_advances_by_its_step_and_never_recedes() {
    let mut bar = AnimatedProgressBar::new(777, 20);
    let mut last = bar.ratio;
    while !bar.is_done() {
        bar.tick();
        assert_eq!(bar.ratio, (last + 20).min(FULL));
        assert!(bar.ratio >= last);
        last = bar.ratio;
    }
    assert_eq!(bar.ratio, 780);
    assert_eq!(ticks_until_done(777, 20), 39);
}

#[test]
fn bar_that_is_done_stays() {
    let mut bar = AnimatedProgressBar::new(12, 5);
    assert_eq!(bar.tick(), BarState::Running(5));
    assert_eq!(bar.tick(), BarState::Running(10));
    assert_eq!(bar.tick(), BarState::Done);
    assert_eq!(bar.ratio, 15);
    assert_eq!(bar.tick(), BarState::Done);
    assert_eq!(bar.ratio, 15);
}

#[test]
fn bar_with_goal_of_zero_or_less_is_done_at_once() {
    assert_eq!(AnimatedProgressBar::new(0, STEP).state(), BarState::Done);
    assert_eq!(AnimatedProgressBar::new(-30, STEP).state(), BarState::Done);
    assert_eq!(ticks_until_done(0, STEP), 0);
}

#[test]
fn bar_with_goal_beyond_the_scale_ends_at_full() {
    let mut bar = AnimatedProgressBar::new(1500, STEP);
    assert!(bar.saturates());
    for _ in 0..199 {
        assert!(bar.tick() != BarState::Done);
    }
    assert_eq!(bar.tick(), BarState::Done);
    assert_eq!(bar.ratio, FULL);
    assert_eq!(ticks_until_done(1500, STEP), 200);
}

#[test]
fn bar_with_step_that_overshoots_is_clamped() {
    let mut bar = AnimatedProgressBar::new(1000, 300);
    assert_eq!(bar.tick(), BarState::Running(300));
    assert_eq!(bar.tick(), BarState::Running(600));
    assert_eq!(bar.tick(), BarState::Running(900));
    assert_eq!(bar.tick(), BarState::Done);
    assert_eq!(bar.ratio, 1000);
    let mut wide = AnimatedProgressBar::new(1000, u32::MAX);
    assert_eq!(wide.tick(), BarState::Done);
    assert_eq!(wide.ratio, 1000);
}

#[test]
fn ratio_on_the_scale_of_a_bar() {
    assert_eq!(Ratio { numerator: 5000, denominator: 12000 }.on_bar(), 417);
    assert_eq!(Ratio { numerator: 30000, denominator: 50000 }.on_bar(), 600);
    assert_eq!(Ratio { numerator: 45, denominator: 100 }.on_bar(), 450);
    assert_eq!(Ratio { numerator: 0, denominator: 7 }.on_bar(), 0);
    assert_eq!(Ratio { numerator: 3, denominator: 2 }.on_bar(), 1500);
    assert_eq!(Ratio { numerator: 1, denominator: 3000 }.on_bar(), 1);
    assert_eq!(Ratio { numerator: -1, denominator: 3 }.on_bar(), -333);
    assert_eq!(Ratio { numerator: 1, denominator: -3 }.on_bar(), -333);
    assert_eq!(Ratio { numerator: -1, denominator: -3 }.on_bar(), 334);
    assert_eq!(Ratio { numerator: -2, denominator: -1 }.on_bar(), 2000);
}

#[test]
fn default_props() {
    let props = ProgressBarProps::default();
    assert_eq!(props.progress_percentage, 0);
    assert_eq!(props.title, "Progress");
    assert_eq!(props.target, "");
}

#[test]
fn static_bar_shows_progress_at_once() {
    let props = ProgressBarProps {
        progress_percentage: 417,
        title: String::from("books"),
        target: String::from("12"),
    };
    let region = StaticProgressBar(&props);
    assert_eq!(region.label, "books");
    assert_eq!(region.value, "12");
    assert_eq!(region.filled, 417);
    assert_eq!(region.unfilled, 583);
}

#[test]
fn static_bar_holds_progress_within_the_scale() {
    let mut props = ProgressBarProps::default();
    props.progress_percentage = 1500;
    let over = StaticProgressBar(&props);
    assert_eq!((over.filled, over.unfilled), (1000, 0));
    props.progress_percentage = -20;
    let under = StaticProgressBar(&props);
    assert_eq!((under.filled, under.unfilled), (0, 1000));
    props.progress_percentage = i128::MAX;
    assert_eq!(StaticProgressBar(&props).filled, 1000);
}

#[test]
fn animated_bar_region() {
    let mut bar = AnimatedProgressBar::new(20, 7);
    let start = ProgressBar(&bar);
    assert_eq!((start.filled, start.unfilled, start.percent, start.tenths), (0, 1000, 0, 0));
    assert!(!start.done);
    bar.tick();
    bar.tick();
    let middle = ProgressBar(&bar);
    assert_eq!((middle.filled, middle.unfilled, middle.percent, middle.tenths), (14, 986, 1, 4));
    assert!(!middle.done);
    bar.tick();
    let end = ProgressBar(&bar);
    assert_eq!((end.filled, end.percent, end.tenths), (21, 2, 1));
    assert!(end.done);
}

#[test]
fn bar_is_done_after_goal_over_step_ticks_rounded_up() {
    for step in [1u32, 2, 3, 5, 7, 20, 64, 333, 999, 1000, 1001, 4000] {
        for goal in 0..=1000i128 {
            let expected = (goal as u64 + step as u64 - 1) / step as u64;
            assert_eq!(ticks_until_done(goal, step), expected, "goal {} step {}", goal, step);
        }
    }
}

#[test]
fn bar_is_done_when_the_ratio_is_reached() {
    let ratio = Ratio { numerator: 5000, denominator: 12000 };
    let mut bar = AnimatedProgressBar::new(ratio.on_bar(), STEP);
    while !bar.is_done() {
        assert!((bar.ratio as i128) * 12000 < 5000 * 1000);
        bar.tick();
    }
    assert!((bar.ratio as i128) * 12000 >= 5000 * 1000);
    assert_eq!(bar.ratio, 420);
}
