use nyr::progress_bar::{AnimatedProgressBar, STEP};
use nyr::records::Record;
use nyr::dates::Date;
use nyr::render_loop::{
    is_quit, Key, KeyKind, LoopAction, LoopEvent, Main, MainProps, RenderLoop, CLOCK_MILLIS,
};
use nyr::targets::{Ratio, TargetProgress};

fn press(c: char) -> LoopEvent {
    LoopEvent::KeyEvent(Key::Char(c), KeyKind::Press)
}

#[test]
fn loop_starts_rendering() {
    let state = RenderLoop::new(1_700_000_000, Vec::new());
    assert_eq!(state.time, 1_700_000_000);
    assert!(!state.should_exit);
    assert!(!state.finished());
    assert_eq!(state.action(), LoopAction::Render);
    assert_eq!(CLOCK_MILLIS, 1000);
}

#[test]
fn quit_key_ends_the_loop() {
    let mut state = RenderLoop::new(0, Vec::new());
    assert_eq!(state.handle(press('x')), LoopAction::Render);
    assert_eq!(state.handle(LoopEvent::KeyEvent(Key::Other, KeyKind::Press)), LoopAction::Render);
    assert_eq!(state.handle(press('Q')), LoopAction::Render);
    assert!(!state.should_exit);
    assert_eq!(state.handle(press('q')), LoopAction::Exit);
    assert!(state.should_exit);
}

#[test]
fn held_quit_key_ends_the_loop_and_released_does_not() {
    let mut state = RenderLoop::new(0, Vec::new());
    assert_eq!(
        state.handle(LoopEvent::KeyEvent(Key::Char('q'), KeyKind::Release)),
        LoopAction::Render
    );
    assert!(!state.should_exit);
    assert_eq!(
        state.handle(LoopEvent::KeyEvent(Key::Char('q'), KeyKind::Repeat)),
        LoopAction::Exit
    );
    assert!(is_quit(press('q')));
    assert!(!is_quit(LoopEvent::AnimationTick));
    assert!(!is_quit(LoopEvent::ClockTick(113)));
}

#[test]
fn quit_flag_is_never_taken_back() {
    let mut state = RenderLoop::new(0, vec![AnimatedProgressBar::new(100, STEP)]);
    assert_eq!(state.handle(press('q')), LoopAction::Exit);
    assert_eq!(state.handle(LoopEvent::ClockTick(5)), LoopAction::Exit);
    assert_eq!(state.handle(press('a')), LoopAction::Exit);
    assert_eq!(state.handle(LoopEvent::AnimationTick), LoopAction::Exit);
    assert!(state.should_exit);
}

#[test]
fn clock_tick_sets_the_time_and_nothing_else() {
    let mut state = RenderLoop::new(10, vec![AnimatedProgressBar::new(100, STEP)]);
    assert_eq!(state.handle(LoopEvent::ClockTick(11)), LoopAction::Render);
    assert_eq!(state.time, 11);
    assert_eq!(state.bars[0].ratio, 0);
    assert!(!state.should_exit);
}

#[test]
fn animation_tick_moves_every_bar() {
    let bars = vec![AnimatedProgressBar::new(10, STEP), AnimatedProgressBar::new(100, 20)];
    let mut state = RenderLoop::new(10, bars);
    assert_eq!(state.handle(LoopEvent::AnimationTick), LoopAction::Render);
    assert_eq!((state.bars[0].ratio, state.bars[1].ratio), (5, 20));
    assert_eq!(state.time, 10);
}

#[test]
fn one_bar_that_is_done_does_not_end_the_loop() {
    let bars = vec![AnimatedProgressBar::new(10, STEP), AnimatedProgressBar::new(20, STEP)];
    let mut state = RenderLoop::new(0, bars);
    assert_eq!(state.handle(LoopEvent::AnimationTick), LoopAction::Render);
    assert_eq!(state.handle(LoopEvent::AnimationTick), LoopAction::Render);
    assert!(state.bars[0].is_done());
    assert!(!state.bars[1].is_done());
    assert_eq!(state.handle(LoopEvent::AnimationTick), LoopAction::Render);
    assert_eq!(state.handle(LoopEvent::AnimationTick), LoopAction::Exit);
    assert_eq!((state.bars[0].ratio, state.bars[1].ratio), (10, 20));
    assert!(!state.should_exit);
}

#[test]
fn single_animated_bar_ends_the_loop_when_done() {
    let mut state = RenderLoop::new(0, vec![AnimatedProgressBar::new(450, STEP)]);
    let mut ticks = 0;
    while state.handle(LoopEvent::AnimationTick) == LoopAction::Render {
        ticks += 1;
    }
    assert_eq!(ticks + 1, 90);
    assert_eq!(state.bars[0].ratio, 450);
}

#[test]
fn loop_whose_bars_are_done_at_the_start_ends_at_once() {
    let state = RenderLoop::new(0, vec![AnimatedProgressBar::new(0, STEP)]);
    assert_eq!(state.action(), LoopAction::Exit);
}

#[test]
fn frame_has_one_bar_for_each_row() {
    let props = MainProps {
        target_progresses: vec![
            TargetProgress {
                target_id: 1,
                percentage: Ratio { numerator: 5000, denominator: 12000 },
                name: String::from("books"),
                target_value: 12000,
            },
            TargetProgress {
                target_id: 2,
                percentage: Ratio { numerator: 75000, denominator: 50000 },
                name: String::from("savings"),
                target_value: 50000,
            },
            TargetProgress {
                target_id: 3,
                percentage: Ratio { numerator: 0, denominator: 2500 },
                name: String::from("runs"),
                target_value: 2500,
            },
        ],
    };
    let mut state = RenderLoop::new(0, Vec::new());
    let frame = Main(&state, &props);
    assert_eq!(frame.title, "Resolutions 2025");
    assert_eq!(frame.hint, "Press \"q\" to quit.");
    assert!(!frame.exit);
    assert_eq!(frame.bars.len(), 3);
    assert_eq!(frame.bars[0].label, "books");
    assert_eq!((frame.bars[0].filled, frame.bars[0].unfilled), (417, 583));
    assert_eq!(frame.bars[0].value, "12");
    assert_eq!(frame.bars[1].label, "savings");
    assert_eq!((frame.bars[1].filled, frame.bars[1].unfilled), (1000, 0));
    assert_eq!(frame.bars[1].value, "50");
    assert_eq!(frame.bars[2].label, "runs");
    assert_eq!((frame.bars[2].filled, frame.bars[2].unfilled), (0, 1000));
    assert_eq!(frame.bars[2].value, "2");
    state.handle(press('q'));
    assert!(Main(&state, &props).exit);
}

#[test]
fn frame_shows_animated_bars_as_they_stand() {
    let bars = vec![AnimatedProgressBar::new(10, STEP), AnimatedProgressBar::new(123, 41)];
    let mut state = RenderLoop::new(0, bars);
    let start = Main(&state, &MainProps::default());
    assert_eq!(start.moving.len(), 2);
    assert_eq!((start.moving[0].filled, start.moving[0].unfilled), (0, 1000));
    assert!(!start.moving[0].done && !start.moving[1].done);
    assert!(!start.exit);
    state.handle(LoopEvent::AnimationTick);
    state.handle(LoopEvent::AnimationTick);
    let middle = Main(&state, &MainProps::default());
    assert_eq!((middle.moving[0].filled, middle.moving[0].percent, middle.moving[0].tenths), (10, 1, 0));
    assert_eq!((middle.moving[1].filled, middle.moving[1].percent, middle.moving[1].tenths), (82, 8, 2));
    assert!(middle.moving[0].done && !middle.moving[1].done);
    assert!(!middle.exit);
    state.handle(LoopEvent::AnimationTick);
    let end = Main(&state, &MainProps::default());
    assert_eq!((end.moving[0].filled, end.moving[1].filled), (10, 123));
    assert!(end.moving[0].done && end.moving[1].done);
    assert!(end.exit);
}

#[test]
fn frame_without_rows() {
    let frame = Main(&RenderLoop::new(0, Vec::new()), &MainProps::default());
    assert!(frame.bars.is_empty());
    assert!(!frame.exit);
}

#[test]
fn stored_record_holds_plain_values() {
    let entry_date = Date::from_ymd_opt(2025, 5, 4).unwrap();
    let record = Record { id: 1, target_id: 2, created_at: 1_746_316_800, entry_date, value: 1500 };
    assert_eq!(record, record.clone());
    assert_eq!(record.entry_date.month, 5);
}
