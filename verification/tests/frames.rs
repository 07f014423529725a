use sprite_walk::clock::{AnimationClock, CYCLE_PERIOD, WALK_PERIOD};
use sprite_walk::frames::{
    frame_range, select_range, sheet_cell, AnimationIndices, SHEET_COLUMNS, SHEET_ROWS,
};
use sprite_walk::movement::Movement;

fn block(first: usize, last: usize) -> AnimationIndices {
    AnimationIndices { first, last }
}

#[test]
fn each_direction_has_its_block() {
    assert_eq!(frame_range(Movement::Down), Some(block(0, 3)));
    assert_eq!(frame_range(Movement::DownRight), Some(block(4, 7)));
    assert_eq!(frame_range(Movement::Right), Some(block(8, 11)));
    assert_eq!(frame_range(Movement::UpRight), Some(block(12, 15)));
    assert_eq!(frame_range(Movement::Up), Some(block(16, 19)));
    assert_eq!(frame_range(Movement::UpLeft), Some(block(20, 23)));
    assert_eq!(frame_range(Movement::Left), Some(block(24, 27)));
    assert_eq!(frame_range(Movement::DownLeft), Some(block(28, 31)));
    assert_eq!(frame_range(Movement::Idle), None);
}

#[test]
fn selector_leaves_block_while_idle() {
    let mut indices = block(24, 27);
    select_range(Movement::Idle, &mut indices);
    assert_eq!(indices, block(24, 27));
    select_range(Movement::Up, &mut indices);
    assert_eq!(indices, block(16, 19));
}

#[test]
fn starting_at_spans_four_frames() {
    assert_eq!(AnimationIndices::starting_at(0), block(0, 3));
    assert_eq!(AnimationIndices::starting_at(28), block(28, 31));
    assert_eq!(AnimationIndices::starting_at(usize::MAX - 3), block(usize::MAX - 3, usize::MAX));
}

#[test]
fn correct_snaps_only_stale_frames() {
    let b = block(8, 11);
    assert_eq!(b.correct(25), 8);
    assert_eq!(b.correct(7), 8);
    assert_eq!(b.correct(12), 8);
    assert_eq!(b.correct(0), 8);
    assert_eq!(b.correct(usize::MAX), 8);
    assert_eq!(b.correct(8), 8);
    assert_eq!(b.correct(9), 9);
    assert_eq!(b.correct(10), 10);
    assert_eq!(b.correct(11), 11);
}

#[test]
fn advance_cycles_through_the_block() {
    let b = block(20, 23);
    assert_eq!(b.advance(20), 21);
    assert_eq!(b.advance(21), 22);
    assert_eq!(b.advance(22), 23);
    assert_eq!(b.advance(23), 20);
}

#[test]
fn advance_wraps_at_the_top_of_the_range() {
    let b = block(usize::MAX - 3, usize::MAX);
    assert_eq!(b.advance(usize::MAX), usize::MAX - 3);
}

#[test]
fn new_clock_is_at_zero() {
    let clock = AnimationClock::new(200_000_000);
    assert_eq!(clock, AnimationClock { period: 200_000_000, elapsed: 0, fired: 0 });
    assert!(!clock.just_fired());
    assert_eq!(clock.times_fired(), 0);
}

#[test]
fn clock_gathers_time_below_the_period() {
    let mut clock = AnimationClock::new(200_000_000);
    clock.tick(150_000_000);
    assert_eq!(clock.elapsed, 150_000_000);
    assert_eq!(clock.times_fired(), 0);
    assert!(!clock.just_fired());
}

#[test]
fn clock_fires_and_keeps_the_remainder() {
    let mut clock = AnimationClock::new(200_000_000);
    clock.tick(150_000_000);
    clock.tick(100_000_000);
    assert!(clock.just_fired());
    assert_eq!(clock.times_fired(), 1);
    assert_eq!(clock.elapsed, 50_000_000);
    clock.tick(10_000_000);
    assert!(!clock.just_fired());
    assert_eq!(clock.elapsed, 60_000_000);
}

#[test]
fn clock_fires_on_reaching_the_period_exactly() {
    let mut clock = AnimationClock::new(200_000_000);
    clock.tick(200_000_000);
    assert!(clock.just_fired());
    assert_eq!(clock.times_fired(), 1);
    assert_eq!(clock.elapsed, 0);
}

#[test]
fn clock_counts_every_period_of_a_long_tick() {
    let mut clock = AnimationClock::new(200_000_000);
    clock.tick(1_050_000_000);
    assert_eq!(clock.times_fired(), 5);
    assert_eq!(clock.elapsed, 50_000_000);
    assert!(clock.just_fired());
}

#[test]
fn clock_count_keeps_its_low_32_bits() {
    let mut clock = AnimationClock::new(1);
    clock.tick(0x1_0000_0000);
    assert_eq!(clock.times_fired(), 0);
    assert_eq!(clock.elapsed, 0);
    assert!(!clock.just_fired());
    clock.tick(0x1_0000_0003);
    assert_eq!(clock.times_fired(), 3);
}

#[test]
fn clock_takes_the_longest_tick() {
    let mut clock = AnimationClock::new(u64::MAX);
    clock.tick(u64::MAX - 1);
    assert_eq!(clock.elapsed, u64::MAX - 1);
    assert_eq!(clock.times_fired(), 0);
    clock.tick(u64::MAX);
    assert_eq!(clock.times_fired(), 1);
    assert_eq!(clock.elapsed, u64::MAX - 1);
}

#[test]
fn clock_of_period_zero_always_fires() {
    let mut clock = AnimationClock::new(0);
    clock.tick(5);
    assert_eq!(clock.times_fired(), u32::MAX);
    assert_eq!(clock.elapsed, 0);
    clock.tick(0);
    assert_eq!(clock.times_fired(), u32::MAX);
    assert!(clock.just_fired());
}

#[test]
fn periods_are_a_fifth_and_three_tenths_of_a_second() {
    assert_eq!(WALK_PERIOD, 200_000_000);
    assert_eq!(CYCLE_PERIOD, 300_000_000);
}

#[test]
fn frames_run_along_the_rows_of_the_sheet() {
    assert_eq!(SHEET_COLUMNS, 4);
    assert_eq!(SHEET_ROWS, 8);
    assert_eq!(sheet_cell(0), (0, 0));
    assert_eq!(sheet_cell(3), (3, 0));
    assert_eq!(sheet_cell(4), (0, 1));
    assert_eq!(sheet_cell(22), (2, 5));
    assert_eq!(sheet_cell(31), (3, 7));
}

#[test]
fn each_block_is_one_row_of_the_sheet() {
    let states = vec![
        Movement::Down,
        Movement::DownRight,
        Movement::Right,
        Movement::UpRight,
        Movement::Up,
        Movement::UpLeft,
        Movement::Left,
        Movement::DownLeft,
    ];
    for (row, state) in states.into_iter().enumerate() {
        let b = frame_range(state).unwrap();
        assert_eq!(sheet_cell(b.first), (0, row));
        assert_eq!(sheet_cell(b.last), (3, row));
    }
}
