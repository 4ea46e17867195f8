use dragoon_flight::animation::{Animation, AnimationPlaybackState};
use dragoon_flight::timer::{Timer, TimerMode};

#[test]
fn repeating_timer_counts_every_completed_interval() {
    let mut t = Timer::new(100, TimerMode::Repeating);
    t.tick(250);
    assert_eq!(t.times_finished_this_tick, 2);
    assert_eq!(t.elapsed, 50);
    assert!(t.just_finished());
    assert!(t.finished());
    t.tick(10);
    assert_eq!(t.times_finished_this_tick, 0);
    assert!(!t.finished());
    assert_eq!(t.elapsed, 60);
}

#[test]
fn once_timer_stops_at_its_duration() {
    let mut t = Timer::new(100, TimerMode::Once);
    t.tick(60);
    assert!(!t.finished());
    t.tick(60);
    assert_eq!(t.elapsed, 100);
    assert!(t.finished());
    assert!(t.just_finished());
    t.tick(60);
    assert!(t.finished());
    assert!(!t.just_finished());
    assert_eq!(t.elapsed, 100);
}

#[test]
fn timer_saturates_on_huge_ticks() {
    let mut t = Timer::new(7, TimerMode::Repeating);
    t.tick(u64::MAX);
    assert_eq!(t.times_finished_this_tick, u64::MAX / 7);
    assert_eq!(t.elapsed, u64::MAX % 7);
}

#[test]
fn fade_opacity_follows_elapsed_time() {
    let mut t = Timer::new(400_000, TimerMode::Once);
    assert_eq!(t.remaining_millionths(), 1_000_000);
    t.tick(100_000);
    assert_eq!(t.remaining_millionths(), 750_000);
    t.tick(1_000_000);
    assert_eq!(t.remaining_millionths(), 0);
}

#[test]
fn empty_frame_list_gives_no_animation() {
    let a: Option<Animation<u32>> = Animation::new(Vec::new(), 50_000, AnimationPlaybackState::Playing);
    assert!(a.is_none());
}

#[test]
fn playing_animation_loops_over_its_frames() {
    let mut a = Animation::new(vec![10u32, 11, 12], 50_000, AnimationPlaybackState::Playing).unwrap();
    assert_eq!(*a.current_frame(), 10);
    for k in 1..=7usize {
        a.advance(50_000);
        assert_eq!(a.current_frame_index, k % 3);
    }
    assert_eq!(*a.current_frame(), 11);
}

#[test]
fn several_intervals_in_one_frame_advance_several_frames() {
    let mut a = Animation::new(vec!['a', 'b', 'c'], 100, AnimationPlaybackState::Playing).unwrap();
    a.advance(40);
    assert_eq!(a.current_frame_index, 0);
    a.advance(480);
    // 520 microseconds: five intervals.
    assert_eq!(a.current_frame_index, 2);
    assert_eq!(*a.current_frame(), 'c');
}

#[test]
fn paused_and_stopped_animations_keep_their_frame() {
    for state in [AnimationPlaybackState::Paused, AnimationPlaybackState::Stopped] {
        let mut a = Animation::new(vec![1u8, 2, 3], 10, state).unwrap();
        a.advance(10);
        a.advance(1_000);
        assert_eq!(a.current_frame_index, 0);
        assert_eq!(a.timer.elapsed, 0);
        assert_eq!(a.state, state);
    }
}

#[test]
fn zero_length_repeating_timer_completes_once_per_tick() {
    let mut t = Timer::new(0, TimerMode::Repeating);
    t.tick(0);
    assert_eq!(t.times_finished_this_tick, 1);
    t.tick(1_000);
    assert_eq!(t.times_finished_this_tick, 1);
    assert_eq!(t.elapsed, 0);
    let once = Timer::new(0, TimerMode::Once);
    assert!(once.finished());
    assert_eq!(once.remaining_millionths(), 0);
}

#[test]
fn zero_frame_time_advances_one_frame_per_tick() {
    let mut a = Animation::new(vec![1u8, 2, 3], 0, AnimationPlaybackState::Playing).unwrap();
    for k in 1..=4usize {
        a.advance(16_000);
        assert_eq!(a.current_frame_index, k % 3);
    }
}
