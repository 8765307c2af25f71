use tunedeck::{Action, AudioOutput, NoOutput, Player, Track};

fn test_player() -> Player<NoOutput> {
    Player::new(NoOutput::new())
}

fn volume_level(player: &Player<NoOutput>) -> f32 {
    player.volume() as f32 / 100.0
}

/// An output that records what it is asked to do and plays whatever it is
/// given until stopped.
#[derive(Default)]
struct RecordingOutput {
    playing: Option<String>,
    active_streams: usize,
    loads: Vec<String>,
    volume: Option<u8>,
    refuse: bool,
}

impl AudioOutput for RecordingOutput {
    fn stop(&mut self) {
        self.playing = None;
        self.active_streams = 0;
    }

    fn load(&mut self, name: &String, _ext: &String) -> bool {
        self.playing = None;
        self.active_streams = 0;
        if self.refuse {
            return false;
        }
        self.loads.push(name.clone());
        self.playing = Some(name.clone());
        self.active_streams += 1;
        true
    }

    fn set_volume(&mut self, percent: u8) {
        self.volume = Some(percent);
    }

    fn is_running(&self) -> bool {
        self.playing.is_some()
    }
}

fn track(name: &str, secs: u64) -> Track {
    Track::new(name.to_string(), "mp3".to_string(), secs)
}

#[test]
fn test_volume_up() {
    let mut player = test_player();
    let initial_volume = volume_level(&player);

    player.update(&Action::VolumeUp, 0);
    assert!(volume_level(&player) > initial_volume, "Volume should increase");
    assert!(volume_level(&player) <= 1.0, "Volume should not exceed 1.0");

    player.set_volume(98);
    player.update(&Action::VolumeUp, 0);
    player.update(&Action::VolumeUp, 0);
    assert_eq!(volume_level(&player), 1.0, "Volume should be capped at 1.0");
}

#[test]
fn test_volume_down() {
    let mut player = test_player();
    let initial_volume = volume_level(&player);

    player.update(&Action::VolumeDown, 0);
    assert!(volume_level(&player) < initial_volume, "Volume should decrease");
    assert!(volume_level(&player) >= 0.0, "Volume should not be less than 0.0");

    player.set_volume(2);
    player.update(&Action::VolumeDown, 0);
    player.update(&Action::VolumeDown, 0);
    assert_eq!(volume_level(&player), 0.0, "Volume should be capped at 0.0");
}

#[test]
fn test_volume_step() {
    let mut player = test_player();
    player.set_volume(50);
    player.update(&Action::VolumeUp, 0);
    assert_eq!(volume_level(&player), 0.55, "Volume should increase by 0.05");

    player.update(&Action::VolumeDown, 0);
    player.update(&Action::VolumeDown, 0);
    assert_eq!(volume_level(&player), 0.45, "Volume should decrease by 0.05 twice");
}

#[test]
fn new_player_is_idle_at_half_volume() {
    let player = test_player();
    assert_eq!(player.volume(), 50);
    assert_eq!(player.position_ms(), 0);
    assert_eq!(player.duration_ms(), 0);
    assert!(!player.is_finished());
    assert!(player.current_track().is_none());
}

#[test]
fn volume_stays_in_range_over_many_steps() {
    let mut player = test_player();
    for _ in 0..30 {
        player.change_volume(true);
        assert!(player.volume() <= 100);
    }
    assert_eq!(player.volume(), 100);
    for _ in 0..30 {
        player.change_volume(false);
    }
    assert_eq!(player.volume(), 0);
    player.set_volume(250);
    assert_eq!(player.volume(), 100);
}

#[test]
fn volume_is_applied_to_the_output() {
    let mut player = Player::new(RecordingOutput::default());
    player.change_volume(true);
    assert_eq!(player.output().volume, Some(55));
    player.play_sample(&track("a", 10), 0);
    assert_eq!(player.volume(), 55);
}

#[test]
fn ticks_move_position_up_to_duration_and_finish_once() {
    let mut player = Player::new(RecordingOutput::default());
    assert!(player.play_sample(&track("a", 2), 1_000));
    assert_eq!(player.duration_ms(), 2_000);
    let mut last = 0;
    let mut turned_finished = 0;
    let mut was_finished = false;
    for k in 1..=20u64 {
        player.tick(1_000 + 250 * k);
        let pos = player.position_ms();
        assert!(pos >= last, "position never goes back");
        assert!(pos <= player.duration_ms(), "position never passes the duration");
        if player.is_finished() && !was_finished {
            turned_finished += 1;
            assert_eq!(pos, 2_000);
            assert_eq!(k, 8);
        }
        was_finished = player.is_finished();
        last = pos;
    }
    assert_eq!(turned_finished, 1);
    assert_eq!(player.position_ms(), 2_000);
}

#[test]
fn tick_without_running_stream_keeps_position() {
    let mut player = test_player();
    player.apply_play(&track("a", 10), true, 0);
    player.apply_tick(4_000, true);
    assert_eq!(player.position_ms(), 4_000);
    assert!(!player.tick(6_000));
    assert_eq!(player.position_ms(), 4_000);
    player.apply_tick(20_000, true);
    assert_eq!(player.position_ms(), 10_000);
    assert!(player.is_finished());
}

#[test]
fn zero_duration_never_finishes() {
    let mut player = test_player();
    player.apply_play(&track("silence", 0), true, 0);
    player.apply_tick(5_000, true);
    assert_eq!(player.position_ms(), 0);
    assert!(!player.is_finished());
}

#[test]
fn second_play_replaces_the_first() {
    let mut player = Player::new(RecordingOutput::default());
    assert!(player.play_sample(&track("a", 30), 0));
    player.tick(5_000);
    assert_eq!(player.position_ms(), 5_000);
    assert!(player.play_sample(&track("b", 12), 6_000));
    assert_eq!(player.position_ms(), 0);
    assert_eq!(player.duration_ms(), 12_000);
    assert!(!player.is_finished());
    assert_eq!(player.current_track().unwrap().name, "b");
    player.tick(7_000);
    assert_eq!(player.position_ms(), 1_000);
}

#[test]
fn play_keeps_exactly_one_stream() {
    let mut player = Player::new(RecordingOutput::default());
    player.play_sample(&track("a", 30), 0);
    player.play_sample(&track("b", 30), 10);
    assert_eq!(player.current_track().unwrap().name, "b");
    assert_eq!(player.output().active_streams, 1);
    assert_eq!(player.output().loads, vec!["a".to_string(), "b".to_string()]);
    assert_eq!(player.output().playing.as_deref(), Some("b"));
    assert_eq!(player.output().volume, Some(player.volume()));
}

#[test]
fn new_stream_plays_at_player_volume() {
    let mut player = Player::new(RecordingOutput::default());
    assert_eq!(player.output().volume, Some(50));
    player.set_volume(80);
    player.play_sample(&track("a", 30), 0);
    assert_eq!(player.output().volume, Some(80));
    player.stop();
    assert!(player.output().playing.is_none());
    assert_eq!(player.output().volume, Some(80));
}

#[test]
fn refused_open_reports_failure() {
    let mut player = Player::new(RecordingOutput { refuse: true, ..Default::default() });
    assert!(!player.play_sample(&track("a", 30), 0));
    assert!(player.current_track().is_none());
    assert_eq!(player.output().active_streams, 0);
    player.set_volume(70);
    assert_eq!(player.output().volume, Some(70));
}

#[test]
fn failed_open_leaves_state_unchanged() {
    let mut player = test_player();
    player.apply_play(&track("a", 10), true, 0);
    player.apply_tick(3_000, true);
    assert!(!player.play_sample(&track("b", 99), 4_000));
    assert_eq!(player.current_track().unwrap().name, "a");
    assert_eq!(player.position_ms(), 3_000);
    assert_eq!(player.duration_ms(), 10_000);
}

#[test]
fn stop_rewinds_and_keeps_track() {
    let mut player = test_player();
    player.apply_play(&track("a", 10), true, 0);
    player.apply_tick(3_000, true);
    player.stop();
    assert_eq!(player.position_ms(), 0);
    assert_eq!(player.duration_ms(), 10_000);
    assert_eq!(player.current_track().unwrap().name, "a");
    player.apply_tick(9_000, true);
    assert_eq!(player.position_ms(), 0);
}

#[test]
fn volume_survives_track_change() {
    let mut player = test_player();
    player.change_volume(false);
    player.apply_play(&track("a", 10), true, 0);
    assert_eq!(player.volume(), 45);
}

#[test]
fn huge_duration_saturates() {
    let mut player = test_player();
    player.apply_play(&track("long", u64::MAX), true, 0);
    assert_eq!(player.duration_ms(), u64::MAX);
}
