use n_player::player::{AdapterCall, Command, CommandError, Player};

/// Carries out a command with an engine whose every call succeeds, and
/// returns the queue positions announced on the way.
fn run(player: &mut Player, command: Command) -> Result<Vec<usize>, CommandError> {
    let calls = player.parse_message(&command)?;
    let mut announced = Vec::new();
    for call in calls.iter() {
        if let Some(i) = player.record(call) {
            announced.push(i);
        }
    }
    Ok(announced)
}

/// One tick in which the engine reports whether the track ended.
fn tick(player: &mut Player, ended: bool) -> Vec<usize> {
    let mut announced = Vec::new();
    if ended {
        for call in player.play_next().iter() {
            if let Some(i) = player.record(call) {
                announced.push(i);
            }
        }
    }
    announced
}

#[test]
fn new_player_is_idle_at_full_volume() {
    let p = Player::new(4);
    assert_eq!(p.len(), 4);
    assert_eq!(p.index(), 0);
    assert!(!p.is_loaded());
    assert!(!p.is_paused());
    assert_eq!(p.volume(), 1000);
}

#[test]
fn select_announces_the_index_once() {
    for i in 0..5 {
        let mut p = Player::new(5);
        assert_eq!(run(&mut p, Command::Clicked(i)), Ok(vec![i]));
        assert_eq!(tick(&mut p, false), Vec::<usize>::new());
        assert_eq!(p.index(), i);
        assert!(p.is_loaded());
    }
    let mut p = Player::new(5);
    run(&mut p, Command::Clicked(4)).unwrap();
    for i in 0..5 {
        assert_eq!(run(&mut p, Command::Clicked(i)), Ok(vec![i]));
        assert_eq!(p.index(), i);
    }
}

#[test]
fn select_stops_the_loaded_track_first() {
    let mut p = Player::new(3);
    assert_eq!(
        p.parse_message(&Command::Clicked(2)),
        Ok(vec![AdapterCall::PlayIndex(2)])
    );
    run(&mut p, Command::Clicked(2)).unwrap();
    assert_eq!(
        p.parse_message(&Command::Clicked(0)),
        Ok(vec![AdapterCall::EndCurrent, AdapterCall::PlayIndex(0)])
    );
}

#[test]
fn select_out_of_range_is_refused() {
    let mut p = Player::new(5);
    assert_eq!(
        p.parse_message(&Command::Clicked(5)),
        Err(CommandError::IndexOutOfRange)
    );
    let mut empty = Player::new(0);
    assert_eq!(
        run(&mut empty, Command::Clicked(0)),
        Err(CommandError::IndexOutOfRange)
    );
    assert_eq!(p.index(), 0);
    assert!(!p.is_loaded());
    p = Player::new(1);
    assert_eq!(run(&mut p, Command::Clicked(0)), Ok(vec![0]));
}

#[test]
fn volume_is_clamped() {
    let p = Player::new(2);
    assert_eq!(
        p.parse_message(&Command::Volume(-500)),
        p.parse_message(&Command::Volume(0))
    );
    assert_eq!(
        p.parse_message(&Command::Volume(-500)),
        Ok(vec![AdapterCall::SetVolume(0)])
    );
    assert_eq!(
        p.parse_message(&Command::Volume(1500)),
        Ok(vec![AdapterCall::SetVolume(1000)])
    );
    assert_eq!(
        p.parse_message(&Command::Volume(250)),
        Ok(vec![AdapterCall::SetVolume(250)])
    );
    let mut p = Player::new(2);
    run(&mut p, Command::Volume(1500)).unwrap();
    assert_eq!(p.volume(), 1000);
    run(&mut p, Command::Volume(-1)).unwrap();
    assert_eq!(p.volume(), 0);
}

#[test]
fn end_of_track_advances_once_per_signal() {
    let mut p = Player::new(3);
    run(&mut p, Command::Clicked(1)).unwrap();
    assert_eq!(tick(&mut p, true), vec![2]);
    assert_eq!(p.index(), 2);
    assert_eq!(tick(&mut p, true), vec![0]);
    assert_eq!(p.index(), 0);
    assert_eq!(tick(&mut p, false), Vec::<usize>::new());
    assert_eq!(p.index(), 0);
}

#[test]
fn end_of_track_without_a_loaded_track_does_nothing() {
    let p = Player::new(3);
    assert!(p.play_next().is_empty());
}

#[test]
fn replay_select_pause_resume_next() {
    let mut p = Player::new(5);
    for c in [Command::Clicked(2), Command::Pause, Command::Play, Command::Next] {
        run(&mut p, c).unwrap();
    }
    assert_eq!(p.index(), 3);
    assert!(!p.is_paused());
}

#[test]
fn pause_twice_keeps_paused() {
    let mut p = Player::new(3);
    run(&mut p, Command::Clicked(0)).unwrap();
    assert_eq!(p.parse_message(&Command::Pause), Ok(vec![AdapterCall::Pause]));
    run(&mut p, Command::Pause).unwrap();
    assert!(p.is_paused());
    assert_eq!(p.parse_message(&Command::Pause), Ok(vec![AdapterCall::Pause]));
    run(&mut p, Command::Pause).unwrap();
    assert!(p.is_paused());
}

#[test]
fn refused_second_pause_keeps_paused() {
    let mut p = Player::new(3);
    run(&mut p, Command::Clicked(0)).unwrap();
    run(&mut p, Command::Pause).unwrap();
    // The engine refuses the redundant pause: nothing is recorded.
    let calls = p.parse_message(&Command::Pause).unwrap();
    assert_eq!(calls, vec![AdapterCall::Pause]);
    assert!(p.is_paused());
    assert_eq!(p.index(), 0);
}

#[test]
fn play_on_a_playing_track_unpauses_once() {
    let mut p = Player::new(3);
    run(&mut p, Command::Clicked(1)).unwrap();
    assert_eq!(p.parse_message(&Command::Play), Ok(vec![AdapterCall::Unpause]));
    assert_eq!(run(&mut p, Command::Play), Ok(vec![]));
    assert!(!p.is_paused());
    assert_eq!(p.index(), 1);
}

#[test]
fn transport_needs_a_loaded_track() {
    let p = Player::new(3);
    for c in [
        Command::Pause,
        Command::Play,
        Command::TogglePause,
        Command::Next,
        Command::Previous,
        Command::Seek(1000),
        Command::SeekByTime(3),
    ] {
        assert_eq!(p.parse_message(&c), Err(CommandError::NothingPlaying));
    }
}

#[test]
fn toggle_pause_switches() {
    let mut p = Player::new(2);
    run(&mut p, Command::Clicked(1)).unwrap();
    assert_eq!(
        p.parse_message(&Command::TogglePause),
        Ok(vec![AdapterCall::Pause])
    );
    run(&mut p, Command::TogglePause).unwrap();
    assert!(p.is_paused());
    assert_eq!(
        p.parse_message(&Command::TogglePause),
        Ok(vec![AdapterCall::Unpause])
    );
    run(&mut p, Command::TogglePause).unwrap();
    assert!(!p.is_paused());
    assert_eq!(p.parse_message(&Command::Play), Ok(vec![AdapterCall::Unpause]));
}

#[test]
fn next_and_previous_wrap() {
    let mut p = Player::new(3);
    run(&mut p, Command::Clicked(0)).unwrap();
    assert_eq!(run(&mut p, Command::Previous), Ok(vec![2]));
    assert_eq!(run(&mut p, Command::Next), Ok(vec![0]));
    assert_eq!(run(&mut p, Command::Next), Ok(vec![1]));
    assert_eq!(run(&mut p, Command::Previous), Ok(vec![0]));
}

#[test]
fn seeks_split_seconds() {
    let mut p = Player::new(1);
    run(&mut p, Command::Clicked(0)).unwrap();
    assert_eq!(
        p.parse_message(&Command::Seek(500)),
        Ok(vec![AdapterCall::SeekTo(0, 0)])
    );
    p.set_duration(200);
    assert_eq!(p.duration(), 200);
    assert_eq!(
        p.parse_message(&Command::Seek(500)),
        Ok(vec![AdapterCall::SeekTo(100, 0)])
    );
    assert_eq!(
        p.parse_message(&Command::Seek(333)),
        Ok(vec![AdapterCall::SeekTo(66, 600)])
    );
    assert_eq!(
        p.parse_message(&Command::Seek(1500)),
        Ok(vec![AdapterCall::SeekTo(200, 0)])
    );
    p.set_duration(u64::MAX);
    assert_eq!(
        p.parse_message(&Command::Seek(1000)),
        Ok(vec![AdapterCall::SeekTo(u64::MAX, 0)])
    );
    assert_eq!(
        p.parse_message(&Command::SeekByTime(7)),
        Ok(vec![AdapterCall::SeekTo(7, 0)])
    );
}

#[test]
fn failed_switch_leaves_nothing_loaded() {
    let mut p = Player::new(3);
    run(&mut p, Command::Clicked(1)).unwrap();
    let calls = p.parse_message(&Command::Next).unwrap();
    assert_eq!(calls[0], AdapterCall::EndCurrent);
    assert_eq!(p.record(&calls[0]), None);
    assert!(!p.is_loaded());
    assert_eq!(p.index(), 1);
}

#[test]
fn toggle_follows_the_engine_pause_flag() {
    let mut p = Player::new(2);
    run(&mut p, Command::Clicked(0)).unwrap();
    p.set_paused(true);
    assert!(p.is_paused());
    assert_eq!(p.parse_message(&Command::TogglePause), Ok(vec![AdapterCall::Unpause]));
    p.set_paused(false);
    assert_eq!(p.parse_message(&Command::TogglePause), Ok(vec![AdapterCall::Pause]));
}
