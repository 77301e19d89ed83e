use n_player::bridge::{bridge_command, BridgeCall, BridgeReply};
use n_player::player::Command;

#[test]
fn transport_calls_become_commands() {
    assert_eq!(bridge_command(BridgeCall::Next), BridgeReply::Send(Command::Next));
    assert_eq!(bridge_command(BridgeCall::Previous), BridgeReply::Send(Command::Previous));
    assert_eq!(bridge_command(BridgeCall::Pause), BridgeReply::Send(Command::Pause));
    assert_eq!(bridge_command(BridgeCall::PlayPause), BridgeReply::Send(Command::TogglePause));
    assert_eq!(bridge_command(BridgeCall::Play), BridgeReply::Send(Command::Play));
}

#[test]
fn position_and_volume_become_commands() {
    assert_eq!(
        bridge_command(BridgeCall::SetPosition(12_345_678)),
        BridgeReply::Send(Command::SeekByTime(12))
    );
    assert_eq!(bridge_command(BridgeCall::SetPosition(-1)), BridgeReply::Ignore);
    assert_eq!(
        bridge_command(BridgeCall::SetVolume(-500)),
        BridgeReply::Send(Command::Volume(-500))
    );
}

#[test]
fn other_calls_are_ignored_or_unsupported() {
    assert_eq!(bridge_command(BridgeCall::Raise), BridgeReply::Ignore);
    assert_eq!(bridge_command(BridgeCall::Quit), BridgeReply::Ignore);
    assert_eq!(bridge_command(BridgeCall::SetFullscreen(true)), BridgeReply::Ignore);
    assert_eq!(bridge_command(BridgeCall::SetLoopStatus), BridgeReply::Ignore);
    assert_eq!(bridge_command(BridgeCall::SetRate), BridgeReply::Ignore);
    assert_eq!(bridge_command(BridgeCall::Stop), BridgeReply::Unsupported);
    assert_eq!(bridge_command(BridgeCall::Seek(5)), BridgeReply::Unsupported);
    assert_eq!(bridge_command(BridgeCall::OpenUri), BridgeReply::Unsupported);
    assert_eq!(bridge_command(BridgeCall::SetShuffle(true)), BridgeReply::Unsupported);
}
