use crate::player::Command;
use vstd::prelude::*;

verus! {

/// A request that arrives through the desktop media-control interface.
#[derive(Debug, Clone, Copy, PartialEq, Eq, Structural)]
pub enum BridgeCall {
    Raise,
    Quit,
    SetFullscreen(bool),
    Next,
    Previous,
    Pause,
    PlayPause,
    Stop,
    Play,
    /// Move by this offset from the current position, in microseconds.
    Seek(i64),
    /// Move to this position of the current track, in microseconds.
    SetPosition(i64),
    OpenUri,
    SetLoopStatus,
    SetRate,
    SetShuffle(bool),
    /// Set the volume, in thousandths of full volume.
    SetVolume(i64),
}

/// How the bridge answers a request.
#[derive(Debug, Clone, Copy, PartialEq, Eq, Structural)]
pub enum BridgeReply {
    /// Forward this command to the player, on the channel the interface uses.
    Send(Command),
    /// Accept the request and do nothing.
    Ignore,
    /// Refuse the request as not supported.
    Unsupported,
}

/// The answer to each request. Transport requests become the player's own
/// commands. A relative seek needs the current position, which the bridge
/// cannot read back, so it is refused; so are stopping, opening a URI and
/// shuffling. A position is taken in whole seconds; a negative one is
/// ignored, as the interface prescribes.
pub open spec fn reply_to(call: BridgeCall) -> BridgeReply {
    match call {
        BridgeCall::Next => BridgeReply::Send(Command::Next),
        BridgeCall::Previous => BridgeReply::Send(Command::Previous),
        BridgeCall::Pause => BridgeReply::Send(Command::Pause),
        BridgeCall::PlayPause => BridgeReply::Send(Command::TogglePause),
        BridgeCall::Play => BridgeReply::Send(Command::Play),
        BridgeCall::SetPosition(us) => if us < 0 {
            BridgeReply::Ignore
        } else {
            BridgeReply::Send(Command::SeekByTime((us / 1_000_000) as u64))
        },
        BridgeCall::SetVolume(v) => BridgeReply::Send(Command::Volume(v)),
        BridgeCall::Raise | BridgeCall::Quit | BridgeCall::SetFullscreen(_)
        | BridgeCall::SetLoopStatus | BridgeCall::SetRate => BridgeReply::Ignore,
        BridgeCall::Stop | BridgeCall::Seek(_) | BridgeCall::OpenUri
        | BridgeCall::SetShuffle(_) => BridgeReply::Unsupported,
    }
}

/// Decides how the bridge answers a request.
pub fn bridge_command(call: BridgeCall) -> (r: BridgeReply)
    ensures
        r == reply_to(call),
{
    match call {
        BridgeCall::Next => BridgeReply::Send(Command::Next),
        BridgeCall::Previous => BridgeReply::Send(Command::Previous),
        BridgeCall::Pause => BridgeReply::Send(Command::Pause),
        BridgeCall::PlayPause => BridgeReply::Send(Command::TogglePause),
        BridgeCall::Play => BridgeReply::Send(Command::Play),
        BridgeCall::SetPosition(us) => {
            if us < 0 {
                BridgeReply::Ignore
            } else {
                BridgeReply::Send(Command::SeekByTime((us / 1_000_000) as u64))
            }
        },
        BridgeCall::SetVolume(v) => BridgeReply::Send(Command::Volume(v)),
        BridgeCall::Raise | BridgeCall::Quit | BridgeCall::SetFullscreen(_)
        | BridgeCall::SetLoopStatus | BridgeCall::SetRate => BridgeReply::Ignore,
        BridgeCall::Stop | BridgeCall::Seek(_) | BridgeCall::OpenUri
        | BridgeCall::SetShuffle(_) => BridgeReply::Unsupported,
    }
}

} // verus!
