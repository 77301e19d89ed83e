use vstd::prelude::*;

verus! {

/// Full volume, in thousandths.
pub const FULL_VOLUME: u64 = 1000;

/// A request to change playback. The interface and the control bridge send
/// the same requests.
#[derive(Debug, Clone, Copy, PartialEq, Eq, Structural)]
pub enum Command {
    /// Play the track at this index of the catalog.
    Clicked(usize),
    /// Move to this fraction of the current track's duration, in
    /// thousandths; values above 1000 count as 1000.
    Seek(u64),
    /// Move to this position of the current track, in whole seconds.
    SeekByTime(u64),
    /// Set the volume, in thousandths; values outside `0..=1000` are clamped.
    Volume(i64),
    Next,
    Previous,
    Pause,
    Play,
    TogglePause,
}

/// One operation of the audio engine that the player drives.
#[derive(Debug, Clone, Copy, PartialEq, Eq, Structural)]
pub enum AdapterCall {
    /// Stop the track that is loaded.
    EndCurrent,
    /// Load and play the track at this index.
    PlayIndex(usize),
    Pause,
    Unpause,
    /// Move to this many whole seconds and thousandths of a second.
    SeekTo(u64, u64),
    /// Set the volume, in thousandths of full volume.
    SetVolume(u64),
}

/// Why a command was refused before any engine call was made.
#[derive(Debug, Clone, Copy, PartialEq, Eq, Structural)]
pub enum CommandError {
    /// The index names no track of the catalog.
    IndexOutOfRange,
    /// The command needs a loaded track and none is.
    NothingPlaying,
}

/// The playback state as mathematical values.
pub struct PlayerView {
    /// Number of tracks in the catalog.
    pub len: nat,
    /// Queue position of the loaded track (0 before any track was loaded).
    pub index: nat,
    /// Whether a track is loaded in the engine.
    pub loaded: bool,
    pub paused: bool,
    /// Volume in thousandths.
    pub volume: nat,
    /// Duration of the loaded track in whole seconds, as the engine last
    /// reported it.
    pub duration: nat,
}

/// The states that the player can be in.
pub open spec fn valid(s: PlayerView) -> bool {
    &&& s.len <= usize::MAX
    &&& s.index <= usize::MAX
    &&& s.loaded ==> s.index < s.len
    &&& s.volume <= FULL_VOLUME
    &&& s.duration <= u64::MAX
}

/// The position, in milliseconds, at `fraction` thousandths of a track of
/// `duration` whole seconds; fractions above 1000 count as 1000.
pub open spec fn fraction_position(fraction: u64, duration: nat) -> nat {
    let f: nat = if fraction > 1000 {
        1000
    } else {
        fraction as nat
    };
    f * duration
}

/// The volume that reaches the engine for a requested volume.
pub open spec fn clamp_volume(v: i64) -> u64 {
    if v < 0 {
        0
    } else if v > FULL_VOLUME {
        FULL_VOLUME
    } else {
        v as u64
    }
}

/// The queue position after the loaded one, wrapping to the start.
pub open spec fn next_index(s: PlayerView) -> nat {
    if s.index + 1 < s.len {
        s.index + 1
    } else {
        0
    }
}

/// The queue position before the loaded one, wrapping to the end.
pub open spec fn previous_index(s: PlayerView) -> nat {
    if s.index == 0 {
        (s.len - 1) as nat
    } else {
        (s.index - 1) as nat
    }
}

/// Stops the loaded track, if one is, then plays track `i`: two tracks never
/// sound at once.
pub open spec fn switch_to(s: PlayerView, i: nat) -> Seq<AdapterCall> {
    if s.loaded {
        seq![AdapterCall::EndCurrent, AdapterCall::PlayIndex(i as usize)]
    } else {
        seq![AdapterCall::PlayIndex(i as usize)]
    }
}

/// The engine calls that carry out a command, in order, or why it is refused.
pub open spec fn plan(s: PlayerView, c: Command) -> Result<Seq<AdapterCall>, CommandError> {
    match c {
        Command::Clicked(i) => if i < s.len {
            Ok(switch_to(s, i as nat))
        } else {
            Err(CommandError::IndexOutOfRange)
        },
        Command::Volume(v) => Ok(seq![AdapterCall::SetVolume(clamp_volume(v))]),
        _ => if !s.loaded {
            Err(CommandError::NothingPlaying)
        } else {
            match c {
                Command::Seek(fraction) => {
                    let ms = fraction_position(fraction, s.duration);
                    Ok(seq![AdapterCall::SeekTo((ms / 1000) as u64, (ms % 1000) as u64)])
                },
                Command::SeekByTime(secs) => Ok(seq![AdapterCall::SeekTo(secs, 0)]),
                Command::Next => Ok(switch_to(s, next_index(s))),
                Command::Previous => Ok(switch_to(s, previous_index(s))),
                Command::Pause => Ok(seq![AdapterCall::Pause]),
                Command::Play => Ok(seq![AdapterCall::Unpause]),
                _ => if s.paused {
                    Ok(seq![AdapterCall::Unpause])
                } else {
                    Ok(seq![AdapterCall::Pause])
                },
            }
        },
    }
}

/// The state after the engine carried out one call.
pub open spec fn after_call(s: PlayerView, call: AdapterCall) -> PlayerView {
    match call {
        AdapterCall::EndCurrent => PlayerView { loaded: false, ..s },
        AdapterCall::PlayIndex(i) => if i < s.len {
            PlayerView { index: i as nat, loaded: true, paused: false, ..s }
        } else {
            s
        },
        AdapterCall::Pause => PlayerView { paused: true, ..s },
        AdapterCall::Unpause => PlayerView { paused: false, ..s },
        AdapterCall::SeekTo(..) => s,
        AdapterCall::SetVolume(v) => PlayerView {
            volume: if v > FULL_VOLUME {
                FULL_VOLUME as nat
            } else {
                v as nat
            },
            ..s
        },
    }
}

/// The state after the engine carried out every call of `calls`.
pub open spec fn after_calls(s: PlayerView, calls: Seq<AdapterCall>) -> PlayerView
    decreases calls.len(),
{
    if calls.len() == 0 {
        s
    } else {
        after_call(after_calls(s, calls.drop_last()), calls.last())
    }
}

/// The queue position that a call announces to observers, if any.
pub open spec fn announced(s: PlayerView, call: AdapterCall) -> Option<usize> {
    match call {
        AdapterCall::PlayIndex(i) => if i < s.len {
            Some(i)
        } else {
            None
        },
        _ => None,
    }
}

/// The queue positions announced while the engine carries out `calls`.
pub open spec fn announcements(s: PlayerView, calls: Seq<AdapterCall>) -> Seq<usize>
    decreases calls.len(),
{
    if calls.len() == 0 {
        Seq::empty()
    } else {
        let before = announcements(s, calls.drop_last());
        match announced(after_calls(s, calls.drop_last()), calls.last()) {
            Some(i) => before.push(i),
            None => before,
        }
    }
}

/// The state after a command whose calls all succeeded; a refused command
/// leaves the state as it was.
pub open spec fn run_command(s: PlayerView, c: Command) -> PlayerView {
    match plan(s, c) {
        Ok(calls) => after_calls(s, calls),
        Err(_) => s,
    }
}

/// The calls that follow the natural end of the loaded track: the next track
/// in the queue starts.
pub open spec fn end_of_track(s: PlayerView) -> Seq<AdapterCall> {
    if s.loaded {
        seq![AdapterCall::PlayIndex(next_index(s) as usize)]
    } else {
        Seq::empty()
    }
}

/// The canonical playback state: which track of the queue is loaded, whether
/// it is paused, and the volume.
pub struct Player {
    len: usize,
    index: usize,
    loaded: bool,
    paused: bool,
    volume: u64,
    duration: u64,
}

impl View for Player {
    type V = PlayerView;

    closed spec fn view(&self) -> PlayerView {
        PlayerView {
            len: self.len as nat,
            index: self.index as nat,
            loaded: self.loaded,
            paused: self.paused,
            volume: self.volume as nat,
            duration: self.duration as nat,
        }
    }
}

impl Player {
    #[verifier::type_invariant]
    closed spec fn inv(self) -> bool {
        valid(self@)
    }

    /// A player over a catalog of `len` tracks, with nothing loaded yet, at
    /// full volume.
    pub fn new(len: usize) -> (r: Player)
        ensures
            r@ == (PlayerView {
                len: len as nat,
                index: 0,
                loaded: false,
                paused: false,
                volume: FULL_VOLUME as nat,
                duration: 0,
            }),
            valid(r@),
    {
        Player { len, index: 0, loaded: false, paused: false, volume: FULL_VOLUME, duration: 0 }
    }

    /// Every state that a player reaches is valid.
    pub fn is_valid(&self)
        ensures
            valid(self@),
    {
        proof {
            use_type_invariant(self);
        }
    }

    /// Takes note of the loaded track's duration, in whole seconds, as the
    /// engine reports it; seeks to a fraction are taken of it.
    pub fn set_duration(&mut self, duration: u64)
        ensures
            final(self)@ == (PlayerView { duration: duration as nat, ..old(self)@ }),
            valid(final(self)@),
    {
        proof {
            use_type_invariant(&*self);
        }
        self.duration = duration;
    }

    /// Takes the engine's own pause flag, so that a toggle goes by what the
    /// engine reports.
    pub fn set_paused(&mut self, paused: bool)
        ensures
            final(self)@ == (PlayerView { paused, ..old(self)@ }),
            valid(final(self)@),
    {
        proof {
            use_type_invariant(&*self);
        }
        self.paused = paused;
    }

    pub fn duration(&self) -> (r: u64)
        ensures
            r == self@.duration,
    {
        self.duration
    }

    pub fn len(&self) -> (r: usize)
        ensures
            r == self@.len,
    {
        self.len
    }

    pub fn index(&self) -> (r: usize)
        ensures
            r == self@.index,
    {
        self.index
    }

    pub fn is_loaded(&self) -> (r: bool)
        ensures
            r == self@.loaded,
    {
        self.loaded
    }

    pub fn is_paused(&self) -> (r: bool)
        ensures
            r == self@.paused,
    {
        self.paused
    }

    pub fn volume(&self) -> (r: u64)
        ensures
            r == self@.volume,
    {
        self.volume
    }

    /// The calls that would stop the loaded track, if any, and play track `i`.
    fn switch_to(&self, i: usize) -> (r: Vec<AdapterCall>)
        ensures
            r@ == switch_to(self@, i as nat),
    {
        if self.loaded {
            vec![AdapterCall::EndCurrent, AdapterCall::PlayIndex(i)]
        } else {
            vec![AdapterCall::PlayIndex(i)]
        }
    }

    /// Decides how a command is carried out: the engine calls to make, in
    /// order, or why the command is refused.
    pub fn parse_message(&self, message: &Command) -> (r: Result<Vec<AdapterCall>, CommandError>)
        ensures
            match r {
                Ok(calls) => plan(self@, *message) is Ok && calls@ =~= plan(self@, *message)->Ok_0,
                Err(e) => plan(self@, *message) == Err::<Seq<AdapterCall>, CommandError>(e),
            },
    {
        proof {
            use_type_invariant(self);
        }
        match *message {
            Command::Clicked(i) => {
                if i < self.len {
                    Ok(self.switch_to(i))
                } else {
                    Err(CommandError::IndexOutOfRange)
                }
            },
            Command::Volume(v) => {
                let clamped: u64 = if v < 0 {
                    0
                } else if v > FULL_VOLUME as i64 {
                    FULL_VOLUME
                } else {
                    v as u64
                };
                Ok(vec![AdapterCall::SetVolume(clamped)])
            },
            _ => {
                if !self.loaded {
                    return Err(CommandError::NothingPlaying);
                }
                match *message {
                    Command::Seek(fraction) => {
                        let f: u64 = if fraction > 1000 {
                            1000
                        } else {
                            fraction
                        };
                        assert(f * self.duration <= 1000 * u64::MAX) by (nonlinear_arith)
                            requires
                                f <= 1000,
                                self.duration <= u64::MAX,
                        ;
                        let ms: u128 = f as u128 * self.duration as u128;
                        assert(ms / 1000 <= u64::MAX) by (nonlinear_arith)
                            requires
                                ms == f * self.duration,
                                f <= 1000,
                                self.duration <= u64::MAX,
                        ;
                        Ok(vec![AdapterCall::SeekTo((ms / 1000) as u64, (ms % 1000) as u64)])
                    },
                    Command::SeekByTime(secs) => Ok(vec![AdapterCall::SeekTo(secs, 0)]),
                    Command::Next => Ok(self.switch_to(self.next_index())),
                    Command::Previous => {
                        let i: usize = if self.index == 0 {
                            self.len - 1
                        } else {
                            self.index - 1
                        };
                        Ok(self.switch_to(i))
                    },
                    Command::Pause => Ok(vec![AdapterCall::Pause]),
                    Command::Play => Ok(vec![AdapterCall::Unpause]),
                    _ => {
                        if self.paused {
                            Ok(vec![AdapterCall::Unpause])
                        } else {
                            Ok(vec![AdapterCall::Pause])
                        }
                    },
                }
            },
        }
    }

    fn next_index(&self) -> (r: usize)
        requires
            self@.loaded,
        ensures
            r == next_index(self@),
    {
        proof {
            use_type_invariant(self);
        }
        if self.index + 1 < self.len {
            self.index + 1
        } else {
            0
        }
    }

    /// The calls to make when the engine reports that the loaded track ended
    /// by itself: the next track of the queue starts.
    pub fn play_next(&self) -> (r: Vec<AdapterCall>)
        ensures
            r@ == end_of_track(self@),
    {
        if self.loaded {
            vec![AdapterCall::PlayIndex(self.next_index())]
        } else {
            Vec::new()
        }
    }

    /// Takes note of a call that the engine carried out, and returns the
    /// queue position to announce to observers, if the call changed track.
    pub fn record(&mut self, call: &AdapterCall) -> (r: Option<usize>)
        ensures
            final(self)@ == after_call(old(self)@, *call),
            r == announced(old(self)@, *call),
            valid(final(self)@),
    {
        proof {
            use_type_invariant(&*self);
        }
        match *call {
            AdapterCall::EndCurrent => {
                self.loaded = false;
                None
            },
            AdapterCall::PlayIndex(i) => {
                if i < self.len {
                    self.index = i;
                    self.loaded = true;
                    self.paused = false;
                    Some(i)
                } else {
                    None
                }
            },
            AdapterCall::Pause => {
                self.paused = true;
                None
            },
            AdapterCall::Unpause => {
                self.paused = false;
                None
            },
            AdapterCall::SeekTo(..) => None,
            AdapterCall::SetVolume(v) => {
                self.volume = if v > FULL_VOLUME {
                    FULL_VOLUME
                } else {
                    v
                };
                None
            },
        }
    }
}

} // verus!

verus! {

/// What one or two successful calls do, step by step.
proof fn lemma_unfold_calls(s: PlayerView, a: AdapterCall, b: AdapterCall)
    ensures
        after_calls(s, Seq::empty()) == s,
        announcements(s, Seq::empty()) == Seq::<usize>::empty(),
        after_calls(s, seq![a]) == after_call(s, a),
        announcements(s, seq![a]) == match announced(s, a) {
            Some(i) => seq![i],
            None => Seq::<usize>::empty(),
        },
        after_calls(s, seq![a, b]) == after_call(after_call(s, a), b),
        announcements(s, seq![a, b]) == match announced(after_call(s, a), b) {
            Some(i) => announcements(s, seq![a]).push(i),
            None => announcements(s, seq![a]),
        },
{
    assert(seq![a].drop_last() =~= Seq::<AdapterCall>::empty());
    assert(seq![a, b].drop_last() =~= seq![a]);
    assert(announcements(s, Seq::empty()) == Seq::<usize>::empty());
    assert(after_calls(s, Seq::empty()) == s);
    assert(seq![a].last() == a);
    assert(seq![a, b].last() == b);
    assert(after_calls(s, seq![a]) == after_call(s, a));
    assert(after_calls(s, seq![a, b]) == after_call(after_calls(s, seq![a]), b));
    match announced(s, a) {
        Some(i) => assert(Seq::<usize>::empty().push(i) =~= seq![i]),
        None => {},
    }
}

/// Selecting any track of the catalog announces exactly that track, once,
/// and leaves it loaded and playing.
pub proof fn lemma_select_announces_once(s: PlayerView, i: usize)
    requires
        valid(s),
        i < s.len,
    ensures
        plan(s, Command::Clicked(i)) is Ok,
        announcements(s, plan(s, Command::Clicked(i))->Ok_0) == seq![i],
        run_command(s, Command::Clicked(i)).index == i,
        run_command(s, Command::Clicked(i)).loaded,
        !run_command(s, Command::Clicked(i)).paused,
        valid(run_command(s, Command::Clicked(i))),
{
    lemma_unfold_calls(s, AdapterCall::EndCurrent, AdapterCall::PlayIndex(i));
    lemma_unfold_calls(s, AdapterCall::PlayIndex(i), AdapterCall::PlayIndex(i));
    assert(seq![i] =~= Seq::<usize>::empty().push(i));
}

/// A volume below zero reaches the engine as zero, one above full volume as
/// full volume, and one in between unchanged.
pub proof fn lemma_volume_clamped(s: PlayerView, v: i64)
    requires
        valid(s),
    ensures
        plan(s, Command::Volume(v)) == plan(s, Command::Volume(clamp_volume(v) as i64)),
        v < 0 ==> plan(s, Command::Volume(v)) == plan(s, Command::Volume(0)),
        v > FULL_VOLUME ==> plan(s, Command::Volume(v)) == plan(
            s,
            Command::Volume(FULL_VOLUME as i64),
        ),
        0 <= v <= FULL_VOLUME ==> plan(s, Command::Volume(v)) == Ok::<
            Seq<AdapterCall>,
            CommandError,
        >(seq![AdapterCall::SetVolume(v as u64)]),
        run_command(s, Command::Volume(v)).volume == clamp_volume(v),
        valid(run_command(s, Command::Volume(v))),
{
    let a = AdapterCall::SetVolume(clamp_volume(v));
    lemma_unfold_calls(s, a, a);
}

/// Each natural end of the loaded track moves the queue on by exactly one
/// position, announced once: two ends in a row, with no command between them,
/// move it on by two.
pub proof fn lemma_end_of_track_advances(s: PlayerView)
    requires
        valid(s),
        s.loaded,
    ensures
        ({
            let s1 = after_calls(s, end_of_track(s));
            let s2 = after_calls(s1, end_of_track(s1));
            &&& s1.loaded && valid(s1)
            &&& s1.index as int == (s.index as int + 1) % (s.len as int)
            &&& announcements(s, end_of_track(s)) == seq![s1.index as usize]
            &&& s2.loaded && valid(s2)
            &&& s2.index as int == (s.index as int + 2) % (s.len as int)
            &&& announcements(s1, end_of_track(s1)) == seq![s2.index as usize]
            &&& s.len > 1 ==> s1.index != s.index
        }),
{
    let a = AdapterCall::PlayIndex(next_index(s) as usize);
    lemma_unfold_calls(s, a, a);
    let s1 = after_call(s, a);
    let b = AdapterCall::PlayIndex(next_index(s1) as usize);
    lemma_unfold_calls(s1, b, b);
    assert(seq![next_index(s) as usize] =~= Seq::<usize>::empty().push(next_index(s) as usize));
    assert(seq![next_index(s1) as usize] =~= Seq::<usize>::empty().push(
        next_index(s1) as usize,
    ));
    let n = s.len as int;
    let k = s.index as int;
    if k + 1 < n {
        assert((k + 1) % n == k + 1) by (nonlinear_arith)
            requires
                0 <= k + 1 < n,
        ;
        if k + 2 < n {
            assert((k + 2) % n == k + 2) by (nonlinear_arith)
                requires
                    0 <= k + 2 < n,
            ;
        } else {
            assert((k + 2) % n == 0) by (nonlinear_arith)
                requires
                    k + 2 == n,
                    n > 0,
            ;
        }
    } else {
        assert((k + 1) % n == 0) by (nonlinear_arith)
            requires
                k + 1 == n,
                n > 0,
        ;
        if 1 < n {
            assert((k + 2) % n == 1) by (nonlinear_arith)
                requires
                    k + 1 == n,
                    n > 1,
            ;
        } else {
            assert((k + 2) % n == 0) by (nonlinear_arith)
                requires
                    n == 1,
            ;
        }
    }
}

/// Pausing twice has the effect of pausing once: the player stays paused
/// whether the engine carries out the second pause or refuses it, since a
/// refused call changes nothing.
pub proof fn lemma_pause_idempotent(s: PlayerView)
    requires
        valid(s),
        s.loaded,
    ensures
        run_command(s, Command::Pause).paused,
        plan(run_command(s, Command::Pause), Command::Pause) == Ok::<
            Seq<AdapterCall>,
            CommandError,
        >(seq![AdapterCall::Pause]),
        run_command(run_command(s, Command::Pause), Command::Pause) == run_command(
            s,
            Command::Pause,
        ),
{
    lemma_unfold_calls(s, AdapterCall::Pause, AdapterCall::Pause);
    let s1 = run_command(s, Command::Pause);
    lemma_unfold_calls(s1, AdapterCall::Pause, AdapterCall::Pause);
}

} // verus!
