use crate::clock::{clock, format_clock};
use crate::track::{apply_facts, last_duration, FileTracks, LoaderMessage, TrackModel};
use vstd::prelude::*;

verus! {

/// What an observer of the player shows: the catalog with its metadata, the
/// current track and the times of the playback.
pub struct NowPlaying {
    pub tracks: FileTracks,
    /// Index of the current track.
    pub current: usize,
    /// Duration of the current track, in whole seconds.
    pub track_duration: u64,
    /// Number of metadata batches received.
    pub loaded_info: u64,
    pub current_name: String,
    /// Elapsed time of the current track, as `mm:ss`.
    pub formatted_ts: String,
    /// Duration of the current track, as `mm:ss`.
    pub formatted_dur: String,
}

impl NowPlaying {
    /// Nothing known yet: an empty catalog and empty texts.
    pub fn new() -> (r: NowPlaying)
        ensures
            r.tracks@.len() == 0,
            r.current == 0,
            r.track_duration == 0,
            r.loaded_info == 0,
            r.current_name@.len() == 0,
            r.formatted_ts@.len() == 0,
            r.formatted_dur@.len() == 0,
    {
        NowPlaying {
            tracks: FileTracks { tracks: Vec::new() },
            current: 0,
            track_duration: 0,
            loaded_info: 0,
            current_name: String::new(),
            formatted_ts: String::new(),
            formatted_dur: String::new(),
        }
    }

    /// Takes the catalog that the player announced at start.
    pub fn on_init_tracks(&mut self, tracks: FileTracks)
        ensures
            final(self).tracks@ == tracks@,
            final(self).current == old(self).current,
            final(self).track_duration == old(self).track_duration,
            final(self).loaded_info == old(self).loaded_info,
    {
        self.tracks = tracks;
    }

    /// Applies a batch of metadata facts to the catalog; a duration for the
    /// current track also becomes the duration shown.
    pub fn on_loaded(&mut self, msgs: &Vec<LoaderMessage>)
        ensures
            final(self).tracks@ == apply_facts(old(self).tracks@, msgs@),
            final(self).track_duration == last_duration(
                msgs@,
                old(self).current,
                old(self).track_duration,
            ),
            final(self).loaded_info == if old(self).loaded_info < u64::MAX {
                old(self).loaded_info + 1
            } else {
                old(self).loaded_info as int
            },
            final(self).current == old(self).current,
            final(self).current_name == old(self).current_name,
    {
        let ghost start = self.tracks@;
        let ghost start_duration = self.track_duration;
        let mut k: usize = 0;
        while k < msgs.len()
            invariant
                k <= msgs.len(),
                self.current == old(self).current,
                self.loaded_info == old(self).loaded_info,
                self.current_name == old(self).current_name,
                start == old(self).tracks@,
                start_duration == old(self).track_duration,
                self.tracks@ == apply_facts(start, msgs@.subrange(0, k as int)),
                self.track_duration == last_duration(
                    msgs@.subrange(0, k as int),
                    self.current,
                    start_duration,
                ),
            decreases msgs.len() - k,
        {
            self.tracks.apply_fact(&msgs[k]);
            if let LoaderMessage::Duration(i, d) = &msgs[k] {
                if *i == self.current {
                    self.track_duration = *d;
                }
            }
            assert(msgs@.subrange(0, k + 1).drop_last() =~= msgs@.subrange(0, k as int));
            k += 1;
        }
        assert(msgs@.subrange(0, msgs.len() as int) =~= msgs@);
        if self.loaded_info < u64::MAX {
            self.loaded_info = self.loaded_info + 1;
        }
    }

    /// Makes track `i` the current one: its flag is the only one set, and
    /// its name and duration are shown. An index outside the catalog changes
    /// nothing and gives `false`.
    pub fn on_current_updated(&mut self, i: usize) -> (r: bool)
        ensures
            r == (i < old(self).tracks@.len()),
            !r ==> *final(self) == *old(self),
            r ==> {
                &&& final(self).current == i
                &&& final(self).tracks@.len() == old(self).tracks@.len()
                &&& forall|j: int|
                    0 <= j < old(self).tracks@.len() ==> (#[trigger] final(self).tracks@[j]) == (
                    TrackModel { current: j == i, ..old(self).tracks@[j] })
                &&& final(self).track_duration == old(self).tracks@[i as int].duration
                &&& final(self).formatted_dur@ == clock(
                    old(self).tracks@[i as int].duration as nat,
                )
                &&& final(self).current_name@ == old(self).tracks@[i as int].name
                &&& final(self).loaded_info == old(self).loaded_info
            },
    {
        if i >= self.tracks.tracks.len() {
            return false;
        }
        let ghost before = self.tracks@;
        self.tracks.set_current(i);
        assert(self.tracks@[i as int] == self.tracks.tracks@[i as int]@);
        assert(self.tracks@[i as int] == (TrackModel { current: true, ..before[i as int] }));
        self.current = i;
        self.track_duration = self.tracks.tracks[i].duration;
        self.formatted_dur = format_clock(self.track_duration);
        self.current_name = self.tracks.tracks[i].name.clone();
        true
    }

    /// Shows the elapsed time and duration that the player reported.
    pub fn on_time_update(&mut self, ts_secs: u64, dur_secs: u64)
        ensures
            final(self).track_duration == dur_secs,
            final(self).formatted_dur@ == clock(dur_secs as nat),
            final(self).formatted_ts@ == clock(ts_secs as nat),
            final(self).tracks@ == old(self).tracks@,
            final(self).current == old(self).current,
    {
        self.track_duration = dur_secs;
        self.formatted_dur = format_clock(dur_secs);
        self.formatted_ts = format_clock(ts_secs);
    }

    /// The window title: the player's name and the current track's.
    pub fn title(&self) -> (r: String)
        ensures
            r@ == "N Music - "@ + self.current_name@,
    {
        let mut t = String::from_str("N Music - ");
        t.append(self.current_name.as_str());
        t
    }
}

} // verus!
