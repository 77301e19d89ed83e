use crate::track::LoaderMessage;
use vstd::prelude::*;

verus! {

/// One tag of a file's metadata, as the loader reads it.
pub struct TagInfo {
    /// Whether the tag's standard key is the artist.
    pub is_artist: bool,
    /// The tag's value, where it is text.
    pub text: Option<String>,
}

/// What the loader read from a probed audio file.
pub struct FormatInfo {
    /// The default track's time base, as numerator and denominator.
    pub time_base: Option<(u32, u32)>,
    /// The timestamp of the default track's first frame.
    pub start_ts: u64,
    /// The number of frames of the default track, where the file says.
    pub n_frames: Option<u64>,
    /// The tags of the current metadata revision, where there is one.
    pub tags: Option<Vec<TagInfo>>,
    /// The cover art, where it could be read.
    pub cover: Option<Vec<u8>>,
}

/// A loader fact as mathematical values.
pub enum FactView {
    Duration(usize, u64),
    Artist(usize, Seq<char>),
    Image(usize, Seq<u8>),
}

impl View for LoaderMessage {
    type V = FactView;

    open spec fn view(&self) -> FactView {
        match self {
            LoaderMessage::Duration(i, d) => FactView::Duration(*i, *d),
            LoaderMessage::Artist(i, a) => FactView::Artist(*i, a@),
            LoaderMessage::Image(i, c) => FactView::Image(*i, c@),
        }
    }
}

/// The whole seconds of `ts` ticks of `numer / denom` seconds each, modulo
/// 2^64.
pub open spec fn whole_seconds(numer: u32, denom: u32, ts: u64) -> u64 {
    (((ts as int * numer as int) / denom as int) % 0x1_0000_0000_0000_0000) as u64
}

/// Relies on symphonia_core's `TimeBase::new` and `TimeBase::calc_time`: the
/// whole seconds of a timestamp, which wrap on overflow. Both panic on a zero
/// numerator or denominator.
#[verifier::external_body]
fn calc_time_seconds(numer: u32, denom: u32, ts: u64) -> (r: u64)
    requires
        numer > 0,
        denom > 0,
    ensures
        r == whole_seconds(numer, denom, ts),
{
    symphonia_core::units::TimeBase::new(numer, denom).calc_time(ts).seconds
}

/// The duration of a file in whole seconds: its frame count, counted from the
/// first timestamp, in its time base. Missing or unusable values give none.
pub open spec fn duration_of(f: FormatInfo) -> Option<u64> {
    match (f.time_base, f.n_frames) {
        (Some((numer, denom)), Some(frames)) => if numer > 0 && denom > 0 && f.start_ts + frames
            <= u64::MAX {
            Some(whole_seconds(numer, denom, (f.start_ts + frames) as u64))
        } else {
            None
        },
        _ => None,
    }
}

/// The artist name that stands in for a tag whose value is not text.
pub open spec fn placeholder_artist() -> Seq<char> {
    seq!['A', 'R', 'T', 'I', 'S', 'T']
}

/// `k` is the position of the first artist tag of `tags`.
pub open spec fn first_artist_at(tags: Seq<TagInfo>, k: int) -> bool {
    &&& 0 <= k < tags.len()
    &&& tags[k].is_artist
    &&& forall|j: int| 0 <= j < k ==> !(#[trigger] tags[j]).is_artist
}

/// The artist of a file: the text of its first artist tag, the placeholder
/// where that tag is not text, none where there is no artist tag.
pub open spec fn artist_of(f: FormatInfo) -> Option<Seq<char>> {
    match f.tags {
        None => None,
        Some(tags) => if exists|k: int| first_artist_at(tags@, k) {
            let k = choose|k: int| first_artist_at(tags@, k);
            match tags@[k].text {
                Some(t) => Some(t@),
                None => Some(placeholder_artist()),
            }
        } else {
            None
        },
    }
}

/// The facts that the loader sends for the file at index `i`, in this order:
/// duration, artist, cover; each only where it could be read. A file that
/// could not be opened or probed gives none.
pub open spec fn messages_for(i: usize, f: Option<FormatInfo>) -> Seq<FactView> {
    match f {
        None => Seq::empty(),
        Some(f) => {
            let d = match duration_of(f) {
                Some(d) => seq![FactView::Duration(i, d)],
                None => Seq::empty(),
            };
            let a = match artist_of(f) {
                Some(a) => seq![FactView::Artist(i, a)],
                None => Seq::empty(),
            };
            let c = match f.cover {
                Some(c) => seq![FactView::Image(i, c@)],
                None => Seq::empty(),
            };
            d + a + c
        },
    }
}

/// The facts that the loader sends for a list of files, file by file.
pub open spec fn all_messages(fs: Seq<Option<FormatInfo>>) -> Seq<FactView>
    decreases fs.len(),
{
    if fs.len() == 0 {
        Seq::empty()
    } else {
        all_messages(fs.drop_last()) + messages_for((fs.len() - 1) as usize, fs.last())
    }
}

/// The file extensions, in lower case, of the audio files that the catalog
/// takes from a directory.
pub open spec fn audio_extensions() -> Seq<Seq<char>> {
    seq![
        "mp3"@,
        "flac"@,
        "ogg"@,
        "oga"@,
        "opus"@,
        "wav"@,
        "m4a"@,
        "aac"@,
        "mka"@,
        "aif"@,
        "aiff"@,
    ]
}

fn same_text(a: &str, b: &str) -> (r: bool)
    ensures
        r == (a@ == b@),
{
    String::from_str(a) == String::from_str(b)
}

/// Whether a file with this extension, in lower case, is an audio file.
pub fn is_audio_extension(ext: &str) -> (r: bool)
    ensures
        r == audio_extensions().contains(ext@),
{
    let known: [&str; 11] = ["mp3", "flac", "ogg", "oga", "opus", "wav", "m4a", "aac", "mka", "aif", "aiff"];
    let mut k: usize = 0;
    while k < 11
        invariant
            k <= 11,
            known@.map_values(|t: &str| t@) == audio_extensions(),
            forall|j: int| 0 <= j < k ==> audio_extensions()[j] != ext@,
        decreases 11 - k,
    {
        if same_text(ext, known[k]) {
            assert(audio_extensions()[k as int] == ext@);
            return true;
        }
        k += 1;
    }
    false
}

/// The duration of a file in whole seconds, where it can be worked out.
pub fn duration_from_format(f: &FormatInfo) -> (r: Option<u64>)
    ensures
        r == duration_of(*f),
{
    match (f.time_base, f.n_frames) {
        (Some((numer, denom)), Some(frames)) => {
            if numer > 0 && denom > 0 && frames <= u64::MAX - f.start_ts {
                Some(calc_time_seconds(numer, denom, f.start_ts + frames))
            } else {
                None
            }
        },
        _ => None,
    }
}

/// The artist named by a file's tags, where it has an artist tag.
pub fn artist_from_format(f: &FormatInfo) -> (r: Option<String>)
    ensures
        match r {
            Some(a) => artist_of(*f) == Some(a@),
            None => artist_of(*f) is None,
        },
{
    match &f.tags {
        None => None,
        Some(tags) => {
            let mut k: usize = 0;
            while k < tags.len()
                invariant
                    f.tags == Some(*tags),
                    k <= tags@.len(),
                    forall|j: int| 0 <= j < k ==> !(#[trigger] tags@[j]).is_artist,
                decreases tags@.len() - k,
            {
                if tags[k].is_artist {
                    assert(first_artist_at(tags@, k as int));
                    proof {
                        let c = choose|c: int| first_artist_at(tags@, c);
                        if c < k {
                            assert(!tags@[c].is_artist);
                        } else if c > k {
                            assert(!tags@[k as int].is_artist);
                        }
                        assert(c == k);
                    }
                    let r = match &tags[k].text {
                        Some(t) => Some(t.clone()),
                        None => {
                            let a = String::from_str("ARTIST");
                            proof {
                                reveal_strlit("ARTIST");
                                assert(a@ =~= placeholder_artist());
                            }
                            Some(a)
                        },
                    };
                    assert(artist_of(*f) == match tags@[k as int].text {
                        Some(t) => Some(t@),
                        None => Some(placeholder_artist()),
                    });
                    return r;
                }
                k += 1;
            }
            assert(!exists|c: int| first_artist_at(tags@, c));
            None
        },
    }
}

/// The facts for the file at index `i`, in the order in which they are sent.
pub fn track_messages(i: usize, f: &Option<FormatInfo>) -> (r: Vec<LoaderMessage>)
    ensures
        r@.map_values(|m: LoaderMessage| m@) == messages_for(i, *f),
{
    let mut r: Vec<LoaderMessage> = Vec::new();
    match f {
        None => {},
        Some(f) => {
            if let Some(d) = duration_from_format(f) {
                r.push(LoaderMessage::Duration(i, d));
            }
            if let Some(a) = artist_from_format(f) {
                r.push(LoaderMessage::Artist(i, a));
            }
            if let Some(c) = &f.cover {
                r.push(LoaderMessage::Image(i, c.clone()));
            }
        },
    }
    assert(r@.map_values(|m: LoaderMessage| m@) =~= messages_for(i, *f));
    r
}

/// Every fact that the loader sends for a list of files, file by file, in
/// order of index.
pub fn loader_thread(tracks: &Vec<Option<FormatInfo>>) -> (r: Vec<LoaderMessage>)
    ensures
        r@.map_values(|m: LoaderMessage| m@) == all_messages(tracks@),
{
    let mut r: Vec<LoaderMessage> = Vec::new();
    let mut i: usize = 0;
    while i < tracks.len()
        invariant
            i <= tracks@.len(),
            r@.map_values(|m: LoaderMessage| m@) == all_messages(tracks@.subrange(0, i as int)),
        decreases tracks@.len() - i,
    {
        let mut m = track_messages(i, &tracks[i]);
        let ghost before = r@;
        let ghost added = m@;
        r.append(&mut m);
        assert(tracks@.subrange(0, i + 1).drop_last() =~= tracks@.subrange(0, i as int));
        assert(r@.map_values(|m: LoaderMessage| m@) =~= before.map_values(|m: LoaderMessage| m@)
            + added.map_values(|m: LoaderMessage| m@));
        i += 1;
    }
    assert(tracks@.subrange(0, tracks@.len() as int) =~= tracks@);
    r
}

} // verus!
