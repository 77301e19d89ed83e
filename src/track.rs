use std::cmp::Ordering;
use vstd::prelude::*;

verus! {

/// One fact that the metadata loader found about the track at an index.
#[derive(Debug, Clone)]
pub enum LoaderMessage {
    Duration(usize, u64),
    Artist(usize, String),
    Image(usize, Vec<u8>),
}

/// A track of the catalog, as the player shows it.
#[derive(Debug, Clone)]
pub struct FileTrack {
    pub name: String,
    pub artist: String,
    pub duration: u64,
    pub cover: Vec<u8>,
    pub current: bool,
}

/// What a `FileTrack` holds, as mathematical values.
pub struct TrackModel {
    pub name: Seq<char>,
    pub artist: Seq<char>,
    pub duration: u64,
    pub cover: Seq<u8>,
    pub current: bool,
}

impl View for FileTrack {
    type V = TrackModel;

    open spec fn view(&self) -> TrackModel {
        TrackModel {
            name: self.name@,
            artist: self.artist@,
            duration: self.duration,
            cover: self.cover@,
            current: self.current,
        }
    }
}

impl FileTrack {
    pub fn new(name: String, artist: String, duration: u64, cover: Vec<u8>, current: bool) -> (r:
        Self)
        ensures
            r@ == (TrackModel {
                name: name@,
                artist: artist@,
                duration,
                cover: cover@,
                current,
            }),
    {
        FileTrack { name, artist, duration, cover, current }
    }

    pub fn name(&self) -> (r: &str)
        ensures
            r@ == self.name@,
    {
        self.name.as_str()
    }

    pub fn artist(&self) -> (r: &str)
        ensures
            r@ == self.artist@,
    {
        self.artist.as_str()
    }

    pub fn duration(&self) -> (r: u64)
        ensures
            r == self.duration,
    {
        self.duration
    }

    pub fn cover(&self) -> (r: &Vec<u8>)
        ensures
            r@ == self.cover@,
    {
        &self.cover
    }
}

/// The artist shown until the loader found one.
pub open spec fn default_artist() -> Seq<char> {
    "ARTIST"@
}

impl FileTrack {
    /// A track known only by its name: placeholder artist, no duration, no
    /// cover, not current.
    pub fn from_name(name: String) -> (r: FileTrack)
        ensures
            r@ == (TrackModel {
                name: name@,
                artist: default_artist(),
                duration: 0,
                cover: Seq::empty(),
                current: false,
            }),
    {
        let r = FileTrack {
            name,
            artist: String::from_str("ARTIST"),
            duration: 0,
            cover: Vec::new(),
            current: false,
        };
        assert(r.cover@ =~= Seq::<u8>::empty());
        r
    }
}

impl Default for FileTrack {
    fn default() -> (r: FileTrack)
        ensures
            r@ == (TrackModel {
                name: "NAME"@,
                artist: default_artist(),
                duration: 0,
                cover: Seq::empty(),
                current: false,
            }),
    {
        FileTrack::from_name(String::from_str("NAME"))
    }
}

/// Tracks are the same track when they have the same name.
impl PartialEq for FileTrack {
    fn eq(&self, other: &FileTrack) -> (r: bool) {
        self.name == other.name
    }
}

impl vstd::std_specs::cmp::PartialEqSpecImpl for FileTrack {
    open spec fn obeys_eq_spec() -> bool {
        true
    }

    open spec fn eq_spec(&self, other: &FileTrack) -> bool {
        self.name@ == other.name@
    }
}

impl Eq for FileTrack {}

/// Names in lexicographic order of their characters' code points, which is
/// the order of their UTF-8 bytes.
pub open spec fn name_cmp(a: Seq<char>, b: Seq<char>) -> Ordering
    decreases a.len(),
{
    if a.len() == 0 {
        if b.len() == 0 {
            Ordering::Equal
        } else {
            Ordering::Less
        }
    } else if b.len() == 0 {
        Ordering::Greater
    } else if (a[0] as u32) < (b[0] as u32) {
        Ordering::Less
    } else if (a[0] as u32) > (b[0] as u32) {
        Ordering::Greater
    } else {
        name_cmp(a.drop_first(), b.drop_first())
    }
}

/// Compares two names in lexicographic order.
pub fn compare_names(a: &str, b: &str) -> (r: Ordering)
    ensures
        r == name_cmp(a@, b@),
{
    let la = a.unicode_len();
    let lb = b.unicode_len();
    let mut k: usize = 0;
    assert(a@.subrange(0, la as int) =~= a@);
    assert(b@.subrange(0, lb as int) =~= b@);
    while k < la && k < lb
        invariant
            la == a@.len(),
            lb == b@.len(),
            k <= la,
            k <= lb,
            name_cmp(a@, b@) == name_cmp(a@.subrange(k as int, la as int), b@.subrange(k as int, lb as int)),
        decreases la - k,
    {
        let ca = a.get_char(k);
        let cb = b.get_char(k);
        assert(a@.subrange(k as int, la as int)[0] == ca);
        assert(b@.subrange(k as int, lb as int)[0] == cb);
        if (ca as u32) < (cb as u32) {
            return Ordering::Less;
        } else if (ca as u32) > (cb as u32) {
            return Ordering::Greater;
        }
        assert(a@.subrange(k as int, la as int).drop_first() =~= a@.subrange(k + 1, la as int));
        assert(b@.subrange(k as int, lb as int).drop_first() =~= b@.subrange(k + 1, lb as int));
        k += 1;
    }
    if k < lb {
        Ordering::Less
    } else if k < la {
        Ordering::Greater
    } else {
        Ordering::Equal
    }
}

/// Tracks are ordered by name.
impl PartialOrd for FileTrack {
    fn partial_cmp(&self, other: &FileTrack) -> (r: Option<Ordering>) {
        Some(compare_names(self.name.as_str(), other.name.as_str()))
    }
}

impl vstd::std_specs::cmp::PartialOrdSpecImpl for FileTrack {
    open spec fn obeys_partial_cmp_spec() -> bool {
        true
    }

    open spec fn partial_cmp_spec(&self, other: &FileTrack) -> Option<Ordering> {
        Some(name_cmp(self.name@, other.name@))
    }
}

/// The catalog after one loader fact: the fact's field of the slot it names
/// is replaced; a fact for an index outside the catalog changes nothing.
pub open spec fn apply_fact(s: Seq<TrackModel>, m: LoaderMessage) -> Seq<TrackModel> {
    match m {
        LoaderMessage::Duration(i, d) => if i < s.len() {
            s.update(i as int, TrackModel { duration: d, ..s[i as int] })
        } else {
            s
        },
        LoaderMessage::Artist(i, a) => if i < s.len() {
            s.update(i as int, TrackModel { artist: a@, ..s[i as int] })
        } else {
            s
        },
        LoaderMessage::Image(i, c) => if i < s.len() {
            s.update(i as int, TrackModel { cover: c@, ..s[i as int] })
        } else {
            s
        },
    }
}

/// The catalog after a batch of loader facts, applied in the order given.
pub open spec fn apply_facts(s: Seq<TrackModel>, msgs: Seq<LoaderMessage>) -> Seq<TrackModel>
    decreases msgs.len(),
{
    if msgs.len() == 0 {
        s
    } else {
        apply_fact(apply_facts(s, msgs.drop_last()), msgs.last())
    }
}

/// The ordered catalog of tracks known to a session.
#[derive(Debug, Clone)]
pub struct FileTracks {
    pub tracks: Vec<FileTrack>,
}

impl View for FileTracks {
    type V = Seq<TrackModel>;

    open spec fn view(&self) -> Seq<TrackModel> {
        self.tracks@.map_values(|t: FileTrack| t@)
    }
}

impl FileTracks {
    /// A catalog of tracks known only by their names, in the order given.
    pub fn from_names(names: &Vec<String>) -> (r: FileTracks)
        ensures
            r@.len() == names@.len(),
            forall|j: int|
                0 <= j < names@.len() ==> (#[trigger] r@[j]) == (TrackModel {
                    name: names@[j]@,
                    artist: default_artist(),
                    duration: 0,
                    cover: Seq::empty(),
                    current: false,
                }),
    {
        let mut tracks: Vec<FileTrack> = Vec::new();
        let mut k: usize = 0;
        while k < names.len()
            invariant
                k <= names@.len(),
                tracks@.len() == k,
                forall|j: int|
                    0 <= j < k ==> (#[trigger] tracks@[j])@ == (TrackModel {
                        name: names@[j]@,
                        artist: default_artist(),
                        duration: 0,
                        cover: Seq::empty(),
                        current: false,
                    }),
            decreases names@.len() - k,
        {
            tracks.push(FileTrack::from_name(names[k].clone()));
            k += 1;
        }
        FileTracks { tracks }
    }

    pub fn len(&self) -> (r: usize)
        ensures
            r == self@.len(),
    {
        self.tracks.len()
    }

    /// Applies one loader fact to the slot that it names.
    pub fn apply_fact(&mut self, m: &LoaderMessage)
        ensures
            final(self)@ == apply_fact(old(self)@, *m),
    {
        match m {
            LoaderMessage::Duration(i, d) => {
                if *i < self.tracks.len() {
                    self.tracks[*i].duration = *d;
                }
            },
            LoaderMessage::Artist(i, a) => {
                if *i < self.tracks.len() {
                    self.tracks[*i].artist = a.clone();
                }
            },
            LoaderMessage::Image(i, c) => {
                if *i < self.tracks.len() {
                    self.tracks[*i].cover = c.clone();
                }
            },
        }
        assert(self@ =~= apply_fact(old(self)@, *m));
    }

    /// Applies a batch of loader facts in the order in which they arrived.
    pub fn apply_loaded(&mut self, msgs: &Vec<LoaderMessage>)
        ensures
            final(self)@ == apply_facts(old(self)@, msgs@),
    {
        let ghost start = self@;
        let mut k: usize = 0;
        while k < msgs.len()
            invariant
                k <= msgs.len(),
                self@ == apply_facts(start, msgs@.subrange(0, k as int)),
            decreases msgs.len() - k,
        {
            self.apply_fact(&msgs[k]);
            assert(msgs@.subrange(0, k + 1).drop_last() =~= msgs@.subrange(0, k as int));
            k += 1;
        }
        assert(msgs@.subrange(0, msgs.len() as int) =~= msgs@);
    }

    /// Marks the track at `i` as the current one and every other track as not
    /// current.
    pub fn set_current(&mut self, i: usize)
        requires
            i < old(self)@.len(),
        ensures
            final(self)@.len() == old(self)@.len(),
            forall|j: int|
                0 <= j < old(self)@.len() ==> (#[trigger] final(self)@[j]) == (TrackModel {
                    current: j == i,
                    ..old(self)@[j]
                }),
    {
        let ghost start = self@;
        let mut k: usize = 0;
        while k < self.tracks.len()
            invariant
                k <= self@.len(),
                self@.len() == start.len(),
                i < start.len(),
                forall|j: int|
                    0 <= j < k ==> (#[trigger] self@[j]) == (TrackModel {
                        current: j == i,
                        ..start[j]
                    }),
                forall|j: int| k <= j < start.len() ==> (#[trigger] self@[j]) == start[j],
            decreases start.len() - k,
        {
            let ghost before = self@;
            self.tracks[k].current = k == i;
            assert(self@ =~= before.update(
                k as int,
                TrackModel { current: k == i, ..before[k as int] },
            ));
            k += 1;
        }
    }
}

/// The duration that the last duration fact for slot `i` in `msgs` gives, or
/// `d` where there is none.
pub open spec fn last_duration(msgs: Seq<LoaderMessage>, i: usize, d: u64) -> u64
    decreases msgs.len(),
{
    if msgs.len() == 0 {
        d
    } else {
        match msgs.last() {
            LoaderMessage::Duration(j, e) => if j == i {
                e
            } else {
                last_duration(msgs.drop_last(), i, d)
            },
            _ => last_duration(msgs.drop_last(), i, d),
        }
    }
}

/// The artist that the last artist fact for slot `i` in `msgs` gives, or `a`
/// where there is none.
pub open spec fn last_artist(msgs: Seq<LoaderMessage>, i: usize, a: Seq<char>) -> Seq<char>
    decreases msgs.len(),
{
    if msgs.len() == 0 {
        a
    } else {
        match msgs.last() {
            LoaderMessage::Artist(j, b) => if j == i {
                b@
            } else {
                last_artist(msgs.drop_last(), i, a)
            },
            _ => last_artist(msgs.drop_last(), i, a),
        }
    }
}

/// The cover that the last cover fact for slot `i` in `msgs` gives, or `c`
/// where there is none.
pub open spec fn last_cover(msgs: Seq<LoaderMessage>, i: usize, c: Seq<u8>) -> Seq<u8>
    decreases msgs.len(),
{
    if msgs.len() == 0 {
        c
    } else {
        match msgs.last() {
            LoaderMessage::Image(j, d) => if j == i {
                d@
            } else {
                last_cover(msgs.drop_last(), i, c)
            },
            _ => last_cover(msgs.drop_last(), i, c),
        }
    }
}

/// After a batch of loader facts, whatever order they arrived in, each slot
/// of the catalog holds the last duration, the last artist and the last cover
/// sent for it, and keeps what it had where none was sent; its name and
/// current flag stay, and the catalog keeps its length.
pub proof fn lemma_loaded_slots(s: Seq<TrackModel>, msgs: Seq<LoaderMessage>)
    requires
        s.len() <= usize::MAX,
    ensures
        apply_facts(s, msgs).len() == s.len(),
        forall|i: int|
            0 <= i < s.len() ==> #[trigger] apply_facts(s, msgs)[i] == (TrackModel {
                duration: last_duration(msgs, i as usize, s[i].duration),
                artist: last_artist(msgs, i as usize, s[i].artist),
                cover: last_cover(msgs, i as usize, s[i].cover),
                ..s[i]
            }),
    decreases msgs.len(),
{
    if msgs.len() > 0 {
        lemma_loaded_slots(s, msgs.drop_last());
        let before = apply_facts(s, msgs.drop_last());
        assert forall|i: int| 0 <= i < s.len() implies #[trigger] apply_facts(s, msgs)[i] == (
        TrackModel {
            duration: last_duration(msgs, i as usize, s[i].duration),
            artist: last_artist(msgs, i as usize, s[i].artist),
            cover: last_cover(msgs, i as usize, s[i].cover),
            ..s[i]
        }) by {
            assert(before[i] == apply_facts(s, msgs.drop_last())[i]);
            assert(apply_facts(s, msgs) == apply_fact(before, msgs.last()));
            match msgs.last() {
                LoaderMessage::Duration(j, _) => {
                    assert(j == i as usize <==> j as int == i);
                },
                LoaderMessage::Artist(j, _) => {
                    assert(j == i as usize <==> j as int == i);
                },
                LoaderMessage::Image(j, _) => {
                    assert(j == i as usize <==> j as int == i);
                },
            }
        }
    }
}

/// Whether some track of `s` has the given name.
pub open spec fn has_name(s: Seq<TrackModel>, name: Seq<char>) -> bool {
    exists|j: int| 0 <= j < s.len() && (#[trigger] s[j]).name == name
}

/// Finds the first track called `name`: `(true, i)` with its index, or
/// `(false, 0)` where no track has that name.
pub fn vec_contains(tracks: &FileTracks, name: &String) -> (r: (bool, usize))
    ensures
        r.0 == has_name(tracks@, name@),
        r.0 ==> r.1 < tracks@.len() && tracks@[r.1 as int].name == name@ && forall|j: int|
            0 <= j < r.1 ==> (#[trigger] tracks@[j]).name != name@,
        !r.0 ==> r.1 == 0,
{
    let mut i: usize = 0;
    while i < tracks.tracks.len()
        invariant
            i <= tracks@.len(),
            forall|j: int| 0 <= j < i ==> (#[trigger] tracks@[j]).name != name@,
        decreases tracks@.len() - i,
    {
        if tracks.tracks[i].name == *name {
            assert(tracks@[i as int].name == name@);
            return (true, i);
        }
        i += 1;
    }
    (false, 0)
}

/// Facts about different slots, or about different fields of one slot, may
/// arrive in either order: the catalog ends the same.
pub proof fn lemma_facts_commute(s: Seq<TrackModel>, a: LoaderMessage, b: LoaderMessage)
    requires
        fact_index(a) != fact_index(b) || fact_kind(a) != fact_kind(b),
    ensures
        apply_fact(apply_fact(s, a), b) == apply_fact(apply_fact(s, b), a),
{
    assert(apply_fact(apply_fact(s, a), b) =~= apply_fact(apply_fact(s, b), a));
}

/// The slot that a loader fact is about.
pub open spec fn fact_index(m: LoaderMessage) -> usize {
    match m {
        LoaderMessage::Duration(i, _) => i,
        LoaderMessage::Artist(i, _) => i,
        LoaderMessage::Image(i, _) => i,
    }
}

/// Which field a loader fact fills: 0 the duration, 1 the artist, 2 the cover.
pub open spec fn fact_kind(m: LoaderMessage) -> int {
    match m {
        LoaderMessage::Duration(..) => 0,
        LoaderMessage::Artist(..) => 1,
        LoaderMessage::Image(..) => 2,
    }
}

/// An artist and a duration for slot `i`, in whichever order they arrive,
/// both land in slot `i` and nowhere else.
pub proof fn lemma_artist_and_duration_any_order(
    s: Seq<TrackModel>,
    i: usize,
    artist: String,
    duration: u64,
)
    requires
        i < s.len(),
    ensures
        ({
            let early = seq![LoaderMessage::Artist(i, artist), LoaderMessage::Duration(i, duration)];
            let late = seq![LoaderMessage::Duration(i, duration), LoaderMessage::Artist(i, artist)];
            &&& apply_facts(s, early) == apply_facts(s, late)
            &&& apply_facts(s, early).len() == s.len()
            &&& apply_facts(s, early)[i as int].artist == artist@
            &&& apply_facts(s, early)[i as int].duration == duration
            &&& forall|j: int|
                0 <= j < s.len() && j != i ==> #[trigger] apply_facts(s, early)[j] == s[j]
        }),
{
    let early = seq![LoaderMessage::Artist(i, artist), LoaderMessage::Duration(i, duration)];
    let late = seq![LoaderMessage::Duration(i, duration), LoaderMessage::Artist(i, artist)];
    assert(early.drop_last() =~= seq![LoaderMessage::Artist(i, artist)]);
    assert(late.drop_last() =~= seq![LoaderMessage::Duration(i, duration)]);
    assert(seq![LoaderMessage::Artist(i, artist)].drop_last() =~= Seq::<LoaderMessage>::empty());
    assert(seq![LoaderMessage::Duration(i, duration)].drop_last() =~= Seq::<LoaderMessage>::empty());
    let a = LoaderMessage::Artist(i, artist);
    let d = LoaderMessage::Duration(i, duration);
    assert(apply_facts(s, Seq::<LoaderMessage>::empty()) == s);
    assert(seq![a].last() == a);
    assert(seq![d].last() == d);
    assert(apply_facts(s, seq![a]) == apply_fact(s, a));
    assert(apply_facts(s, seq![d]) == apply_fact(s, d));
    assert(apply_facts(s, early) == apply_fact(apply_fact(s, a), d));
    assert(apply_facts(s, late) == apply_fact(apply_fact(s, d), a));
    lemma_facts_commute(s, a, d);
}

} // verus!
