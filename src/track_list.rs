use vstd::prelude::*;
use indexmap::IndexSet;
use crate::preview::chunk_means;
use crate::track::Track;

verus! {

#[verifier::external_type_specification]
#[verifier::external_body]
#[verifier::reject_recursive_types(T)]
#[verifier::reject_recursive_types(S)]
pub struct ExIndexSet<T, S>(IndexSet<T, S>);

/// The paths an `IndexSet` holds, in insertion order.
pub uninterp spec fn set_items(s: IndexSet<String>) -> Seq<Seq<char>>;

/// Relies on `IndexSet::new`: a new set is empty.
#[verifier::external_body]
fn set_new() -> (r: IndexSet<String>)
    ensures
        set_items(r) == Seq::<Seq<char>>::empty(),
{
    IndexSet::new()
}

/// Relies on `IndexSet::insert`: a value not yet there goes to the end and `true`
/// comes back; an equal value leaves the set as it was and `false` comes back.
#[verifier::external_body]
fn set_insert(s: &mut IndexSet<String>, value: String) -> (r: bool)
    ensures
        r == !set_items(*old(s)).contains(value@),
        r ==> set_items(*final(s)) == set_items(*old(s)).push(value@),
        !r ==> set_items(*final(s)) == set_items(*old(s)),
{
    s.insert(value)
}

/// Relies on `IndexSet::get_index_of`: the position of an equal value, if any.
#[verifier::external_body]
fn set_get_index_of(s: &IndexSet<String>, value: &String) -> (r: Option<usize>)
    ensures
        match r {
            Some(i) => i < set_items(*s).len() && set_items(*s)[i as int] == value@,
            None => !set_items(*s).contains(value@),
        },
{
    s.get_index_of(value)
}

/// The paths of `tracks`, in order.
pub open spec fn paths_of(tracks: Seq<Track>) -> Seq<Seq<char>> {
    tracks.map_values(|t: Track| t.file_path@)
}

/// The index that focus moves to from `i` going forward in a list of `len`: the
/// next one, wrapping to the first.
pub open spec fn next_index(i: nat, len: nat) -> nat {
    if len == 0 {
        i
    } else if i + 1 < len {
        i + 1
    } else {
        0
    }
}

/// The index that focus moves to from `i` going backward in a list of `len`: the
/// previous one, wrapping to the last.
pub open spec fn previous_index(i: nat, len: nat) -> nat {
    if i > 0 {
        (i - 1) as nat
    } else if len > 0 {
        (len - 1) as nat
    } else {
        0
    }
}

/// The tracks found, each path once, in the order they were found; one of them may
/// have the focus and one may be loaded.
pub struct TrackList {
    paths: IndexSet<String>,
    tracks: Vec<Track>,
    focused_track: Option<usize>,
    loaded_track: Option<usize>,
}

impl TrackList {
    pub closed spec fn tracks(self) -> Seq<Track> {
        self.tracks@
    }

    pub closed spec fn focused(self) -> Option<usize> {
        self.focused_track
    }

    pub closed spec fn loaded(self) -> Option<usize> {
        self.loaded_track
    }

    closed spec fn paths(self) -> Seq<Seq<char>> {
        set_items(self.paths)
    }

    /// The set mirrors the tracks' paths; the focus and the loaded mark point at
    /// tracks.
    pub closed spec fn wf(self) -> bool {
        &&& self.paths() == paths_of(self.tracks())
        &&& self.focused().is_some() ==> self.focused().unwrap() < self.tracks().len()
        &&& self.loaded().is_some() ==> self.loaded().unwrap() < self.tracks().len()
        &&& forall|i: int| 0 <= i < self.tracks().len() ==> (#[trigger] self.tracks()[i]).wf()
    }

    /// An empty list with nothing focused.
    pub fn new() -> (r: Self)
        ensures
            r.wf(),
            r.tracks() == Seq::<Track>::empty(),
            r.focused().is_none(),
            r.loaded().is_none(),
    {
        let r = TrackList { paths: set_new(), tracks: Vec::new(), focused_track: None, loaded_track: None };
        assert(paths_of(r.tracks@) =~= Seq::<Seq<char>>::empty());
        r
    }

    /// The tracks, in the order they were found.
    pub fn values(&self) -> (r: &Vec<Track>)
        ensures
            r@ == self.tracks(),
    {
        &self.tracks
    }

    pub fn len(&self) -> (r: usize)
        ensures
            r == self.tracks().len(),
    {
        self.tracks.len()
    }

    /// Adds a track whose path is not there yet, and focuses the first track found;
    /// returns whether it was added.
    pub fn insert(&mut self, track: Track) -> (r: bool)
        requires
            old(self).wf(),
            track.wf(),
        ensures
            final(self).wf(),
            r == !paths_of(old(self).tracks()).contains(track.file_path@),
            r ==> final(self).tracks() == old(self).tracks().push(track),
            !r ==> final(self).tracks() == old(self).tracks(),
            final(self).focused() == if old(self).tracks().len() == 0 && r {
                Some(0usize)
            } else {
                old(self).focused()
            },
            final(self).loaded() == old(self).loaded(),
    {
        let path = track.file_path.clone();
        let added = set_insert(&mut self.paths, path);
        if added {
            if self.tracks.len() == 0 {
                self.focused_track = Some(0);
            }
            self.tracks.push(track);
            assert(paths_of(self.tracks@) =~= paths_of(old(self).tracks@).push(track.file_path@));
        }
        added
    }

    /// The position of the track with path `file_path`.
    pub fn index_of(&self, file_path: &String) -> (r: Option<usize>)
        requires
            self.wf(),
        ensures
            match r {
                Some(i) => i < self.tracks().len() && self.tracks()[i as int].file_path@ == file_path@,
                None => forall|i: int|
                    0 <= i < self.tracks().len() ==> self.tracks()[i].file_path@ != file_path@,
            },
    {
        let r = set_get_index_of(&self.paths, file_path);
        proof {
            if r.is_none() {
                assert forall|i: int| 0 <= i < self.tracks().len() implies self.tracks()[i].file_path@
                    != file_path@ by {
                    assert(paths_of(self.tracks())[i] == self.tracks()[i].file_path@);
                }
            }
        }
        r
    }

    /// The track at position `index`.
    pub fn get(&self, index: usize) -> (r: Option<&Track>)
        ensures
            index < self.tracks().len() ==> r == Some(&self.tracks()[index as int]),
            index >= self.tracks().len() ==> r.is_none(),
    {
        if index < self.tracks.len() {
            Some(&self.tracks[index])
        } else {
            None
        }
    }

    /// The focused track.
    pub fn get_focused(&self) -> (r: Option<&Track>)
        requires
            self.wf(),
        ensures
            r == match self.focused() {
                Some(i) => Some(&self.tracks()[i as int]),
                None => None,
            },
    {
        match self.focused_track {
            Some(i) => Some(&self.tracks[i]),
            None => None,
        }
    }

    /// The loaded track.
    pub fn get_loaded(&self) -> (r: Option<&Track>)
        requires
            self.wf(),
        ensures
            r == match self.loaded() {
                Some(i) => Some(&self.tracks()[i as int]),
                None => None,
            },
    {
        match self.loaded_track {
            Some(i) => Some(&self.tracks[i]),
            None => None,
        }
    }

    /// Moves the focus to the next track, wrapping to the first; returns the new
    /// focus.
    pub fn focus_next(&mut self) -> (r: Option<usize>)
        requires
            old(self).wf(),
        ensures
            final(self).wf(),
            final(self).tracks() == old(self).tracks(),
            final(self).loaded() == old(self).loaded(),
            final(self).focused() == match old(self).focused() {
                Some(i) => Some(next_index(i as nat, old(self).tracks().len()) as usize),
                None => None,
            },
            r == final(self).focused(),
    {
        let len = self.tracks.len();
        self.focused_track = match self.focused_track {
            Some(i) => Some(
                if i < len - 1 {
                    i + 1
                } else {
                    0
                },
            ),
            None => None,
        };
        self.focused_track
    }

    /// Moves the focus to the previous track, wrapping to the last; returns the new
    /// focus.
    pub fn focus_previous(&mut self) -> (r: Option<usize>)
        requires
            old(self).wf(),
        ensures
            final(self).wf(),
            final(self).tracks() == old(self).tracks(),
            final(self).loaded() == old(self).loaded(),
            final(self).focused() == match old(self).focused() {
                Some(i) => Some(previous_index(i as nat, old(self).tracks().len()) as usize),
                None => None,
            },
            r == final(self).focused(),
    {
        let len = self.tracks.len();
        self.focused_track = match self.focused_track {
            Some(i) => Some(
                if i > 0 {
                    i - 1
                } else {
                    len - 1
                },
            ),
            None => None,
        };
        self.focused_track
    }

    /// Marks the focused track as the loaded one and returns its position.
    pub fn load_focused(&mut self) -> (r: Option<usize>)
        requires
            old(self).wf(),
        ensures
            final(self).wf(),
            final(self).tracks() == old(self).tracks(),
            final(self).focused() == old(self).focused(),
            final(self).loaded() == old(self).focused(),
            r == old(self).focused(),
    {
        self.loaded_track = self.focused_track;
        self.focused_track
    }

    /// Appends decoded PCM to the preview of the track at position `index`.
    pub fn append_frames(&mut self, index: usize, frames: &Vec<i32>, channels: usize)
        requires
            old(self).wf(),
            channels > 0,
        ensures
            final(self).wf(),
            final(self).focused() == old(self).focused(),
            final(self).loaded() == old(self).loaded(),
            final(self).tracks().len() == old(self).tracks().len(),
            forall|i: int|
                0 <= i < final(self).tracks().len() && i != index ==> final(self).tracks()[i]
                    == old(self).tracks()[i],
            index < old(self).tracks().len() ==> {
                let t = old(self).tracks()[index as int];
                let u = final(self).tracks()[index as int];
                &&& u.file_path == t.file_path
                &&& u.codec_params == t.codec_params
                &&& u.preview_buffer.entries() == t.preview_buffer.entries() + chunk_means(
                    t.preview_buffer.fed(frames@, channels as nat),
                    t.preview_buffer.chunk_size(),
                )
            },
    {
        if index < self.tracks.len() {
            let mut t = self.tracks.remove(index);
            t.append_frames(frames, channels);
            self.tracks.insert(index, t);
            assert(paths_of(self.tracks@) =~= paths_of(old(self).tracks@));
        }
    }
}

} // verus!
