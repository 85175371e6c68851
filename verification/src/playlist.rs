//! Ordered, named track list with cyclic previous/next navigation and
//! path-based insertion and removal.
//!
//! Paths are unique within a playlist: every operation that inserts tracks
//! skips a path that is already present, so navigation by path is
//! well defined.

use vstd::prelude::*;

use crate::music::{Music, MusicState, MusicView};

verus! {

/// What the file system shows at a path handed to
/// [`Playlist::add_music_by_path`]. The caller probes the path and passes
/// the outcome in as plain values.
pub enum PathInfo {
    /// The path does not exist.
    Missing,
    /// The path names a single file.
    SingleFile,
    /// The path names a directory; the entries are the file paths found by
    /// recursive enumeration, in enumeration order.
    Directory(Vec<String>),
}

/// True when some track of `tracks` has file path `path`.
pub open spec fn contains_path(tracks: Seq<MusicView>, path: Seq<char>) -> bool {
    exists|i: int| 0 <= i < tracks.len() && tracks[i].file_path == path
}

/// The index of the track whose file path is `path`; meaningful only under
/// [`unique_paths`] and [`contains_path`].
pub open spec fn path_index(tracks: Seq<MusicView>, path: Seq<char>) -> int {
    choose|i: int| 0 <= i < tracks.len() && tracks[i].file_path == path
}

/// No two tracks of `tracks` share a file path.
pub open spec fn unique_paths(tracks: Seq<MusicView>) -> bool {
    forall|i: int, j: int|
        0 <= i < j < tracks.len() ==> tracks[i].file_path != tracks[j].file_path
}

/// Index of the track before the one at `path`, wrapping from the first
/// track to the last; `None` when no track has `path`.
pub open spec fn spec_prev_of(tracks: Seq<MusicView>, path: Seq<char>) -> Option<int> {
    if !contains_path(tracks, path) {
        None
    } else {
        let i = path_index(tracks, path);
        if i == 0 {
            Some(tracks.len() - 1)
        } else {
            Some(i - 1)
        }
    }
}

/// Index of the track after the one at `path`, wrapping from the last
/// track to the first; `None` when no track has `path`. The wraparound
/// triggers exactly when the matched index is the last one.
pub open spec fn spec_next_of(tracks: Seq<MusicView>, path: Seq<char>) -> Option<int> {
    if !contains_path(tracks, path) {
        None
    } else {
        let i = path_index(tracks, path);
        if i == tracks.len() - 1 {
            Some(0)
        } else {
            Some(i + 1)
        }
    }
}

/// Index of the last `/` of `p`, or `-1` when `p` has none.
pub open spec fn last_slash(p: Seq<char>) -> int
    decreases p.len(),
{
    if p.len() == 0 {
        -1
    } else if p[p.len() - 1] == '/' {
        p.len() - 1
    } else {
        last_slash(p.drop_last())
    }
}

/// The base name of a path: everything after its last `/`.
pub open spec fn base_name(p: Seq<char>) -> Seq<char> {
    p.subrange(last_slash(p) + 1, p.len() as int)
}

/// The qualification policy for path-based insertion: a file is added
/// exactly when its path ends in `.mp3`.
pub open spec fn qualifies(p: Seq<char>) -> bool {
    &&& p.len() >= 4
    &&& p[p.len() - 4] == '.'
    &&& p[p.len() - 3] == 'm'
    &&& p[p.len() - 2] == 'p'
    &&& p[p.len() - 1] == '3'
}

/// The track that path-based insertion builds for `path`: the path itself,
/// its base name, and a fresh existence state.
pub open spec fn track_of(path: Seq<char>) -> MusicView {
    MusicView {
        file_path: path,
        file_name: base_name(path),
        state: MusicState::Exists,
        metadata: None,
    }
}

/// Result of appending the tracks of `new` to `tracks` in order, skipping
/// each one whose path is already present.
pub open spec fn add_tracks(tracks: Seq<MusicView>, new: Seq<MusicView>) -> Seq<MusicView>
    decreases new.len(),
{
    if new.len() == 0 {
        tracks
    } else {
        let t = if contains_path(tracks, new[0].file_path) {
            tracks
        } else {
            tracks.push(new[0])
        };
        add_tracks(t, new.drop_first())
    }
}

/// Result of appending, for each entry of `entries` in order, the track it
/// qualifies for, skipping entries that do not qualify or whose path is
/// already present.
pub open spec fn add_paths(tracks: Seq<MusicView>, entries: Seq<Seq<char>>) -> Seq<MusicView>
    decreases entries.len(),
{
    if entries.len() == 0 {
        tracks
    } else {
        let t = if qualifies(entries[0]) && !contains_path(tracks, entries[0]) {
            tracks.push(track_of(entries[0]))
        } else {
            tracks
        };
        add_paths(t, entries.drop_first())
    }
}

/// True when removal aimed at `target` takes the track at `track_path`
/// out: either the exact path, or a path below the directory `target`.
pub open spec fn removal_matches(track_path: Seq<char>, target: Seq<char>) -> bool {
    track_path == target || is_descendant(track_path, target)
}

/// `p` lies below the directory `dir`: `dir` is a proper prefix of `p`
/// followed by a `/`.
pub open spec fn is_descendant(p: Seq<char>, dir: Seq<char>) -> bool {
    &&& p.len() > dir.len()
    &&& p.subrange(0, dir.len() as int) == dir
    &&& p[dir.len() as int] == '/'
}

/// The tracks of `tracks` that removal aimed at `target` keeps, in order.
pub open spec fn remove_matching(tracks: Seq<MusicView>, target: Seq<char>) -> Seq<MusicView>
    decreases tracks.len(),
{
    if tracks.len() == 0 {
        Seq::empty()
    } else {
        let rest = remove_matching(tracks.drop_first(), target);
        if removal_matches(tracks[0].file_path, target) {
            rest
        } else {
            seq![tracks[0]] + rest
        }
    }
}

/// Mathematical value of a [`Playlist`].
pub struct PlaylistView {
    pub name: Seq<char>,
    pub tracks: Seq<MusicView>,
}

/// Ordered, named collection of tracks. Order is playback order:
/// insertion order, never sorted.
pub struct Playlist {
    /// Name of the playlist.
    name: String,

    /// All tracks of the playlist, in playback order.
    music: Vec<Music>,
}

impl View for Playlist {
    type V = PlaylistView;

    closed spec fn view(&self) -> PlaylistView {
        PlaylistView { name: self.name@, tracks: self.music.deep_view() }
    }
}

impl Playlist {
    /// A playlist is well formed when no two tracks share a file path.
    /// Every constructor establishes this and every method preserves it.
    pub open spec fn wf(&self) -> bool {
        unique_paths(self@.tracks)
    }

    /// An empty playlist under the given name.
    pub fn new(name: String) -> (r: Playlist)
        ensures
            r@.name == name@,
            r@.tracks == Seq::<MusicView>::empty(),
            r.wf(),
    {
        let r = Playlist { name, music: Vec::new() };
        proof {
            assert(r@.tracks =~= Seq::<MusicView>::empty());
        }
        r
    }

    /// The playlist's name.
    pub fn name(&self) -> (r: &str)
        ensures
            r@ == self@.name,
    {
        self.name.as_str()
    }

    /// Rename the playlist; the tracks stay as they are.
    pub fn set_name(&mut self, name: String)
        ensures
            final(self)@.name == name@,
            final(self)@.tracks == old(self)@.tracks,
    {
        self.name = name;
    }

    /// Index of the first track whose path is `file_path`, scanning from
    /// the front.
    fn position_of_path(&self, file_path: &String) -> (r: Option<usize>)
        ensures
            match r {
                None => !contains_path(self@.tracks, file_path@),
                Some(i) => {
                    &&& i < self@.tracks.len()
                    &&& self@.tracks[i as int].file_path == file_path@
                    &&& forall|j: int| 0 <= j < i ==> self@.tracks[j].file_path != file_path@
                },
            },
    {
        let mut i: usize = 0;
        while i < self.music.len()
            invariant
                i <= self@.tracks.len(),
                self@.tracks.len() == self.music.len(),
                forall|j: int| 0 <= j < i ==> self@.tracks[j].file_path != file_path@,
            decreases self.music.len() - i,
        {
            if self.music[i].file_path == *file_path {
                return Some(i);
            }
            i = i + 1;
        }
        None
    }

    /// Whether some track of the playlist has path `file_path`.
    pub fn contains(&self, file_path: &String) -> (r: bool)
        ensures
            r == contains_path(self@.tracks, file_path@),
    {
        self.position_of_path(file_path).is_some()
    }

    /// Index of the track before the one at `file_path`.
    ///
    /// * `None` when the playlist is empty or no track has `file_path`.
    /// * The index just before the match otherwise.
    /// * Wraps to the last index when the match is the first track.
    pub fn previous_of_path(&self, file_path: &String) -> (r: Option<usize>)
        requires
            self.wf(),
        ensures
            match r {
                None => spec_prev_of(self@.tracks, file_path@) is None,
                Some(i) => spec_prev_of(self@.tracks, file_path@) == Some(i as int),
            },
    {
        if self.music.is_empty() {
            return None;
        }
        let current = self.position_of_path(file_path);
        match current {
            None => None,
            Some(current_index) => {
                proof {
                    lemma_path_index_unique(self@.tracks, file_path@, current_index as int);
                }
                if current_index == 0 {
                    Some(self.music.len() - 1)
                } else {
                    Some(current_index - 1)
                }
            },
        }
    }

    /// Index of the track after the one at `file_path`.
    ///
    /// * `None` when the playlist is empty or no track has `file_path`.
    /// * The index just after the match otherwise.
    /// * Wraps to index 0 exactly when the match is the last track.
    pub fn next_of_path(&self, file_path: &String) -> (r: Option<usize>)
        requires
            self.wf(),
        ensures
            match r {
                None => spec_next_of(self@.tracks, file_path@) is None,
                Some(i) => spec_next_of(self@.tracks, file_path@) == Some(i as int),
            },
    {
        if self.music.is_empty() {
            return None;
        }
        let current = self.position_of_path(file_path);
        match current {
            None => None,
            Some(current_index) => {
                proof {
                    lemma_path_index_unique(self@.tracks, file_path@, current_index as int);
                }
                if current_index == self.music.len() - 1 {
                    Some(0)
                } else {
                    Some(current_index + 1)
                }
            },
        }
    }

    /// A copy of the track at `index`, or `None` when `index` is out of
    /// range.
    pub fn music_at(&self, index: usize) -> (r: Option<Music>)
        ensures
            match r {
                None => index >= self@.tracks.len(),
                Some(m) => index < self@.tracks.len() && m@ == self@.tracks[index as int],
            },
    {
        if index < self.music.len() {
            Some(self.music[index].clone())
        } else {
            None
        }
    }

    /// Append the given tracks in order, skipping each one whose path is
    /// already in the playlist.
    pub fn add_music(&mut self, music: Vec<Music>)
        requires
            old(self).wf(),
        ensures
            final(self)@.name == old(self)@.name,
            final(self)@.tracks == add_tracks(old(self)@.tracks, music.deep_view()),
            final(self).wf(),
    {
        let ghost orig_tracks = self@.tracks;
        let ghost orig_new = music.deep_view();
        let mut music = music;
        while music.len() > 0
            invariant
                unique_paths(self@.tracks),
                self@.name == old(self)@.name,
                add_tracks(orig_tracks, orig_new) == add_tracks(self@.tracks, music.deep_view()),
            decreases music.len(),
        {
            let ghost pre_tracks = self@.tracks;
            let ghost pre_new = music.deep_view();
            let m = music.remove(0);
            proof {
                assert(music.deep_view() =~= pre_new.drop_first());
                assert(m@ == pre_new[0]);
            }
            if !self.contains(&m.file_path) {
                let ghost mv = m@;
                self.music.push(m);
                proof {
                    assert(self@.tracks =~= pre_tracks.push(mv));
                    assert(unique_paths(self@.tracks));
                }
            }
        }
        proof {
            assert(music.deep_view() =~= Seq::<MusicView>::empty());
        }
    }

    /// The track that path-based insertion builds for `path`. The track is
    /// only built, not added.
    pub fn add_file_to_list(&self, path: &String) -> (r: Music)
        ensures
            r@ == track_of(path@),
    {
        Music {
            file_path: path.clone(),
            file_name: base_name_of(path),
            state: MusicState::Exists,
            metadata: None,
        }
    }

    /// Add tracks by a file or folder path, given what the file system
    /// shows there.
    ///
    /// * A single file is added when it qualifies (its path ends in
    ///   `.mp3`) and its path is not yet present.
    /// * A directory adds each enumerated entry under the same policy, in
    ///   enumeration order.
    /// * A missing path adds nothing; this is not an error.
    ///
    /// Returns the number of tracks added.
    pub fn add_music_by_path(&mut self, path: &String, info: &PathInfo) -> (r: usize)
        requires
            old(self).wf(),
        ensures
            final(self)@.name == old(self)@.name,
            final(self).wf(),
            final(self)@.tracks == match info {
                PathInfo::Missing => old(self)@.tracks,
                PathInfo::SingleFile => add_paths(old(self)@.tracks, seq![path@]),
                PathInfo::Directory(entries) => add_paths(old(self)@.tracks, entries.deep_view()),
            },
            r == final(self)@.tracks.len() - old(self)@.tracks.len(),
    {
        match info {
            PathInfo::Missing => 0,
            PathInfo::SingleFile => {
                let ghost orig_tracks = self@.tracks;
                let added = self.add_one_qualifying(path);
                proof {
                    let s1 = seq![path@];
                    assert(s1[0] == path@);
                    assert(s1.drop_first() =~= Seq::<Seq<char>>::empty());
                    assert(add_paths(orig_tracks, s1) == add_paths(self@.tracks, s1.drop_first()));
                    assert(add_paths(self@.tracks, Seq::<Seq<char>>::empty()) == self@.tracks);
                    assert(add_paths(orig_tracks, s1) == self@.tracks);
                }
                if added {
                    1
                } else {
                    0
                }
            },
            PathInfo::Directory(entries) => {
                let ghost orig_tracks = self@.tracks;
                let ghost all = entries.deep_view();
                proof {
                    assert(all.subrange(0, all.len() as int) =~= all);
                }
                let mut count: usize = 0;
                let mut i: usize = 0;
                while i < entries.len()
                    invariant
                        i <= entries.len(),
                        all == entries.deep_view(),
                        all.len() == entries.len(),
                        unique_paths(self@.tracks),
                        self@.name == old(self)@.name,
                        self@.tracks.len() == orig_tracks.len() + count,
                        count <= i,
                        add_paths(orig_tracks, all) == add_paths(
                            self@.tracks,
                            all.subrange(i as int, all.len() as int),
                        ),
                    decreases entries.len() - i,
                {
                    let ghost pre_tracks = self@.tracks;
                    let ghost rem = all.subrange(i as int, all.len() as int);
                    proof {
                        assert(rem[0] == all[i as int]);
                        assert(rem.drop_first() =~= all.subrange(i + 1, all.len() as int));
                    }
                    let entry = &entries[i];
                    proof {
                        assert(entry@ == all[i as int]);
                    }
                    let added = self.add_one_qualifying(entry);
                    if added {
                        count = count + 1;
                    }
                    i = i + 1;
                }
                proof {
                    assert(all.subrange(all.len() as int, all.len() as int)
                        =~= Seq::<Seq<char>>::empty());
                }
                count
            },
        }
    }

    /// Append the track for `path` when it qualifies and is not yet
    /// present; report whether a track was appended.
    fn add_one_qualifying(&mut self, path: &String) -> (added: bool)
        requires
            old(self).wf(),
        ensures
            final(self)@.name == old(self)@.name,
            final(self).wf(),
            final(self)@.tracks == (if qualifies(path@) && !contains_path(
                old(self)@.tracks,
                path@,
            ) {
                old(self)@.tracks.push(track_of(path@))
            } else {
                old(self)@.tracks
            }),
            added == (qualifies(path@) && !contains_path(old(self)@.tracks, path@)),
    {
        let ghost pre_tracks = self@.tracks;
        if is_audio_file(path) && !self.contains(path) {
            let m = self.add_file_to_list(path);
            let ghost mv = m@;
            self.music.push(m);
            proof {
                assert(self@.tracks =~= pre_tracks.push(mv));
                assert(unique_paths(self@.tracks));
            }
            true
        } else {
            false
        }
    }

    /// Remove tracks by a file or folder path: every track whose path is
    /// `path` itself or lies below the directory `path` leaves the
    /// playlist; a path matching nothing removes nothing. Only the
    /// playlist changes, never the files. Returns the number removed.
    pub fn remove_music_by_path(&mut self, path: &String) -> (r: usize)
        requires
            old(self).wf(),
        ensures
            final(self)@.name == old(self)@.name,
            final(self).wf(),
            final(self)@.tracks == remove_matching(old(self)@.tracks, path@),
            r == old(self)@.tracks.len() - final(self)@.tracks.len(),
    {
        let ghost orig_tracks = self@.tracks;
        let mut kept: Vec<Music> = Vec::new();
        proof {
            assert(kept.deep_view() =~= Seq::<MusicView>::empty());
            assert(orig_tracks.subrange(0, orig_tracks.len() as int) =~= orig_tracks);
            assert(kept.deep_view() + remove_matching(orig_tracks, path@) =~= remove_matching(
                orig_tracks,
                path@,
            ));
        }
        let mut i: usize = 0;
        while i < self.music.len()
            invariant
                i <= self.music.len(),
                self@.tracks == orig_tracks,
                self@.tracks.len() == self.music.len(),
                kept.deep_view().len() <= i,
                remove_matching(orig_tracks, path@) == kept.deep_view() + remove_matching(
                    orig_tracks.subrange(i as int, orig_tracks.len() as int),
                    path@,
                ),
            decreases self.music.len() - i,
        {
            let ghost pre_kept = kept.deep_view();
            let ghost rem = orig_tracks.subrange(i as int, orig_tracks.len() as int);
            proof {
                assert(rem[0] == orig_tracks[i as int]);
                assert(rem.drop_first() =~= orig_tracks.subrange(
                    i + 1,
                    orig_tracks.len() as int,
                ));
            }
            if !removal_match(&self.music[i].file_path, path) {
                let m = self.music[i].clone();
                let ghost mv = m@;
                kept.push(m);
                proof {
                    assert(kept.deep_view() =~= pre_kept.push(mv));
                    assert(kept.deep_view() + remove_matching(rem.drop_first(), path@)
                        =~= pre_kept + (seq![mv] + remove_matching(rem.drop_first(), path@)));
                }
            }
            i = i + 1;
        }
        proof {
            assert(orig_tracks.subrange(orig_tracks.len() as int, orig_tracks.len() as int)
                =~= Seq::<MusicView>::empty());
            lemma_remove_matching_len(orig_tracks, path@);
            lemma_remove_matching_unique(orig_tracks, path@);
        }
        let removed = self.music.len() - kept.len();
        self.music = kept;
        removed
    }
}

/// Removal never keeps more tracks than there were.
proof fn lemma_remove_matching_len(tracks: Seq<MusicView>, target: Seq<char>)
    ensures
        remove_matching(tracks, target).len() <= tracks.len(),
    decreases tracks.len(),
{
    if tracks.len() > 0 {
        lemma_remove_matching_len(tracks.drop_first(), target);
    }
}

/// Every kept track was a track of the original list.
proof fn lemma_remove_matching_membership(tracks: Seq<MusicView>, target: Seq<char>)
    ensures
        forall|k: int|
            0 <= k < remove_matching(tracks, target).len() ==> exists|m: int|
                0 <= m < tracks.len() && #[trigger] remove_matching(tracks, target)[k]
                    == #[trigger] tracks[m],
    decreases tracks.len(),
{
    if tracks.len() > 0 {
        let rest = tracks.drop_first();
        lemma_remove_matching_membership(rest, target);
        let r = remove_matching(tracks, target);
        let rr = remove_matching(rest, target);
        assert forall|k: int| 0 <= k < r.len() implies exists|m: int|
            0 <= m < tracks.len() && #[trigger] r[k] == #[trigger] tracks[m] by {
            if removal_matches(tracks[0].file_path, target) {
                assert(r[k] == rr[k]);
                let m0 = choose|m: int| 0 <= m < rest.len() && rr[k] == rest[m];
                assert(r[k] == tracks[m0 + 1]);
            } else {
                if k == 0 {
                    assert(r[0] == tracks[0]);
                } else {
                    assert(r[k] == rr[k - 1]);
                    let m0 = choose|m: int| 0 <= m < rest.len() && rr[k - 1] == rest[m];
                    assert(r[k] == tracks[m0 + 1]);
                }
            }
        }
    }
}

/// Removal preserves uniqueness of file paths.
proof fn lemma_remove_matching_unique(tracks: Seq<MusicView>, target: Seq<char>)
    requires
        unique_paths(tracks),
    ensures
        unique_paths(remove_matching(tracks, target)),
    decreases tracks.len(),
{
    if tracks.len() > 0 {
        let rest = tracks.drop_first();
        assert(unique_paths(rest)) by {
            assert forall|a: int, b: int|
                0 <= a < b < rest.len() implies rest[a].file_path != rest[b].file_path by {
                assert(rest[a] == tracks[a + 1]);
                assert(rest[b] == tracks[b + 1]);
            }
        }
        lemma_remove_matching_unique(rest, target);
        lemma_remove_matching_membership(rest, target);
        let r = remove_matching(tracks, target);
        let rr = remove_matching(rest, target);
        if !removal_matches(tracks[0].file_path, target) {
            assert forall|a: int, b: int|
                0 <= a < b < r.len() implies r[a].file_path != r[b].file_path by {
                if a == 0 {
                    assert(r[b] == rr[b - 1]);
                    let m0 = choose|m: int| 0 <= m < rest.len() && rr[b - 1] == rest[m];
                    assert(rest[m0] == tracks[m0 + 1]);
                    assert(tracks[0].file_path != tracks[m0 + 1].file_path);
                } else {
                    assert(r[a] == rr[a - 1]);
                    assert(r[b] == rr[b - 1]);
                }
            }
        }
    }
}

/// The base name of `path`: everything after its last `/`.
pub fn base_name_of(path: &String) -> (r: String)
    ensures
        r@ == base_name(path@),
{
    let s = path.as_str();
    let n = s.unicode_len();
    proof {
        assert(path@.subrange(0, 0) =~= Seq::<char>::empty());
    }
    let mut cut: usize = 0;
    let mut i: usize = 0;
    while i < n
        invariant
            i <= n,
            cut <= i,
            n == path@.len(),
            s@ == path@,
            cut as int == last_slash(path@.subrange(0, i as int)) + 1,
        decreases n - i,
    {
        proof {
            assert(path@.subrange(0, i + 1).drop_last() =~= path@.subrange(0, i as int));
            assert(path@.subrange(0, i + 1)[i as int] == path@[i as int]);
        }
        if s.get_char(i) == '/' {
            cut = i + 1;
        }
        i = i + 1;
    }
    proof {
        assert(path@.subrange(0, n as int) =~= path@);
        assert(cut as int == last_slash(path@) + 1);
    }
    let r = s.substring_char(cut, n);
    r.to_owned()
}

/// Whether `path` qualifies for path-based insertion: it ends in `.mp3`.
pub fn is_audio_file(path: &String) -> (r: bool)
    ensures
        r == qualifies(path@),
{
    let s = path.as_str();
    let n = s.unicode_len();
    if n < 4 {
        return false;
    }
    s.get_char(n - 4) == '.' && s.get_char(n - 3) == 'm' && s.get_char(n - 2) == 'p'
        && s.get_char(n - 1) == '3'
}

/// Whether removal aimed at `target` takes out the track at `track_path`.
fn removal_match(track_path: &String, target: &String) -> (r: bool)
    ensures
        r == removal_matches(track_path@, target@),
{
    if *track_path == *target {
        return true;
    }
    let p = track_path.as_str();
    let d = target.as_str();
    let np = p.unicode_len();
    let nd = d.unicode_len();
    if np <= nd {
        proof {
            assert(!is_descendant(track_path@, target@));
        }
        return false;
    }
    if p.get_char(nd) != '/' {
        proof {
            assert(!is_descendant(track_path@, target@));
        }
        return false;
    }
    let mut i: usize = 0;
    while i < nd
        invariant
            i <= nd,
            np == track_path@.len(),
            nd == target@.len(),
            np > nd,
            p@ == track_path@,
            d@ == target@,
            track_path@[nd as int] == '/',
            forall|j: int| 0 <= j < i ==> track_path@[j] == target@[j],
        decreases nd - i,
    {
        if p.get_char(i) != d.get_char(i) {
            proof {
                assert(track_path@.subrange(0, nd as int)[i as int] != target@[i as int]);
                assert(!is_descendant(track_path@, target@));
            }
            return false;
        }
        i = i + 1;
    }
    proof {
        assert(track_path@.subrange(0, nd as int) =~= target@);
    }
    true
}

/// The first match of a path in a list with unique paths is the only one.
proof fn lemma_path_index_unique(tracks: Seq<MusicView>, path: Seq<char>, i: int)
    requires
        unique_paths(tracks),
        0 <= i < tracks.len(),
        tracks[i].file_path == path,
    ensures
        contains_path(tracks, path),
        path_index(tracks, path) == i,
{
    assert(contains_path(tracks, path));
    let c = path_index(tracks, path);
    assert(0 <= c < tracks.len() && tracks[c].file_path == path);
    if c < i {
        assert(tracks[c].file_path != tracks[i].file_path);
        assert(false);
    }
    if i < c {
        assert(tracks[i].file_path != tracks[c].file_path);
        assert(false);
    }
}

/// Cyclic navigation forward then backward returns to the start: for any
/// track of a playlist with unique paths, looking up the next track and
/// then asking for the previous of that track's path yields the original
/// index.
pub proof fn lemma_next_then_previous(tracks: Seq<MusicView>, i: int)
    requires
        unique_paths(tracks),
        0 <= i < tracks.len(),
    ensures
        spec_next_of(tracks, tracks[i].file_path) == Some(
            if i == tracks.len() - 1 {
                0int
            } else {
                i + 1
            },
        ),
        spec_prev_of(
            tracks,
            tracks[if i == tracks.len() - 1 {
                0int
            } else {
                i + 1
            }].file_path,
        ) == Some(i),
{
    lemma_path_index_unique(tracks, tracks[i].file_path, i);
    let j: int = if i == tracks.len() - 1 {
        0int
    } else {
        i + 1
    };
    lemma_path_index_unique(tracks, tracks[j].file_path, j);
}

/// Cyclic navigation backward then forward returns to the start: the
/// mirror of [`lemma_next_then_previous`].
pub proof fn lemma_previous_then_next(tracks: Seq<MusicView>, i: int)
    requires
        unique_paths(tracks),
        0 <= i < tracks.len(),
    ensures
        spec_prev_of(tracks, tracks[i].file_path) == Some(
            if i == 0 {
                tracks.len() - 1
            } else {
                i - 1
            },
        ),
        spec_next_of(
            tracks,
            tracks[if i == 0 {
                tracks.len() - 1
            } else {
                i - 1
            }].file_path,
        ) == Some(i),
{
    lemma_path_index_unique(tracks, tracks[i].file_path, i);
    let j: int = if i == 0 {
        tracks.len() - 1
    } else {
        i - 1
    };
    lemma_path_index_unique(tracks, tracks[j].file_path, j);
}

/// At the boundaries the wraparound is exact: the next of the last
/// track's path is index 0, and the previous of the first track's path is
/// the last index.
pub proof fn lemma_wraparound(tracks: Seq<MusicView>)
    requires
        unique_paths(tracks),
        tracks.len() > 0,
    ensures
        spec_next_of(tracks, tracks[tracks.len() - 1].file_path) == Some(0int),
        spec_prev_of(tracks, tracks[0].file_path) == Some(tracks.len() - 1),
{
    lemma_path_index_unique(tracks, tracks[tracks.len() - 1].file_path, tracks.len() - 1);
    lemma_path_index_unique(tracks, tracks[0].file_path, 0);
}

} // verus!

