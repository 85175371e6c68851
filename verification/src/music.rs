//! Track model: a music entry of a playlist, its file state and its
//! cached tag metadata.

use vstd::prelude::*;

verus! {

/// Whether the file behind a track is known to exist.
#[derive(Clone, Copy, Debug, PartialEq, Eq, Structural)]
pub enum MusicState {
    /// Music file exists.
    Exists,
    /// Music file not exists.
    NotExists,
    /// Unknown state, not checked yet.
    Unknown,
}

impl Default for MusicState {
    /// Before the first check the state of a track is unknown.
    fn default() -> (r: Self)
        ensures
            r == MusicState::Unknown,
    {
        MusicState::Unknown
    }
}

/// Mathematical value of a [`Metadata`].
pub struct MetadataView {
    pub title: Option<Seq<char>>,
    pub artist: Seq<Seq<char>>,
    pub album: Option<Seq<char>>,
    pub duration_ms: u64,
}

/// Cached tag data of a music file: title, artists, album and duration
/// in milliseconds.
pub struct Metadata {
    title: Option<String>,
    artist: Vec<String>,
    album: Option<String>,
    duration_ms: u64,
}

impl View for Metadata {
    type V = MetadataView;

    closed spec fn view(&self) -> MetadataView {
        MetadataView {
            title: match self.title {
                Some(ref t) => Some(t@),
                None => None,
            },
            artist: self.artist.deep_view(),
            album: match self.album {
                Some(ref a) => Some(a@),
                None => None,
            },
            duration_ms: self.duration_ms,
        }
    }
}

impl Metadata {
    /// Build a metadata record from its tag fields.
    pub fn new(title: Option<String>, artist: Vec<String>, album: Option<String>, duration_ms: u64) -> (r: Metadata)
        ensures
            r@ == (MetadataView {
                title: match title {
                    Some(t) => Some(t@),
                    None => None,
                },
                artist: artist.deep_view(),
                album: match album {
                    Some(a) => Some(a@),
                    None => None,
                },
                duration_ms,
            }),
    {
        Metadata { title, artist, album, duration_ms }
    }

    /// Title tag, if any.
    pub fn title(&self) -> (r: &Option<String>)
        ensures
            self@.title == match r {
                Some(t) => Some(t@),
                None => None::<Seq<char>>,
            },
    {
        &self.title
    }

    /// Artist tags; a track may name several artists.
    pub fn artist(&self) -> (r: &Vec<String>)
        ensures
            r.deep_view() == self@.artist,
    {
        &self.artist
    }

    /// Album tag, if any.
    pub fn album(&self) -> (r: &Option<String>)
        ensures
            self@.album == match r {
                Some(a) => Some(a@),
                None => None::<Seq<char>>,
            },
    {
        &self.album
    }

    /// Track duration in milliseconds.
    pub fn duration_ms(&self) -> (r: u64)
        ensures
            r == self@.duration_ms,
    {
        self.duration_ms
    }
}

impl Clone for Metadata {
    fn clone(&self) -> (r: Self)
        ensures
            r@ == self@,
    {
        let mut artist: Vec<String> = Vec::new();
        let mut i: usize = 0;
        while i < self.artist.len()
            invariant
                i <= self.artist.len(),
                artist@.len() == i,
                forall|j: int| 0 <= j < i ==> artist@[j]@ == self.artist@[j]@,
            decreases self.artist.len() - i,
        {
            artist.push(self.artist[i].clone());
            i = i + 1;
        }
        let r = Metadata {
            title: match &self.title {
                Some(t) => Some(t.clone()),
                None => None,
            },
            artist,
            album: match &self.album {
                Some(a) => Some(a.clone()),
                None => None,
            },
            duration_ms: self.duration_ms,
        };
        proof {
            assert(r@.artist =~= self@.artist);
            assert(r@ =~= self@);
        }
        r
    }
}

/// Mathematical value of a [`Music`] entry.
pub struct MusicView {
    pub file_path: Seq<char>,
    pub file_name: Seq<char>,
    pub state: MusicState,
    pub metadata: Option<MetadataView>,
}

/// One entry of a playlist. Identity within a playlist is `file_path`.
pub struct Music {
    /// File path of the music file; the unique key within a playlist.
    pub file_path: String,

    /// File name (base name) of the music file.
    pub file_name: String,

    /// Whether the backing file is known to exist.
    pub state: MusicState,

    /// Cached tag metadata, if any was read.
    pub metadata: Option<Metadata>,
}

impl View for Music {
    type V = MusicView;

    open spec fn view(&self) -> MusicView {
        MusicView {
            file_path: self.file_path@,
            file_name: self.file_name@,
            state: self.state,
            metadata: match self.metadata {
                Some(ref m) => Some(m@),
                None => None,
            },
        }
    }
}

impl DeepView for Music {
    type V = MusicView;

    open spec fn deep_view(&self) -> MusicView {
        self.view()
    }
}

impl Clone for Music {
    fn clone(&self) -> (r: Self)
        ensures
            r@ == self@,
    {
        let r = Music {
            file_path: self.file_path.clone(),
            file_name: self.file_name.clone(),
            state: self.state,
            metadata: match &self.metadata {
                Some(m) => Some(m.clone()),
                None => None,
            },
        };
        proof {
            assert(r@ =~= self@);
        }
        r
    }
}

} // verus!
