use vstd::prelude::*;

verus! {

/// The text of an optional string.
pub open spec fn opt_text(o: Option<String>) -> Option<Seq<char>> {
    match o {
        Some(s) => Some(s@),
        None => None,
    }
}

/// An audio track of the catalog.
#[derive(Clone, Debug, PartialEq, Eq)]
pub struct IndexAudio {
    pub title: String,
    pub artist: String,
    pub album: String,
    pub album_artist: Option<String>,
    pub track: u32,
    pub duration: u64,
    pub bitrate: Option<u32>,
    pub sample_rate: Option<u32>,
    pub path: String,
    pub modified: u64,
    pub created: u64,
    pub by: Option<String>,
}

/// A folder of the catalog with its audio tracks.
#[derive(Clone, Debug, PartialEq, Eq)]
pub struct IndexFolder {
    pub path: String,
    pub modified: u64,
    pub latest: u64,
    pub audios: Vec<IndexAudio>,
}

/// The value of an [`IndexAudio`], its strings seen as text.
pub struct AudioView {
    pub title: Seq<char>,
    pub artist: Seq<char>,
    pub album: Seq<char>,
    pub album_artist: Option<Seq<char>>,
    pub track: u32,
    pub duration: u64,
    pub bitrate: Option<u32>,
    pub sample_rate: Option<u32>,
    pub path: Seq<char>,
    pub modified: u64,
    pub created: u64,
    pub by: Option<Seq<char>>,
}

/// The value of an [`IndexFolder`].
pub struct FolderView {
    pub path: Seq<char>,
    pub modified: u64,
    pub latest: u64,
    pub audios: Seq<AudioView>,
}

impl View for IndexAudio {
    type V = AudioView;

    open spec fn view(&self) -> AudioView {
        AudioView {
            title: self.title@,
            artist: self.artist@,
            album: self.album@,
            album_artist: opt_text(self.album_artist),
            track: self.track,
            duration: self.duration,
            bitrate: self.bitrate,
            sample_rate: self.sample_rate,
            path: self.path@,
            modified: self.modified,
            created: self.created,
            by: opt_text(self.by),
        }
    }
}

/// The values of a sequence of audios.
pub open spec fn audios_view(s: Seq<IndexAudio>) -> Seq<AudioView> {
    s.map_values(|a: IndexAudio| a@)
}

impl View for IndexFolder {
    type V = FolderView;

    open spec fn view(&self) -> FolderView {
        FolderView {
            path: self.path@,
            modified: self.modified,
            latest: self.latest,
            audios: audios_view(self.audios@),
        }
    }
}

/// The values of a sequence of folders.
pub open spec fn folders_view(s: Seq<IndexFolder>) -> Seq<FolderView> {
    s.map_values(|f: IndexFolder| f@)
}

} // verus!
