use vstd::prelude::*;
use crate::model::opt_text;

verus! {

/// A row of the store's folder table.
#[derive(Clone, Debug, PartialEq, Eq)]
pub struct FolderRow {
    pub path: String,
    pub modified: i64,
    pub latest: i64,
}

/// A row of the store's audio table; `folder_path` names the folder it is
/// grouped under.
#[derive(Clone, Debug, PartialEq, Eq)]
pub struct AudioRow {
    pub path: String,
    pub folder_path: String,
    pub title: String,
    pub artist: String,
    pub album: String,
    pub album_artist: Option<String>,
    pub track: Option<i64>,
    pub duration: i64,
    pub bitrate: Option<i64>,
    pub sample_rate: Option<i64>,
    pub modified: i64,
    pub created: i64,
    pub by: Option<String>,
}

/// Everything a rebuild writes: the version marker and the rows of both
/// tables, in manifest order.
#[derive(Clone, Debug, PartialEq, Eq)]
pub struct IndexRows {
    pub version: u64,
    pub folders: Vec<FolderRow>,
    pub audios: Vec<AudioRow>,
}

/// What a read loads from the store: whether the version marker is present,
/// the folder rows ordered by path, and the audio rows ordered by folder path
/// and then path.
#[derive(Clone, Debug, PartialEq, Eq)]
pub struct StoredIndex {
    pub initialized: bool,
    pub folders: Vec<FolderRow>,
    pub audios: Vec<AudioRow>,
}

/// The value of a [`FolderRow`].
pub struct FolderRowView {
    pub path: Seq<char>,
    pub modified: i64,
    pub latest: i64,
}

/// The value of an [`AudioRow`].
pub struct AudioRowView {
    pub path: Seq<char>,
    pub folder_path: Seq<char>,
    pub title: Seq<char>,
    pub artist: Seq<char>,
    pub album: Seq<char>,
    pub album_artist: Option<Seq<char>>,
    pub track: Option<i64>,
    pub duration: i64,
    pub bitrate: Option<i64>,
    pub sample_rate: Option<i64>,
    pub modified: i64,
    pub created: i64,
    pub by: Option<Seq<char>>,
}

/// The value of an [`IndexRows`].
pub struct IndexRowsView {
    pub version: u64,
    pub folders: Seq<FolderRowView>,
    pub audios: Seq<AudioRowView>,
}

/// The contents of the store, as a read loads them.
pub struct StoreView {
    pub initialized: bool,
    pub folders: Seq<FolderRowView>,
    pub audios: Seq<AudioRowView>,
}

impl View for FolderRow {
    type V = FolderRowView;

    open spec fn view(&self) -> FolderRowView {
        FolderRowView { path: self.path@, modified: self.modified, latest: self.latest }
    }
}

impl View for AudioRow {
    type V = AudioRowView;

    open spec fn view(&self) -> AudioRowView {
        AudioRowView {
            path: self.path@,
            folder_path: self.folder_path@,
            title: self.title@,
            artist: self.artist@,
            album: self.album@,
            album_artist: opt_text(self.album_artist),
            track: self.track,
            duration: self.duration,
            bitrate: self.bitrate,
            sample_rate: self.sample_rate,
            modified: self.modified,
            created: self.created,
            by: opt_text(self.by),
        }
    }
}

/// The values of a sequence of folder rows.
pub open spec fn folder_rows_view(s: Seq<FolderRow>) -> Seq<FolderRowView> {
    s.map_values(|r: FolderRow| r@)
}

/// The values of a sequence of audio rows.
pub open spec fn audio_rows_view(s: Seq<AudioRow>) -> Seq<AudioRowView> {
    s.map_values(|r: AudioRow| r@)
}

impl View for IndexRows {
    type V = IndexRowsView;

    open spec fn view(&self) -> IndexRowsView {
        IndexRowsView {
            version: self.version,
            folders: folder_rows_view(self.folders@),
            audios: audio_rows_view(self.audios@),
        }
    }
}

impl View for StoredIndex {
    type V = StoreView;

    open spec fn view(&self) -> StoreView {
        StoreView {
            initialized: self.initialized,
            folders: folder_rows_view(self.folders@),
            audios: audio_rows_view(self.audios@),
        }
    }
}

} // verus!
