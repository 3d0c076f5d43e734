//! Assembling the folder and audio hierarchy from the rows of the store.
use vstd::prelude::*;
use crate::error::IndexError;
use crate::model::{AudioView, FolderView, IndexAudio, IndexFolder, audios_view, folders_view};
use crate::rows::{
    AudioRow, AudioRowView, FolderRow, FolderRowView, StoreView, StoredIndex, audio_rows_view,
    folder_rows_view,
};

verus! {

/// A stored count or timestamp, negative values read as 0.
pub open spec fn clamp_u64(v: i64) -> u64 {
    if v < 0 {
        0
    } else {
        v as u64
    }
}

/// A stored 32-bit quantity, negative values read as 0; a larger value keeps
/// its low 32 bits, as the cast to `u32` does.
pub open spec fn clamp_u32(v: i64) -> u32 {
    if v < 0 {
        0
    } else {
        v as u32
    }
}

/// A nullable stored 32-bit quantity.
pub open spec fn clamp_opt_u32(o: Option<i64>) -> Option<u32> {
    match o {
        Some(v) => Some(clamp_u32(v)),
        None => None,
    }
}

/// The audio that an audio row reads back as.
pub open spec fn audio_of_row(r: AudioRowView) -> AudioView {
    AudioView {
        title: r.title,
        artist: r.artist,
        album: r.album,
        album_artist: r.album_artist,
        track: clamp_u32(
            match r.track {
                Some(t) => t,
                None => 0,
            },
        ),
        duration: clamp_u64(r.duration),
        bitrate: clamp_opt_u32(r.bitrate),
        sample_rate: clamp_opt_u32(r.sample_rate),
        path: r.path,
        modified: clamp_u64(r.modified),
        created: clamp_u64(r.created),
        by: r.by,
    }
}

/// Whether an audio row is grouped under the folder with path `folder`.
pub open spec fn in_folder(r: AudioRowView, folder: Seq<char>) -> bool {
    r.folder_path == folder
}

/// The audio rows grouped under the folder with path `folder`, in row order.
pub open spec fn rows_in_folder(rows: Seq<AudioRowView>, folder: Seq<char>) -> Seq<AudioRowView> {
    rows.filter(|r: AudioRowView| in_folder(r, folder))
}

/// The audios grouped under the folder with path `folder`, in row order.
pub open spec fn audios_in_folder(rows: Seq<AudioRowView>, folder: Seq<char>) -> Seq<AudioView> {
    rows_in_folder(rows, folder).map_values(|r: AudioRowView| audio_of_row(r))
}

/// The folder that a folder row reads back as, with its audios.
pub open spec fn folder_of_row(f: FolderRowView, audios: Seq<AudioRowView>) -> FolderView {
    FolderView {
        path: f.path,
        modified: clamp_u64(f.modified),
        latest: clamp_u64(f.latest),
        audios: audios_in_folder(audios, f.path),
    }
}

/// The catalog that a read of the store gives: one folder per folder row, in
/// row order; audio rows whose folder has no row are left out.
pub open spec fn catalog_of(s: StoreView) -> Result<Seq<FolderView>, IndexError> {
    if !s.initialized {
        Err(IndexError::NotInitialized)
    } else {
        Ok(s.folders.map_values(|f: FolderRowView| folder_of_row(f, s.audios)))
    }
}

/// The value of the outcome of a read.
pub open spec fn catalog_result_view(r: Result<Vec<IndexFolder>, IndexError>) -> Result<
    Seq<FolderView>,
    IndexError,
> {
    match r {
        Ok(folders) => Ok(folders_view(folders@)),
        Err(e) => Err(e),
    }
}

fn clamp_to_u64(v: i64) -> (r: u64)
    ensures
        r == clamp_u64(v),
{
    if v < 0 {
        0
    } else {
        v as u64
    }
}

fn clamp_to_u32(v: i64) -> (r: u32)
    ensures
        r == clamp_u32(v),
{
    if v < 0 {
        0
    } else {
        #[verifier::truncate]
        (v as u32)
    }
}

fn clamp_opt_to_u32(o: Option<i64>) -> (r: Option<u32>)
    ensures
        r == clamp_opt_u32(o),
{
    match o {
        Some(v) => Some(clamp_to_u32(v)),
        None => None,
    }
}

fn copy_text(o: &Option<String>) -> (r: Option<String>)
    ensures
        r == *o,
{
    match o {
        Some(s) => Some(s.clone()),
        None => None,
    }
}

/// The audio that an audio row reads back as.
pub fn audio_from_row(row: &AudioRow) -> (r: IndexAudio)
    ensures
        r@ == audio_of_row(row@),
{
    let track = match row.track {
        Some(t) => t,
        None => 0,
    };
    IndexAudio {
        title: row.title.clone(),
        artist: row.artist.clone(),
        album: row.album.clone(),
        album_artist: copy_text(&row.album_artist),
        track: clamp_to_u32(track),
        duration: clamp_to_u64(row.duration),
        bitrate: clamp_opt_to_u32(row.bitrate),
        sample_rate: clamp_opt_to_u32(row.sample_rate),
        path: row.path.clone(),
        modified: clamp_to_u64(row.modified),
        created: clamp_to_u64(row.created),
        by: copy_text(&row.by),
    }
}

/// The audios of the rows grouped under the folder with path `folder`, in row
/// order.
pub fn audios_of_folder(rows: &Vec<AudioRow>, folder: &String) -> (r: Vec<IndexAudio>)
    ensures
        audios_view(r@) == audios_in_folder(audio_rows_view(rows@), folder@),
{
    let ghost all = audio_rows_view(rows@);
    let mut out: Vec<IndexAudio> = Vec::new();
    let n = rows.len();
    let mut i: usize = 0;
    proof {
        reveal(Seq::filter);
        assert(rows_in_folder(all.take(0), folder@) =~= Seq::<AudioRowView>::empty());
    }
    assert(audios_view(out@) =~= audios_in_folder(all.take(0), folder@));
    while i < n
        invariant
            n == rows@.len(),
            all == audio_rows_view(rows@),
            i <= n,
            audios_view(out@) == audios_in_folder(all.take(i as int), folder@),
        decreases n - i,
    {
        let ghost prev = rows_in_folder(all.take(i as int), folder@);
        proof {
            reveal(Seq::filter);
            assert(all.take(i + 1).drop_last() =~= all.take(i as int));
            assert(all.take(i + 1).last() == rows@[i as int]@);
        }
        if rows[i].folder_path == *folder {
            let audio = audio_from_row(&rows[i]);
            let ghost before = out@;
            out.push(audio);
            proof {
                let next = rows_in_folder(all.take(i + 1), folder@);
                assert(next == prev.push(rows@[i as int]@));
                assert(next.map_values(|r: AudioRowView| audio_of_row(r)) =~= prev.map_values(
                    |r: AudioRowView| audio_of_row(r),
                ).push(audio@));
                assert(audios_view(out@) =~= audios_view(before).push(audio@));
            }
        } else {
            assert(rows_in_folder(all.take(i + 1), folder@) == prev);
        }
        i = i + 1;
    }
    assert(all.take(n as int) =~= all);
    out
}

/// Assembles the catalog from what a read loaded from the store: refuses a
/// store that was never rebuilt, and otherwise gives one folder per folder
/// row, in row order, each with the audios grouped under it, in row order,
/// negative stored numbers read as 0.
pub fn read_index_from_sqlite(stored: StoredIndex) -> (r: Result<Vec<IndexFolder>, IndexError>)
    ensures
        catalog_result_view(r) == catalog_of(stored@),
{
    if !stored.initialized {
        return Err(IndexError::NotInitialized);
    }
    let ghost rows = stored@;
    let mut result: Vec<IndexFolder> = Vec::with_capacity(stored.folders.len());
    let n = stored.folders.len();
    let mut i: usize = 0;
    while i < n
        invariant
            n == stored.folders@.len(),
            rows == stored@,
            i <= n,
            folders_view(result@) =~= rows.folders.take(i as int).map_values(
                |f: FolderRowView| folder_of_row(f, rows.audios),
            ),
        decreases n - i,
    {
        let row = &stored.folders[i];
        let folder = IndexFolder {
            path: row.path.clone(),
            modified: clamp_to_u64(row.modified),
            latest: clamp_to_u64(row.latest),
            audios: audios_of_folder(&stored.audios, &row.path),
        };
        let ghost before = result@;
        result.push(folder);
        proof {
            assert(rows.folders.take(i + 1) =~= rows.folders.take(i as int).push(
                stored.folders@[i as int]@,
            ));
            assert(folders_view(result@) =~= folders_view(before).push(folder@));
        }
        i = i + 1;
    }
    assert(rows.folders.take(n as int) =~= rows.folders);
    Ok(result)
}

} // verus!
