//! Properties of rebuilding the store from a manifest and reading it back.
use vstd::prelude::*;
use crate::catalog::{audio_of_row, audios_in_folder, catalog_of, folder_of_row, rows_in_folder};
use crate::error::IndexError;
use crate::json::{JsonValue, items_of, text_of, u64_of};
use crate::manifest::{
    or_empty, or_zero, audio_row_of, folder_rows_of, index_rows_of, lemma_manifest_rows_err_extends, manifest_rows_of,
};
use crate::model::{AudioView, FolderView};
use crate::rows::{AudioRowView, FolderRowView, StoreView};
use crate::store::store_after_rebuild;

verus! {

/// Lexicographic order of texts by code point, which is the byte order of
/// their UTF-8 encodings (the order in which the store sorts text keys).
pub open spec fn text_le(a: Seq<char>, b: Seq<char>) -> bool
    decreases a.len(),
{
    if a.len() == 0 {
        true
    } else if b.len() == 0 {
        false
    } else if a[0] != b[0] {
        (a[0] as u32) < (b[0] as u32)
    } else {
        text_le(a.drop_first(), b.drop_first())
    }
}

/// Folder rows in ascending path order.
pub open spec fn folder_rows_sorted(s: Seq<FolderRowView>) -> bool {
    forall|i: int, j: int| 0 <= i < j < s.len() ==> text_le(s[i].path, s[j].path)
}

/// Audio rows in ascending order of folder path, then of path.
pub open spec fn audio_rows_sorted(s: Seq<AudioRowView>) -> bool {
    forall|i: int, j: int|
        0 <= i < j < s.len() ==> text_le(s[i].folder_path, s[j].folder_path) && (s[i].folder_path
            == s[j].folder_path ==> text_le(s[i].path, s[j].path))
}

/// Folders in ascending path order.
pub open spec fn folders_sorted(s: Seq<FolderView>) -> bool {
    forall|i: int, j: int| 0 <= i < j < s.len() ==> text_le(s[i].path, s[j].path)
}

/// Audios in ascending path order.
pub open spec fn audios_sorted(s: Seq<AudioView>) -> bool {
    forall|i: int, j: int| 0 <= i < j < s.len() ==> text_le(s[i].path, s[j].path)
}

/// Rebuilding twice from the same manifest leaves the store as rebuilding
/// once does.
pub proof fn lemma_rebuild_idempotent(prior: StoreView, index: JsonValue)
    ensures
        store_after_rebuild(store_after_rebuild(prior, index_rows_of(index)), index_rows_of(index))
            == store_after_rebuild(prior, index_rows_of(index)),
        catalog_of(
            store_after_rebuild(store_after_rebuild(prior, index_rows_of(index)), index_rows_of(index)),
        ) == catalog_of(store_after_rebuild(prior, index_rows_of(index))),
{
}

/// A manifest with a folder that has no `path` string is refused, and the
/// rebuild leaves the store's earlier contents unchanged.
pub proof fn lemma_folder_without_path_keeps_store(prior: StoreView, index: JsonValue, i: int)
    requires
        items_of(index.field("folders"@)) is Some,
        0 <= i < items_of(index.field("folders"@))->Some_0.len(),
        text_of(items_of(index.field("folders"@))->Some_0[i].field("path"@)) is None,
    ensures
        index_rows_of(index) is Err,
        store_after_rebuild(prior, index_rows_of(index)) == prior,
{
    let folders = items_of(index.field("folders"@))->Some_0;
    assert(folders.take(i + 1).drop_last() =~= folders.take(i));
    assert(folders.take(i + 1).last() == folders[i]);
    if manifest_rows_of(folders.take(i)) is Err {
        lemma_manifest_rows_err_extends(folders, i, i + 1);
    }
    assert(manifest_rows_of(folders.take(i + 1)) is Err);
    lemma_manifest_rows_err_extends(folders, i + 1, folders.len() as int);
    assert(folders.take(folders.len() as int) =~= folders);
}

/// An audio whose optional fields are absent (or not of their type) reads
/// back with those fields absent and its numbers 0; so does a folder's
/// timestamps.
pub proof fn lemma_defaults_read_back(
    folder: JsonValue,
    audio: JsonValue,
    audio_rows: Seq<AudioRowView>,
)
    requires
        folder_rows_of(folder) is Ok,
        u64_of(folder.field("modified"@)) is None,
        u64_of(folder.field("latest"@)) is None,
        text_of(audio.field("path"@)) is Some,
        text_of(audio.field("album_artist"@)) is None,
        u64_of(audio.field("track"@)) is None,
        u64_of(audio.field("duration"@)) is None,
        u64_of(audio.field("bitrate"@)) is None,
        u64_of(audio.field("sample_rate"@)) is None,
        u64_of(audio.field("modified"@)) is None,
        u64_of(audio.field("created"@)) is None,
        text_of(audio.field("by"@)) is None,
    ensures
        ({
            let f = folder_of_row(folder_rows_of(folder)->Ok_0.0, audio_rows);
            f.modified == 0 && f.latest == 0
        }),
        forall|folder_path: Seq<char>|
            {
                let a = #[trigger] audio_of_row(audio_row_of(audio, folder_path)->Some_0);
                &&& a.album_artist is None
                &&& a.bitrate is None
                &&& a.sample_rate is None
                &&& a.by is None
                &&& a.track == 0
                &&& a.duration == 0
                &&& a.modified == 0
                &&& a.created == 0
            },
{
}

/// Whether an optional number fits a 32-bit column.
pub open spec fn fits_u32(o: Option<u64>) -> bool {
    match o {
        Some(n) => n <= u32::MAX,
        None => true,
    }
}

/// The 32-bit value of an optional number.
pub open spec fn narrowed(o: Option<u64>) -> Option<u32> {
    match o {
        Some(n) => Some(n as u32),
        None => None,
    }
}

/// An audio of a manifest reads back with every field as the manifest gives
/// it (absent optional fields with their defaults), where its numbers fit the
/// store's columns.
pub proof fn lemma_audio_round_trip(audio: JsonValue, folder_path: Seq<char>)
    requires
        text_of(audio.field("path"@)) is Some,
        or_zero(u64_of(audio.field("track"@))) <= u32::MAX,
        or_zero(u64_of(audio.field("duration"@))) <= i64::MAX,
        or_zero(u64_of(audio.field("modified"@))) <= i64::MAX,
        or_zero(u64_of(audio.field("created"@))) <= i64::MAX,
        fits_u32(u64_of(audio.field("bitrate"@))),
        fits_u32(u64_of(audio.field("sample_rate"@))),
    ensures
        ({
            let a = audio_of_row(audio_row_of(audio, folder_path)->Some_0);
            &&& a.path == text_of(audio.field("path"@))->Some_0
            &&& a.title == or_empty(text_of(audio.field("title"@)))
            &&& a.artist == or_empty(text_of(audio.field("artist"@)))
            &&& a.album == or_empty(text_of(audio.field("album"@)))
            &&& a.album_artist == text_of(audio.field("album_artist"@))
            &&& a.track == or_zero(u64_of(audio.field("track"@)))
            &&& a.duration == or_zero(u64_of(audio.field("duration"@)))
            &&& a.bitrate == narrowed(u64_of(audio.field("bitrate"@)))
            &&& a.sample_rate == narrowed(u64_of(audio.field("sample_rate"@)))
            &&& a.modified == or_zero(u64_of(audio.field("modified"@)))
            &&& a.created == or_zero(u64_of(audio.field("created"@)))
            &&& a.by == text_of(audio.field("by"@))
        }),
{
}

/// A stored count or timestamp that is negative reads back as 0.
pub proof fn lemma_negative_reads_as_zero(
    folder: FolderRowView,
    audio: AudioRowView,
    audio_rows: Seq<AudioRowView>,
)
    ensures
        folder.modified < 0 ==> folder_of_row(folder, audio_rows).modified == 0,
        folder.latest < 0 ==> folder_of_row(folder, audio_rows).latest == 0,
        audio.duration < 0 ==> audio_of_row(audio).duration == 0,
        audio.modified < 0 ==> audio_of_row(audio).modified == 0,
        audio.created < 0 ==> audio_of_row(audio).created == 0,
        audio.track matches Some(t) && t < 0 ==> audio_of_row(audio).track == 0,
{
}

/// A store that was never rebuilt reads as an error, distinct from the empty
/// catalog of a store rebuilt from a manifest without folders; after a
/// successful rebuild the store reads as a catalog.
pub proof fn lemma_uninitialized_is_distinct(s: StoreView, index: JsonValue)
    ensures
        !s.initialized ==> catalog_of(s) == Err::<Seq<FolderView>, IndexError>(
            IndexError::NotInitialized,
        ),
        s.initialized && s.folders.len() == 0 ==> catalog_of(s) == Ok::<
            Seq<FolderView>,
            IndexError,
        >(Seq::empty()),
        index_rows_of(index) is Ok ==> catalog_of(store_after_rebuild(s, index_rows_of(index))) is Ok,
{
    if s.initialized && s.folders.len() == 0 {
        assert(s.folders.map_values(|f: FolderRowView| folder_of_row(f, s.audios)) =~= Seq::<
            FolderView,
        >::empty());
    }
}

/// Each element of a filtered sequence of audio rows is an element of the
/// sequence, grouped under the folder filtered for.
proof fn lemma_filter_from(rows: Seq<AudioRowView>, folder: Seq<char>)
    ensures
        forall|i: int|
            0 <= i < rows_in_folder(rows, folder).len() ==> exists|k: int|
                0 <= k < rows.len() && rows[k] == #[trigger] rows_in_folder(rows, folder)[i] && rows[k].folder_path == folder,
    decreases rows.len(),
{
    reveal(Seq::filter);
    if rows.len() > 0 {
        let init = rows.drop_last();
        lemma_filter_from(init, folder);
        let f = rows_in_folder(rows, folder);
        let g = rows_in_folder(init, folder);
        assert forall|i: int| 0 <= i < f.len() implies exists|k: int|
            0 <= k < rows.len() && rows[k] == #[trigger] f[i] && rows[k].folder_path == folder by {
            if i < g.len() {
                let k = choose|k: int|
                    0 <= k < init.len() && init[k] == #[trigger] g[i] && init[k].folder_path
                        == folder;
                assert(rows[k] == f[i]);
            } else {
                assert(rows[rows.len() - 1] == f[i]);
            }
        }
    }
}

/// The audio rows grouped under one folder keep the path order of sorted rows.
proof fn lemma_filter_sorted(rows: Seq<AudioRowView>, folder: Seq<char>)
    requires
        audio_rows_sorted(rows),
    ensures
        ({
            let f = rows_in_folder(rows, folder);
            forall|i: int, j: int| 0 <= i < j < f.len() ==> text_le(f[i].path, f[j].path)
        }),
    decreases rows.len(),
{
    reveal(Seq::filter);
    if rows.len() > 0 {
        let init = rows.drop_last();
        assert(audio_rows_sorted(init));
        lemma_filter_sorted(init, folder);
        lemma_filter_from(init, folder);
        let f = rows_in_folder(rows, folder);
        let g = rows_in_folder(init, folder);
        assert forall|i: int, j: int| 0 <= i < j < f.len() implies text_le(f[i].path, f[j].path) by {
            if j >= g.len() {
                let k = choose|k: int|
                    0 <= k < init.len() && init[k] == #[trigger] g[i] && init[k].folder_path
                        == folder;
                assert(rows[k] == f[i]);
                assert(f[j] == rows.last());
            }
        }
    }
}

/// Where the store hands back its folder rows in path order and its audio
/// rows in (folder path, path) order, as its queries ask, the catalog lists
/// its folders in path order and each folder's audios in path order.
pub proof fn lemma_catalog_sorted(s: StoreView)
    requires
        s.initialized,
        folder_rows_sorted(s.folders),
        audio_rows_sorted(s.audios),
    ensures
        folders_sorted(catalog_of(s)->Ok_0),
        forall|i: int|
            0 <= i < catalog_of(s)->Ok_0.len() ==> audios_sorted(
                #[trigger] catalog_of(s)->Ok_0[i].audios,
            ),
{
    let c = catalog_of(s)->Ok_0;
    assert forall|i: int| 0 <= i < c.len() implies audios_sorted(#[trigger] c[i].audios) by {
        let folder = s.folders[i].path;
        lemma_filter_sorted(s.audios, folder);
        assert(c[i].audios == audios_in_folder(s.audios, folder));
    }
}

} // verus!
