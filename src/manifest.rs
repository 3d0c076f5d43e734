//! Decoding a manifest into the rows of a rebuild, with the default of each
//! optional field.
use vstd::prelude::*;
use crate::error::IndexError;
use crate::json::{JsonValue, items_of, text_of, u64_of};
use crate::model::opt_text;
use crate::rows::{
    AudioRow, AudioRowView, FolderRow, FolderRowView, IndexRows, IndexRowsView, audio_rows_view,
    folder_rows_view,
};

verus! {

/// A number, or 0 where it is absent.
pub open spec fn or_zero(o: Option<u64>) -> u64 {
    match o {
        Some(n) => n,
        None => 0,
    }
}

/// A text, or the empty text where it is absent.
pub open spec fn or_empty(o: Option<Seq<char>>) -> Seq<char> {
    match o {
        Some(s) => s,
        None => Seq::empty(),
    }
}

/// How a number is kept in a signed column of the store: a number above
/// `i64::MAX` wraps to a negative value, which reads back as 0.
pub open spec fn stored(n: u64) -> i64 {
    n as i64
}

/// How an optional number is kept in a nullable signed column.
pub open spec fn stored_opt(o: Option<u64>) -> Option<i64> {
    match o {
        Some(n) => Some(stored(n)),
        None => None,
    }
}

/// The row of an audio of the manifest that lies in folder `folder`;
/// `None` where it has no `path` string.
pub open spec fn audio_row_of(a: JsonValue, folder: Seq<char>) -> Option<AudioRowView> {
    match text_of(a.field("path"@)) {
        None => None,
        Some(path) => Some(
            AudioRowView {
                path: path,
                folder_path: folder,
                title: or_empty(text_of(a.field("title"@))),
                artist: or_empty(text_of(a.field("artist"@))),
                album: or_empty(text_of(a.field("album"@))),
                album_artist: text_of(a.field("album_artist"@)),
                track: Some(stored(or_zero(u64_of(a.field("track"@))))),
                duration: stored(or_zero(u64_of(a.field("duration"@)))),
                bitrate: stored_opt(u64_of(a.field("bitrate"@))),
                sample_rate: stored_opt(u64_of(a.field("sample_rate"@))),
                modified: stored(or_zero(u64_of(a.field("modified"@)))),
                created: stored(or_zero(u64_of(a.field("created"@)))),
                by: text_of(a.field("by"@)),
            },
        ),
    }
}

/// The rows of the audios of folder `folder`, in order; `None` where one of
/// them has no `path` string.
pub open spec fn audio_rows_of(audios: Seq<JsonValue>, folder: Seq<char>) -> Option<
    Seq<AudioRowView>,
>
    decreases audios.len(),
{
    if audios.len() == 0 {
        Some(Seq::empty())
    } else {
        match (audio_rows_of(audios.drop_last(), folder), audio_row_of(audios.last(), folder)) {
            (Some(rows), Some(row)) => Some(rows.push(row)),
            _ => None,
        }
    }
}

/// The row of a folder of the manifest and the rows of its audios.
pub open spec fn folder_rows_of(f: JsonValue) -> Result<
    (FolderRowView, Seq<AudioRowView>),
    IndexError,
> {
    match text_of(f.field("path"@)) {
        None => Err(IndexError::MissingFolderPath),
        Some(path) => match items_of(f.field("audios"@)) {
            None => Err(IndexError::MissingFolderAudios),
            Some(audios) => match audio_rows_of(audios, path) {
                None => Err(IndexError::MissingAudioPath),
                Some(rows) => Ok(
                    (
                        FolderRowView {
                            path: path,
                            modified: stored(or_zero(u64_of(f.field("modified"@)))),
                            latest: stored(or_zero(u64_of(f.field("latest"@)))),
                        },
                        rows,
                    ),
                ),
            },
        },
    }
}

/// The folder rows and audio rows of a sequence of folders of the manifest,
/// in order; the error of the first folder that has one.
pub open spec fn manifest_rows_of(folders: Seq<JsonValue>) -> Result<
    (Seq<FolderRowView>, Seq<AudioRowView>),
    IndexError,
>
    decreases folders.len(),
{
    if folders.len() == 0 {
        Ok((Seq::empty(), Seq::empty()))
    } else {
        match manifest_rows_of(folders.drop_last()) {
            Err(e) => Err(e),
            Ok((fs, audios)) => match folder_rows_of(folders.last()) {
                Err(e) => Err(e),
                Ok((f, more)) => Ok((fs.push(f), audios + more)),
            },
        }
    }
}

/// What a rebuild from manifest `index` writes, or why it is refused.
pub open spec fn index_rows_of(index: JsonValue) -> Result<IndexRowsView, IndexError> {
    match items_of(index.field("folders"@)) {
        None => Err(IndexError::MissingFolders),
        Some(folders) => match manifest_rows_of(folders) {
            Err(e) => Err(e),
            Ok((fs, audios)) => Ok(
                IndexRowsView {
                    version: or_zero(u64_of(index.field("version"@))),
                    folders: fs,
                    audios: audios,
                },
            ),
        },
    }
}

/// The non-negative integer member `key` of `v`, if there is one.
fn u64_field(v: &JsonValue, key: &str) -> (r: Option<u64>)
    ensures
        r == u64_of(v.field(key@)),
{
    let name = key.to_owned();
    match v.get(&name) {
        Some(x) => x.as_u64(),
        None => None,
    }
}

/// A copy of the string member `key` of `v`, if there is one.
fn text_field(v: &JsonValue, key: &str) -> (r: Option<String>)
    ensures
        opt_text(r) == text_of(v.field(key@)),
{
    let name = key.to_owned();
    match v.get(&name) {
        Some(x) => match x.as_str() {
            Some(s) => Some(s.clone()),
            None => None,
        },
        None => None,
    }
}

/// The array member `key` of `v`, if there is one.
fn array_field<'a>(v: &'a JsonValue, key: &str) -> (r: Option<&'a Vec<JsonValue>>)
    ensures
        match r {
            Some(a) => items_of(v.field(key@)) == Some(a@),
            None => items_of(v.field(key@)) is None,
        },
{
    let name = key.to_owned();
    match v.get(&name) {
        Some(x) => x.as_array(),
        None => None,
    }
}

/// Decodes one audio of the manifest, lying in folder `folder_path`, filling
/// each absent optional field with its default.
pub fn audio_row_from_value(audio: &JsonValue, folder_path: &String) -> (r: Result<
    AudioRow,
    IndexError,
>)
    ensures
        match r {
            Ok(row) => audio_row_of(*audio, folder_path@) == Some(row@),
            Err(e) => audio_row_of(*audio, folder_path@) is None && e == IndexError::MissingAudioPath,
        },
{
    let path = match text_field(audio, "path") {
        Some(p) => p,
        None => {
            return Err(IndexError::MissingAudioPath);
        },
    };
    let title = match text_field(audio, "title") {
        Some(s) => s,
        None => String::new(),
    };
    let artist = match text_field(audio, "artist") {
        Some(s) => s,
        None => String::new(),
    };
    let album = match text_field(audio, "album") {
        Some(s) => s,
        None => String::new(),
    };
    let track = match u64_field(audio, "track") {
        Some(n) => n,
        None => 0,
    };
    let duration = match u64_field(audio, "duration") {
        Some(n) => n,
        None => 0,
    };
    let bitrate = match u64_field(audio, "bitrate") {
        Some(n) => Some(n as i64),
        None => None,
    };
    let sample_rate = match u64_field(audio, "sample_rate") {
        Some(n) => Some(n as i64),
        None => None,
    };
    let modified = match u64_field(audio, "modified") {
        Some(n) => n,
        None => 0,
    };
    let created = match u64_field(audio, "created") {
        Some(n) => n,
        None => 0,
    };
    Ok(
        AudioRow {
            path,
            folder_path: folder_path.clone(),
            title,
            artist,
            album,
            album_artist: text_field(audio, "album_artist"),
            track: Some(track as i64),
            duration: duration as i64,
            bitrate,
            sample_rate,
            modified: modified as i64,
            created: created as i64,
            by: text_field(audio, "by"),
        },
    )
}

/// The value of the outcome of a decoding.
pub open spec fn rows_result_view(r: Result<IndexRows, IndexError>) -> Result<
    IndexRowsView,
    IndexError,
> {
    match r {
        Ok(rows) => Ok(rows@),
        Err(e) => Err(e),
    }
}

/// Once a prefix of a folder's audios fails to decode, every longer one does.
proof fn lemma_audio_rows_none_extends(audios: Seq<JsonValue>, folder: Seq<char>, k: int, n: int)
    requires
        0 <= k <= n <= audios.len(),
        audio_rows_of(audios.take(k), folder) is None,
    ensures
        audio_rows_of(audios.take(n), folder) is None,
    decreases n - k,
{
    if n > k {
        lemma_audio_rows_none_extends(audios, folder, k, n - 1);
        assert(audios.take(n).drop_last() =~= audios.take(n - 1));
    }
}

/// Once a prefix of the manifest's folders fails to decode, every longer one
/// fails with the same error.
pub proof fn lemma_manifest_rows_err_extends(folders: Seq<JsonValue>, k: int, n: int)
    requires
        0 <= k <= n <= folders.len(),
        manifest_rows_of(folders.take(k)) is Err,
    ensures
        manifest_rows_of(folders.take(n)) == manifest_rows_of(folders.take(k)),
    decreases n - k,
{
    if n > k {
        lemma_manifest_rows_err_extends(folders, k, n - 1);
        assert(folders.take(n).drop_last() =~= folders.take(n - 1));
    }
}

/// Decodes one folder of the manifest: returns its row and appends the rows
/// of its audios, in order, to `audio_rows`.
pub fn folder_row_from_value(folder: &JsonValue, audio_rows: &mut Vec<AudioRow>) -> (r: Result<
    FolderRow,
    IndexError,
>)
    ensures
        match folder_rows_of(*folder) {
            Ok((row, audios)) => r is Ok && r->Ok_0@ == row && audio_rows_view(final(audio_rows)@)
                == audio_rows_view(old(audio_rows)@) + audios,
            Err(e) => r == Err::<FolderRow, IndexError>(e),
        },
{
    let path = match text_field(folder, "path") {
        Some(p) => p,
        None => {
            return Err(IndexError::MissingFolderPath);
        },
    };
    let modified = match u64_field(folder, "modified") {
        Some(n) => n,
        None => 0,
    };
    let latest = match u64_field(folder, "latest") {
        Some(n) => n,
        None => 0,
    };
    let audios = match array_field(folder, "audios") {
        Some(a) => a,
        None => {
            return Err(IndexError::MissingFolderAudios);
        },
    };
    let ghost start = audio_rows_view(audio_rows@);
    let n = audios.len();
    let mut i: usize = 0;
    assert(audios@.take(0) =~= Seq::<JsonValue>::empty());
    assert(audio_rows_view(audio_rows@) =~= start + Seq::<AudioRowView>::empty());
    while i < n
        invariant
            n == audios@.len(),
            i <= n,
            text_of(folder.field("path"@)) == Some(path@),
            items_of(folder.field("audios"@)) == Some(audios@),
            audio_rows_of(audios@.take(i as int), path@) is Some,
            audio_rows_view(audio_rows@) == start + audio_rows_of(
                audios@.take(i as int),
                path@,
            )->Some_0,
        decreases n - i,
    {
        assert(audios@.take(i + 1).drop_last() =~= audios@.take(i as int));
        assert(audios@.take(i + 1).last() == audios@[i as int]);
        match audio_row_from_value(&audios[i], &path) {
            Ok(row) => {
                let ghost before = audio_rows@;
                audio_rows.push(row);
                assert(audio_rows_view(audio_rows@) =~= audio_rows_view(before).push(row@));
            },
            Err(e) => {
                proof {
                    assert(audio_rows_of(audios@.take(i + 1), path@) is None);
                    lemma_audio_rows_none_extends(audios@, path@, i + 1, n as int);
                    assert(audios@.take(n as int) =~= audios@);
                }
                return Err(e);
            },
        }
        i = i + 1;
    }
    assert(audios@.take(n as int) =~= audios@);
    Ok(FolderRow { path, modified: modified as i64, latest: latest as i64 })
}

/// Decodes a whole manifest into the rows that a rebuild writes, in manifest
/// order, filling each absent optional field with its default; refuses a
/// manifest that lacks a required field.
pub fn index_rows_from_value(index: &JsonValue) -> (r: Result<IndexRows, IndexError>)
    ensures
        rows_result_view(r) == index_rows_of(*index),
{
    let folders = match array_field(index, "folders") {
        Some(a) => a,
        None => {
            return Err(IndexError::MissingFolders);
        },
    };
    let version = match u64_field(index, "version") {
        Some(n) => n,
        None => 0,
    };
    let mut folder_rows: Vec<FolderRow> = Vec::new();
    let mut audio_rows: Vec<AudioRow> = Vec::new();
    let n = folders.len();
    let mut i: usize = 0;
    assert(folders@.take(0) =~= Seq::<JsonValue>::empty());
    assert(folder_rows_view(folder_rows@) =~= Seq::<FolderRowView>::empty());
    assert(audio_rows_view(audio_rows@) =~= Seq::<AudioRowView>::empty());
    while i < n
        invariant
            n == folders@.len(),
            i <= n,
            items_of(index.field("folders"@)) == Some(folders@),
            manifest_rows_of(folders@.take(i as int)) == Ok::<
                (Seq<FolderRowView>, Seq<AudioRowView>),
                IndexError,
            >((folder_rows_view(folder_rows@), audio_rows_view(audio_rows@))),
        decreases n - i,
    {
        assert(folders@.take(i + 1).drop_last() =~= folders@.take(i as int));
        assert(folders@.take(i + 1).last() == folders@[i as int]);
        match folder_row_from_value(&folders[i], &mut audio_rows) {
            Ok(row) => {
                let ghost before = folder_rows@;
                folder_rows.push(row);
                assert(folder_rows_view(folder_rows@) =~= folder_rows_view(before).push(row@));
            },
            Err(e) => {
                proof {
                    assert(folder_rows_of(folders@[i as int]) == Err::<
                        (FolderRowView, Seq<AudioRowView>),
                        IndexError,
                    >(e));
                    assert(manifest_rows_of(folders@.take(i + 1)) == Err::<
                        (Seq<FolderRowView>, Seq<AudioRowView>),
                        IndexError,
                    >(e));
                    lemma_manifest_rows_err_extends(folders@, i + 1, n as int);
                    assert(folders@.take(n as int) =~= folders@);
                }
                return Err(e);
            },
        }
        i = i + 1;
    }
    assert(folders@.take(n as int) =~= folders@);
    Ok(IndexRows { version, folders: folder_rows, audios: audio_rows })
}

} // verus!
