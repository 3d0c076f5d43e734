use library_db::catalog::read_index_from_sqlite;
use library_db::error::IndexError;
use library_db::json::JsonValue;
use library_db::manifest::index_rows_from_value;
use library_db::model::IndexFolder;
use library_db::rows::{IndexRows, StoredIndex};

fn text(s: &str) -> JsonValue {
    JsonValue::Str(s.to_string())
}

fn num(n: u64) -> JsonValue {
    JsonValue::UInt(n)
}

fn object(members: Vec<(&str, JsonValue)>) -> JsonValue {
    JsonValue::Object(members.into_iter().map(|(k, v)| (k.to_string(), v)).collect())
}

/// What the store holds after a successful rebuild with `rows`, as a read
/// loads it; the rows are given in the store's key order.
fn stored(rows: IndexRows) -> StoredIndex {
    StoredIndex { initialized: true, folders: rows.folders, audios: rows.audios }
}

fn migrate_and_read(index: &JsonValue) -> Vec<IndexFolder> {
    let rows = index_rows_from_value(index).unwrap();
    read_index_from_sqlite(stored(rows)).unwrap()
}

fn full_audio(path: &str) -> JsonValue {
    object(vec![
        ("path", text(path)),
        ("title", text("t")),
        ("artist", text("a")),
        ("album", text("al")),
        ("album_artist", JsonValue::Null),
        ("track", num(0)),
        ("duration", num(3)),
        ("bitrate", num(320)),
        ("sample_rate", num(44100)),
        ("modified", num(4)),
        ("created", num(5)),
        ("by", text("Lofty")),
    ])
}

fn folder(path: &str, audios: Vec<JsonValue>) -> JsonValue {
    object(vec![
        ("path", text(path)),
        ("modified", num(1)),
        ("latest", num(2)),
        ("audios", JsonValue::Array(audios)),
    ])
}

fn manifest(folders: Vec<JsonValue>) -> JsonValue {
    object(vec![("version", num(110)), ("folders", JsonValue::Array(folders))])
}

#[test]
fn roundtrip_index() {
    let index = object(vec![
        ("version", num(110)),
        (
            "folders",
            JsonValue::Array(vec![object(vec![
                ("path", text("C:\\\\Music")),
                ("modified", num(1)),
                ("latest", num(2)),
                (
                    "audios",
                    JsonValue::Array(vec![object(vec![
                        ("title", text("t")),
                        ("artist", text("a")),
                        ("album", text("al")),
                        ("album_artist", JsonValue::Null),
                        ("track", num(0)),
                        ("duration", num(3)),
                        ("bitrate", num(320)),
                        ("sample_rate", num(44100)),
                        ("path", text("C:\\\\Music\\\\t.mp3")),
                        ("modified", num(4)),
                        ("created", num(5)),
                        ("by", text("Lofty")),
                    ])]),
                ),
            ])]),
        ),
    ]);
    let rows = index_rows_from_value(&index).unwrap();
    assert_eq!(rows.version, 110);
    let folders = read_index_from_sqlite(stored(rows)).unwrap();

    assert_eq!(folders.len(), 1);
    assert_eq!(folders[0].audios.len(), 1);
    assert_eq!(folders[0].audios[0].title, "t");
}

#[test]
fn round_trip_keeps_every_field() {
    let index = manifest(vec![folder("/music", vec![full_audio("/music/t.mp3")])]);
    let folders = migrate_and_read(&index);
    assert_eq!(folders.len(), 1);
    let f = &folders[0];
    assert_eq!(f.path, "/music");
    assert_eq!(f.modified, 1);
    assert_eq!(f.latest, 2);
    assert_eq!(f.audios.len(), 1);
    let a = &f.audios[0];
    assert_eq!(a.path, "/music/t.mp3");
    assert_eq!(a.title, "t");
    assert_eq!(a.artist, "a");
    assert_eq!(a.album, "al");
    assert_eq!(a.album_artist, None);
    assert_eq!(a.track, 0);
    assert_eq!(a.duration, 3);
    assert_eq!(a.bitrate, Some(320));
    assert_eq!(a.sample_rate, Some(44100));
    assert_eq!(a.modified, 4);
    assert_eq!(a.created, 5);
    assert_eq!(a.by, Some("Lofty".to_string()));
}

#[test]
fn migrating_twice_reads_as_once() {
    let index = manifest(vec![
        folder("/a", vec![full_audio("/a/1.mp3"), full_audio("/a/2.mp3")]),
        folder("/b", vec![full_audio("/b/1.mp3")]),
    ]);
    let first = index_rows_from_value(&index).unwrap();
    let second = index_rows_from_value(&index).unwrap();
    assert_eq!(first, second);
    assert_eq!(second.folders.len(), 2);
    assert_eq!(second.audios.len(), 3);
    let once = read_index_from_sqlite(stored(first)).unwrap();
    let twice = read_index_from_sqlite(stored(second)).unwrap();
    assert_eq!(once, twice);
    assert_eq!(twice[0].audios.len(), 2);
    assert_eq!(twice[1].audios.len(), 1);
}

#[test]
fn folder_without_path_is_refused() {
    let good = manifest(vec![folder("/a", vec![full_audio("/a/1.mp3")])]);
    let previous = stored(index_rows_from_value(&good).unwrap());
    let before = read_index_from_sqlite(previous.clone()).unwrap();

    let bad = manifest(vec![
        folder("/x", vec![full_audio("/x/1.mp3")]),
        object(vec![("modified", num(1)), ("audios", JsonValue::Array(vec![]))]),
    ]);
    assert_eq!(index_rows_from_value(&bad), Err(IndexError::MissingFolderPath));
    // nothing was planned, so the store keeps its rows
    let after = read_index_from_sqlite(previous).unwrap();
    assert_eq!(before, after);
    assert_eq!(after[0].path, "/a");
}

#[test]
fn absent_optional_fields_take_defaults() {
    let index = object(vec![(
        "folders",
        JsonValue::Array(vec![object(vec![
            ("path", text("/m")),
            ("audios", JsonValue::Array(vec![object(vec![("path", text("/m/x.flac"))])])),
        ])]),
    )]);
    let rows = index_rows_from_value(&index).unwrap();
    assert_eq!(rows.version, 0);
    let folders = read_index_from_sqlite(stored(rows)).unwrap();
    let f = &folders[0];
    assert_eq!(f.modified, 0);
    assert_eq!(f.latest, 0);
    let a = &f.audios[0];
    assert_eq!(a.title, "");
    assert_eq!(a.artist, "");
    assert_eq!(a.album, "");
    assert_eq!(a.album_artist, None);
    assert_eq!(a.track, 0);
    assert_eq!(a.duration, 0);
    assert_eq!(a.bitrate, None);
    assert_eq!(a.sample_rate, None);
    assert_eq!(a.modified, 0);
    assert_eq!(a.created, 0);
    assert_eq!(a.by, None);
}

#[test]
fn mistyped_optional_fields_take_defaults() {
    let audio = object(vec![
        ("path", text("/m/y.mp3")),
        ("title", num(7)),
        ("album_artist", num(1)),
        ("track", text("3")),
        ("duration", JsonValue::NegInt(-4)),
        ("bitrate", JsonValue::OtherNumber),
        ("by", JsonValue::Bool(true)),
    ]);
    let index = manifest(vec![folder("/m", vec![audio])]);
    let a = &migrate_and_read(&index)[0].audios[0];
    assert_eq!(a.title, "");
    assert_eq!(a.album_artist, None);
    assert_eq!(a.track, 0);
    assert_eq!(a.duration, 0);
    assert_eq!(a.bitrate, None);
    assert_eq!(a.by, None);
}

#[test]
fn missing_folders_is_refused() {
    let index = object(vec![("version", num(3))]);
    assert_eq!(index_rows_from_value(&index), Err(IndexError::MissingFolders));
    let not_array = object(vec![("folders", text("none"))]);
    assert_eq!(index_rows_from_value(&not_array), Err(IndexError::MissingFolders));
    assert_eq!(index_rows_from_value(&JsonValue::Null), Err(IndexError::MissingFolders));
}

#[test]
fn missing_audios_is_refused() {
    let index = manifest(vec![object(vec![("path", text("/m"))])]);
    assert_eq!(index_rows_from_value(&index), Err(IndexError::MissingFolderAudios));
}

#[test]
fn audio_without_path_is_refused() {
    let index = manifest(vec![folder(
        "/m",
        vec![full_audio("/m/1.mp3"), object(vec![("title", text("t"))])],
    )]);
    assert_eq!(index_rows_from_value(&index), Err(IndexError::MissingAudioPath));
}

#[test]
fn first_error_in_document_order_wins() {
    let index = manifest(vec![
        folder("/m", vec![object(vec![("title", text("t"))])]),
        object(vec![("audios", JsonValue::Array(vec![]))]),
    ]);
    assert_eq!(index_rows_from_value(&index), Err(IndexError::MissingAudioPath));
}

#[test]
fn empty_manifest_gives_empty_catalog() {
    let index = manifest(vec![]);
    let rows = index_rows_from_value(&index).unwrap();
    assert_eq!(rows.folders.len(), 0);
    assert_eq!(rows.audios.len(), 0);
    assert_eq!(read_index_from_sqlite(stored(rows)), Ok(vec![]));
}

#[test]
fn large_numbers_are_stored_signed() {
    let audio = object(vec![
        ("path", text("/m/z.mp3")),
        ("track", num((1u64 << 32) + 5)),
        ("duration", num(u64::MAX)),
        ("modified", num(i64::MAX as u64)),
    ]);
    let index = manifest(vec![folder("/m", vec![audio])]);
    let rows = index_rows_from_value(&index).unwrap();
    assert_eq!(rows.audios[0].track, Some((1i64 << 32) + 5));
    assert_eq!(rows.audios[0].duration, -1);
    let a = &read_index_from_sqlite(stored(rows)).unwrap()[0].audios[0];
    assert_eq!(a.track, 5);
    assert_eq!(a.duration, 0);
    assert_eq!(a.modified, i64::MAX as u64);
}
