use vstd::prelude::*;

verus! {

/// Why a rebuild or a read of the catalog store was refused.
#[derive(Clone, Copy, Debug, PartialEq, Eq, Structural)]
pub enum IndexError {
    /// The manifest has no `folders` array.
    MissingFolders,
    /// A folder of the manifest has no `path` string.
    MissingFolderPath,
    /// A folder of the manifest has no `audios` array.
    MissingFolderAudios,
    /// An audio of the manifest has no `path` string.
    MissingAudioPath,
    /// The store has never been rebuilt: it holds no version marker.
    NotInitialized,
}

impl IndexError {
    /// A short human-readable description of the error.
    pub fn message(&self) -> &'static str {
        match self {
            IndexError::MissingFolders => "missing folders",
            IndexError::MissingFolderPath => "folder.path missing",
            IndexError::MissingFolderAudios => "folder.audios missing",
            IndexError::MissingAudioPath => "audio.path missing",
            IndexError::NotInitialized => "sqlite index not initialized",
        }
    }

}

} // verus!
