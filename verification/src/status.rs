//! The typed torrent state and storage mode that status snapshots and
//! state-changed alerts report.

use vstd::prelude::*;

verus! {

/// The state of a torrent (`lt::torrent_status::state_t`).
#[derive(Clone, Copy, Debug, PartialEq, Eq, Structural)]
#[non_exhaustive]
pub enum State {
    CheckingFiles,
    DownloadingMetadata,
    Downloading,
    Finished,
    Seeding,
    CheckingResumeData,
    /// A state value these bindings don't recognize (from a newer
    /// libtorrent).
    Unknown(i32),
}

/// The typed state a raw `state_t` code stands for. libtorrent numbers
/// its states from 1 (`checking_files`); 6 is a retired slot
/// (`allocating`), so it reads as unknown.
pub open spec fn state_of_code(code: i32) -> State {
    if code == 1 {
        State::CheckingFiles
    } else if code == 2 {
        State::DownloadingMetadata
    } else if code == 3 {
        State::Downloading
    } else if code == 4 {
        State::Finished
    } else if code == 5 {
        State::Seeding
    } else if code == 7 {
        State::CheckingResumeData
    } else {
        State::Unknown(code)
    }
}

/// The raw `state_t` code of a state.
pub open spec fn code_of_state(s: State) -> i32 {
    match s {
        State::CheckingFiles => 1,
        State::DownloadingMetadata => 2,
        State::Downloading => 3,
        State::Finished => 4,
        State::Seeding => 5,
        State::CheckingResumeData => 7,
        State::Unknown(c) => c,
    }
}

/// The states are libtorrent's `state_t` constants: checking files 1,
/// downloading metadata 2, downloading 3, finished 4, seeding 5,
/// checking resume data 7; each reads back as its state, and the retired
/// code 6 reads as unknown.
pub proof fn lemma_state_codes()
    ensures
        code_of_state(State::CheckingFiles) == 1,
        code_of_state(State::DownloadingMetadata) == 2,
        code_of_state(State::Downloading) == 3,
        code_of_state(State::Finished) == 4,
        code_of_state(State::Seeding) == 5,
        code_of_state(State::CheckingResumeData) == 7,
        state_of_code(1) == State::CheckingFiles,
        state_of_code(2) == State::DownloadingMetadata,
        state_of_code(3) == State::Downloading,
        state_of_code(4) == State::Finished,
        state_of_code(5) == State::Seeding,
        state_of_code(6) == State::Unknown(6),
        state_of_code(7) == State::CheckingResumeData,
{
}

impl State {
    /// Maps a raw libtorrent `state_t` code (as carried by state-changed
    /// alerts) to the typed state.
    pub fn from_code(code: i32) -> (r: State)
        ensures
            r == state_of_code(code),
    {
        if code == 1 {
            State::CheckingFiles
        } else if code == 2 {
            State::DownloadingMetadata
        } else if code == 3 {
            State::Downloading
        } else if code == 4 {
            State::Finished
        } else if code == 5 {
            State::Seeding
        } else if code == 7 {
            State::CheckingResumeData
        } else {
            State::Unknown(code)
        }
    }

    /// The raw `state_t` code of this state.
    pub fn code(self) -> (r: i32)
        ensures
            r == code_of_state(self),
    {
        match self {
            State::CheckingFiles => 1,
            State::DownloadingMetadata => 2,
            State::Downloading => 3,
            State::Finished => 4,
            State::Seeding => 5,
            State::CheckingResumeData => 7,
            State::Unknown(c) => c,
        }
    }
}

/// Reading a code back gives the code: no two codes map to the same state,
/// and every state a code maps to carries that code.
pub proof fn lemma_state_code_round_trip(code: i32)
    ensures
        code_of_state(state_of_code(code)) == code,
{
}

/// Storage allocation mode as a status snapshot reports it.
#[derive(Clone, Copy, Debug, PartialEq, Eq, Structural)]
#[non_exhaustive]
pub enum StorageMode {
    Allocate,
    Sparse,
    /// A mode value these bindings don't recognize.
    Unknown(i32),
}

impl StorageMode {
    /// Maps a raw `lt::storage_mode_t` value: 0 allocates, 1 is sparse.
    pub fn from_code(code: i32) -> (r: StorageMode)
        ensures
            code == 0 ==> r == StorageMode::Allocate,
            code == 1 ==> r == StorageMode::Sparse,
            code != 0 && code != 1 ==> r == StorageMode::Unknown(code),
    {
        if code == 0 {
            StorageMode::Allocate
        } else if code == 1 {
            StorageMode::Sparse
        } else {
            StorageMode::Unknown(code)
        }
    }
}

} // verus!
