//! The course of one download: what to do next, given what happened.

use vstd::prelude::*;
use vstd::string::StringExecFns;

verus! {

/// The directory under the system's temporary directory that downloads are staged in.
pub const STAGING_DIR: &'static str = "up";

/// Seconds after which an attempt to connect is given up.
pub const CONNECT_TIMEOUT_SECS: u64 = 10;

/// Seconds after which a download is given up as a whole.
pub const TIMEOUT_SECS: u64 = 60;

/// How many redirections a download follows.
pub const MAX_REDIRECTS: usize = 5;

/// The user agent that downloads are asked for under.
pub const USER_AGENT: &'static str =
    "Mozilla/5.0 (X11; Linux x86_64; rv:96.0) Gecko/20100101 Firefox/96.0";

/// What is said when the server does not tell the length of what it sends.
pub const UNKNOWN_LENGTH: &'static str = "Cannot determine size of the content!";

/// Why a download failed.
#[derive(Debug, Clone, PartialEq, Eq)]
pub enum DownloadError {
    /// The server answered with a client-error or server-error status.
    Status(u16),
    /// The server did not tell the length of what it sends.
    UnknownLength,
    /// The transport or the staging file failed; the text says how.
    Broken(String),
}

/// How far a download has come.
#[derive(Debug, Clone, PartialEq, Eq)]
pub enum DownloadState {
    /// Nothing has happened yet.
    Idle,
    /// The staging file is being created.
    Opening,
    /// The request is on its way.
    Requesting,
    /// Bytes are coming in: `received` of `total` are written.
    Receiving { total: u64, received: u64 },
    /// All bytes are written.
    Done,
    /// The download failed.
    Failed(DownloadError),
}

/// What happened since the last step.
#[derive(Debug, Clone, PartialEq, Eq)]
pub enum DownloadEvent {
    /// The download is asked for.
    Start,
    /// The staging file exists.
    Created,
    /// The server answered, with this status and, where it told one, this length.
    Answered { status: u16, content_length: Option<u64> },
    /// A chunk of this many bytes came in.
    Chunk { len: usize },
    /// The server has sent everything.
    End,
    /// The transport or the staging file failed.
    Broken(String),
}

/// What to do next.
#[derive(Debug, Clone, PartialEq, Eq)]
pub enum DownloadAction {
    /// Create the staging file.
    Create,
    /// Send the request.
    Send,
    /// Show a progress bar for this many bytes, and read on.
    Expect { total: u64 },
    /// Write the chunk, and show this many bytes as received.
    Write { received: u64 },
    /// Close the progress bar: the download is there.
    Finish,
    /// Give up, for this reason.
    Fail(DownloadError),
    /// Nothing: the download is over.
    Nothing,
}

/// A status of the client-error or server-error class.
pub open spec fn is_error_status(status: u16) -> bool {
    400 <= status < 600
}

/// `a + b`, or the largest number where the sum is larger.
pub open spec fn capped_sum(a: u64, b: nat) -> u64 {
    if a + b > u64::MAX {
        u64::MAX
    } else {
        (a + b) as u64
    }
}

/// The state that follows `state` on `event`, and what is to be done then. An answer with an
/// error status fails the download, and so does one that does not tell its length. A failure of
/// the transport or the file fails it wherever it stands. An event that does not belong to the
/// state changes nothing.
pub open spec fn download_step(state: DownloadState, event: DownloadEvent) -> (
    DownloadState,
    DownloadAction,
) {
    match (state, event) {
        (DownloadState::Done, _) => (state, DownloadAction::Nothing),
        (DownloadState::Failed(_), _) => (state, DownloadAction::Nothing),
        (_, DownloadEvent::Broken(how)) => (
            DownloadState::Failed(DownloadError::Broken(how)),
            DownloadAction::Fail(DownloadError::Broken(how)),
        ),
        (DownloadState::Idle, DownloadEvent::Start) => (
            DownloadState::Opening,
            DownloadAction::Create,
        ),
        (DownloadState::Opening, DownloadEvent::Created) => (
            DownloadState::Requesting,
            DownloadAction::Send,
        ),
        (DownloadState::Requesting, DownloadEvent::Answered { status, content_length }) => {
            if is_error_status(status) {
                (
                    DownloadState::Failed(DownloadError::Status(status)),
                    DownloadAction::Fail(DownloadError::Status(status)),
                )
            } else {
                match content_length {
                    Some(total) => (
                        DownloadState::Receiving { total, received: 0 },
                        DownloadAction::Expect { total },
                    ),
                    None => (
                        DownloadState::Failed(DownloadError::UnknownLength),
                        DownloadAction::Fail(DownloadError::UnknownLength),
                    ),
                }
            }
        },
        (DownloadState::Receiving { total, received }, DownloadEvent::Chunk { len }) => (
            DownloadState::Receiving { total, received: capped_sum(received, len as nat) },
            DownloadAction::Write { received: capped_sum(received, len as nat) },
        ),
        (DownloadState::Receiving { total, received }, DownloadEvent::End) => (
            DownloadState::Done,
            DownloadAction::Finish,
        ),
        _ => (state, DownloadAction::Nothing),
    }
}

/// The words that go with a failed download of `name` from `url`.
pub open spec fn failure_context(name: Seq<char>, url: Seq<char>) -> Seq<char> {
    "Can not download '"@ + name + "' from `"@ + url + "`"@
}

/// Downloads files into one directory.
#[derive(Debug, Clone, PartialEq, Eq)]
pub struct Downloader {
    dir: String,
}

impl Downloader {
    /// The directory that downloads are staged in.
    pub closed spec fn dir_of(&self) -> Seq<char> {
        self.dir@
    }

    /// A downloader that stages in `dir`.
    pub fn new(dir: String) -> (r: Downloader)
        ensures
            r.dir_of() == dir@,
    {
        Downloader { dir }
    }

    /// The directory that downloads are staged in.
    pub fn dir(&self) -> (r: &str)
        ensures
            r@ == self.dir_of(),
    {
        self.dir.as_str()
    }

    /// The words that go with a failed download of `name` from `url`.
    pub fn context(name: &str, url: &str) -> (r: String)
        ensures
            r@ == failure_context(name@, url@),
    {
        let mut r = String::from_str("Can not download '");
        r.append(name);
        r.append("' from `");
        r.append(url);
        r.append("`");
        r
    }

    /// Takes one step of a download: moves `state` on by `event`, and says what to do next.
    pub fn download(state: &mut DownloadState, event: DownloadEvent) -> (action: DownloadAction)
        ensures
            (*final(state), action) == download_step(*old(state), event),
    {
        match state {
            DownloadState::Done => {
                return DownloadAction::Nothing;
            },
            DownloadState::Failed(_) => {
                return DownloadAction::Nothing;
            },
            _ => {},
        }
        if let DownloadEvent::Broken(how) = event {
            *state = DownloadState::Failed(DownloadError::Broken(how.clone()));
            return DownloadAction::Fail(DownloadError::Broken(how));
        }
        match (&*state, event) {
            (DownloadState::Idle, DownloadEvent::Start) => {
                *state = DownloadState::Opening;
                DownloadAction::Create
            },
            (DownloadState::Opening, DownloadEvent::Created) => {
                *state = DownloadState::Requesting;
                DownloadAction::Send
            },
            (DownloadState::Requesting, DownloadEvent::Answered { status, content_length }) => {
                if 400 <= status && status < 600 {
                    *state = DownloadState::Failed(DownloadError::Status(status));
                    DownloadAction::Fail(DownloadError::Status(status))
                } else {
                    match content_length {
                        Some(total) => {
                            *state = DownloadState::Receiving { total, received: 0 };
                            DownloadAction::Expect { total }
                        },
                        None => {
                            *state = DownloadState::Failed(DownloadError::UnknownLength);
                            DownloadAction::Fail(DownloadError::UnknownLength)
                        },
                    }
                }
            },
            (DownloadState::Receiving { total, received }, DownloadEvent::Chunk { len }) => {
                let total = *total;
                let received = received.saturating_add(len as u64);
                *state = DownloadState::Receiving { total, received };
                DownloadAction::Write { received }
            },
            (DownloadState::Receiving { total, received }, DownloadEvent::End) => {
                *state = DownloadState::Done;
                DownloadAction::Finish
            },
            _ => DownloadAction::Nothing,
        }
    }
}

} // verus!
