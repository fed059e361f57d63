//! Files that lock a resource for one process.
//!
//! A PID file holds the number of the process that owns it. The file is in use
//! while that process runs. Reading and writing the file and asking for the process
//! is left to the program; what follows from the answers is decided here.

use vstd::prelude::*;

use crate::io::{self, ErrorKind, IoError};
use crate::text;

verus! {

/// A PID file that this process has written, and that is to be removed when it is
/// done.
#[derive(Debug)]
pub struct PidFile {
    path: String,
}

/// What the text in a PID file leads to.
#[derive(Debug)]
pub enum PidCheck {
    /// Nothing more is to be asked: whether the file is in use.
    Known(Result<bool, IoError>),
    /// Ask whether the process with this number runs, then see [`in_use`] and
    /// [`stale`].
    Ask(i32),
}

/// The number of the process that a PID file names, where its text is a number.
pub open spec fn names_process(content: Seq<char>, pid: i32) -> bool {
    exists|inner: Seq<char>| #[trigger]
        text::is_trimmed(content, inner) && text::whole(inner) == Some(pid as int)
}

/// What a PID file leads to, given the outcome of reading it.
///
/// A file that is not there is not in use. A file that holds no process number is
/// refused with [`ErrorKind::InvalidData`].
pub fn pid_file_in_use(read: Result<String, IoError>) -> (check: PidCheck)
    ensures
        match read {
            Err(error) => match check {
                PidCheck::Known(Ok(used)) => error.kind == ErrorKind::NotFound && !used,
                PidCheck::Known(Err(same)) => error.kind != ErrorKind::NotFound && same == error,
                PidCheck::Ask(_) => false,
            },
            Ok(content) => match check {
                PidCheck::Ask(pid) => names_process(content@, pid),
                PidCheck::Known(Err(error)) => {
                    &&& forall|pid: i32| !names_process(content@, pid)
                    &&& io::says(error, ErrorKind::InvalidData, "expected a PID"@)
                },
                PidCheck::Known(Ok(_)) => false,
            },
        },
{
    match read {
        Ok(content) => {
            let inner = text::trim(content.as_str());
            match text::parse_i32(inner) {
                Some(pid) => PidCheck::Ask(pid),
                None => {
                    proof {
                        assert forall|pid: i32| !names_process(content@, pid) by {
                            if names_process(content@, pid) {
                                let other = choose|other: Seq<char>| #[trigger]
                                    text::is_trimmed(content@, other) && text::whole(other)
                                        == Some(pid as int);
                                text::law_trimming_is_unique(content@, inner@, other);
                            }
                        }
                    }
                    PidCheck::Known(
                        Err(IoError::new(ErrorKind::InvalidData, "expected a PID".to_owned())),
                    )
                },
            }
        },
        Err(error) => match error.kind {
            ErrorKind::NotFound => PidCheck::Known(Ok(false)),
            _ => PidCheck::Known(Err(error)),
        },
    }
}

/// Whether a PID file is in use, given what sending no signal to its process
/// returned. `error` is the error that the returned number stands for.
pub fn in_use(returned: i32, error: IoError) -> (used: Result<bool, IoError>)
    ensures
        used == (if returned == 0 {
            Ok::<bool, IoError>(true)
        } else if returned == -1 || error.kind == ErrorKind::NotFound {
            Ok(false)
        } else {
            Err(error)
        }),
{
    if returned == 0 {
        return Ok(true);
    }
    if returned == -1 {
        return Ok(false);
    }
    match error.kind {
        ErrorKind::NotFound => Ok(false),
        _ => Err(error),
    }
}

/// Whether a PID file that names a process is to be removed, given whether it is in
/// use: nothing runs under its number.
pub fn stale(used: &Result<bool, IoError>) -> (stale: bool)
    ensures
        stale == (used matches Ok(used) && !*used),
{
    match used {
        Ok(used) => !*used,
        Err(_) => false,
    }
}

/// The text that a process writes in its PID file.
pub open spec fn content_of(pid: i32) -> Seq<char> {
    text::digits(pid as nat)
}

impl PidFile {
    /// Where the file is.
    pub closed spec fn spec_path(self) -> Seq<char> {
        self.path@
    }

    /// Where the file is, to remove it.
    pub fn path(&self) -> (path: &str)
        ensures
            path@ == self.spec_path(),
    {
        self.path.as_str()
    }

    /// Whether a file that is there has to be removed before a new one is written,
    /// given whether it is in use: a stale file and one that makes no sense are
    /// removed. A file in use is an error.
    pub fn replaces(path: &str, used: Result<bool, IoError>) -> (outcome: Result<(), IoError>)
        ensures
            match used {
                Ok(false) => outcome is Ok,
                Ok(true) => outcome matches Err(error) && io::says(
                    error,
                    ErrorKind::AddrInUse,
                    "PID File "@ + path@ + " is already in use"@,
                ),
                Err(error) => if error.kind == ErrorKind::InvalidData {
                    outcome is Ok
                } else {
                    outcome == Err::<(), IoError>(error)
                },
            },
    {
        match used {
            Ok(true) => {
                let start = text::join("PID File ", path);
                let message = text::join(start.as_str(), " is already in use");
                Err(IoError::new(ErrorKind::AddrInUse, message))
            },
            Ok(false) => Ok(()),
            Err(error) => match error.kind {
                ErrorKind::InvalidData => Ok(()),
                _ => Err(error),
            },
        }
    }

    /// The text to write in the file, for the process with this number.
    pub fn content(pid: i32) -> (content: Result<String, IoError>)
        ensures
            match content {
                Ok(content) => pid > 0 && content@ == content_of(pid),
                Err(error) => pid <= 0 && io::says(error, ErrorKind::Other, "negative PID"@),
            },
    {
        if pid <= 0 {
            return Err(IoError::new(ErrorKind::Other, "negative PID".to_owned()));
        }
        Ok(text::decimal(pid as u128))
    }

    /// The lock, once the file has been written: `written` is the outcome of that.
    pub fn new(path: String, written: Result<(), IoError>) -> (lock: Result<Self, IoError>)
        ensures
            match written {
                Ok(_) => lock matches Ok(file) && file.spec_path() == path@,
                Err(error) => lock == Err::<Self, IoError>(error),
            },
    {
        match written {
            Ok(_) => Ok(PidFile { path }),
            Err(error) => Err(error),
        }
    }

    /// Whether a file is a lock, given whether it is in use: one that makes no sense
    /// is none.
    pub fn is_locked(used: Result<bool, IoError>) -> (locked: Result<bool, IoError>)
        ensures
            locked == (match used {
                Ok(used) => Ok::<bool, IoError>(used),
                Err(error) => if error.kind == ErrorKind::InvalidData {
                    Ok(false)
                } else {
                    Err(error)
                },
            }),
    {
        match used {
            Ok(used) => Ok(used),
            Err(error) => match error.kind {
                ErrorKind::InvalidData => Ok(false),
                _ => Err(error),
            },
        }
    }
}

/// What a process writes in its PID file names that process, and no other.
pub proof fn law_own_file_names_its_process(pid: i32, other: i32)
    requires
        pid > 0,
    ensures
        names_process(content_of(pid), other) == (other == pid),
{
    let content = content_of(pid);
    text::law_trimming_leaves_digits(pid as nat);
    text::law_decimal_reads_back(pid as nat);
    if names_process(content, other) {
        let inner = choose|inner: Seq<char>| #[trigger]
            text::is_trimmed(content, inner) && text::whole(inner) == Some(other as int);
        text::law_trimming_is_unique(content, content, inner);
    }
}

/// A PID file names at most one process.
pub proof fn law_file_names_one_process(content: Seq<char>, first: i32, second: i32)
    requires
        names_process(content, first),
        names_process(content, second),
    ensures
        first == second,
{
    let a = choose|inner: Seq<char>| #[trigger]
        text::is_trimmed(content, inner) && text::whole(inner) == Some(first as int);
    let b = choose|inner: Seq<char>| #[trigger]
        text::is_trimmed(content, inner) && text::whole(inner) == Some(second as int);
    text::law_trimming_is_unique(content, a, b);
}

/// A file that is not there is not in use, and one that cannot be read is an error. One
/// that can be read leads to asking for the process that it names; one that names none is
/// refused.
pub proof fn law_file_leads_to_its_process(
    content: String,
    check: PidCheck,
    error: IoError,
    unread: PidCheck,
    pid: i32,
)
    requires
        call_ensures(pid_file_in_use, (Ok(content),), check),
        call_ensures(pid_file_in_use, (Err(error),), unread),
    ensures
        error.kind == ErrorKind::NotFound ==> unread == PidCheck::Known(Ok(false)),
        error.kind != ErrorKind::NotFound ==> unread == PidCheck::Known(Err(error)),
        check matches PidCheck::Known(outcome) ==> outcome matches Err(refused) && refused.kind
            == ErrorKind::InvalidData,
        pid > 0 && content@ == text::digits(pid as nat) ==> check == PidCheck::Ask(pid),
        content@.len() == 0 ==> check is Known,
{
    if pid > 0 && content@ == text::digits(pid as nat) {
        law_own_file_names_its_process(pid, pid);
        assert(names_process(content@, pid));
        if let PidCheck::Ask(found) = check {
            law_own_file_names_its_process(pid, found);
        }
    }
    if content@.len() == 0 {
        if let PidCheck::Ask(found) = check {
            let inner = choose|inner: Seq<char>| #[trigger]
                text::is_trimmed(content@, inner) && text::whole(inner) == Some(found as int);
            let (start, end) = choose|start: int, end: int| #[trigger]
                text::trimmed_at(content@, start, end) && inner == content@.subrange(start, end);
            assert(inner.len() == 0);
        }
    }
}

/// What a process writes leads whoever reads it back to that process.
pub proof fn law_written_file_leads_back(pid: i32, content: String, check: PidCheck)
    requires
        call_ensures(PidFile::content, (pid,), Ok(content)),
        call_ensures(pid_file_in_use, (Ok(content),), check),
    ensures
        pid > 0,
        check == PidCheck::Ask(pid),
{
    law_own_file_names_its_process(pid, pid);
    assert(names_process(content@, pid));
    if let PidCheck::Ask(found) = check {
        law_own_file_names_its_process(pid, found);
    }
}

/// Only a positive number can be written.
pub proof fn law_only_positive_numbers_are_written(pid: i32, content: Result<String, IoError>)
    requires
        call_ensures(PidFile::content, (pid,), content),
    ensures
        content is Ok <==> pid > 0,
        content matches Ok(content) ==> text::whole(content@) == Some(pid as int),
{
    text::law_decimal_reads_back(pid as nat);
}

/// A file is in use exactly while its process runs, that is, can be signalled; nobody
/// else can take it then. Once the process does not run, the file is stale, is no lock,
/// and is replaced.
pub proof fn law_running_process_keeps_its_file(
    returned: i32,
    error: IoError,
    path: &str,
    used: Result<bool, IoError>,
    gone: bool,
    replaced: Result<(), IoError>,
    locked: Result<bool, IoError>,
)
    requires
        call_ensures(in_use, (returned, error), used),
        call_ensures(stale, (&used,), gone),
        call_ensures(PidFile::replaces, (path, used), replaced),
        call_ensures(PidFile::is_locked, (used,), locked),
    ensures
        returned == 0 ==> {
            &&& used == Ok::<bool, IoError>(true)
            &&& !gone
            &&& replaced matches Err(refused) && refused.kind == ErrorKind::AddrInUse
            &&& locked == Ok::<bool, IoError>(true)
        },
        returned == -1 || (returned != 0 && error.kind == ErrorKind::NotFound) ==> {
            &&& used == Ok::<bool, IoError>(false)
            &&& gone
            &&& replaced is Ok
            &&& locked == Ok::<bool, IoError>(false)
        },
        returned != 0 && returned != -1 && error.kind != ErrorKind::NotFound ==> used == Err::<
            bool,
            IoError,
        >(error) && !gone,
{
}

/// A file that makes no sense is no lock, and is replaced; any other failure to find out
/// is passed on.
pub proof fn law_senseless_file_is_replaced(
    error: IoError,
    path: &str,
    replaced: Result<(), IoError>,
    locked: Result<bool, IoError>,
)
    requires
        call_ensures(PidFile::replaces, (path, Err(error)), replaced),
        call_ensures(PidFile::is_locked, (Err(error),), locked),
    ensures
        error.kind == ErrorKind::InvalidData ==> replaced is Ok && locked == Ok::<bool, IoError>(
            false,
        ),
        error.kind != ErrorKind::InvalidData ==> replaced == Err::<(), IoError>(error) && locked
            == Err::<bool, IoError>(error),
{
}

/// Whoever wrote the file holds the lock, at the path where it was written; where writing
/// failed, nobody does.
pub proof fn law_written_file_is_the_lock(
    path: String,
    error: IoError,
    held: Result<PidFile, IoError>,
    failed: Result<PidFile, IoError>,
)
    requires
        call_ensures(PidFile::new, (path, Ok(())), held),
        call_ensures(PidFile::new, (path, Err(error)), failed),
    ensures
        held is Ok && held->Ok_0.spec_path() == path@,
        failed == Err::<PidFile, IoError>(error),
{
}

/// A PID file is removed where it was written.
pub proof fn law_file_is_where_it_was_written(path: String, file: PidFile, found: &str)
    requires
        call_ensures(PidFile::path, (&file,), found),
        call_ensures(PidFile::new, (path, Ok::<(), IoError>(())), Ok::<PidFile, IoError>(file)),
    ensures
        found@ == path@,
{
}

} // verus!
