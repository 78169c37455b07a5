//! Showing downloads in the file manager, once per directory.
//!
//! The client remembers the directory that it showed last. A file is shown
//! only where its directory differs from that one, so that a run of downloads
//! into one directory opens one window. Opening the bare download directory
//! is never held back, and is remembered like any other.
//!
//! The state is a plain value. Whoever shares it between tasks guards it with
//! one lock, held across a whole call: each operation here takes the state by
//! exclusive reference, reads it, decides and updates it in one step.

use vstd::prelude::*;
use crate::error::{message_of, ClientError, Failure};
use crate::platform::{
    invocation, join_path, open_directory_command, open_directory_invocation,
    parent_directory, reveal_command, reveal_invocation, Invocation, Platform, ShellCommand,
};
use crate::text::{same_text, text};

verus! {

/// The directory that was shown last, if any was.
#[derive(Debug, Clone, PartialEq, Eq)]
pub struct RevealState {
    pub last_opened_dir: Option<String>,
}

/// Whether showing `directory` is due after `last` was shown.
pub open spec fn is_new(last: Option<Seq<char>>, directory: Seq<char>) -> bool {
    last != Some(directory)
}

/// How often the file manager is invoked for a run of requests, one directory
/// each, that starts after `last` was shown.
pub open spec fn invocations(last: Option<Seq<char>>, requests: Seq<Seq<char>>) -> nat
    decreases requests.len(),
{
    if requests.len() == 0 {
        0
    } else {
        let rest = invocations(Some(requests[0]), requests.skip(1));
        if is_new(last, requests[0]) {
            rest + 1
        } else {
            rest
        }
    }
}

impl RevealState {
    /// The text of the directory that was shown last.
    pub open spec fn last(&self) -> Option<Seq<char>> {
        text(self.last_opened_dir)
    }

    /// The state of a client that has shown nothing yet.
    pub fn new() -> (state: RevealState)
        ensures
            state.last() is None,
    {
        RevealState { last_opened_dir: None }
    }

    /// Remembers `directory` as shown, and says whether it has to be shown
    /// now: it has, unless it is the directory that was shown last.
    pub fn reveal_if_new(&mut self, directory: &str) -> (due: bool)
        ensures
            due == is_new(old(self).last(), directory@),
            final(self).last() == Some(directory@),
    {
        let due = match &self.last_opened_dir {
            Some(last) => !same_text(last.as_str(), directory),
            None => true,
        };
        if due {
            self.last_opened_dir = Some(directory.to_owned());
        }
        due
    }

    /// Remembers `directory` as shown, whatever was shown before.
    pub fn record(&mut self, directory: &str)
        ensures
            final(self).last() == Some(directory@),
    {
        self.last_opened_dir = Some(directory.to_owned());
    }
}

/// What a request to show something came to.
#[derive(Debug, Clone, PartialEq, Eq)]
pub struct Opened {
    /// The path that was asked for: the file, or the bare directory.
    pub path: String,
    /// Whether a file was asked for, and not the bare directory.
    pub file_named: bool,
    /// The command to start, or `None` where nothing is to be done.
    pub command: Option<ShellCommand>,
}

impl Opened {
    /// The failure to report where the command could not be started: that of
    /// a reveal for a file, that of opening the directory otherwise.
    pub fn failure(&self, detail: String) -> (error: ClientError)
        ensures
            error@ == if self.file_named {
                Failure::RevealFailed(detail@)
            } else {
                Failure::OpenDirectoryFailed(detail@)
            },
    {
        if self.file_named {
            ClientError::RevealFailed(detail)
        } else {
            ClientError::OpenDirectoryFailed(detail)
        }
    }
}

/// The command for showing a file whose directory is `parent`, after `last`
/// was shown: none where the directory is the one shown last.
pub open spec fn file_reveal(
    platform: Platform,
    last: Option<Seq<char>>,
    file_path: Seq<char>,
    parent: Seq<char>,
) -> Option<Invocation> {
    if is_new(last, parent) {
        reveal_invocation(platform, file_path, parent)
    } else {
        None
    }
}

/// Shows `file_path`, whose containing directory is `parent`, unless that
/// directory was shown last. A path without a containing directory is a
/// failure and leaves the state as it was.
pub fn reveal_file(
    platform: Platform,
    state: &mut RevealState,
    file_path: &str,
    parent: Option<String>,
) -> (res: Result<Option<ShellCommand>, ClientError>)
    ensures
        match text(parent) {
            None => res is Err && res->Err_0@ == Failure::NoParentDirectory && final(state).last()
                == old(state).last(),
            Some(directory) => res is Ok && final(state).last() == Some(directory) && invocation(
                res->Ok_0,
            ) == file_reveal(platform, old(state).last(), file_path@, directory),
        },
{
    match parent {
        None => Err(ClientError::NoParentDirectory),
        Some(directory) => {
            if state.reveal_if_new(directory.as_str()) {
                Ok(reveal_command(platform, file_path, directory.as_str()))
            } else {
                Ok(None)
            }
        },
    }
}

/// Shows `file_path` in its containing directory, unless that directory was
/// shown last.
///
/// The platform says which directory contains the path. Where it names none,
/// the call fails and the state stays. Otherwise that directory is remembered,
/// and the command is the one for the file, or none where the directory was
/// the one shown last.
pub fn open_download_directory_inner(platform: Platform, state: &mut RevealState, file_path: &str)
    -> (res: Result<Option<ShellCommand>, ClientError>)
    ensures
        match res {
            Err(e) => e@ == Failure::NoParentDirectory && final(state).last() == old(state).last(),
            Ok(command) => final(state).last() is Some && invocation(command) == file_reveal(
                platform,
                old(state).last(),
                file_path@,
                final(state).last()->0,
            ),
        },
{
    let parent = parent_directory(file_path);
    reveal_file(platform, state, file_path, parent)
}

/// The reveal that follows a finished download. It never fails: where the
/// file has no containing directory, nothing is shown and the state stays.
pub fn reveal_after_download(platform: Platform, state: &mut RevealState, file_path: &str) -> (command:
    Option<ShellCommand>)
    ensures
        (command is None && final(state).last() == old(state).last()) || (final(state).last()
            is Some && invocation(command) == file_reveal(
            platform,
            old(state).last(),
            file_path@,
            final(state).last()->0,
        )),
{
    let parent = parent_directory(file_path);
    reveal_downloaded(platform, state, file_path, parent)
}

/// The reveal that follows a finished download of `file_path`, whose
/// containing directory is `parent`. Without a containing directory nothing
/// is shown and the state stays. With one, it is remembered, and the file is
/// shown unless that directory was shown last.
pub fn reveal_downloaded(
    platform: Platform,
    state: &mut RevealState,
    file_path: &str,
    parent: Option<String>,
) -> (command: Option<ShellCommand>)
    ensures
        match text(parent) {
            None => command is None && final(state).last() == old(state).last(),
            Some(directory) => final(state).last() == Some(directory) && invocation(command)
                == file_reveal(platform, old(state).last(), file_path@, directory),
        },
{
    match reveal_file(platform, state, file_path, parent) {
        Ok(command) => command,
        Err(_) => None,
    }
}

/// Whether a file name was given: a missing name and the empty name both
/// stand for the bare directory.
pub open spec fn names_file(filename: Option<Seq<char>>) -> bool {
    filename matches Some(name) && name.len() > 0
}

/// Opens `download_dir`, the download directory of the user, or shows the
/// file `filename` in it; `download_dir` is `None` where the platform names
/// no such directory.
///
/// Without a download directory the call fails. Without a file name the
/// directory is opened, always, and remembered. With a file name the file is
/// shown unless its directory was shown last; the path of the file and its
/// containing directory are the platform's to say.
pub fn open_download_directory(
    platform: Platform,
    state: &mut RevealState,
    filename: Option<String>,
    download_dir: Option<String>,
) -> (res: Result<Opened, ClientError>)
    ensures
        match text(download_dir) {
            None => res is Err && res->Err_0@ == Failure::NoDownloadDirectory
                && final(state).last() == old(state).last(),
            Some(directory) => if names_file(text(filename)) {
                match res {
                    Err(e) => e@ == Failure::RevealFailed(message_of(Failure::NoParentDirectory))
                        && final(state).last() == old(state).last(),
                    Ok(opened) => opened.file_named && final(state).last() is Some && invocation(
                        opened.command,
                    ) == file_reveal(
                        platform,
                        old(state).last(),
                        opened.path@,
                        final(state).last()->0,
                    ),
                }
            } else {
                res is Ok && res->Ok_0.path@ == directory && !res->Ok_0.file_named && invocation(
                    res->Ok_0.command,
                ) == open_directory_invocation(platform, directory) && final(state).last() == Some(
                    directory,
                )
            },
        },
{
    let directory = match download_dir {
        Some(directory) => directory,
        None => { return Err(ClientError::NoDownloadDirectory); },
    };
    match filename {
        Some(name) => {
            if !name.as_str().is_empty() {
                let file_path = join_path(directory.as_str(), name.as_str());
                return match open_download_directory_inner(platform, state, file_path.as_str()) {
                    Ok(command) => Ok(Opened { path: file_path, file_named: true, command }),
                    Err(e) => Err(ClientError::RevealFailed(e.message())),
                };
            }
        },
        None => {},
    }
    state.record(directory.as_str());
    let command = open_directory_command(platform, directory.as_str());
    Ok(Opened { path: directory, file_named: false, command })
}

/// Asking twice in a row for one directory invokes the file manager once,
/// or not at all where that directory was the one shown before; the second
/// request never invokes it.
pub proof fn lemma_same_directory_twice(last: Option<Seq<char>>, directory: Seq<char>)
    ensures
        invocations(last, seq![directory, directory]) == if is_new(last, directory) {
            1nat
        } else {
            0nat
        },
        invocations(None, seq![directory, directory]) == 1,
        !is_new(Some(directory), directory),
{
    lemma_invocations_of_two(last, directory, directory);
    lemma_invocations_of_two(None, directory, directory);
}

/// Asking for two different directories in a row invokes the file manager
/// for each of them, the first excepted where it was the one shown before.
pub proof fn lemma_different_directories(
    last: Option<Seq<char>>,
    first: Seq<char>,
    second: Seq<char>,
)
    requires
        first != second,
    ensures
        invocations(last, seq![first, second]) == if is_new(last, first) {
            2nat
        } else {
            1nat
        },
        invocations(None, seq![first, second]) == 2,
{
    lemma_invocations_of_two(last, first, second);
    lemma_invocations_of_two(None, first, second);
}

/// However many requests for one directory arrive, and in whatever order
/// they are served, the file manager is invoked once for them all, or not at
/// all where that directory was the one shown before.
pub proof fn lemma_same_directory_many(last: Option<Seq<char>>, directory: Seq<char>, n: nat)
    requires
        n >= 1,
    ensures
        invocations(last, Seq::new(n, |i: int| directory)) == if is_new(last, directory) {
            1nat
        } else {
            0nat
        },
    decreases n,
{
    let requests = Seq::new(n, |i: int| directory);
    let rest = Seq::new((n - 1) as nat, |i: int| directory);
    assert(requests.skip(1) =~= rest);
    if n > 1 {
        lemma_same_directory_many(Some(directory), directory, (n - 1) as nat);
    } else {
        assert(invocations(Some(directory), rest) == 0);
    }
}

/// The invocations of a run of two requests.
pub proof fn lemma_invocations_of_two(last: Option<Seq<char>>, first: Seq<char>, second: Seq<char>)
    ensures
        invocations(last, seq![first, second]) == (if is_new(last, first) {
            1nat
        } else {
            0nat
        }) + (if first != second {
            1nat
        } else {
            0nat
        }),
{
    let requests = seq![first, second];
    assert(requests.skip(1) =~= seq![second]);
    assert(seq![second].skip(1) =~= Seq::<Seq<char>>::empty());
    assert(invocations(Some(second), Seq::<Seq<char>>::empty()) == 0);
    assert(invocations(Some(first), seq![second]) == if first != second {
        1nat
    } else {
        0nat
    });
}

} // verus!
