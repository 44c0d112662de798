//! The state of one project root, as read off the text that git prints.

use crate::text::{chars_of, contains, found_in, occurs, occurs_at};
use std::path::PathBuf;
use vstd::prelude::*;
use vstd::string::*;

verus! {

/// Marks, in the status text, a branch with commits that were not pushed.
pub const BRANCH_AHEAD: &'static str = "Your branch is ahead of";

/// Marks, in the status text, tracked files with changes that were not staged.
pub const CHANGES_NOT_STAGED: &'static str = "Changes not staged for commit:";

/// Marks, in the status text, files that are not under version control.
pub const UNTRACKED_FILES: &'static str = "Untracked files:";

/// Marks, in the status text, a branch that matches its remote branch.
pub const UP_TO_DATE: &'static str = "Your branch is up to date with";

/// Marks, in the status text, a directory that is no repository.
pub const NOT_A_REPOSITORY: &'static str = "fatal: not a git repository";

/// Marks, in the errors of the remote listing, a directory that is no
/// repository.
pub const NOT_CHECKABLE: &'static str = "not a git repository";

/// What a finished command wrote to its two streams.
pub struct CommandOutput {
    pub stdout: String,
    pub stderr: String,
}

/// What the listing of a root's remotes shows.
#[derive(Clone, Copy, Debug, PartialEq, Eq, Structural)]
pub enum Remote {
    /// The directory is no repository, so nothing can be said of its remotes.
    NotCheckable,
    /// The repository has no remote.
    Missing,
    /// The repository has at least one remote.
    Configured,
}

/// The kinds of state that a project root can be found in.
#[derive(Clone, Copy, Debug, PartialEq, Eq, Structural)]
pub enum Category {
    NoRemote,
    UptoDate,
    BranchAhead,
    ChangesNotStaged,
    UntrackedFiles,
    NotAGitRepository,
    Other,
}

impl Category {
    /// Whether roots of this category are kept in the tally. Directories that
    /// are no repository are left out of it.
    pub open spec fn reported(self) -> bool {
        self != Category::NotAGitRepository
    }

    /// The name under which the category is rendered.
    pub open spec fn label(self) -> Seq<char> {
        match self {
            Category::NoRemote => "NoRemote"@,
            Category::UptoDate => "UptoDate"@,
            Category::BranchAhead => "BranchAhead"@,
            Category::ChangesNotStaged => "ChangesNotStaged"@,
            Category::UntrackedFiles => "UntrackedFiles"@,
            Category::NotAGitRepository => "NotAGitRepository"@,
            Category::Other => "Other"@,
        }
    }

    /// The name under which the category is rendered.
    pub fn name(self) -> (name: &'static str)
        ensures
            name@ == self.label(),
    {
        match self {
            Category::NoRemote => "NoRemote",
            Category::UptoDate => "UptoDate",
            Category::BranchAhead => "BranchAhead",
            Category::ChangesNotStaged => "ChangesNotStaged",
            Category::UntrackedFiles => "UntrackedFiles",
            Category::NotAGitRepository => "NotAGitRepository",
            Category::Other => "Other",
        }
    }
}

/// The state of one project root: its path and, for most kinds, the text that
/// showed the state.
#[derive(Debug)]
pub enum Status {
    NoRemote { path: PathBuf },
    UptoDate { path: PathBuf },
    BranchAhead { path: PathBuf, buffer: String },
    ChangesNotStaged { path: PathBuf, buffer: String },
    UntrackedFiles { path: PathBuf, buffer: String },
    NotAGitRepository { path: PathBuf, buffer: String },
    Other { path: PathBuf, buffer: String },
}

/// A status as a mathematical value.
pub struct StatusModel {
    pub category: Category,
    pub path: PathBuf,
    /// The text kept with the status; `NoRemote` and `UptoDate` keep none.
    pub buffer: Option<Seq<char>>,
}

impl View for Status {
    type V = StatusModel;

    open spec fn view(&self) -> StatusModel {
        match *self {
            Status::NoRemote { path } => StatusModel {
                category: Category::NoRemote,
                path,
                buffer: None,
            },
            Status::UptoDate { path } => StatusModel {
                category: Category::UptoDate,
                path,
                buffer: None,
            },
            Status::BranchAhead { path, buffer } => StatusModel {
                category: Category::BranchAhead,
                path,
                buffer: Some(buffer@),
            },
            Status::ChangesNotStaged { path, buffer } => StatusModel {
                category: Category::ChangesNotStaged,
                path,
                buffer: Some(buffer@),
            },
            Status::UntrackedFiles { path, buffer } => StatusModel {
                category: Category::UntrackedFiles,
                path,
                buffer: Some(buffer@),
            },
            Status::NotAGitRepository { path, buffer } => StatusModel {
                category: Category::NotAGitRepository,
                path,
                buffer: Some(buffer@),
            },
            Status::Other { path, buffer } => StatusModel {
                category: Category::Other,
                path,
                buffer: Some(buffer@),
            },
        }
    }
}

/// The category that a status text falls under: that of the first mark, in
/// this order, that stands in the text.
pub open spec fn category_of(text: Seq<char>) -> Category {
    if occurs(text, BRANCH_AHEAD@) {
        Category::BranchAhead
    } else if occurs(text, CHANGES_NOT_STAGED@) {
        Category::ChangesNotStaged
    } else if occurs(text, UNTRACKED_FILES@) {
        Category::UntrackedFiles
    } else if occurs(text, UP_TO_DATE@) {
        Category::UptoDate
    } else if occurs(text, NOT_A_REPOSITORY@) {
        Category::NotAGitRepository
    } else {
        Category::Other
    }
}

/// The status of the root at `path` whose status text is `text`.
pub open spec fn classified(path: PathBuf, text: Seq<char>) -> StatusModel {
    let category = category_of(text);
    StatusModel {
        category,
        path,
        buffer: if category == Category::UptoDate {
            None
        } else {
            Some(text)
        },
    }
}

/// What the output of the remote listing shows: errors that name a directory
/// which is no repository make the root not checkable, any other error is
/// handed on as it is, and without errors the root has a remote exactly if the
/// listing is not empty.
pub open spec fn remote_of(output: CommandOutput) -> Result<Remote, Seq<char>> {
    if output.stderr@.len() > 0 {
        if occurs(output.stderr@, NOT_CHECKABLE@) {
            Ok(Remote::NotCheckable)
        } else {
            Err(output.stderr@)
        }
    } else if output.stdout@.len() == 0 {
        Ok(Remote::Missing)
    } else {
        Ok(Remote::Configured)
    }
}

/// The text of a status command that is classified: its errors if there are
/// any, else what it printed.
pub open spec fn status_text(output: CommandOutput) -> Seq<char> {
    if output.stderr@.len() > 0 {
        output.stderr@
    } else {
        output.stdout@
    }
}

/// The status of the root at `path`, given the output of its remote listing
/// and of its status command.
pub open spec fn status_of(path: PathBuf, remote: CommandOutput, status: CommandOutput) -> Result<
    StatusModel,
    Seq<char>,
> {
    match remote_of(remote) {
        Err(error) => Err(error),
        Ok(Remote::Missing) => Ok(
            StatusModel { category: Category::NoRemote, path, buffer: None },
        ),
        Ok(_) => Ok(classified(path, status_text(status))),
    }
}

/// A result of `Status::new` as a mathematical value.
pub open spec fn outcome(result: Result<Status, String>) -> Result<StatusModel, Seq<char>> {
    match result {
        Ok(status) => Ok(status@),
        Err(error) => Err(error@),
    }
}

/// A result of `check_remote` as a mathematical value.
pub open spec fn remote_outcome(result: Result<Remote, String>) -> Result<Remote, Seq<char>> {
    match result {
        Ok(remote) => Ok(remote),
        Err(error) => Err(error@),
    }
}

/// Reads the output of the remote listing of a root.
pub fn check_remote(output: &CommandOutput) -> (result: Result<Remote, String>)
    ensures
        remote_outcome(result) == remote_of(*output),
{
    if !output.stderr.as_str().is_empty() {
        if contains(output.stderr.as_str(), NOT_CHECKABLE) {
            return Ok(Remote::NotCheckable);
        }
        return Err(output.stderr.clone());
    }
    if output.stdout.as_str().is_empty() {
        Ok(Remote::Missing)
    } else {
        Ok(Remote::Configured)
    }
}

/// Picks, from the output of the status command, the text to classify.
pub fn get_status(output: CommandOutput) -> (text: String)
    ensures
        text@ == status_text(output),
{
    if !output.stderr.as_str().is_empty() {
        return output.stderr;
    }
    output.stdout
}

/// Classifies a status text.
pub fn classify(text: &str) -> (category: Category)
    ensures
        category == category_of(text@),
{
    let chars = chars_of(text);
    if found_in(&chars, &chars_of(BRANCH_AHEAD)) {
        Category::BranchAhead
    } else if found_in(&chars, &chars_of(CHANGES_NOT_STAGED)) {
        Category::ChangesNotStaged
    } else if found_in(&chars, &chars_of(UNTRACKED_FILES)) {
        Category::UntrackedFiles
    } else if found_in(&chars, &chars_of(UP_TO_DATE)) {
        Category::UptoDate
    } else if found_in(&chars, &chars_of(NOT_A_REPOSITORY)) {
        Category::NotAGitRepository
    } else {
        Category::Other
    }
}

impl Status {
    /// The status of the root at `path`, from the output of its remote listing
    /// and of its status command. A root without a remote is `NoRemote`
    /// whatever its status text says; an error of the remote listing that
    /// does not name a missing repository is returned as it is.
    pub fn new(path: PathBuf, remote: &CommandOutput, status: CommandOutput) -> (result: Result<
        Status,
        String,
    >)
        ensures
            outcome(result) == status_of(path, *remote, status),
    {
        match check_remote(remote) {
            Err(error) => Err(error),
            Ok(Remote::Missing) => Ok(Status::NoRemote { path }),
            Ok(_) => Ok(Status::from_text(path, get_status(status))),
        }
    }

    /// The category that the status falls under.
    pub fn category(&self) -> (category: Category)
        ensures
            category == self@.category,
    {
        match self {
            Status::NoRemote { .. } => Category::NoRemote,
            Status::UptoDate { .. } => Category::UptoDate,
            Status::BranchAhead { .. } => Category::BranchAhead,
            Status::ChangesNotStaged { .. } => Category::ChangesNotStaged,
            Status::UntrackedFiles { .. } => Category::UntrackedFiles,
            Status::NotAGitRepository { .. } => Category::NotAGitRepository,
            Status::Other { .. } => Category::Other,
        }
    }

    /// The path of the root.
    pub fn path(&self) -> (path: &PathBuf)
        ensures
            *path == self@.path,
    {
        match self {
            Status::NoRemote { path } => path,
            Status::UptoDate { path } => path,
            Status::BranchAhead { path, .. } => path,
            Status::ChangesNotStaged { path, .. } => path,
            Status::UntrackedFiles { path, .. } => path,
            Status::NotAGitRepository { path, .. } => path,
            Status::Other { path, .. } => path,
        }
    }

    /// The status of the root at `path` whose status text is `buffer`.
    pub fn from_text(path: PathBuf, buffer: String) -> (status: Status)
        ensures
            status@ == classified(path, buffer@),
    {
        match classify(buffer.as_str()) {
            Category::BranchAhead => Status::BranchAhead { path, buffer },
            Category::ChangesNotStaged => Status::ChangesNotStaged { path, buffer },
            Category::UntrackedFiles => Status::UntrackedFiles { path, buffer },
            Category::UptoDate => Status::UptoDate { path },
            Category::NotAGitRepository => Status::NotAGitRepository { path, buffer },
            _ => Status::Other { path, buffer },
        }
    }
}

/// The category of a root depends on its status text alone: two roots with
/// the same status text fall under the same category, wherever they lie, and
/// keep or drop the same text.
pub proof fn lemma_category_depends_on_text_alone(first: PathBuf, second: PathBuf, text: Seq<char>)
    ensures
        classified(first, text).category == category_of(text),
        classified(first, text).category == classified(second, text).category,
        classified(first, text).buffer == classified(second, text).buffer,
{
}

/// Two roots whose commands printed the same are given the same status but
/// for their paths, or fail with the same error.
pub proof fn lemma_status_depends_on_output_alone(
    first: PathBuf,
    second: PathBuf,
    remote: CommandOutput,
    status: CommandOutput,
)
    ensures
        match status_of(first, remote, status) {
            Ok(one) => status_of(second, remote, status) == Ok::<StatusModel, Seq<char>>(
                StatusModel { path: second, ..one },
            ) && one.path == first,
            Err(error) => status_of(second, remote, status) == Err::<StatusModel, Seq<char>>(
                error,
            ),
        },
{
}

/// The marks are tried in order and the first that is found decides: a text
/// that tells of unpushed commits falls under `BranchAhead` whatever else it
/// holds, the mark of unstaged changes included.
pub proof fn lemma_branch_ahead_comes_first(text: Seq<char>)
    requires
        occurs(text, BRANCH_AHEAD@),
    ensures
        category_of(text) == Category::BranchAhead,
{
}

/// Each mark decides where none before it is found, and a text without any
/// mark falls under `Other`.
pub proof fn lemma_first_mark_decides(text: Seq<char>)
    ensures
        !occurs(text, BRANCH_AHEAD@) && occurs(text, CHANGES_NOT_STAGED@) ==> category_of(text)
            == Category::ChangesNotStaged,
        !occurs(text, BRANCH_AHEAD@) && !occurs(text, CHANGES_NOT_STAGED@) && occurs(
            text,
            UNTRACKED_FILES@,
        ) ==> category_of(text) == Category::UntrackedFiles,
        !occurs(text, BRANCH_AHEAD@) && !occurs(text, CHANGES_NOT_STAGED@) && !occurs(
            text,
            UNTRACKED_FILES@,
        ) && occurs(text, UP_TO_DATE@) ==> category_of(text) == Category::UptoDate,
        !occurs(text, BRANCH_AHEAD@) && !occurs(text, CHANGES_NOT_STAGED@) && !occurs(
            text,
            UNTRACKED_FILES@,
        ) && !occurs(text, UP_TO_DATE@) && occurs(text, NOT_A_REPOSITORY@) ==> category_of(text)
            == Category::NotAGitRepository,
        !occurs(text, BRANCH_AHEAD@) && !occurs(text, CHANGES_NOT_STAGED@) && !occurs(
            text,
            UNTRACKED_FILES@,
        ) && !occurs(text, UP_TO_DATE@) && !occurs(text, NOT_A_REPOSITORY@) ==> category_of(text)
            == Category::Other,
        category_of(text) != Category::NoRemote,
{
}

/// A root whose remote listing printed nothing, on either stream, is
/// `NoRemote`, whatever its status command printed.
pub proof fn lemma_no_remote_whatever_the_status(
    path: PathBuf,
    remote: CommandOutput,
    status: CommandOutput,
)
    requires
        remote.stdout@.len() == 0,
        remote.stderr@.len() == 0,
    ensures
        status_of(path, remote, status) == Ok::<StatusModel, Seq<char>>(
            StatusModel { category: Category::NoRemote, path, buffer: None },
        ),
{
}

/// A remote listing whose errors name a missing repository makes the root
/// not checkable: it is not taken for a root without a remote, and its
/// status text decides what it is.
pub proof fn lemma_not_checkable_is_not_no_remote(
    path: PathBuf,
    remote: CommandOutput,
    status: CommandOutput,
)
    requires
        occurs(remote.stderr@, NOT_CHECKABLE@),
    ensures
        remote_of(remote) == Ok::<Remote, Seq<char>>(Remote::NotCheckable),
        status_of(path, remote, status) == Ok::<StatusModel, Seq<char>>(
            classified(path, status_text(status)),
        ),
        status_of(path, remote, status)->Ok_0.category != Category::NoRemote,
{
    let at = choose|at: int| occurs_at(remote.stderr@, NOT_CHECKABLE@, at);
    reveal_strlit("not a git repository");
}

} // verus!
