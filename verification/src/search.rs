//! The search of a directory tree for project roots, as a machine that the
//! caller drives: the machine says what it needs next, the caller lists the
//! directory or runs the command, and hands the machine what came back.

use crate::status::{
    check_remote, classified, get_status, remote_of, status_of, status_text, Category,
    CommandOutput, Remote, Status, StatusModel,
};
use crate::summary::{StatusSummary, Tally};
use std::path::PathBuf;
use vstd::prelude::*;
use vstd::string::*;

verus! {

/// The name of the file whose presence makes a directory a project root.
pub const MARKER: &'static str = "Cargo.toml";

/// One entry of a directory, as the caller found it.
pub struct Entry {
    /// The path of the entry.
    pub path: PathBuf,
    /// The last component of the path.
    pub name: String,
    /// Whether the path leads to a directory.
    pub is_dir: bool,
    /// Whether the path leads to a regular file.
    pub is_file: bool,
}

impl Entry {
    /// Whether the entry is the marker file: a regular file with exactly the
    /// marker's name.
    pub open spec fn is_marker(self) -> bool {
        self.is_file && self.name@ == MARKER@
    }

    /// Whether the entry is the marker file.
    pub fn marks_root(&self) -> (marks: bool)
        ensures
            marks == self.is_marker(),
    {
        self.is_file && self.name == String::from_str(MARKER)
    }
}

/// Whether a directory with these entries is a project root: whether the
/// marker file is among them.
pub open spec fn has_marker(entries: Seq<Entry>) -> bool {
    exists|i: int| 0 <= i < entries.len() && (#[trigger] entries[i]).is_marker()
}

/// The directories among the entries, in the order of the listing.
pub open spec fn subdirectories(entries: Seq<Entry>) -> Seq<PathBuf> {
    entries.filter(|entry: Entry| entry.is_dir).map_values(|entry: Entry| entry.path)
}

/// What the search is waiting for, of the directory on top of its stack.
#[derive(Clone, Copy, Debug, PartialEq, Eq, Structural)]
pub enum Stage {
    /// The entries of the directory.
    Listing,
    /// The remotes of the directory, which is a project root.
    Remotes,
    /// The status of the directory, which is a project root.
    Reading,
}

/// What the caller is asked to do next.
#[derive(Debug)]
pub enum Request {
    /// List the entries of this directory, and answer with `Search::listed`.
    List(PathBuf),
    /// List the remotes of this project root, and answer with
    /// `Search::remotes`.
    ListRemotes(PathBuf),
    /// Read the status of this project root, and answer with
    /// `Search::status`.
    ReadStatus(PathBuf),
    /// Nothing: the search is over.
    Finished,
}

/// A search as a mathematical value.
pub struct SearchState {
    /// The directories not yet dealt with; the last one is dealt with next.
    pub pending: Seq<PathBuf>,
    /// What the search is waiting for, of the last pending directory.
    pub stage: Stage,
}

impl SearchState {
    /// The state in which the search of the tree under `start` begins.
    pub open spec fn initial(start: PathBuf) -> SearchState {
        SearchState { pending: seq![start], stage: Stage::Listing }
    }

    /// What the search asks of its caller.
    pub open spec fn request(self) -> Request {
        if self.pending.len() == 0 {
            Request::Finished
        } else {
            match self.stage {
                Stage::Listing => Request::List(self.pending.last()),
                Stage::Remotes => Request::ListRemotes(self.pending.last()),
                Stage::Reading => Request::ReadStatus(self.pending.last()),
            }
        }
    }

    /// The state once the directory on top is dealt with.
    pub open spec fn settled(self) -> SearchState {
        SearchState { pending: self.pending.drop_last(), stage: Stage::Listing }
    }

    /// The state after the entries of the directory on top have come. With the
    /// marker file among them the directory is a project root: it stays on
    /// top, to be classified, and none of its entries is taken up. Without,
    /// its subdirectories take its place, the first of them on top. A listing
    /// that was not asked for changes nothing.
    pub open spec fn listed(self, entries: Seq<Entry>) -> SearchState {
        if !(self.request() is List) {
            self
        } else if has_marker(entries) {
            SearchState { pending: self.pending, stage: Stage::Remotes }
        } else {
            SearchState {
                pending: self.pending.drop_last() + subdirectories(entries).reverse(),
                stage: Stage::Listing,
            }
        }
    }

    /// What the remote listing of the root on top settles: an error that is
    /// handed on, the status of a root without a remote, or nothing yet. An
    /// answer that was not asked for settles nothing.
    pub open spec fn settled_by_remotes(self, output: CommandOutput) -> Result<
        Option<StatusModel>,
        Seq<char>,
    > {
        if !(self.request() is ListRemotes) {
            Ok(None)
        } else {
            match remote_of(output) {
                Err(error) => Err(error),
                Ok(Remote::Missing) => Ok(
                    Some(
                        StatusModel {
                            category: Category::NoRemote,
                            path: self.pending.last(),
                            buffer: None,
                        },
                    ),
                ),
                Ok(_) => Ok(None),
            }
        }
    }

    /// The state after the remote listing of the root on top has come. A root
    /// without a remote is dealt with; after an error the state stays as it
    /// was; any other root waits for its status.
    pub open spec fn remotes(self, output: CommandOutput) -> SearchState {
        match self.settled_by_remotes(output) {
            Err(_) => self,
            Ok(Some(_)) => self.settled(),
            Ok(None) => if self.request() is ListRemotes {
                SearchState { pending: self.pending, stage: Stage::Reading }
            } else {
                self
            },
        }
    }

    /// The status that the status text of the root on top gives; none if no
    /// status text was asked for.
    pub open spec fn settled_by_status(self, output: CommandOutput) -> Option<StatusModel> {
        if self.request() is ReadStatus {
            Some(classified(self.pending.last(), status_text(output)))
        } else {
            None
        }
    }

    /// The state after the status text of the root on top has come: the root
    /// is dealt with.
    pub open spec fn status(self, output: CommandOutput) -> SearchState {
        if self.request() is ReadStatus {
            self.settled()
        } else {
            self
        }
    }
}

/// What `Search::remotes` returns, as a mathematical value.
pub open spec fn remotes_outcome(result: Result<Option<Status>, String>) -> Result<
    Option<StatusModel>,
    Seq<char>,
> {
    match result {
        Ok(Some(status)) => Ok(Some(status@)),
        Ok(None) => Ok(None),
        Err(error) => Err(error@),
    }
}

/// What `Search::status` returns, as a mathematical value.
pub open spec fn status_outcome(found: Option<Status>) -> Option<StatusModel> {
    match found {
        Some(status) => Some(status@),
        None => None,
    }
}

/// The tally after a status was found, or none was.
pub open spec fn recorded(tally: Tally, found: Option<StatusModel>) -> Tally {
    match found {
        Some(status) => tally.record(status),
        None => tally,
    }
}

/// The search of a directory tree for project roots.
#[derive(Debug)]
pub struct Search {
    pending: Vec<PathBuf>,
    stage: Stage,
}

impl View for Search {
    type V = SearchState;

    closed spec fn view(&self) -> SearchState {
        SearchState { pending: self.pending@, stage: self.stage }
    }
}

/// Putting one entry in front of a listing puts its directory, if it is one,
/// on top of the stack that the listing gives.
proof fn lemma_subdirectories_prepend(first: Entry, rest: Seq<Entry>)
    ensures
        subdirectories(seq![first] + rest).reverse() == if first.is_dir {
            subdirectories(rest).reverse().push(first.path)
        } else {
            subdirectories(rest).reverse()
        },
{
    rest.lemma_filter_prepend(first, |entry: Entry| entry.is_dir);
}

/// Whether the marker file is among the entries.
pub fn is_root(entries: &Vec<Entry>) -> (found: bool)
    ensures
        found == has_marker(entries@),
{
    let mut i: usize = 0;
    while i < entries.len()
        invariant
            i <= entries.len(),
            forall|k: int| 0 <= k < i ==> !(#[trigger] entries@[k]).is_marker(),
        decreases entries.len() - i,
    {
        if entries[i].marks_root() {
            return true;
        }
        i += 1;
    }
    false
}

impl Search {
    /// Begins the search of the tree under `start`.
    pub fn new(start: PathBuf) -> (search: Search)
        ensures
            search@ == SearchState::initial(start),
    {
        let mut pending: Vec<PathBuf> = Vec::new();
        pending.push(start);
        Search { pending, stage: Stage::Listing }
    }

    /// What the caller is to do next.
    pub fn request(&self) -> (request: Request)
        ensures
            request == self@.request(),
    {
        let count: usize = self.pending.len();
        if count == 0 {
            return Request::Finished;
        }
        let top = self.pending[count - 1].clone();
        match self.stage {
            Stage::Listing => Request::List(top),
            Stage::Remotes => Request::ListRemotes(top),
            Stage::Reading => Request::ReadStatus(top),
        }
    }

    /// Takes the entries of the directory that `request` named.
    pub fn listed(&mut self, entries: &Vec<Entry>)
        ensures
            final(self)@ == old(self)@.listed(entries@),
    {
        if self.pending.len() == 0 {
            return ;
        }
        match self.stage {
            Stage::Listing => {},
            _ => {
                return ;
            },
        }
        if is_root(entries) {
            self.stage = Stage::Remotes;
            return ;
        }
        self.pending.pop();
        let ghost rest = self.pending@;
        let mut i: usize = entries.len();
        assert(subdirectories(Seq::<Entry>::empty()) =~= Seq::<PathBuf>::empty()) by {
            reveal(Seq::filter);
        }
        while i > 0
            invariant
                i <= entries.len(),
                self.stage == Stage::Listing,
                self.pending@ == rest + subdirectories(entries@.skip(i as int)).reverse(),
            decreases i,
        {
            i -= 1;
            proof {
                lemma_subdirectories_prepend(entries@[i as int], entries@.skip(i + 1));
                assert(entries@.skip(i as int) =~= seq![entries@[i as int]] + entries@.skip(i + 1));
            }
            if entries[i].is_dir {
                self.pending.push(entries[i].path.clone());
            }
        }
        assert(entries@.skip(0) =~= entries@);
    }

    /// Takes the remote listing of the project root that `request` named. A
    /// root without a remote is recorded in `summary` and returned; an error
    /// of the listing that does not name a missing repository is returned,
    /// and ends the search for the caller.
    pub fn remotes(&mut self, output: &CommandOutput, summary: &mut StatusSummary) -> (result:
        Result<Option<Status>, String>)
        ensures
            remotes_outcome(result) == old(self)@.settled_by_remotes(*output),
            final(self)@ == old(self)@.remotes(*output),
            final(summary)@ == match old(self)@.settled_by_remotes(*output) {
                Ok(found) => recorded(old(summary)@, found),
                Err(_) => old(summary)@,
            },
    {
        if self.pending.len() == 0 {
            return Ok(None);
        }
        match self.stage {
            Stage::Remotes => {},
            _ => {
                return Ok(None);
            },
        }
        match check_remote(output) {
            Err(error) => Err(error),
            Ok(Remote::Missing) => {
                let path = self.pending.pop().unwrap();
                self.stage = Stage::Listing;
                let status = Status::NoRemote { path };
                summary.increment(&status);
                Ok(Some(status))
            },
            Ok(_) => {
                self.stage = Stage::Reading;
                Ok(None)
            },
        }
    }

    /// Takes the output of the status command for the project root that
    /// `request` named: the root is classified by it, recorded in `summary`
    /// and returned.
    pub fn status(&mut self, output: CommandOutput, summary: &mut StatusSummary) -> (found: Option<
        Status,
    >)
        ensures
            status_outcome(found) == old(self)@.settled_by_status(output),
            final(self)@ == old(self)@.status(output),
            final(summary)@ == recorded(old(summary)@, old(self)@.settled_by_status(output)),
    {
        if self.pending.len() == 0 {
            return None;
        }
        match self.stage {
            Stage::Reading => {},
            _ => {
                return None;
            },
        }
        let path = self.pending.pop().unwrap();
        self.stage = Stage::Listing;
        let status = Status::from_text(path, get_status(output));
        summary.increment(&status);
        Some(status)
    }
}

/// A project root is never descended into. Once the marker file is found
/// among the entries of a directory, none of the entries is taken up: the
/// pending directories stay as they were, and the search asks for the remotes
/// of the directory.
pub proof fn lemma_root_is_not_descended(state: SearchState, entries: Seq<Entry>)
    requires
        state.request() is List,
        has_marker(entries),
    ensures
        state.listed(entries).pending == state.pending,
        state.listed(entries).request() == Request::ListRemotes(state.pending.last()),
{
}

/// A project root leaves nothing behind. Once it is classified, by its remote
/// listing alone or by its status text, the search goes on with exactly the
/// directories that were pending beside it.
pub proof fn lemma_root_leaves_nothing_behind(
    state: SearchState,
    entries: Seq<Entry>,
    remote: CommandOutput,
    status: CommandOutput,
)
    requires
        state.request() is List,
        has_marker(entries),
        remote_of(remote) is Ok,
    ensures
        ({
            let checked = state.listed(entries).remotes(remote);
            if checked.request() is ReadStatus {
                checked.status(status) == state.settled()
            } else {
                checked == state.settled()
            }
        }),
{
}

/// A directory that is no project root is descended into: each directory
/// among its entries is pending afterwards, the first of them on top, and
/// beside them only what was pending before.
pub proof fn lemma_every_subdirectory_is_pending(state: SearchState, entries: Seq<Entry>, i: int)
    requires
        state.request() is List,
        !has_marker(entries),
        0 <= i < entries.len(),
        entries[i].is_dir,
    ensures
        state.listed(entries).pending.contains(entries[i].path),
        state.listed(entries).pending.last() == subdirectories(entries).first(),
        state.listed(entries).pending.len() == state.pending.len() - 1 + subdirectories(
            entries,
        ).len(),
{
    let is_dir = |entry: Entry| entry.is_dir;
    let kept = entries.filter(is_dir);
    entries.lemma_filter_contains(is_dir, i);
    let k = choose|k: int| 0 <= k < kept.len() && kept[k] == entries[i];
    let found = subdirectories(entries);
    let after = state.listed(entries).pending;
    assert(after[state.pending.len() - 1 + (found.len() - 1 - k)] == entries[i].path);
}

/// The search classifies a root as `status_of` does. What the remote listing
/// settles is what `status_of` gives for it whatever the status text; and
/// where it settles nothing, the search asks for the status of the same
/// root, and the status text gives what `status_of` gives for both.
pub proof fn lemma_search_classifies_as_status_of(
    state: SearchState,
    remote: CommandOutput,
    status: CommandOutput,
)
    requires
        state.request() is ListRemotes,
    ensures
        match state.settled_by_remotes(remote) {
            Err(error) => status_of(state.pending.last(), remote, status) == Err::<
                StatusModel,
                Seq<char>,
            >(error),
            Ok(Some(found)) => status_of(state.pending.last(), remote, status) == Ok::<
                StatusModel,
                Seq<char>,
            >(found),
            Ok(None) => {
                &&& state.remotes(remote).request() == Request::ReadStatus(state.pending.last())
                &&& state.remotes(remote).settled_by_status(status) matches Some(found)
                &&& status_of(state.pending.last(), remote, status) == Ok::<
                    StatusModel,
                    Seq<char>,
                >(found)
            },
        },
{
}

/// A search that begins at a project root finds that root and nothing else.
/// It lists the root alone, whatever lies beneath it, asks for its remotes
/// and, unless they settle the matter, for its status, finds the status that
/// `status_of` gives, and is over.
pub proof fn lemma_search_of_a_root_finds_it_alone(
    start: PathBuf,
    entries: Seq<Entry>,
    remote: CommandOutput,
    status: CommandOutput,
)
    requires
        has_marker(entries),
        status_of(start, remote, status) is Ok,
    ensures
        ({
            let found = status_of(start, remote, status)->Ok_0;
            let begun = SearchState::initial(start);
            let listed = begun.listed(entries);
            let checked = listed.remotes(remote);
            &&& begun.request() == Request::List(start)
            &&& listed.request() == Request::ListRemotes(start)
            &&& if remote_of(remote) == Ok::<Remote, Seq<char>>(Remote::Missing) {
                &&& listed.settled_by_remotes(remote) == Ok::<Option<StatusModel>, Seq<char>>(
                    Some(found),
                )
                &&& checked.request() == Request::Finished
            } else {
                &&& listed.settled_by_remotes(remote) == Ok::<Option<StatusModel>, Seq<char>>(None)
                &&& checked.request() == Request::ReadStatus(start)
                &&& checked.settled_by_status(status) == Some(found)
                &&& checked.status(status).request() == Request::Finished
            }
        }),
{
}

/// The tally of a search is that of the statuses it has found, in the order
/// in which it found them: recording what one more answer settles, in a
/// tally that holds the statuses found so far, gives the tally that holds
/// them and the new one.
pub proof fn lemma_tally_holds_what_was_found(found: Seq<StatusModel>, next: Option<StatusModel>)
    ensures
        recorded(Tally::empty().record_all(found), next) == Tally::empty().record_all(
            match next {
                Some(status) => found.push(status),
                None => found,
            },
        ),
{
    if let Some(status) = next {
        assert(found.push(status).drop_last() =~= found);
    }
}

} // verus!
