//! The tally of a scan: the roots found, by category.

use crate::path::{debug_text, quoted};
use crate::status::{Category, Status, StatusModel};
use crate::text::{decimal, numeral};
use std::path::PathBuf;
use vstd::prelude::*;
use vstd::string::*;

verus! {

/// One line of the short rendering: the category's name, a colon and a
/// space, the number of its roots in decimal, and a line feed.
pub open spec fn count_line(category: Category, count: nat) -> Seq<char> {
    category.label() + ": "@ + decimal(count) + "\n"@
}

/// The lines of paths in the long rendering: each path as `Debug` formats it,
/// followed by a line feed.
pub open spec fn path_lines(paths: Seq<PathBuf>) -> Seq<char>
    decreases paths.len(),
{
    if paths.len() == 0 {
        Seq::empty()
    } else {
        path_lines(paths.drop_last()) + debug_text(paths.last()) + "\n"@
    }
}

/// One section of the long rendering: the category's name between dashes,
/// three line feeds, and the lines of its paths.
pub open spec fn section(category: Category, paths: Seq<PathBuf>) -> Seq<char> {
    "--- "@ + category.label() + " ---\n\n\n"@ + path_lines(paths)
}

/// A tally as a mathematical value: for each reported category the paths of
/// its roots, in the order in which they were recorded.
pub struct Tally {
    pub no_remote: Seq<PathBuf>,
    pub up_to_date: Seq<PathBuf>,
    pub branch_ahead: Seq<PathBuf>,
    pub changes_not_staged: Seq<PathBuf>,
    pub untracked_files: Seq<PathBuf>,
    pub other: Seq<PathBuf>,
}

impl Tally {
    /// The tally that holds nothing.
    pub open spec fn empty() -> Tally {
        Tally {
            no_remote: Seq::empty(),
            up_to_date: Seq::empty(),
            branch_ahead: Seq::empty(),
            changes_not_staged: Seq::empty(),
            untracked_files: Seq::empty(),
            other: Seq::empty(),
        }
    }

    /// The paths recorded under a category; none under one that is not
    /// reported.
    pub open spec fn paths(self, category: Category) -> Seq<PathBuf> {
        match category {
            Category::NoRemote => self.no_remote,
            Category::UptoDate => self.up_to_date,
            Category::BranchAhead => self.branch_ahead,
            Category::ChangesNotStaged => self.changes_not_staged,
            Category::UntrackedFiles => self.untracked_files,
            Category::NotAGitRepository => Seq::empty(),
            Category::Other => self.other,
        }
    }

    /// How many roots are recorded under a category.
    pub open spec fn count(self, category: Category) -> nat {
        self.paths(category).len()
    }

    /// How many roots are recorded in all.
    pub open spec fn total(self) -> nat {
        self.no_remote.len() + self.up_to_date.len() + self.branch_ahead.len()
            + self.changes_not_staged.len() + self.untracked_files.len() + self.other.len()
    }

    /// The short rendering: one line for each reported category, with the
    /// number of its roots.
    pub open spec fn short_text(self) -> Seq<char> {
        count_line(Category::NoRemote, self.count(Category::NoRemote)) + count_line(
            Category::UptoDate,
            self.count(Category::UptoDate),
        ) + count_line(Category::BranchAhead, self.count(Category::BranchAhead)) + count_line(
            Category::UntrackedFiles,
            self.count(Category::UntrackedFiles),
        ) + count_line(Category::Other, self.count(Category::Other)) + count_line(
            Category::ChangesNotStaged,
            self.count(Category::ChangesNotStaged),
        )
    }

    /// The long rendering: one section for each reported category, with the
    /// paths of its roots.
    pub open spec fn long_text(self) -> Seq<char> {
        section(Category::NoRemote, self.paths(Category::NoRemote)) + section(
            Category::UptoDate,
            self.paths(Category::UptoDate),
        ) + section(Category::BranchAhead, self.paths(Category::BranchAhead)) + section(
            Category::UntrackedFiles,
            self.paths(Category::UntrackedFiles),
        ) + section(Category::Other, self.paths(Category::Other)) + section(
            Category::ChangesNotStaged,
            self.paths(Category::ChangesNotStaged),
        )
    }

    /// The tally after one more status: its path is added at the end of its
    /// category, and a status that is not reported changes nothing.
    pub open spec fn record(self, status: StatusModel) -> Tally {
        match status.category {
            Category::NoRemote => Tally { no_remote: self.no_remote.push(status.path), ..self },
            Category::UptoDate => Tally { up_to_date: self.up_to_date.push(status.path), ..self },
            Category::BranchAhead => Tally {
                branch_ahead: self.branch_ahead.push(status.path),
                ..self
            },
            Category::ChangesNotStaged => Tally {
                changes_not_staged: self.changes_not_staged.push(status.path),
                ..self
            },
            Category::UntrackedFiles => Tally {
                untracked_files: self.untracked_files.push(status.path),
                ..self
            },
            Category::NotAGitRepository => self,
            Category::Other => Tally { other: self.other.push(status.path), ..self },
        }
    }

    /// The tally after a run of statuses, recorded in their order.
    pub open spec fn record_all(self, statuses: Seq<StatusModel>) -> Tally
        decreases statuses.len(),
    {
        if statuses.len() == 0 {
            self
        } else {
            self.record_all(statuses.drop_last()).record(statuses.last())
        }
    }
}

/// The roots found by a scan, by category.
#[derive(Debug)]
pub struct StatusSummary {
    no_remote: Vec<PathBuf>,
    up_to_date: Vec<PathBuf>,
    branch_ahead: Vec<PathBuf>,
    changes_not_staged: Vec<PathBuf>,
    untracked_files: Vec<PathBuf>,
    other: Vec<PathBuf>,
}

impl View for StatusSummary {
    type V = Tally;

    closed spec fn view(&self) -> Tally {
        Tally {
            no_remote: self.no_remote@,
            up_to_date: self.up_to_date@,
            branch_ahead: self.branch_ahead@,
            changes_not_staged: self.changes_not_staged@,
            untracked_files: self.untracked_files@,
            other: self.other@,
        }
    }
}

impl Default for StatusSummary {
    fn default() -> (summary: StatusSummary)
        ensures
            summary@ == Tally::empty(),
    {
        StatusSummary {
            no_remote: Vec::new(),
            up_to_date: Vec::new(),
            branch_ahead: Vec::new(),
            changes_not_staged: Vec::new(),
            untracked_files: Vec::new(),
            other: Vec::new(),
        }
    }
}

/// Appends one line of the short rendering to `text`.
fn push_count_line(text: &mut String, category: Category, count: usize)
    ensures
        final(text)@ == old(text)@ + count_line(category, count as nat),
{
    text.append(category.name());
    text.append(": ");
    text.append(numeral(count).as_str());
    text.append("\n");
}

/// Appends one section of the long rendering to `text`.
fn push_section(text: &mut String, category: Category, paths: &Vec<PathBuf>)
    ensures
        final(text)@ == old(text)@ + section(category, paths@),
{
    text.append("--- ");
    text.append(category.name());
    text.append(" ---\n\n\n");
    let ghost header = text@;
    let mut i: usize = 0;
    while i < paths.len()
        invariant
            i <= paths.len(),
            text@ == header + path_lines(paths@.take(i as int)),
        decreases paths.len() - i,
    {
        text.append(quoted(&paths[i]).as_str());
        text.append("\n");
        i += 1;
        assert(paths@.take(i as int).drop_last() =~= paths@.take(i - 1));
    }
    assert(paths@.take(i as int) =~= paths@);
}

/// A copy of a list of paths.
fn copy_of(paths: &Vec<PathBuf>) -> (copy: Vec<PathBuf>)
    ensures
        copy@ == paths@,
{
    let mut copy: Vec<PathBuf> = Vec::new();
    let mut i: usize = 0;
    while i < paths.len()
        invariant
            i <= paths.len(),
            copy@ == paths@.take(i as int),
        decreases paths.len() - i,
    {
        copy.push(paths[i].clone());
        i += 1;
    }
    copy
}

impl StatusSummary {
    /// The short rendering of the tally: for each reported category a line
    /// with its name and the number of its roots.
    pub fn short(&self) -> (text: String)
        ensures
            text@ == self@.short_text(),
    {
        let mut text = String::new();
        push_count_line(&mut text, Category::NoRemote, self.no_remote.len());
        push_count_line(&mut text, Category::UptoDate, self.up_to_date.len());
        push_count_line(&mut text, Category::BranchAhead, self.branch_ahead.len());
        push_count_line(&mut text, Category::UntrackedFiles, self.untracked_files.len());
        push_count_line(&mut text, Category::Other, self.other.len());
        push_count_line(&mut text, Category::ChangesNotStaged, self.changes_not_staged.len());
        text
    }

    /// The long rendering of the tally: for each reported category a section
    /// with its name and the paths of its roots, one on each line.
    pub fn long(&self) -> (text: String)
        ensures
            text@ == self@.long_text(),
    {
        let mut text = String::new();
        push_section(&mut text, Category::NoRemote, &self.no_remote);
        push_section(&mut text, Category::UptoDate, &self.up_to_date);
        push_section(&mut text, Category::BranchAhead, &self.branch_ahead);
        push_section(&mut text, Category::UntrackedFiles, &self.untracked_files);
        push_section(&mut text, Category::Other, &self.other);
        push_section(&mut text, Category::ChangesNotStaged, &self.changes_not_staged);
        text
    }

    /// How many roots are recorded under a category; none under one that is
    /// not reported.
    pub fn count(&self, category: Category) -> (count: usize)
        ensures
            count == self@.count(category),
    {
        match category {
            Category::NoRemote => self.no_remote.len(),
            Category::UptoDate => self.up_to_date.len(),
            Category::BranchAhead => self.branch_ahead.len(),
            Category::ChangesNotStaged => self.changes_not_staged.len(),
            Category::UntrackedFiles => self.untracked_files.len(),
            Category::NotAGitRepository => 0,
            Category::Other => self.other.len(),
        }
    }

    /// The paths recorded under a category, in the order in which they were
    /// recorded; none under a category that is not reported.
    pub fn paths(&self, category: Category) -> (paths: Vec<PathBuf>)
        ensures
            paths@ == self@.paths(category),
    {
        match category {
            Category::NoRemote => copy_of(&self.no_remote),
            Category::UptoDate => copy_of(&self.up_to_date),
            Category::BranchAhead => copy_of(&self.branch_ahead),
            Category::ChangesNotStaged => copy_of(&self.changes_not_staged),
            Category::UntrackedFiles => copy_of(&self.untracked_files),
            Category::NotAGitRepository => Vec::new(),
            Category::Other => copy_of(&self.other),
        }
    }

    /// Records a status: its path goes to the end of its category. A
    /// directory that is no repository is not recorded.
    pub fn increment(&mut self, status: &Status)
        ensures
            final(self)@ == old(self)@.record(status@),
    {
        match status {
            Status::NoRemote { path } => self.no_remote.push(path.clone()),
            Status::UptoDate { path } => self.up_to_date.push(path.clone()),
            Status::BranchAhead { path, buffer: _ } => self.branch_ahead.push(path.clone()),
            Status::UntrackedFiles { path, buffer: _ } => self.untracked_files.push(path.clone()),
            Status::NotAGitRepository { path: _, buffer: _ } => {},
            Status::Other { path, buffer: _ } => self.other.push(path.clone()),
            Status::ChangesNotStaged { path, buffer: _ } => {
                self.changes_not_staged.push(path.clone())
            },
        }
    }
}

/// The statuses among `statuses` that are kept in a tally.
pub open spec fn reported_among(statuses: Seq<StatusModel>) -> Seq<StatusModel> {
    statuses.filter(|status: StatusModel| status.category.reported())
}

/// The statuses among `statuses` that fall under `category`.
pub open spec fn falling_under(statuses: Seq<StatusModel>, category: Category) -> Seq<
    StatusModel,
> {
    statuses.filter(|status: StatusModel| status.category == category)
}

/// Recording one status adds one root to the tally if the status is
/// reported, and none if it is not; the root is added under the category of
/// the status, and every other category keeps its paths.
pub proof fn lemma_record_adds_one(tally: Tally, status: StatusModel, category: Category)
    ensures
        tally.record(status).total() == tally.total() + if status.category.reported() {
            1nat
        } else {
            0nat
        },
        tally.record(status).paths(category) == if status.category == category
            && category.reported() {
            tally.paths(category).push(status.path)
        } else {
            tally.paths(category)
        },
{
}

/// After any run of statuses is recorded in an empty tally, the counts of
/// all categories add up to the number of statuses that are reported: every
/// root that is a repository is counted once, and no other.
pub proof fn lemma_every_reported_root_is_counted(statuses: Seq<StatusModel>)
    ensures
        Tally::empty().record_all(statuses).total() == reported_among(statuses).len(),
        Tally::empty().record_all(statuses).total() == Tally::empty().record_all(statuses).count(
            Category::NoRemote,
        ) + Tally::empty().record_all(statuses).count(Category::UptoDate)
            + Tally::empty().record_all(statuses).count(Category::BranchAhead)
            + Tally::empty().record_all(statuses).count(Category::ChangesNotStaged)
            + Tally::empty().record_all(statuses).count(Category::UntrackedFiles)
            + Tally::empty().record_all(statuses).count(Category::Other),
    decreases statuses.len(),
{
    reveal(Seq::filter);
    if statuses.len() > 0 {
        lemma_every_reported_root_is_counted(statuses.drop_last());
        lemma_record_adds_one(
            Tally::empty().record_all(statuses.drop_last()),
            statuses.last(),
            Category::Other,
        );
    }
}

/// After any run of statuses is recorded in an empty tally, the paths under a
/// reported category are those of the statuses of that category, in the order
/// of the run: as many as were recorded, none lost and none added.
pub proof fn lemma_no_record_is_lost(statuses: Seq<StatusModel>, category: Category)
    requires
        category.reported(),
    ensures
        Tally::empty().record_all(statuses).paths(category) == falling_under(
            statuses,
            category,
        ).map_values(|status: StatusModel| status.path),
        Tally::empty().record_all(statuses).count(category) == falling_under(
            statuses,
            category,
        ).len(),
    decreases statuses.len(),
{
    reveal(Seq::filter);
    let path = |status: StatusModel| status.path;
    if statuses.len() == 0 {
    } else {
        let before = statuses.drop_last();
        lemma_no_record_is_lost(before, category);
        lemma_record_adds_one(Tally::empty().record_all(before), statuses.last(), category);
    }
}

/// Taking one status out of a run takes its path out of the paths of its
/// category, and leaves the paths of every category the same but for their
/// order.
proof fn lemma_record_all_remove(tally: Tally, statuses: Seq<StatusModel>, i: int, category: Category)
    requires
        0 <= i < statuses.len(),
    ensures
        tally.record_all(statuses).paths(category).to_multiset() == if statuses[i].category
            == category && category.reported() {
            tally.record_all(statuses.remove(i)).paths(category).to_multiset().insert(
                statuses[i].path,
            )
        } else {
            tally.record_all(statuses.remove(i)).paths(category).to_multiset()
        },
    decreases statuses.len(),
{
    broadcast use vstd::seq_lib::group_to_multiset_ensures;

    let before = statuses.drop_last();
    lemma_record_adds_one(tally.record_all(before), statuses.last(), category);
    if i < statuses.len() - 1 {
        lemma_record_all_remove(tally, before, i, category);
        assert(statuses.remove(i).drop_last() =~= before.remove(i));
        lemma_record_adds_one(tally.record_all(before.remove(i)), statuses.last(), category);
    }
}

/// The order in which statuses are recorded does not matter to what the
/// tally holds: two runs of the same statuses, in whatever order each, leave
/// under every category the same paths, each as often, and so the same count.
pub proof fn lemma_order_does_not_matter(
    tally: Tally,
    first: Seq<StatusModel>,
    second: Seq<StatusModel>,
    category: Category,
)
    requires
        first.to_multiset() == second.to_multiset(),
    ensures
        tally.record_all(first).paths(category).to_multiset() == tally.record_all(second).paths(
            category,
        ).to_multiset(),
        tally.record_all(first).count(category) == tally.record_all(second).count(category),
    decreases first.len(),
{
    broadcast use vstd::seq_lib::group_to_multiset_ensures;

    if first.len() == 0 {
        assert(second.to_multiset().len() == 0);
    } else {
        let last = first.last();
        assert(second.to_multiset().count(last) > 0);
        let i = choose|i: int| 0 <= i < second.len() && second[i] == last;
        let end = first.len() - 1;
        lemma_order_does_not_matter(tally, first.remove(end), second.remove(i), category);
        lemma_record_all_remove(tally, first, end, category);
        lemma_record_all_remove(tally, second, i, category);
    }
    assert(tally.record_all(first).paths(category).to_multiset().len() == tally.record_all(
        second,
    ).paths(category).to_multiset().len());
}

} // verus!
