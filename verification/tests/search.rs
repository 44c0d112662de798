use repo_audit::search::{is_root, Entry, Request, Search};
use repo_audit::status::{Category, CommandOutput, Status};
use repo_audit::summary::StatusSummary;
use std::path::PathBuf;

fn dir(path: &str) -> Entry {
    let path = PathBuf::from(path);
    let name = path.file_name().unwrap().to_string_lossy().into_owned();
    Entry { path, name, is_dir: true, is_file: false }
}

fn file(path: &str) -> Entry {
    let path = PathBuf::from(path);
    let name = path.file_name().unwrap().to_string_lossy().into_owned();
    Entry { path, name, is_dir: false, is_file: true }
}

fn printed(stdout: &str) -> CommandOutput {
    CommandOutput { stdout: stdout.to_string(), stderr: String::new() }
}

fn failed(stderr: &str) -> CommandOutput {
    CommandOutput { stdout: String::new(), stderr: stderr.to_string() }
}

const ORIGIN: &str = "origin\tgit@example.org:p.git (fetch)\n";
const UP_TO_DATE: &str = "Your branch is up to date with 'origin/main'.";
const AHEAD: &str = "Your branch is ahead of 'origin/main' by 1 commit.";
const NOT_A_REPOSITORY: &str =
    "fatal: not a git repository (or any of the parent directories): .git";

/// A tree on which a search can be run without touching the disk.
struct Tree {
    listings: Vec<(&'static str, Vec<Entry>)>,
    remotes: Vec<(&'static str, CommandOutput)>,
    statuses: Vec<(&'static str, CommandOutput)>,
}

/// What a search did on a tree.
struct Run {
    listed: Vec<PathBuf>,
    checked: Vec<PathBuf>,
    read: Vec<PathBuf>,
    found: Vec<Status>,
    summary: StatusSummary,
    error: Option<String>,
}

fn entries_of(tree: &Tree, path: &PathBuf) -> Vec<Entry> {
    for (at, entries) in &tree.listings {
        if &PathBuf::from(at) == path {
            let mut copy = Vec::new();
            for entry in entries {
                copy.push(Entry {
                    path: entry.path.clone(),
                    name: entry.name.clone(),
                    is_dir: entry.is_dir,
                    is_file: entry.is_file,
                });
            }
            return copy;
        }
    }
    panic!("no listing for {:?}", path);
}

fn output_of(outputs: &Vec<(&'static str, CommandOutput)>, path: &PathBuf) -> CommandOutput {
    for (at, output) in outputs {
        if &PathBuf::from(at) == path {
            return CommandOutput { stdout: output.stdout.clone(), stderr: output.stderr.clone() };
        }
    }
    panic!("no output for {:?}", path);
}

fn run(tree: &Tree, start: &str) -> Run {
    let mut run = Run {
        listed: Vec::new(),
        checked: Vec::new(),
        read: Vec::new(),
        found: Vec::new(),
        summary: StatusSummary::default(),
        error: None,
    };
    let mut search = Search::new(PathBuf::from(start));
    loop {
        match search.request() {
            Request::List(path) => {
                search.listed(&entries_of(tree, &path));
                run.listed.push(path);
            }
            Request::ListRemotes(path) => {
                let output = output_of(&tree.remotes, &path);
                run.checked.push(path);
                match search.remotes(&output, &mut run.summary) {
                    Ok(Some(status)) => run.found.push(status),
                    Ok(None) => {}
                    Err(error) => {
                        run.error = Some(error);
                        return run;
                    }
                }
            }
            Request::ReadStatus(path) => {
                let output = output_of(&tree.statuses, &path);
                run.read.push(path);
                if let Some(status) = search.status(output, &mut run.summary) {
                    run.found.push(status);
                }
            }
            Request::Finished => return run,
        }
    }
}

fn paths(list: &[&str]) -> Vec<PathBuf> {
    list.iter().map(PathBuf::from).collect()
}

#[test]
fn a_root_is_found_and_not_descended_into() {
    let tree = Tree {
        listings: vec![
            ("/a", vec![dir("/a/b"), file("/a/Cargo.toml")]),
            ("/a/b", vec![file("/a/b/Cargo.toml")]),
        ],
        remotes: vec![("/a", printed(ORIGIN)), ("/a/b", printed(ORIGIN))],
        statuses: vec![("/a", printed(UP_TO_DATE)), ("/a/b", printed(UP_TO_DATE))],
    };
    let run = run(&tree, "/a");
    assert_eq!(run.error, None);
    assert_eq!(run.listed, paths(&["/a"]));
    assert_eq!(run.checked, paths(&["/a"]));
    assert_eq!(run.read, paths(&["/a"]));
    assert_eq!(run.found.len(), 1);
    match &run.found[0] {
        Status::UptoDate { path } => assert_eq!(path, &PathBuf::from("/a")),
        other => panic!("unexpected status {:?}", other),
    }
    assert_eq!(run.summary.paths(Category::UptoDate), paths(&["/a"]));
    assert_eq!(
        run.summary.short(),
        "NoRemote: 0\nUptoDate: 1\nBranchAhead: 0\nUntrackedFiles: 0\nOther: 0\nChangesNotStaged: 0\n"
    );
}

#[test]
fn the_marker_counts_wherever_it_stands_in_the_listing() {
    let tree = Tree {
        listings: vec![(
            "/a",
            vec![dir("/a/x"), dir("/a/y"), file("/a/Cargo.toml"), dir("/a/z"), file("/a/k")],
        )],
        remotes: vec![("/a", printed(ORIGIN))],
        statuses: vec![("/a", printed(AHEAD))],
    };
    let run = run(&tree, "/a");
    assert_eq!(run.listed, paths(&["/a"]));
    assert_eq!(run.summary.paths(Category::BranchAhead), paths(&["/a"]));
}

#[test]
fn directories_without_the_marker_are_descended_into_in_order() {
    let tree = Tree {
        listings: vec![
            ("/w", vec![file("/w/README"), dir("/w/one"), dir("/w/two"), dir("/w/three")]),
            ("/w/one", vec![file("/w/one/Cargo.toml"), dir("/w/one/src")]),
            ("/w/two", vec![dir("/w/two/deep"), file("/w/two/notes")]),
            ("/w/two/deep", vec![dir("/w/two/deep/er")]),
            ("/w/two/deep/er", vec![file("/w/two/deep/er/Cargo.toml")]),
            ("/w/three", vec![file("/w/three/Cargo.toml")]),
        ],
        remotes: vec![
            ("/w/one", printed(ORIGIN)),
            ("/w/two/deep/er", printed("")),
            ("/w/three", printed(ORIGIN)),
        ],
        statuses: vec![("/w/one", printed(UP_TO_DATE)), ("/w/three", printed(UP_TO_DATE))],
    };
    let run = run(&tree, "/w");
    assert_eq!(run.error, None);
    assert_eq!(
        run.listed,
        paths(&["/w", "/w/one", "/w/two", "/w/two/deep", "/w/two/deep/er", "/w/three"])
    );
    assert_eq!(run.checked, paths(&["/w/one", "/w/two/deep/er", "/w/three"]));
    assert_eq!(run.read, paths(&["/w/one", "/w/three"]));
    assert_eq!(run.summary.paths(Category::UptoDate), paths(&["/w/one", "/w/three"]));
    assert_eq!(run.summary.paths(Category::NoRemote), paths(&["/w/two/deep/er"]));
    assert_eq!(
        run.summary.long(),
        "--- NoRemote ---\n\n\n\"/w/two/deep/er\"\n--- UptoDate ---\n\n\n\"/w/one\"\n\"/w/three\"\n--- BranchAhead ---\n\n\n--- UntrackedFiles ---\n\n\n--- Other ---\n\n\n--- ChangesNotStaged ---\n\n\n"
    );
}

#[test]
fn a_tree_without_roots_gives_an_empty_summary() {
    let tree = Tree {
        listings: vec![("/e", vec![dir("/e/x"), file("/e/f")]), ("/e/x", vec![])],
        remotes: vec![],
        statuses: vec![],
    };
    let run = run(&tree, "/e");
    assert_eq!(run.listed, paths(&["/e", "/e/x"]));
    assert!(run.found.is_empty());
    assert_eq!(
        run.summary.short(),
        "NoRemote: 0\nUptoDate: 0\nBranchAhead: 0\nUntrackedFiles: 0\nOther: 0\nChangesNotStaged: 0\n"
    );
}

#[test]
fn a_root_without_remote_needs_no_status() {
    let tree = Tree {
        listings: vec![("/n", vec![file("/n/Cargo.toml")])],
        remotes: vec![("/n", printed(""))],
        statuses: vec![],
    };
    let run = run(&tree, "/n");
    assert_eq!(run.checked, paths(&["/n"]));
    assert!(run.read.is_empty());
    assert!(matches!(run.found[0], Status::NoRemote { .. }));
    assert_eq!(run.summary.count(Category::NoRemote), 1);
}

#[test]
fn a_root_that_is_no_repository_is_left_out_of_the_counts() {
    let tree = Tree {
        listings: vec![
            ("/r", vec![dir("/r/plain"), dir("/r/repo")]),
            ("/r/plain", vec![file("/r/plain/Cargo.toml")]),
            ("/r/repo", vec![file("/r/repo/Cargo.toml")]),
        ],
        remotes: vec![("/r/plain", failed(NOT_A_REPOSITORY)), ("/r/repo", printed(ORIGIN))],
        statuses: vec![("/r/plain", failed(NOT_A_REPOSITORY)), ("/r/repo", printed(AHEAD))],
    };
    let run = run(&tree, "/r");
    assert_eq!(run.error, None);
    assert_eq!(run.found.len(), 2);
    match &run.found[0] {
        Status::NotAGitRepository { path, buffer } => {
            assert_eq!(path, &PathBuf::from("/r/plain"));
            assert_eq!(buffer, NOT_A_REPOSITORY);
        }
        other => panic!("unexpected status {:?}", other),
    }
    assert_eq!(run.summary.count(Category::NoRemote), 0);
    assert_eq!(
        run.summary.short(),
        "NoRemote: 0\nUptoDate: 0\nBranchAhead: 1\nUntrackedFiles: 0\nOther: 0\nChangesNotStaged: 0\n"
    );
    assert!(!run.summary.long().contains("plain"));
}

#[test]
fn an_error_of_the_remote_listing_ends_the_search() {
    let tree = Tree {
        listings: vec![
            ("/s", vec![dir("/s/bad"), dir("/s/good")]),
            ("/s/bad", vec![file("/s/bad/Cargo.toml")]),
            ("/s/good", vec![file("/s/good/Cargo.toml")]),
        ],
        remotes: vec![("/s/bad", failed("error: broken config")), ("/s/good", printed(ORIGIN))],
        statuses: vec![("/s/good", printed(UP_TO_DATE))],
    };
    let run = run(&tree, "/s");
    assert_eq!(run.error, Some("error: broken config".to_string()));
    assert_eq!(run.listed, paths(&["/s", "/s/bad"]));
    assert!(run.found.is_empty());
    assert_eq!(run.summary.count(Category::UptoDate), 0);
}

#[test]
fn after_an_error_the_search_stays_where_it_was() {
    let mut summary = StatusSummary::default();
    let mut search = Search::new(PathBuf::from("/p"));
    search.listed(&vec![file("/p/Cargo.toml")]);
    assert_eq!(search.remotes(&failed("error: broken"), &mut summary).err(), Some("error: broken".to_string()));
    assert!(matches!(search.request(), Request::ListRemotes(path) if path == PathBuf::from("/p")));
    assert!(search.remotes(&printed(ORIGIN), &mut summary).unwrap().is_none());
    assert!(matches!(search.request(), Request::ReadStatus(path) if path == PathBuf::from("/p")));
}

#[test]
fn the_marker_is_a_file_with_exactly_that_name() {
    assert!(is_root(&vec![file("/p/Cargo.toml")]));
    assert!(is_root(&vec![dir("/p/src"), file("/p/a"), file("/p/Cargo.toml")]));
    assert!(!is_root(&vec![]));
    assert!(!is_root(&vec![dir("/p/Cargo.toml")]));
    assert!(!is_root(&vec![file("/p/cargo.toml")]));
    assert!(!is_root(&vec![file("/p/Cargo.toml.orig")]));
    assert!(!is_root(&vec![file("/p/Cargo.lock"), dir("/p/src")]));
    assert!(!is_root(&vec![Entry {
        path: PathBuf::from("/p/Cargo.toml"),
        name: "Cargo.toml".to_string(),
        is_dir: false,
        is_file: false,
    }]));
    assert!(file("/p/Cargo.toml").marks_root());
    assert!(!file("/p/Cargo.tom").marks_root());
}

#[test]
fn a_directory_named_like_the_marker_is_descended_into() {
    let tree = Tree {
        listings: vec![
            ("/d", vec![dir("/d/Cargo.toml")]),
            ("/d/Cargo.toml", vec![file("/d/Cargo.toml/Cargo.toml")]),
        ],
        remotes: vec![("/d/Cargo.toml", printed(""))],
        statuses: vec![],
    };
    let run = run(&tree, "/d");
    assert_eq!(run.listed, paths(&["/d", "/d/Cargo.toml"]));
    assert_eq!(run.summary.paths(Category::NoRemote), paths(&["/d/Cargo.toml"]));
}

#[test]
fn the_search_begins_by_asking_for_the_start() {
    let search = Search::new(PathBuf::from("/start"));
    assert!(matches!(search.request(), Request::List(path) if path == PathBuf::from("/start")));
}

#[test]
fn answers_that_were_not_asked_for_change_nothing() {
    let mut summary = StatusSummary::default();
    let mut search = Search::new(PathBuf::from("/p"));
    assert!(search.remotes(&printed(""), &mut summary).unwrap().is_none());
    assert!(search.status(printed(UP_TO_DATE), &mut summary).is_none());
    assert!(matches!(search.request(), Request::List(path) if path == PathBuf::from("/p")));
    search.listed(&vec![file("/p/Cargo.toml"), dir("/p/src")]);
    search.listed(&vec![dir("/p/other")]);
    assert!(search.status(printed(UP_TO_DATE), &mut summary).is_none());
    assert!(matches!(search.request(), Request::ListRemotes(path) if path == PathBuf::from("/p")));
    assert!(search.remotes(&printed(ORIGIN), &mut summary).unwrap().is_none());
    assert!(search.remotes(&printed(""), &mut summary).unwrap().is_none());
    search.listed(&vec![dir("/p/other")]);
    assert!(matches!(search.request(), Request::ReadStatus(path) if path == PathBuf::from("/p")));
    let found = search.status(printed(UP_TO_DATE), &mut summary);
    assert!(matches!(found, Some(Status::UptoDate { .. })));
    assert!(matches!(search.request(), Request::Finished));
    search.listed(&vec![dir("/p/other")]);
    assert!(search.remotes(&printed(""), &mut summary).unwrap().is_none());
    assert!(search.status(printed(UP_TO_DATE), &mut summary).is_none());
    assert!(matches!(search.request(), Request::Finished));
    assert_eq!(summary.count(Category::UptoDate), 1);
    assert_eq!(summary.count(Category::NoRemote), 0);
}

#[test]
fn the_search_classifies_as_status_new_does() {
    let cases = [
        (printed(ORIGIN), printed(AHEAD)),
        (printed(ORIGIN), printed(UP_TO_DATE)),
        (printed(""), printed(AHEAD)),
        (failed(NOT_A_REPOSITORY), failed(NOT_A_REPOSITORY)),
        (failed(NOT_A_REPOSITORY), printed("Untracked files:")),
        (printed(ORIGIN), printed("nothing known")),
    ];
    for (remote, status) in cases {
        let tree = Tree {
            listings: vec![("/c", vec![file("/c/Cargo.toml")])],
            remotes: vec![(
                "/c",
                CommandOutput { stdout: remote.stdout.clone(), stderr: remote.stderr.clone() },
            )],
            statuses: vec![(
                "/c",
                CommandOutput { stdout: status.stdout.clone(), stderr: status.stderr.clone() },
            )],
        };
        let run = run(&tree, "/c");
        let direct = Status::new(PathBuf::from("/c"), &remote, status).unwrap();
        assert_eq!(run.found.len(), 1);
        assert_eq!(format!("{:?}", run.found[0]), format!("{:?}", direct));
    }
}
