//! The file locator: a bounded walk of a directory tree that keeps, in walk
//! order, the files whose path contains the query, and the selection over
//! those results. The walk itself is driven from outside, one entry at a
//! time, through `Walk::visit`, which says whether to go on.

use crate::key::Key;
use crate::language::{derive_file_icon, icon_of, path_kind};
use crate::text::{
    chars_of, contains_chars, has_substring, lemma_empty_substring, pop_char, push_char,
};
use vstd::prelude::*;
use vstd::string::{StrSliceExecFns, StringExecFns};

verus! {

/// The most results one query keeps.
pub const MAX_RESULTS: usize = 30;

/// The most walk entries one query inspects.
pub const MAX_CHECKS: usize = 1024;

/// A file that matched: its path and the icon of its extension.
pub struct FileResult {
    pub path: String,
    pub icon: &'static str,
}

impl FileResult {
    /// A result with an empty path and no icon.
    pub fn new() -> (r: FileResult)
        ensures
            r.path@ == Seq::<char>::empty(),
            r.icon@ == ""@,
    {
        FileResult { path: String::new(), icon: "" }
    }

    /// The icon, two spaces, then the path.
    pub fn display_text(&self) -> (r: String)
        ensures
            r@ == self.icon@ + "  "@ + self.path@,
    {
        self.icon.to_owned().concat("  ").concat(self.path.as_str())
    }
}

/// Whether the walk leaves an entry out without counting it: anything inside
/// (or, for a directory, being) version-control metadata `.git` or a build
/// output `target/debug` or `target/release`.
pub open spec fn excluded(path: Seq<char>, is_dir: bool) -> bool {
    let p = if is_dir {
        path.push('/')
    } else {
        path
    };
    has_substring(p, ".git/"@) || has_substring(p, "target/debug/"@) || has_substring(
        p,
        "target/release/"@,
    )
}

/// The state of one query's walk: the matching paths so far, the entries
/// inspected, and whether the walk is over.
pub struct WalkModel {
    pub paths: Seq<Seq<char>>,
    pub checked: nat,
    pub stopped: bool,
}

/// The state before the first entry.
pub open spec fn walk_start() -> WalkModel {
    WalkModel { paths: Seq::empty(), checked: 0, stopped: false }
}

/// The state after one more entry. A stopped walk and an excluded entry
/// change nothing. Otherwise the entry is counted, a file whose path contains
/// the query is kept, and the walk stops once `MAX_CHECKS` entries were
/// inspected or `MAX_RESULTS` files were kept.
pub open spec fn walk_step(m: WalkModel, path: Seq<char>, is_dir: bool, query: Seq<char>) -> WalkModel {
    if m.stopped || excluded(path, is_dir) {
        m
    } else {
        let checked = m.checked + 1;
        let paths = if !is_dir && has_substring(path, query) {
            m.paths.push(path)
        } else {
            m.paths
        };
        WalkModel {
            paths,
            checked: checked,
            stopped: checked >= MAX_CHECKS || paths.len() >= MAX_RESULTS,
        }
    }
}

/// What the walker should do after an entry.
#[derive(Clone, Copy, Debug, PartialEq, Eq, Structural)]
pub enum WalkStep {
    /// Go on to the next entry.
    Continue,
    /// Do not descend into this directory; go on after it.
    SkipDir,
    /// The walk is over.
    Stop,
}

/// The answer to one entry, in the state `m` it is offered to.
pub open spec fn step_answer(m: WalkModel, path: Seq<char>, is_dir: bool, query: Seq<char>) -> WalkStep {
    if m.stopped || walk_step(m, path, is_dir, query).stopped {
        WalkStep::Stop
    } else if excluded(path, is_dir) && is_dir {
        WalkStep::SkipDir
    } else {
        WalkStep::Continue
    }
}

/// The state after a whole sequence of entries (path, is-directory), in walk order.
pub open spec fn walk_model(entries: Seq<(Seq<char>, bool)>, query: Seq<char>) -> WalkModel
    decreases entries.len(),
{
    if entries.len() == 0 {
        walk_start()
    } else {
        let last = entries.last();
        walk_step(walk_model(entries.drop_last(), query), last.0, last.1, query)
    }
}

/// The icon a result carries for its path.
pub open spec fn icon_for_path(path: Seq<char>) -> Seq<char> {
    icon_of(path_kind(path))
}

/// The number of entries the walk does not exclude.
pub open spec fn nonexcluded_count(entries: Seq<(Seq<char>, bool)>) -> nat
    decreases entries.len(),
{
    if entries.len() == 0 {
        0
    } else {
        let last = entries.last();
        nonexcluded_count(entries.drop_last()) + if excluded(last.0, last.1) {
            0nat
        } else {
            1nat
        }
    }
}

/// The paths of the files the walk does not exclude, in walk order.
pub open spec fn files_of(entries: Seq<(Seq<char>, bool)>) -> Seq<Seq<char>>
    decreases entries.len(),
{
    if entries.len() == 0 {
        Seq::empty()
    } else {
        let last = entries.last();
        let before = files_of(entries.drop_last());
        if !excluded(last.0, last.1) && !last.1 {
            before.push(last.0)
        } else {
            before
        }
    }
}

/// Whatever the entries and the query, a walk keeps at most `MAX_RESULTS`
/// files and inspects at most `MAX_CHECKS` entries.
pub proof fn lemma_walk_bounded(entries: Seq<(Seq<char>, bool)>, query: Seq<char>)
    ensures
        walk_model(entries, query).paths.len() <= MAX_RESULTS,
        walk_model(entries, query).checked <= MAX_CHECKS,
        !walk_model(entries, query).stopped ==> walk_model(entries, query).checked < MAX_CHECKS
            && walk_model(entries, query).paths.len() < MAX_RESULTS,
    decreases entries.len(),
{
    if entries.len() > 0 {
        lemma_walk_bounded(entries.drop_last(), query);
    }
}

/// With the empty query, a walk that the caps do not cut short keeps every
/// file it is not told to exclude, in walk order.
pub proof fn lemma_empty_query_keeps_every_file(entries: Seq<(Seq<char>, bool)>)
    requires
        nonexcluded_count(entries) <= MAX_CHECKS,
        files_of(entries).len() <= MAX_RESULTS,
    ensures
        walk_model(entries, Seq::<char>::empty()).paths == files_of(entries),
{
    lemma_empty_query_walk(entries);
}

proof fn lemma_empty_query_walk(entries: Seq<(Seq<char>, bool)>)
    requires
        nonexcluded_count(entries) <= MAX_CHECKS,
        files_of(entries).len() <= MAX_RESULTS,
    ensures
        ({
            let m = walk_model(entries, Seq::<char>::empty());
            &&& m.paths == files_of(entries)
            &&& m.checked <= nonexcluded_count(entries)
            &&& !m.stopped ==> m.checked == nonexcluded_count(entries)
            &&& m.stopped ==> m.checked >= MAX_CHECKS || m.paths.len() >= MAX_RESULTS
        }),
    decreases entries.len(),
{
    if entries.len() > 0 {
        let before = entries.drop_last();
        let last = entries.last();
        assert(nonexcluded_count(before) <= nonexcluded_count(entries));
        assert(files_of(before).len() <= files_of(entries).len());
        lemma_empty_query_walk(before);
        lemma_empty_substring(last.0);
    }
}

/// One query's walk in progress.
pub struct Walk {
    query: Vec<char>,
    results: Vec<FileResult>,
    checked: usize,
    stopped: bool,
    git: Vec<char>,
    debug: Vec<char>,
    release: Vec<char>,
}

impl Walk {
    /// The query.
    pub closed spec fn query_of(&self) -> Seq<char> {
        self.query@
    }

    /// The results so far.
    pub closed spec fn results_of(&self) -> Seq<FileResult> {
        self.results@
    }

    /// The walk's state.
    pub closed spec fn model(&self) -> WalkModel {
        WalkModel {
            paths: self.results@.map_values(|r: FileResult| r.path@),
            checked: self.checked as nat,
            stopped: self.stopped,
        }
    }

    pub closed spec fn wf(&self) -> bool {
        &&& self.git@ == ".git/"@
        &&& self.debug@ == "target/debug/"@
        &&& self.release@ == "target/release/"@
        &&& self.checked <= MAX_CHECKS
        &&& self.results.len() <= MAX_RESULTS
        &&& !self.stopped ==> self.checked < MAX_CHECKS && self.results.len() < MAX_RESULTS
        &&& forall|i: int|
            0 <= i < self.results.len() ==> (#[trigger] self.results[i]).icon@ == icon_for_path(
                self.results[i].path@,
            )
    }

    /// A walk for `query`, before the first entry.
    pub fn new(query: &str) -> (w: Walk)
        ensures
            w.wf(),
            w.query_of() == query@,
            w.model() == walk_start(),
    {
        let w = Walk {
            query: chars_of(query),
            results: Vec::new(),
            checked: 0,
            stopped: false,
            git: chars_of(".git/"),
            debug: chars_of("target/debug/"),
            release: chars_of("target/release/"),
        };
        assert(w.model().paths =~= Seq::<Seq<char>>::empty());
        w
    }

    /// Offers the next entry of the walk: its path and whether it is a
    /// directory. The answer says whether to go on, to skip the directory,
    /// or to stop.
    pub fn visit(&mut self, path: &str, is_dir: bool) -> (r: WalkStep)
        requires
            old(self).wf(),
        ensures
            final(self).wf(),
            final(self).query_of() == old(self).query_of(),
            final(self).model() == walk_step(old(self).model(), path@, is_dir, old(self).query_of()),
            r == step_answer(old(self).model(), path@, is_dir, old(self).query_of()),
    {
        if self.stopped {
            return WalkStep::Stop;
        }
        let mut p = chars_of(path);
        if is_dir {
            p.push('/');
        }
        if contains_chars(&p, &self.git) || contains_chars(&p, &self.debug) || contains_chars(
            &p,
            &self.release,
        ) {
            assert(p@ == if is_dir { path@.push('/') } else { path@ });
            return if is_dir {
                WalkStep::SkipDir
            } else {
                WalkStep::Continue
            };
        }
        assert(p@ == if is_dir { path@.push('/') } else { path@ });
        let ghost old_paths = self.model().paths;
        self.checked = self.checked + 1;
        if !is_dir {
            let name = chars_of(path);
            if contains_chars(&name, &self.query) {
                let result = FileResult { path: path.to_owned(), icon: derive_file_icon(path) };
                self.results.push(result);
                assert(self.model().paths =~= old_paths.push(path@));
            }
        }
        self.stopped = self.checked >= MAX_CHECKS || self.results.len() >= MAX_RESULTS;
        if self.stopped {
            WalkStep::Stop
        } else {
            WalkStep::Continue
        }
    }

    /// Whether the walk is over.
    pub fn is_stopped(&self) -> (r: bool)
        ensures
            r == self.model().stopped,
    {
        self.stopped
    }

    /// The results, in walk order.
    pub fn into_results(self) -> (r: Vec<FileResult>)
        requires
            self.wf(),
        ensures
            r@ == self.results_of(),
            r@.map_values(|x: FileResult| x.path@) == self.model().paths,
            r.len() <= MAX_RESULTS,
            forall|i: int| 0 <= i < r.len() ==> (#[trigger] r[i]).icon@ == icon_for_path(r[i].path@),
    {
        self.results
    }
}

/// One entry of a walk, as the walker saw it.
pub struct WalkEntry {
    pub path: String,
    pub is_dir: bool,
}

/// The (path, is-directory) pairs of a sequence of entries.
pub open spec fn entries_view(entries: Seq<WalkEntry>) -> Seq<(Seq<char>, bool)> {
    entries.map_values(|e: WalkEntry| (e.path@, e.is_dir))
}

/// Runs one query over the entries of a walk, in order, from scratch.
pub fn search_entries(query: &str, entries: &Vec<WalkEntry>) -> (r: Vec<FileResult>)
    ensures
        r@.map_values(|x: FileResult| x.path@) == walk_model(entries_view(entries@), query@).paths,
        r.len() <= MAX_RESULTS,
        forall|i: int| 0 <= i < r.len() ==> (#[trigger] r[i]).icon@ == icon_for_path(r[i].path@),
{
    let mut w = Walk::new(query);
    let mut i: usize = 0;
    while i < entries.len()
        invariant
            i <= entries.len(),
            w.wf(),
            w.query_of() == query@,
            w.model() == walk_model(entries_view(entries@.take(i as int)), query@),
        decreases entries.len() - i,
    {
        let ghost before = entries_view(entries@.take(i as int));
        let ghost after = entries_view(entries@.take(i + 1));
        assert(after.drop_last() =~= before);
        assert(after.last() == (entries[i as int].path@, entries[i as int].is_dir));
        w.visit(entries[i].path.as_str(), entries[i].is_dir);
        i = i + 1;
    }
    assert(entries@.take(entries.len() as int) =~= entries@);
    w.into_results()
}

/// The selection after Up: from the query line to the first result, then
/// one older result at a time, stopping at the last.
pub open spec fn select_up(sel: Option<usize>, len: int) -> Option<usize> {
    match sel {
        None => if len > 0 {
            Some(0usize)
        } else {
            None
        },
        Some(p) => if p + 1 < len {
            Some((p + 1) as usize)
        } else {
            Some(p)
        },
    }
}

/// The selection after Down: one newer result, and from the first result
/// back to the query line.
pub open spec fn select_down(sel: Option<usize>) -> Option<usize> {
    match sel {
        Some(p) => if p == 0 {
            None
        } else {
            Some((p - 1) as usize)
        },
        None => None,
    }
}

/// The selection once the results have `len` entries: kept when still in
/// range, moved to the last result otherwise, cleared when there is none.
pub open spec fn revalidate(sel: Option<usize>, len: int) -> Option<usize> {
    match sel {
        Some(i) => if i < len {
            Some(i)
        } else if len > 0 {
            Some((len - 1) as usize)
        } else {
            None
        },
        None => None,
    }
}

/// The selection checked against `len` results; see `revalidate`.
pub fn revalidated(sel: Option<usize>, len: usize) -> (r: Option<usize>)
    ensures
        r == revalidate(sel, len as int),
{
    match sel {
        Some(i) => if i < len {
            Some(i)
        } else if len > 0 {
            Some(len - 1)
        } else {
            None
        },
        None => None,
    }
}

/// What the caller should do after a key in the locator.
pub enum FinderAction {
    /// Leave the locator.
    Close,
    /// Open the selected file.
    Open(String),
    /// The query changed: run a new walk and hand it to `finish_walk`.
    Search,
    /// The selection moved.
    Moved,
    /// Nothing to do.
    Ignore,
}

/// The locator: the results of the last walk, the selected result (none
/// while the query line has the focus), the query and the root directory.
pub struct FileFinder {
    pub results: Vec<FileResult>,
    pub currently_selected_index: Option<usize>,
    pub search: String,
    pub dir: String,
}

impl FileFinder {
    pub open spec fn wf(&self) -> bool {
        &&& self.results.len() <= MAX_RESULTS
        &&& (self.currently_selected_index matches Some(i) ==> i < self.results.len())
    }

    /// A locator with no results, an empty query and an empty root.
    pub fn new() -> (f: FileFinder)
        ensures
            f.wf(),
            f.results@ == Seq::<FileResult>::empty(),
            f.currently_selected_index is None,
            f.search@ == Seq::<char>::empty(),
            f.dir@ == Seq::<char>::empty(),
    {
        FileFinder {
            results: Vec::new(),
            currently_selected_index: None,
            search: String::new(),
            dir: String::new(),
        }
    }

    /// Sets the root directory of the walks.
    pub fn set_dir(&mut self, dir: String)
        ensures
            *final(self) == (FileFinder { dir: dir, ..*old(self) }),
    {
        self.dir = dir;
    }

    /// A fresh walk for the current query.
    pub fn start_walk(&self) -> (w: Walk)
        ensures
            w.wf(),
            w.query_of() == self.search@,
            w.model() == walk_start(),
    {
        Walk::new(self.search.as_str())
    }

    /// Takes the results of a finished walk; the selection is checked again
    /// against the new number of results.
    pub fn finish_walk(&mut self, walk: Walk)
        requires
            old(self).wf(),
            walk.wf(),
        ensures
            final(self).wf(),
            final(self).results@ == walk.results_of(),
            final(self).currently_selected_index == revalidate(
                old(self).currently_selected_index,
                walk.results_of().len() as int,
            ),
            final(self).search == old(self).search,
            final(self).dir == old(self).dir,
    {
        self.results = walk.into_results();
        let len = self.results.len();
        self.currently_selected_index = revalidated(self.currently_selected_index, len);
    }

    /// Runs the current query from scratch over the entries of a walk of
    /// the root directory.
    pub fn search_dir(&mut self, entries: &Vec<WalkEntry>)
        requires
            old(self).wf(),
        ensures
            final(self).wf(),
            final(self).results@.map_values(|x: FileResult| x.path@) == walk_model(
                entries_view(entries@),
                old(self).search@,
            ).paths,
            forall|i: int|
                0 <= i < final(self).results.len() ==> (#[trigger] final(self).results[i]).icon@
                    == icon_for_path(final(self).results[i].path@),
            final(self).currently_selected_index == revalidate(
                old(self).currently_selected_index,
                final(self).results.len() as int,
            ),
            final(self).search == old(self).search,
            final(self).dir == old(self).dir,
    {
        self.results = search_entries(self.search.as_str(), entries);
        let len = self.results.len();
        self.currently_selected_index = revalidated(self.currently_selected_index, len);
    }

    /// Applies one key. Esc leaves; Enter opens the selected result; Up and
    /// Down move the selection; a character extends the query and Backspace
    /// shortens it, and either asks for a new walk.
    pub fn handle_key(&mut self, key: Key) -> (r: FinderAction)
        requires
            old(self).wf(),
        ensures
            final(self).wf(),
            final(self).results == old(self).results,
            final(self).dir == old(self).dir,
            match key {
                Key::Esc => r is Close && *final(self) == *old(self),
                Key::Enter => *final(self) == *old(self) && match old(
                    self,
                ).currently_selected_index {
                    Some(i) => r matches FinderAction::Open(p) && p@ == old(self).results[i as int].path@,
                    None => r is Ignore,
                },
                Key::Up => {
                    &&& final(self).currently_selected_index == select_up(
                        old(self).currently_selected_index,
                        old(self).results.len() as int,
                    )
                    &&& final(self).search == old(self).search
                    &&& r is Moved
                },
                Key::Down => {
                    &&& final(self).currently_selected_index == select_down(
                        old(self).currently_selected_index,
                    )
                    &&& final(self).search == old(self).search
                    &&& r is Moved
                },
                Key::Char(c) => {
                    &&& final(self).search@ == old(self).search@.push(c)
                    &&& final(self).currently_selected_index == old(self).currently_selected_index
                    &&& r is Search
                },
                Key::Backspace => if old(self).search@.len() > 0 {
                    &&& final(self).search@ == old(self).search@.drop_last()
                    &&& final(self).currently_selected_index == old(
                        self,
                    ).currently_selected_index
                    &&& r is Search
                } else {
                    r is Ignore && *final(self) == *old(self)
                },
                _ => r is Ignore && *final(self) == *old(self),
            },
    {
        match key {
            Key::Esc => FinderAction::Close,
            Key::Enter => match self.currently_selected_index {
                Some(i) => FinderAction::Open(self.results[i].path.clone()),
                None => FinderAction::Ignore,
            },
            Key::Up => {
                self.currently_selected_index = match self.currently_selected_index {
                    None => if self.results.len() > 0 {
                        Some(0)
                    } else {
                        None
                    },
                    Some(p) => if p + 1 < self.results.len() {
                        Some(p + 1)
                    } else {
                        Some(p)
                    },
                };
                FinderAction::Moved
            },
            Key::Down => {
                self.currently_selected_index = match self.currently_selected_index {
                    Some(p) => if p == 0 {
                        None
                    } else {
                        Some(p - 1)
                    },
                    None => None,
                };
                FinderAction::Moved
            },
            Key::Char(c) => {
                push_char(&mut self.search, c);
                FinderAction::Search
            },
            Key::Backspace => {
                if self.search.as_str().unicode_len() > 0 {
                    let _ = pop_char(&mut self.search);
                    FinderAction::Search
                } else {
                    FinderAction::Ignore
                }
            },
            _ => FinderAction::Ignore,
        }
    }
}

} // verus!
