use vstd::prelude::*;

use crate::config::Config;
use crate::command::command_words;
use crate::dispatch::{commands_for, planned, schedule, templates_for, words_of, Action, Pipeline};
use crate::path::{ext_of, file_name, file_name_of};
use crate::watch::{resumed, suspended, WatchController, WatchState};

verus! {

/// Watches one directory tree and decides what to run when a file in it changes.
pub struct Sentinel {
    dir: String,
    config: Config,
    watch: WatchController,
}

/// The words of the commands that a change to the file at `path` gives under `table`.
pub open spec fn plan_for(table: Map<Seq<char>, Seq<Seq<char>>>, path: Seq<char>) -> Seq<
    Seq<Seq<char>>,
> {
    match file_name_of(path) {
        Some(n) => planned(templates_for(table, n), path),
        None => seq![],
    }
}

impl Sentinel {
    /// The watched root.
    pub closed spec fn root(&self) -> Seq<char> {
        self.dir@
    }

    /// The rule table.
    pub closed spec fn table(&self) -> Map<Seq<char>, Seq<Seq<char>>> {
        self.config@
    }

    /// Whether the root is being observed.
    pub closed spec fn watch_state(&self) -> WatchState {
        self.watch.state
    }

    /// A sentinel for the tree at `dir` with the rules of `config`; nothing is
    /// watched yet.
    pub fn new(dir: String, config: Config) -> (r: Sentinel)
        ensures
            r.root() == dir@,
            r.table() == config@,
            r.watch_state() == WatchState::Idle,
    {
        Sentinel { dir, config, watch: WatchController::new() }
    }

    /// The watched root.
    pub fn dir(&self) -> (r: &String)
        ensures
            r@ == self.root(),
    {
        &self.dir
    }

    /// The rule table.
    pub fn config(&self) -> (r: &Config)
        ensures
            r@ == self.table(),
    {
        &self.config
    }

    /// Whether the root is being observed.
    pub fn state(&self) -> (r: WatchState)
        ensures
            r == self.watch_state(),
    {
        self.watch.state
    }

    /// Notes that the subscription on the root was made.
    pub fn watch_started(&mut self)
        ensures
            final(self).root() == old(self).root(),
            final(self).table() == old(self).table(),
            final(self).watch_state() == WatchState::Watching,
    {
        self.watch.started();
    }

    /// Pauses the watch; returns whether the subscription must be dropped now.
    pub fn disable_watch(&mut self) -> (unwatch: bool)
        ensures
            final(self).root() == old(self).root(),
            final(self).table() == old(self).table(),
            final(self).watch_state() == suspended(old(self).watch_state()),
            unwatch == (old(self).watch_state() == WatchState::Watching),
    {
        self.watch.suspend()
    }

    /// Resumes the watch; returns whether the subscription must be made again.
    pub fn enable_watch(&mut self) -> (rewatch: bool)
        ensures
            final(self).root() == old(self).root(),
            final(self).table() == old(self).table(),
            final(self).watch_state() == resumed(old(self).watch_state()),
            rewatch == (old(self).watch_state() == WatchState::Suspended),
    {
        self.watch.resume()
    }

    /// The pipeline for a changed file: the commands that its extension's
    /// templates give for its path, in order, none of them begun.
    pub fn process_file(&self, path: &str) -> (r: Pipeline)
        ensures
            r.file() == path@,
            words_of(r.commands_spec()) == plan_for(self.table(), path@),
            r.issued() == 0,
            r.outcomes_spec().len() == 0,
    {
        let commands = match file_name(path) {
            Some(name) => commands_for(&self.config, name.as_str(), path),
            None => {
                let v: Vec<crate::command::CommandLine> = Vec::new();
                proof {
                    assert(words_of(v@) =~= seq![]);
                }
                v
            },
        };
        Pipeline::new(path.to_owned(), commands)
    }
}

/// A changed file whose extension has no entry in the table (or that has no
/// extension at all) gives no command, so its pipeline hands out no action:
/// nothing runs, the watch is neither suspended nor resumed, nothing is reported.
pub proof fn lemma_unmatched_file_does_nothing(table: Map<Seq<char>, Seq<Seq<char>>>, path: Seq<char>)
    requires
        match file_name_of(path) {
            Some(n) => match ext_of(n) {
                Some(e) => !table.contains_key(e),
                None => true,
            },
            None => true,
        },
    ensures
        plan_for(table, path) == Seq::<Seq<Seq<char>>>::empty(),
        schedule(plan_for(table, path).len()) == Seq::<Action>::empty(),
{
}

/// When every template gives a command, the plan holds one command per
/// template, in the configured order.
pub proof fn lemma_planned_each(templates: Seq<Seq<char>>, path: Seq<char>)
    requires
        forall|i: int| 0 <= i < templates.len() ==> #[trigger] command_words(templates[i], path).len() > 0,
    ensures
        planned(templates, path).len() == templates.len(),
        forall|i: int| 0 <= i < templates.len() ==> #[trigger] planned(templates, path)[i] == command_words(templates[i], path),
    decreases templates.len(),
{
    if templates.len() > 0 {
        let init = templates.drop_last();
        assert forall|i: int| 0 <= i < init.len() implies #[trigger] command_words(init[i], path).len() > 0 by {
            assert(init[i] == templates[i]);
        }
        lemma_planned_each(init, path);
        assert(command_words(templates[templates.len() - 1], path).len() > 0);
    }
}

/// A changed file whose extension has `n` templates, each of which gives a
/// command, runs exactly those `n` commands, in the configured order, between
/// exactly one suspension at the start and one resumption after the last; the
/// order does not depend on what the commands gave.
pub proof fn lemma_matched_file_runs_each_once(
    table: Map<Seq<char>, Seq<Seq<char>>>,
    path: Seq<char>,
    name: Seq<char>,
    ext: Seq<char>,
)
    requires
        file_name_of(path) == Some(name),
        ext_of(name) == Some(ext),
        table.contains_key(ext),
        table[ext].len() > 0,
        forall|i: int| 0 <= i < table[ext].len() ==> #[trigger] command_words(table[ext][i], path).len() > 0,
    ensures
        ({
            let n = table[ext].len() as int;
            let plan = plan_for(table, path);
            let s = schedule(plan.len());
            &&& plan.len() == n
            &&& forall|i: int| 0 <= i < n ==> #[trigger] plan[i] == command_words(table[ext][i], path)
            &&& s.len() == n + 3
            &&& s[0] == Action::Suspend
            &&& forall|i: int| 0 <= i < n ==> #[trigger] s[i + 1] == Action::Run(i as usize)
            &&& s[n + 1] == Action::Resume
            &&& s[n + 2] == Action::Report
            &&& forall|j: int| 0 <= j < s.len() ==> (#[trigger] s[j] == Action::Suspend <==> j == 0)
            &&& forall|j: int| 0 <= j < s.len() ==> (#[trigger] s[j] == Action::Resume <==> j == n + 1)
            &&& forall|j: int| 0 <= j < s.len() ==> (#[trigger] s[j] is Run <==> 1 <= j <= n)
        }),
{
    lemma_planned_each(table[ext], path);
    let n = table[ext].len() as int;
    let s = schedule(n as nat);
    assert forall|i: int| 0 <= i < n implies #[trigger] s[i + 1] == Action::Run(i as usize) by {}
    assert forall|j: int| 0 <= j < s.len() implies (#[trigger] s[j] == Action::Suspend <==> j == 0) && (s[j] == Action::Resume <==> j == n + 1) && (s[j] is Run <==> 1 <= j <= n) by {
        if 1 <= j <= n {
            assert(s[j] == Action::Run((j - 1) as usize));
        }
    }
}

} // verus!
