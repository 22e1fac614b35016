use vstd::prelude::*;

use crate::command::{command_words, resolve, CommandLine};
use crate::config::Config;
use crate::path::{ext_of, extension};
use crate::text::views;

verus! {

/// The commands that `templates` give for the file `path`, in order; a
/// template that leaves no word gives none.
pub open spec fn planned(templates: Seq<Seq<char>>, path: Seq<char>) -> Seq<Seq<Seq<char>>>
    decreases templates.len(),
{
    if templates.len() == 0 {
        seq![]
    } else {
        let rest = planned(templates.drop_last(), path);
        let w = command_words(templates.last(), path);
        if w.len() == 0 {
            rest
        } else {
            rest.push(w)
        }
    }
}

/// The templates that the rule table gives for a file name: those of its
/// extension, or none where it has no extension or the table no entry for it.
pub open spec fn templates_for(
    table: Map<Seq<char>, Seq<Seq<char>>>,
    name: Seq<char>,
) -> Seq<Seq<char>> {
    match ext_of(name) {
        Some(e) => if table.contains_key(e) {
            table[e]
        } else {
            seq![]
        },
        None => seq![],
    }
}

/// The words of each command of a sequence.
pub open spec fn words_of(cs: Seq<CommandLine>) -> Seq<Seq<Seq<char>>> {
    cs.map_values(|c: CommandLine| c.words())
}

/// The commands that the rule table gives for the file `path`, whose final
/// component is `name`.
pub fn commands_for(config: &Config, name: &str, path: &str) -> (r: Vec<CommandLine>)
    ensures
        words_of(r@) == planned(templates_for(config@, name@), path@),
{
    let ext = extension(name);
    let mut out: Vec<CommandLine> = Vec::new();
    match ext {
        None => {
            proof {
                assert(words_of(out@) =~= seq![]);
            }
            out
        },
        Some(e) => match config.lookup(&e) {
            None => {
                proof {
                    assert(words_of(out@) =~= seq![]);
                }
                out
            },
            Some(templates) => {
                let mut i: usize = 0;
                proof {
                    assert(views(templates@).take(0) =~= seq![]);
                    assert(words_of(out@) =~= seq![]);
                }
                while i < templates.len()
                    invariant
                        i <= templates.len(),
                        words_of(out@) == planned(
                            views(templates@).take(i as int),
                            path@,
                        ),
                    decreases templates.len() - i,
                {
                    let ghost ts = views(templates@);
                    proof {
                        assert(ts.take(i + 1).drop_last() =~= ts.take(i as int));
                    }
                    match resolve(templates[i].as_str(), path) {
                        Some(c) => {
                            out.push(c);
                            proof {
                                assert(words_of(out@) =~= planned(ts.take(i as int), path@).push(
                                    command_words(ts[i as int], path@),
                                ));
                            }
                        },
                        None => {},
                    }
                    i += 1;
                }
                proof {
                    assert(views(templates@).take(templates.len() as int)
                        =~= views(templates@));
                }
                out
            },
        },
    }
}

/// What running one command gave: its captured output, how long it took, and
/// how it exited. A non-zero exit is a result like any other.
pub struct ExecutionResult {
    pub stdout: Vec<u8>,
    pub stderr: Vec<u8>,
    /// Wall-clock time from launch to exit, in microseconds.
    pub elapsed_micros: u64,
    /// The exit code, where the process exited with one.
    pub exit_code: Option<i32>,
    /// Whether the process exited successfully.
    pub success: bool,
}

/// A command that could not be launched (program not found, permission denied).
pub struct SpawnError {
    pub message: String,
}

/// What became of one command of a pipeline.
pub type Outcome = Result<ExecutionResult, SpawnError>;

/// The next thing to do for a changed file.
#[derive(Clone, Copy, Debug, PartialEq, Eq, Structural)]
pub enum Action {
    /// Stop observing the watched root.
    Suspend,
    /// Run the command at this position of the pipeline.
    Run(usize),
    /// Observe the watched root again.
    Resume,
    /// Hand the file and every command's outcome to the reporter.
    Report,
    /// Nothing is left to do.
    Done,
}

/// The actions for a pipeline of `n` commands: none where it is empty;
/// otherwise one suspension, each command in order, one resumption, a report.
pub open spec fn schedule(n: nat) -> Seq<Action> {
    if n == 0 {
        seq![]
    } else {
        seq![Action::Suspend] + Seq::new(n, |i: int| Action::Run(i as usize)) + seq![
            Action::Resume,
            Action::Report,
        ]
    }
}

/// How far a pipeline has got.
enum Stage {
    /// Nothing handed out yet.
    Fresh,
    /// The command at this position is the next to run.
    Running(usize),
    /// Every command has been handed out; the watch is to resume.
    Resuming,
    /// The report is due.
    Reporting,
    /// Everything has been handed out.
    Finished,
}

/// The work for one changed file: its commands, and how far they have got.
pub struct Pipeline {
    path: String,
    commands: Vec<CommandLine>,
    stage: Stage,
    outcomes: Vec<Outcome>,
}

impl Pipeline {
    /// The file that changed.
    pub closed spec fn file(&self) -> Seq<char> {
        self.path@
    }

    /// The commands, in the order they run.
    pub closed spec fn commands_spec(&self) -> Seq<CommandLine> {
        self.commands@
    }

    /// The actions that this pipeline hands out, from first to last.
    pub open spec fn actions(&self) -> Seq<Action> {
        schedule(self.commands_spec().len())
    }

    /// How many actions have been handed out.
    pub closed spec fn issued(&self) -> nat {
        let n = self.commands@.len();
        if n == 0 {
            0
        } else {
            match self.stage {
                Stage::Fresh => 0,
                Stage::Running(j) => j as nat + 1,
                Stage::Resuming => n + 1,
                Stage::Reporting => n + 2,
                Stage::Finished => n + 3,
            }
        }
    }

    /// The outcomes recorded so far, one per command that ran.
    pub closed spec fn outcomes_spec(&self) -> Seq<Outcome> {
        self.outcomes@
    }

    /// The stage agrees with the commands, and no command has two outcomes.
    #[verifier::type_invariant]
    spec fn wf(&self) -> bool {
        &&& (self.stage matches Stage::Running(j) ==> j < self.commands@.len())
        &&& self.outcomes@.len() <= self.commands@.len()
    }

    /// A pipeline for `path` that runs `commands`, none of it begun.
    pub fn new(path: String, commands: Vec<CommandLine>) -> (r: Pipeline)
        ensures
            r.file() == path@,
            r.commands_spec() == commands@,
            r.issued() == 0,
            r.outcomes_spec() == Seq::<Outcome>::empty(),
    {
        Pipeline { path, commands, stage: Stage::Fresh, outcomes: Vec::new() }
    }

    /// Hands out the next action; after the last, `Done` each time. What the
    /// commands gave does not change what comes next.
    pub fn next_action(&mut self) -> (a: Action)
        ensures
            final(self).file() == old(self).file(),
            final(self).commands_spec() == old(self).commands_spec(),
            final(self).outcomes_spec() == old(self).outcomes_spec(),
            old(self).issued() < old(self).actions().len() ==> a == old(self).actions()[old(self).issued() as int] && final(self).issued() == old(self).issued() + 1,
            old(self).issued() >= old(self).actions().len() ==> a == Action::Done && final(self).issued() == old(self).issued(),
    {
        proof {
            use_type_invariant(&*self);
        }
        let n = self.commands.len();
        if n == 0 {
            return Action::Done;
        }
        match self.stage {
            Stage::Fresh => {
                self.stage = Stage::Running(0);
                Action::Suspend
            },
            Stage::Running(j) => {
                if j + 1 < n {
                    self.stage = Stage::Running(j + 1);
                } else {
                    self.stage = Stage::Resuming;
                }
                Action::Run(j)
            },
            Stage::Resuming => {
                self.stage = Stage::Reporting;
                Action::Resume
            },
            Stage::Reporting => {
                self.stage = Stage::Finished;
                Action::Report
            },
            Stage::Finished => Action::Done,
        }
    }

    /// Records the outcome of the next command that had none.
    pub fn record(&mut self, outcome: Outcome)
        ensures
            final(self).file() == old(self).file(),
            final(self).commands_spec() == old(self).commands_spec(),
            final(self).issued() == old(self).issued(),
            old(self).outcomes_spec().len() < old(self).commands_spec().len() ==> final(self).outcomes_spec() == old(self).outcomes_spec().push(outcome),
            old(self).outcomes_spec().len() == old(self).commands_spec().len() ==> final(self).outcomes_spec() == old(self).outcomes_spec(),
    {
        proof {
            use_type_invariant(&*self);
        }
        if self.outcomes.len() < self.commands.len() {
            let mut outcomes: Vec<Outcome> = Vec::new();
            std::mem::swap(&mut self.outcomes, &mut outcomes);
            outcomes.push(outcome);
            self.outcomes = outcomes;
        }
    }

    /// The file that changed.
    pub fn path(&self) -> (r: &String)
        ensures
            r@ == self.file(),
    {
        &self.path
    }

    /// The commands, in the order they run.
    pub fn commands(&self) -> (r: &Vec<CommandLine>)
        ensures
            r@ == self.commands_spec(),
    {
        &self.commands
    }

    /// The outcomes recorded so far.
    pub fn outcomes(&self) -> (r: &Vec<Outcome>)
        ensures
            r@ == self.outcomes_spec(),
    {
        &self.outcomes
    }
}

} // verus!
