use vstd::prelude::*;

use crate::command::CommandLine;

verus! {

/// Ruff's formatter, run on one file.
pub struct RuffFormat;

/// Ruff's linter, run on one file.
pub struct RuffCheck;

impl RuffFormat {
    /// The tool's display name.
    pub fn name(&self) -> (r: &'static str)
        ensures
            r@ == "ruff format"@,
    {
        "ruff format"
    }

    /// The command that formats the file at `path`: `ruff format <path>`, the
    /// path one argument whatever it holds.
    pub fn command(&self, path: &str) -> (r: CommandLine)
        ensures
            r.words() == seq!["ruff"@, "format"@, path@],
    {
        let r = CommandLine { program: "ruff".to_owned(), args: vec!["format".to_owned(), path.to_owned()] };
        proof {
            assert(r.words() =~= seq!["ruff"@, "format"@, path@]);
        }
        r
    }
}

impl RuffCheck {
    /// The tool's display name.
    pub fn name(&self) -> (r: &'static str)
        ensures
            r@ == "ruff check"@,
    {
        "ruff check"
    }

    /// The command that lints the file at `path`: `ruff check <path>`, the
    /// path one argument whatever it holds.
    pub fn command(&self, path: &str) -> (r: CommandLine)
        ensures
            r.words() == seq!["ruff"@, "check"@, path@],
    {
        let r = CommandLine { program: "ruff".to_owned(), args: vec!["check".to_owned(), path.to_owned()] };
        proof {
            assert(r.words() =~= seq!["ruff"@, "check"@, path@]);
        }
        r
    }
}

} // verus!
