use sentinel::command::{expand_template, resolve, split_words, CommandLine};
use sentinel::config::Config;
use sentinel::debounce::{Debouncer, RawEvent, RawKind};
use sentinel::dispatch::{commands_for, Action, ExecutionResult, Pipeline, SpawnError};
use sentinel::path::extension;
use sentinel::sentinel::Sentinel;
use sentinel::watch::WatchState;

fn strings(v: &[&str]) -> Vec<String> {
    v.iter().map(|s| s.to_string()).collect()
}

fn config_of(entries: &[(&str, &[&str])]) -> Config {
    let mut c = Config::new();
    for (ext, templates) in entries {
        c.insert(ext.to_string(), strings(templates));
    }
    c
}

fn modified(path: &str) -> RawEvent {
    RawEvent { kind: RawKind::DataModified, paths: vec![path.to_string()] }
}

fn words(c: &CommandLine) -> Vec<String> {
    let mut w = vec![c.program.clone()];
    w.extend(c.args.iter().cloned());
    w
}

fn drain(p: &mut Pipeline) -> Vec<Action> {
    let mut out = Vec::new();
    loop {
        let a = p.next_action();
        if a == Action::Done {
            return out;
        }
        out.push(a);
    }
}

fn ran(stdout: &str) -> ExecutionResult {
    ExecutionResult {
        stdout: stdout.as_bytes().to_vec(),
        stderr: Vec::new(),
        elapsed_micros: 1200,
        exit_code: Some(0),
        success: true,
    }
}

#[test]
fn test_sentinel_new() {
    let dir = "/tmp/sentinel-project".to_string();
    let sentinel = Sentinel::new(dir.clone(), Config::new());
    assert_eq!(sentinel.dir(), &dir);
    assert_eq!(sentinel.state(), WatchState::Idle);
}

#[test]
fn test_process_file() {
    let config = config_of(&[("txt", &["echo {file}"])]);
    let sentinel = Sentinel::new("/tmp/dir".to_string(), config);
    let p = sentinel.process_file("/tmp/dir/test.txt");
    assert_eq!(p.commands().len(), 1);
    assert_eq!(words(&p.commands()[0]), strings(&["echo", "/tmp/dir/test.txt"]));
}

#[test]
fn test_process_file_no_commands() {
    let sentinel = Sentinel::new("/tmp/dir".to_string(), Config::new());
    let mut p = sentinel.process_file("/tmp/dir/test.txt");
    assert!(p.commands().is_empty());
    assert!(drain(&mut p).is_empty());
}

#[test]
fn test_disable_enable_watch() {
    let mut sentinel = Sentinel::new("/tmp/dir".to_string(), Config::new());
    sentinel.watch_started();
    assert!(sentinel.disable_watch());
    assert_eq!(sentinel.state(), WatchState::Suspended);
    assert!(sentinel.enable_watch());
    assert_eq!(sentinel.state(), WatchState::Watching);
}

#[test]
fn test_disable_enable_watch_no_watcher() {
    let mut sentinel = Sentinel::new("/tmp/dir".to_string(), Config::new());
    assert!(!sentinel.disable_watch());
    assert!(!sentinel.enable_watch());
    assert_eq!(sentinel.state(), WatchState::Idle);
}

#[test]
fn suspend_and_resume_twice_change_nothing_more() {
    let mut sentinel = Sentinel::new("/tmp/dir".to_string(), Config::new());
    sentinel.watch_started();
    assert!(sentinel.disable_watch());
    assert!(!sentinel.disable_watch());
    assert_eq!(sentinel.state(), WatchState::Suspended);
    assert!(sentinel.enable_watch());
    assert!(!sentinel.enable_watch());
    assert_eq!(sentinel.state(), WatchState::Watching);
}

#[test]
fn python_file_runs_echo_between_suspend_and_resume() {
    let mut d = Debouncer::new();
    let change = d.observe(&modified("/tmp/a.py"), 1000).expect("a change");
    assert_eq!(change.path, "/tmp/a.py");
    assert_eq!(change.at_ms, 1000);
    let config = config_of(&[("py", &["echo {file}"])]);
    let sentinel = Sentinel::new("/tmp".to_string(), config);
    let mut p = sentinel.process_file(&change.path);
    assert_eq!(p.path(), "/tmp/a.py");
    assert_eq!(words(&p.commands()[0]), strings(&["echo", "/tmp/a.py"]));
    assert_eq!(p.next_action(), Action::Suspend);
    assert_eq!(p.next_action(), Action::Run(0));
    p.record(Ok(ran("/tmp/a.py\n")));
    assert_eq!(p.next_action(), Action::Resume);
    assert_eq!(p.next_action(), Action::Report);
    assert_eq!(p.next_action(), Action::Done);
    assert_eq!(p.next_action(), Action::Done);
    let out = p.outcomes()[0].as_ref().ok().expect("a result");
    assert_eq!(out.stdout, b"/tmp/a.py\n".to_vec());
    assert!(out.stderr.is_empty());
    assert!(out.success);
}

#[test]
fn repeat_within_window_is_dropped() {
    let mut d = Debouncer::new();
    assert!(d.observe(&modified("/tmp/a.py"), 10_000).is_some());
    assert!(d.observe(&modified("/tmp/a.py"), 10_050).is_none());
}

#[test]
fn burst_gives_one_change() {
    let mut d = Debouncer::new();
    let times = [0u64, 100, 250, 499];
    let n = times.iter().filter(|t| d.observe(&modified("/tmp/a.py"), **t).is_some()).count();
    assert_eq!(n, 1);
    assert!(d.observe(&modified("/tmp/a.py"), 500).is_some());
}

#[test]
fn other_path_passes_at_once() {
    let mut d = Debouncer::new();
    assert!(d.observe(&modified("/tmp/a.py"), 0).is_some());
    assert!(d.observe(&modified("/tmp/b.py"), 1).is_some());
    assert!(d.observe(&modified("/tmp/a.py"), 2).is_some());
}

#[test]
fn clock_going_back_counts_as_no_time() {
    let mut d = Debouncer::new();
    assert!(d.observe(&modified("/tmp/a.py"), 5000).is_some());
    assert!(d.observe(&modified("/tmp/a.py"), 100).is_none());
}

#[test]
fn other_kinds_give_no_change() {
    let mut d = Debouncer::new();
    for kind in [
        RawKind::MetadataModified,
        RawKind::Renamed,
        RawKind::OtherModified,
        RawKind::Created,
        RawKind::Removed,
        RawKind::Accessed,
        RawKind::Other,
    ] {
        let e = RawEvent { kind, paths: vec!["/tmp/a.py".to_string()] };
        assert!(d.observe(&e, 0).is_none());
    }
    let empty = RawEvent { kind: RawKind::DataModified, paths: Vec::new() };
    assert!(d.observe(&empty, 0).is_none());
    assert!(d.observe(&modified("/tmp/a.py"), 0).is_some());
}

#[test]
fn unmatched_extension_does_nothing() {
    let config = config_of(&[("py", &["echo {file}"])]);
    let sentinel = Sentinel::new("/tmp".to_string(), config);
    let mut p = sentinel.process_file("/tmp/b.txt");
    assert!(p.commands().is_empty());
    assert!(drain(&mut p).is_empty());
    assert!(p.outcomes().is_empty());
}

#[test]
fn failed_launch_does_not_stop_the_pipeline() {
    let config = config_of(&[("py", &["nonexistent-binary {file}", "echo {file}"])]);
    let sentinel = Sentinel::new("/tmp".to_string(), config);
    let mut p = sentinel.process_file("/tmp/a.py");
    assert_eq!(p.commands().len(), 2);
    assert_eq!(words(&p.commands()[0]), strings(&["nonexistent-binary", "/tmp/a.py"]));
    assert_eq!(p.next_action(), Action::Suspend);
    assert_eq!(p.next_action(), Action::Run(0));
    p.record(Err(SpawnError { message: "No such file or directory".to_string() }));
    assert_eq!(p.next_action(), Action::Run(1));
    p.record(Ok(ran("/tmp/a.py\n")));
    assert_eq!(p.next_action(), Action::Resume);
    assert_eq!(p.next_action(), Action::Report);
    assert!(p.outcomes()[0].is_err());
    assert!(p.outcomes()[1].is_ok());
}

#[test]
fn three_commands_run_in_order_inside_one_bracket() {
    let config = config_of(&[("rs", &["fmt {file}", "lint --all {file}", "count"])]);
    let sentinel = Sentinel::new("/src".to_string(), config);
    let mut p = sentinel.process_file("/src/main.rs");
    let got: Vec<Vec<String>> = p.commands().iter().map(words).collect();
    assert_eq!(
        got,
        vec![
            strings(&["fmt", "/src/main.rs"]),
            strings(&["lint", "--all", "/src/main.rs"]),
            strings(&["count"]),
        ]
    );
    assert_eq!(
        drain(&mut p),
        vec![
            Action::Suspend,
            Action::Run(0),
            Action::Run(1),
            Action::Run(2),
            Action::Resume,
            Action::Report
        ]
    );
}

#[test]
fn blank_template_gives_no_command() {
    let config = config_of(&[("md", &["   ", "wc {file}"])]);
    let sentinel = Sentinel::new("/d".to_string(), config);
    let p = sentinel.process_file("/d/x.md");
    assert_eq!(p.commands().len(), 1);
    assert_eq!(words(&p.commands()[0]), strings(&["wc", "/d/x.md"]));
}

#[test]
fn extension_keys_are_case_sensitive() {
    let config = config_of(&[("PY", &["echo {file}"])]);
    let sentinel = Sentinel::new("/d".to_string(), config);
    assert!(sentinel.process_file("/d/a.py").commands().is_empty());
    assert_eq!(sentinel.process_file("/d/a.PY").commands().len(), 1);
}

#[test]
fn file_name_is_taken_from_the_last_component() {
    let config = config_of(&[("py/readme", &["echo {file}"]), ("py", &["echo {file}"])]);
    let sentinel = Sentinel::new("/srv".to_string(), config);
    assert!(sentinel.process_file("/srv/site.py/readme").commands().is_empty());
    assert_eq!(sentinel.process_file("/srv/site.py/main.py").commands().len(), 1);
    assert!(sentinel.process_file("/srv/..").commands().is_empty());
}

#[test]
fn config_insert_replaces_and_lookup_finds() {
    let mut c = config_of(&[("py", &["a {file}"]), ("rs", &["b"])]);
    c.insert("py".to_string(), strings(&["c", "d"]));
    assert_eq!(c.lookup(&"py".to_string()), Some(&strings(&["c", "d"])));
    assert_eq!(c.lookup(&"rs".to_string()), Some(&strings(&["b"])));
    assert_eq!(c.lookup(&"txt".to_string()), None);
    assert_eq!(c.lookup(&"".to_string()), None);
}

#[test]
fn empty_template_list_is_a_no_op() {
    let config = config_of(&[("py", &[])]);
    let sentinel = Sentinel::new("/d".to_string(), config);
    let mut p = sentinel.process_file("/d/a.py");
    assert!(drain(&mut p).is_empty());
}

#[test]
fn expand_replaces_every_placeholder() {
    assert_eq!(expand_template("cp {file} {file}.bak", "/x/y.py"), "cp /x/y.py /x/y.py.bak");
    assert_eq!(expand_template("{file}", "p"), "p");
    assert_eq!(expand_template("{fil {file}}", "p"), "{fil p}");
    assert_eq!(expand_template("{{file}}", "é"), "{é}");
    assert_eq!(expand_template("no placeholder", "p"), "no placeholder");
    assert_eq!(expand_template("", "p"), "");
}

#[test]
fn split_at_any_white_space() {
    assert_eq!(split_words("  a\tb\n c  "), strings(&["a", "b", "c"]));
    assert_eq!(split_words("a\u{3000}b\u{a0}c\u{2009}d"), strings(&["a", "b", "c", "d"]));
    assert_eq!(split_words("'quoted words'"), strings(&["'quoted", "words'"]));
    assert!(split_words(" \t ").is_empty());
    assert!(split_words("").is_empty());
}

#[test]
fn resolve_splits_after_substitution() {
    let c = resolve("echo {file}", "/my dir/a.py").expect("a command");
    assert_eq!(c.program, "echo");
    assert_eq!(c.args, strings(&["/my", "dir/a.py"]));
    assert!(resolve("  ", "/a.py").is_none());
    assert!(resolve("{file}", "").is_none());
}

#[test]
fn extension_follows_the_last_dot() {
    assert_eq!(extension("a.py"), Some("py".to_string()));
    assert_eq!(extension("archive.tar.gz"), Some("gz".to_string()));
    assert_eq!(extension("a."), Some("".to_string()));
    assert_eq!(extension(".profile"), None);
    assert_eq!(extension(".config.yaml"), Some("yaml".to_string()));
    assert_eq!(extension("Makefile"), None);
    assert_eq!(extension(""), None);
}

#[test]
fn commands_for_takes_the_file_name() {
    let config = config_of(&[("py", &["black {file}"])]);
    let cs = commands_for(&config, "a.py", "/w/a.py");
    assert_eq!(cs.len(), 1);
    assert_eq!(words(&cs[0]), strings(&["black", "/w/a.py"]));
    assert!(commands_for(&config, "a.txt", "/w/a.py").is_empty());
}
