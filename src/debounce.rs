use vstd::prelude::*;

verus! {

/// How long, in milliseconds, a repeated change to the same path is ignored.
pub const DEBOUNCE_WINDOW_MS: u64 = 500;

/// The kind of a filesystem notification.
#[derive(Clone, Copy, Debug, PartialEq, Eq, Structural)]
pub enum RawKind {
    /// The content of a file was modified.
    DataModified,
    /// Only metadata (permissions, times) changed.
    MetadataModified,
    /// A file was renamed.
    Renamed,
    /// Some other or unknown modification.
    OtherModified,
    Created,
    Removed,
    Accessed,
    Other,
}

/// A notification from the operating system, as it came.
pub struct RawEvent {
    pub kind: RawKind,
    pub paths: Vec<String>,
}

/// A file that changed, once bursts of notifications are folded together.
pub struct ChangeEvent {
    pub path: String,
    /// When it was seen, in milliseconds of a monotonic clock.
    pub at_ms: u64,
}

/// Milliseconds from `then` to `now`; zero where the clock reads earlier.
pub open spec fn elapsed(then: u64, now: u64) -> int {
    if now >= then {
        now - then
    } else {
        0
    }
}

/// Whether a change to `path` at `now` is passed on, given the last change
/// that was: it is, unless that was the same path less than a window ago.
pub open spec fn passes(last: Option<(Seq<char>, u64)>, path: Seq<char>, now: u64) -> bool {
    match last {
        None => true,
        Some((p, t)) => !(p == path && elapsed(t, now) < DEBOUNCE_WINDOW_MS),
    }
}

/// The changes passed on from a run of content modifications, each a path
/// and a time, starting from the last change passed on before them.
pub open spec fn passed(last: Option<(Seq<char>, u64)>, evs: Seq<(Seq<char>, u64)>) -> Seq<
    (Seq<char>, u64),
>
    decreases evs.len(),
{
    if evs.len() == 0 {
        seq![]
    } else if passes(last, evs[0].0, evs[0].1) {
        seq![evs[0]] + passed(Some(evs[0]), evs.skip(1))
    } else {
        passed(last, evs.skip(1))
    }
}

/// Folds notifications into changes. It keeps one slot: the last change
/// passed on, whatever its path.
pub struct Debouncer {
    last: Option<(String, u64)>,
}

impl Debouncer {
    /// The last change passed on, if any.
    pub closed spec fn view(&self) -> Option<(Seq<char>, u64)> {
        match self.last {
            Some((p, t)) => Some((p@, t)),
            None => None,
        }
    }

    /// A debouncer that has passed nothing on yet.
    pub fn new() -> (r: Debouncer)
        ensures
            r@ is None,
    {
        Debouncer { last: None }
    }

    /// Takes one notification, seen at `now_ms`. Only a content modification
    /// can give a change, of its first path, and only where that passes.
    pub fn observe(&mut self, event: &RawEvent, now_ms: u64) -> (r: Option<ChangeEvent>)
        ensures
            event.kind != RawKind::DataModified || event.paths@.len() == 0 ==> r is None
                && final(self)@ == old(self)@,
            event.kind == RawKind::DataModified && event.paths@.len() > 0 ==> {
                let p = event.paths@[0]@;
                if passes(old(self)@, p, now_ms) {
                    &&& r matches Some(c) && c.path@ == p && c.at_ms == now_ms
                    &&& final(self)@ == Some((p, now_ms))
                } else {
                    r is None && final(self)@ == old(self)@
                }
            },
    {
        if event.kind != RawKind::DataModified || event.paths.len() == 0 {
            return None;
        }
        let path = &event.paths[0];
        let repeated = match &self.last {
            Some((p, t)) => {
                let since = if now_ms >= *t {
                    now_ms - *t
                } else {
                    0
                };
                *p == *path && since < DEBOUNCE_WINDOW_MS
            },
            None => false,
        };
        if repeated {
            None
        } else {
            self.last = Some((path.clone(), now_ms));
            Some(ChangeEvent { path: path.clone(), at_ms: now_ms })
        }
    }
}

/// A burst of content modifications to one path, each less than a window
/// after the first, gives exactly one change, the first, where the first passes.
pub proof fn lemma_burst_passes_once(
    last: Option<(Seq<char>, u64)>,
    path: Seq<char>,
    evs: Seq<(Seq<char>, u64)>,
)
    requires
        evs.len() > 0,
        forall|i: int| 0 <= i < evs.len() ==> #[trigger] evs[i].0 == path,
        forall|i: int|
            0 <= i < evs.len() ==> evs[0].1 <= #[trigger] evs[i].1 < evs[0].1
                + DEBOUNCE_WINDOW_MS,
        passes(last, path, evs[0].1),
    ensures
        passed(last, evs) == seq![evs[0]],
{
    lemma_quiet_after(evs[0], evs.skip(1));
    assert(seq![evs[0]] + Seq::<(Seq<char>, u64)>::empty() =~= seq![evs[0]]);
}

/// Changes to the path of `first`, less than a window after it, pass nothing.
proof fn lemma_quiet_after(first: (Seq<char>, u64), evs: Seq<(Seq<char>, u64)>)
    requires
        forall|i: int| 0 <= i < evs.len() ==> #[trigger] evs[i].0 == first.0,
        forall|i: int|
            0 <= i < evs.len() ==> first.1 <= #[trigger] evs[i].1 < first.1 + DEBOUNCE_WINDOW_MS,
    ensures
        passed(Some(first), evs) == Seq::<(Seq<char>, u64)>::empty(),
    decreases evs.len(),
{
    if evs.len() > 0 {
        assert(evs[0].0 == first.0);
        assert(first.1 <= evs[0].1 < first.1 + DEBOUNCE_WINDOW_MS);
        let rest = evs.skip(1);
        assert forall|i: int| 0 <= i < rest.len() implies #[trigger] rest[i].0 == first.0 by {
            assert(rest[i] == evs[i + 1]);
        }
        assert forall|i: int| 0 <= i < rest.len() implies first.1 <= #[trigger] rest[i].1
            < first.1 + DEBOUNCE_WINDOW_MS by {
            assert(rest[i] == evs[i + 1]);
        }
        lemma_quiet_after(first, rest);
    }
}

} // verus!
