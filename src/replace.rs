//! Replacing matches in a file: the lines written, and the order of the steps
//! that keeps the original whole until a complete copy replaces it.
use vstd::prelude::*;
use crate::request::Search;
use crate::text::{from_chars, to_chars};

verus! {

/// The text appended to a file's name to name its temporary copy.
pub open spec fn temp_suffix() -> Seq<char> {
    seq!['.', 'j', 't', 's', 'e', 'a', 'r', 'c', 'h']
}

/// The name of the temporary copy of the file `fname`.
pub fn temp_name(fname: &str) -> (r: String)
    ensures
        r@ == fname@ + temp_suffix(),
{
    let mut v = to_chars(fname);
    v.push('.');
    v.push('j');
    v.push('t');
    v.push('s');
    v.push('e');
    v.push('a');
    v.push('r');
    v.push('c');
    v.push('h');
    assert(v@ =~= fname@ + temp_suffix());
    from_chars(&v)
}

/// The line written to the copy for `line`: every match replaced by `to`,
/// and a newline at the end.
pub open spec fn written_line(s: &Search, line: Seq<char>, to: Seq<char>) -> Seq<char> {
    s.what.spec_replace(line, to) + seq!['\n']
}

/// The line to write for `line`.
pub fn replace_line(s: &Search, line: &str, to: &str) -> (r: String)
    ensures
        r@ == written_line(s, line@, to@),
{
    let out = s.what.replace(line, to);
    let mut v = to_chars(out.as_str());
    v.push('\n');
    assert(v@ =~= written_line(s, line@, to@));
    from_chars(&v)
}

/// Where a replacement stands.
#[derive(Clone, Copy, Debug, PartialEq, Eq, Structural)]
pub enum Phase {
    /// Waiting for the temporary copy to be created.
    Creating,
    /// Waiting for the next line of the original.
    Reading,
    /// Waiting for a line to be written to the copy.
    Writing,
    /// Waiting for the copy to be flushed.
    Flushing,
    /// Waiting for the copy to be renamed over the original.
    Renaming,
    /// Waiting for the copy to be removed after a failure.
    Removing,
    /// Nothing more to do.
    Finished,
}

/// What came of the last step.
pub enum ReplaceEvent {
    TempCreated,
    TempFailed,
    /// The next line of the original.
    Line(String),
    /// The original has no more lines, or the rest of it is not text.
    EndOfInput,
    ReadFailed,
    Written,
    WriteFailed,
    Flushed,
    FlushFailed,
    Renamed,
    RenameFailed,
    Removed,
    RemoveFailed,
}

/// The next step to take.
pub enum ReplaceAction {
    ReadLine,
    /// Write this text to the copy.
    Write(String),
    Flush,
    /// Rename the copy over the original.
    Rename,
    RemoveTemp,
    Done,
}

/// The kind of an action, without its text.
#[derive(Clone, Copy, Debug, PartialEq, Eq, Structural)]
pub enum ActionKind {
    ReadLine,
    Write,
    Flush,
    Rename,
    RemoveTemp,
    Done,
}

pub open spec fn kind_of(a: ReplaceAction) -> ActionKind {
    match a {
        ReplaceAction::ReadLine => ActionKind::ReadLine,
        ReplaceAction::Write(_) => ActionKind::Write,
        ReplaceAction::Flush => ActionKind::Flush,
        ReplaceAction::Rename => ActionKind::Rename,
        ReplaceAction::RemoveTemp => ActionKind::RemoveTemp,
        ReplaceAction::Done => ActionKind::Done,
    }
}

/// A step that went wrong.
pub open spec fn is_failure(e: ReplaceEvent) -> bool {
    match e {
        ReplaceEvent::TempFailed | ReplaceEvent::ReadFailed | ReplaceEvent::WriteFailed
        | ReplaceEvent::FlushFailed | ReplaceEvent::RenameFailed
        | ReplaceEvent::RemoveFailed => true,
        _ => false,
    }
}

/// The next phase and action after event `e` in phase `p`: lines are copied
/// one by one; the copy is flushed at the end of the input and then renamed
/// over the original; any other outcome removes the copy, except a failed
/// rename, which leaves it.
pub open spec fn next(p: Phase, e: ReplaceEvent) -> (Phase, ActionKind) {
    match p {
        Phase::Creating => match e {
            ReplaceEvent::TempCreated => (Phase::Reading, ActionKind::ReadLine),
            _ => (Phase::Finished, ActionKind::Done),
        },
        Phase::Reading => match e {
            ReplaceEvent::Line(_) => (Phase::Writing, ActionKind::Write),
            ReplaceEvent::EndOfInput => (Phase::Flushing, ActionKind::Flush),
            _ => (Phase::Removing, ActionKind::RemoveTemp),
        },
        Phase::Writing => match e {
            ReplaceEvent::Written => (Phase::Reading, ActionKind::ReadLine),
            _ => (Phase::Removing, ActionKind::RemoveTemp),
        },
        Phase::Flushing => match e {
            ReplaceEvent::Flushed => (Phase::Renaming, ActionKind::Rename),
            _ => (Phase::Removing, ActionKind::RemoveTemp),
        },
        _ => (Phase::Finished, ActionKind::Done),
    }
}

/// The phase after the events `evs`, from the start.
pub open spec fn phase_after(evs: Seq<ReplaceEvent>) -> Phase
    decreases evs.len(),
{
    if evs.len() == 0 {
        Phase::Creating
    } else {
        next(phase_after(evs.drop_last()), evs.last()).0
    }
}

proof fn lemma_failure_is_final(evs: Seq<ReplaceEvent>)
    requires
        exists|k: int| 0 <= k < evs.len() && is_failure(evs[k]),
    ensures
        phase_after(evs) == Phase::Removing || phase_after(evs) == Phase::Finished,
    decreases evs.len(),
{
    let k = choose|k: int| 0 <= k < evs.len() && is_failure(evs[k]);
    if k < evs.len() - 1 {
        assert(evs.drop_last()[k] == evs[k]);
        lemma_failure_is_final(evs.drop_last());
    }
}

/// The original is replaced only by a complete copy: the rename over it is
/// asked for only when the copy was created, every line read was written, the
/// input ended and the copy was flushed, with no failure on the way.
pub proof fn lemma_rename_only_after_success(evs: Seq<ReplaceEvent>)
    requires
        evs.len() > 0,
        next(phase_after(evs.drop_last()), evs.last()).1 == ActionKind::Rename,
    ensures
        forall|k: int| 0 <= k < evs.len() ==> !is_failure(#[trigger] evs[k]),
        evs.last() matches ReplaceEvent::Flushed,
        phase_after(evs.drop_last()) == Phase::Flushing,
{
    if exists|k: int| 0 <= k < evs.drop_last().len() && is_failure(evs.drop_last()[k]) {
        lemma_failure_is_final(evs.drop_last());
    }
    assert forall|k: int| 0 <= k < evs.len() implies !is_failure(#[trigger] evs[k]) by {
        if k < evs.len() - 1 {
            assert(evs.drop_last()[k] == evs[k]);
        }
    }
}

/// One replacement in progress.
pub struct Replacement {
    phase: Phase,
    events: Ghost<Seq<ReplaceEvent>>,
}

impl Replacement {
    /// The current phase.
    pub closed spec fn phase(&self) -> Phase {
        self.phase
    }

    /// The events so far.
    pub closed spec fn events(&self) -> Seq<ReplaceEvent> {
        self.events@
    }

    pub closed spec fn wf(&self) -> bool {
        self.phase == phase_after(self.events@)
    }

    /// A replacement that starts by creating the temporary copy.
    pub fn new() -> (r: Replacement)
        ensures
            r.wf(),
            r.phase() == Phase::Creating,
            r.events() == Seq::<ReplaceEvent>::empty(),
    {
        Replacement { phase: Phase::Creating, events: Ghost(Seq::empty()) }
    }

    /// Whether nothing more is to be done.
    pub fn is_finished(&self) -> (r: bool)
        ensures
            r == (self.phase() == Phase::Finished),
    {
        self.phase == Phase::Finished
    }

    /// Takes the outcome of the last step and decides the next one; a line
    /// read is written with its matches replaced by `to`.
    pub fn step(&mut self, s: &Search, to: &str, e: ReplaceEvent) -> (r: ReplaceAction)
        requires
            old(self).wf(),
        ensures
            final(self).wf(),
            final(self).events() == old(self).events().push(e),
            (final(self).phase(), kind_of(r)) == next(old(self).phase(), e),
            r matches ReplaceAction::Write(t) ==> (e matches ReplaceEvent::Line(l) && t@ == written_line(s, l@, to@)),
    {
        let ghost evs = self.events@.push(e);
        assert(evs.drop_last() =~= self.events@);
        self.events = Ghost(evs);
        let (p, a) = match self.phase {
            Phase::Creating => match e {
                ReplaceEvent::TempCreated => (Phase::Reading, ReplaceAction::ReadLine),
                _ => (Phase::Finished, ReplaceAction::Done),
            },
            Phase::Reading => match e {
                ReplaceEvent::Line(l) => {
                    let w = replace_line(s, l.as_str(), to);
                    (Phase::Writing, ReplaceAction::Write(w))
                },
                ReplaceEvent::EndOfInput => (Phase::Flushing, ReplaceAction::Flush),
                _ => (Phase::Removing, ReplaceAction::RemoveTemp),
            },
            Phase::Writing => match e {
                ReplaceEvent::Written => (Phase::Reading, ReplaceAction::ReadLine),
                _ => (Phase::Removing, ReplaceAction::RemoveTemp),
            },
            Phase::Flushing => match e {
                ReplaceEvent::Flushed => (Phase::Renaming, ReplaceAction::Rename),
                _ => (Phase::Removing, ReplaceAction::RemoveTemp),
            },
            _ => (Phase::Finished, ReplaceAction::Done),
        };
        self.phase = p;
        a
    }
}

} // verus!
