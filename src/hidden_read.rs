//! The steps of reading a password with echo turned off.
//!
//! A [`HiddenRead`] decides; the caller acts. Each call of
//! [`HiddenRead::step`] takes what happened last and says what to do next:
//! turn echo off, read the line, put the saved terminal mode back, or finish.
//! The terminal mode is whatever the platform keeps (`M`); it is carried
//! through untouched, so the mode put back is the one that was saved.

use vstd::prelude::*;

use crate::error::PasswordError;
use crate::reader::{password_from_line, read_outcome};
use crate::secret::SafeString;

verus! {

/// Where a hidden read stands.
pub enum HiddenRead<M> {
    /// Nothing has happened yet.
    Start,
    /// Echo is being turned off.
    Hiding,
    /// The line is being read; `saved` is the mode to put back, when echo
    /// was turned off.
    Reading { saved: Option<M> },
    /// The saved mode is being put back; `read` is how the read went.
    Restoring { read: Result<SafeString, std::io::Error> },
    /// The read is over.
    Done,
}

/// What the caller reports.
pub enum HiddenReadEvent<M> {
    /// The read begins; `interactive` tells whether the input device is a
    /// terminal.
    Begin { interactive: bool },
    /// Turning echo off went through, and here is the mode from before; or
    /// it failed with the platform's error code, and nothing was changed.
    EchoHidden(Result<M, i32>),
    /// The line was read, or reading it failed.
    LineRead(Result<SafeString, std::io::Error>),
    /// The saved mode was put back, as far as that was possible.
    ModeRestored,
}

/// How a hidden read ended.
pub enum ReadEnd {
    /// Echo could not be turned off: the platform's error code.
    ModeNotHidden(i32),
    /// The line was read, or reading it failed.
    LineRead(Result<SafeString, std::io::Error>),
}

/// What the caller is to do next.
pub enum HiddenReadAction<M> {
    /// Save the device's mode and turn echo off.
    HideEcho,
    /// Read one line from the device.
    ReadLine,
    /// Put this mode back on the device.
    RestoreMode(M),
    /// Stop: the read ended thus.
    Finish(ReadEnd),
}

/// The action changes the terminal's mode.
pub open spec fn changes_mode<M>(a: HiddenReadAction<M>) -> bool {
    a is HideEcho || a is RestoreMode
}

/// What the read ends in: the error code of a failed attempt to hide echo,
/// or the outcome of reading the line.
pub open spec fn end_outcome(end: ReadEnd, r: Result<String, PasswordError>) -> bool {
    match end {
        ReadEnd::ModeNotHidden(code) => r == Err::<String, PasswordError>(
            PasswordError::OsError(code),
        ),
        ReadEnd::LineRead(read) => read_outcome(read, r),
    }
}

impl ReadEnd {
    /// The password, or why there is none.
    pub fn into_password(self) -> (r: Result<String, PasswordError>)
        ensures
            end_outcome(self, r),
    {
        match self {
            ReadEnd::ModeNotHidden(code) => Err(PasswordError::OsError(code)),
            ReadEnd::LineRead(read) => password_from_line(read),
        }
    }
}

impl<M> HiddenRead<M> {
    /// The transition on `event`: the state after it and the action it calls
    /// for, or `None` when this state does not wait for that event.
    pub open spec fn next(self, event: HiddenReadEvent<M>) -> Option<
        (HiddenRead<M>, HiddenReadAction<M>),
    > {
        match self {
            HiddenRead::Start => match event {
                HiddenReadEvent::Begin { interactive } => Some(
                    if interactive {
                        (HiddenRead::Hiding, HiddenReadAction::HideEcho)
                    } else {
                        (HiddenRead::Reading { saved: None }, HiddenReadAction::ReadLine)
                    },
                ),
                _ => None,
            },
            HiddenRead::Hiding => match event {
                HiddenReadEvent::EchoHidden(Ok(saved)) => Some(
                    (HiddenRead::Reading { saved: Some(saved) }, HiddenReadAction::ReadLine),
                ),
                HiddenReadEvent::EchoHidden(Err(code)) => Some(
                    (HiddenRead::Done, HiddenReadAction::Finish(ReadEnd::ModeNotHidden(code))),
                ),
                _ => None,
            },
            HiddenRead::Reading { saved } => match event {
                HiddenReadEvent::LineRead(read) => Some(
                    match saved {
                        Some(mode) => (
                            HiddenRead::Restoring { read },
                            HiddenReadAction::RestoreMode(mode),
                        ),
                        None => (HiddenRead::Done, HiddenReadAction::Finish(ReadEnd::LineRead(read))),
                    },
                ),
                _ => None,
            },
            HiddenRead::Restoring { read } => match event {
                HiddenReadEvent::ModeRestored => Some(
                    (HiddenRead::Done, HiddenReadAction::Finish(ReadEnd::LineRead(read))),
                ),
                _ => None,
            },
            HiddenRead::Done => None,
        }
    }

    /// The event is the one this state waits for.
    pub open spec fn accepts(&self, event: &HiddenReadEvent<M>) -> bool {
        self.next(*event) is Some
    }

    /// A read that has not begun.
    pub fn new() -> (r: HiddenRead<M>)
        ensures
            r is Start,
    {
        HiddenRead::Start
    }

    /// Whether `event` is the one this state waits for.
    pub fn expects(&self, event: &HiddenReadEvent<M>) -> (r: bool)
        ensures
            r == self.accepts(event),
    {
        match self {
            HiddenRead::Start => matches!(event, HiddenReadEvent::Begin { .. }),
            HiddenRead::Hiding => matches!(event, HiddenReadEvent::EchoHidden(_)),
            HiddenRead::Reading { .. } => matches!(event, HiddenReadEvent::LineRead(_)),
            HiddenRead::Restoring { .. } => matches!(event, HiddenReadEvent::ModeRestored),
            HiddenRead::Done => false,
        }
    }

    /// Takes in what happened and says what to do next.
    pub fn step(self, event: HiddenReadEvent<M>) -> (r: (HiddenRead<M>, HiddenReadAction<M>))
        requires
            self.accepts(&event),
        ensures
            self.next(event) == Some(r),
    {
        match (self, event) {
            (HiddenRead::Start, HiddenReadEvent::Begin { interactive }) => if interactive {
                (HiddenRead::Hiding, HiddenReadAction::HideEcho)
            } else {
                (HiddenRead::Reading { saved: None }, HiddenReadAction::ReadLine)
            },
            (HiddenRead::Hiding, HiddenReadEvent::EchoHidden(Ok(saved))) => (
                HiddenRead::Reading { saved: Some(saved) },
                HiddenReadAction::ReadLine,
            ),
            (HiddenRead::Hiding, HiddenReadEvent::EchoHidden(Err(code))) => (
                HiddenRead::Done,
                HiddenReadAction::Finish(ReadEnd::ModeNotHidden(code)),
            ),
            (HiddenRead::Reading { saved: Some(saved) }, HiddenReadEvent::LineRead(read)) => (
                HiddenRead::Restoring { read },
                HiddenReadAction::RestoreMode(saved),
            ),
            (HiddenRead::Reading { saved: None }, HiddenReadEvent::LineRead(read)) => (
                HiddenRead::Done,
                HiddenReadAction::Finish(ReadEnd::LineRead(read)),
            ),
            (HiddenRead::Restoring { read }, HiddenReadEvent::ModeRestored) => (
                HiddenRead::Done,
                HiddenReadAction::Finish(ReadEnd::LineRead(read)),
            ),
            _ => vstd::pervasive::unreached(),
        }
    }
}

/// The actions that a hidden read starting in `s` calls for, one for each
/// event, for as long as each event is the one its state waits for.
pub open spec fn run<M>(s: HiddenRead<M>, events: Seq<HiddenReadEvent<M>>) -> Seq<
    HiddenReadAction<M>,
>
    decreases events.len(),
{
    if events.len() == 0 {
        Seq::empty()
    } else {
        match s.next(events[0]) {
            Some((after, action)) => seq![action] + run(after, events.drop_first()),
            None => Seq::empty(),
        }
    }
}

/// A read that is over calls for nothing more.
proof fn lemma_done_is_silent<M>(events: Seq<HiddenReadEvent<M>>)
    ensures
        run(HiddenRead::<M>::Done, events) == Seq::<HiddenReadAction<M>>::empty(),
{
}

/// On input that is not a terminal, a hidden read never changes the
/// terminal's mode: whatever is reported after the start, no action turns
/// echo off or puts a mode back. The line is read at once, and how the read
/// went is what the read ends with.
pub proof fn lemma_non_interactive_changes_no_mode<M>(events: Seq<HiddenReadEvent<M>>)
    requires
        events.len() > 0,
        events[0] == (HiddenReadEvent::<M>::Begin { interactive: false }),
    ensures
        forall|i: int|
            0 <= i < run(HiddenRead::<M>::Start, events).len() ==> !changes_mode(
                #[trigger] run(HiddenRead::<M>::Start, events)[i],
            ),
        run(HiddenRead::<M>::Start, events)[0] == HiddenReadAction::<M>::ReadLine,
        events.len() > 1 && events[1] is LineRead ==> run(HiddenRead::<M>::Start, events) == seq![
            HiddenReadAction::<M>::ReadLine,
            HiddenReadAction::<M>::Finish(ReadEnd::LineRead(events[1]->LineRead_0)),
        ],
{
    let acts = run(HiddenRead::<M>::Start, events);
    let e1 = events.drop_first();
    let reading = HiddenRead::<M>::Reading { saved: None };
    assert(acts == seq![HiddenReadAction::<M>::ReadLine] + run(reading, e1));
    if e1.len() > 0 && e1[0] is LineRead {
        let read = e1[0]->LineRead_0;
        lemma_done_is_silent(e1.drop_first());
        assert(run(reading, e1) == seq![HiddenReadAction::<M>::Finish(ReadEnd::LineRead(read))]
            + run(HiddenRead::<M>::Done, e1.drop_first()));
        assert(acts =~= seq![
            HiddenReadAction::<M>::ReadLine,
            HiddenReadAction::<M>::Finish(ReadEnd::LineRead(read)),
        ]);
    } else {
        assert(acts =~= seq![HiddenReadAction::<M>::ReadLine]);
    }
}

/// Once echo is off, the mode saved before is put back before the read
/// ends, whether reading the line went through or failed: the action that
/// follows the read puts back exactly the saved mode, the mode is put back
/// once and no other mode ever, and the read ends only right after that.
pub proof fn lemma_saved_mode_is_restored<M>(saved: M, events: Seq<HiddenReadEvent<M>>)
    requires
        events.len() > 1,
        events[0] == (HiddenReadEvent::<M>::Begin { interactive: true }),
        events[1] == HiddenReadEvent::<M>::EchoHidden(Ok(saved)),
    ensures
        ({
            let acts = run(HiddenRead::<M>::Start, events);
            &&& forall|i: int|
                0 <= i < acts.len() && (#[trigger] acts[i]) is RestoreMode ==> acts[i]
                    == HiddenReadAction::<M>::RestoreMode(saved)
            &&& forall|i: int|
                0 <= i < acts.len() && (#[trigger] acts[i]) is Finish ==> i > 0 && acts[i - 1]
                    == HiddenReadAction::<M>::RestoreMode(saved)
            &&& forall|i: int, j: int|
                0 <= i < acts.len() && 0 <= j < acts.len() && (#[trigger] acts[i]) is RestoreMode
                    && (#[trigger] acts[j]) is RestoreMode ==> i == j
            &&& events.len() > 2 && events[2] is LineRead ==> acts.len() > 2 && acts[2]
                == HiddenReadAction::<M>::RestoreMode(saved)
        }),
{
    let acts = run(HiddenRead::<M>::Start, events);
    let e1 = events.drop_first();
    let e2 = e1.drop_first();
    let e3 = e2.drop_first();
    let reading = HiddenRead::<M>::Reading { saved: Some(saved) };
    assert(acts == seq![HiddenReadAction::<M>::HideEcho] + run(HiddenRead::<M>::Hiding, e1));
    assert(e1[0] == events[1]);
    assert(run(HiddenRead::<M>::Hiding, e1) == seq![HiddenReadAction::<M>::ReadLine] + run(
        reading,
        e2,
    ));
    if e2.len() > 0 && e2[0] is LineRead {
        let read = e2[0]->LineRead_0;
        let restoring = HiddenRead::<M>::Restoring { read };
        assert(e2[0] == events[2]);
        assert(run(reading, e2) == seq![HiddenReadAction::<M>::RestoreMode(saved)] + run(
            restoring,
            e3,
        ));
        if e3.len() > 0 && e3[0] is ModeRestored {
            lemma_done_is_silent(e3.drop_first());
            assert(run(restoring, e3) == seq![
                HiddenReadAction::<M>::Finish(ReadEnd::LineRead(read)),
            ] + run(HiddenRead::<M>::Done, e3.drop_first()));
            assert(acts =~= seq![
                HiddenReadAction::<M>::HideEcho,
                HiddenReadAction::<M>::ReadLine,
                HiddenReadAction::<M>::RestoreMode(saved),
                HiddenReadAction::<M>::Finish(ReadEnd::LineRead(read)),
            ]);
        } else {
            assert(acts =~= seq![
                HiddenReadAction::<M>::HideEcho,
                HiddenReadAction::<M>::ReadLine,
                HiddenReadAction::<M>::RestoreMode(saved),
            ]);
        }
    } else {
        assert(acts =~= seq![HiddenReadAction::<M>::HideEcho, HiddenReadAction::<M>::ReadLine]);
    }
}

/// When echo cannot be turned off, nothing was changed and nothing is put
/// back: the read ends at once with the platform's error code.
pub proof fn lemma_failed_hide_restores_nothing<M>(code: i32, events: Seq<HiddenReadEvent<M>>)
    requires
        events.len() > 1,
        events[0] == (HiddenReadEvent::<M>::Begin { interactive: true }),
        events[1] == HiddenReadEvent::<M>::EchoHidden(Err(code)),
    ensures
        run(HiddenRead::<M>::Start, events) == seq![
            HiddenReadAction::<M>::HideEcho,
            HiddenReadAction::<M>::Finish(ReadEnd::ModeNotHidden(code)),
        ],
{
    let e1 = events.drop_first();
    assert(e1[0] == events[1]);
    lemma_done_is_silent(e1.drop_first());
    assert(run(HiddenRead::<M>::Hiding, e1) == seq![
        HiddenReadAction::<M>::Finish(ReadEnd::ModeNotHidden(code)),
    ] + run(HiddenRead::<M>::Done, e1.drop_first()));
    assert(run(HiddenRead::<M>::Start, events) =~= seq![
        HiddenReadAction::<M>::HideEcho,
        HiddenReadAction::<M>::Finish(ReadEnd::ModeNotHidden(code)),
    ]);
}

} // verus!
