//! What the host shows on each tick once the acquisition is over.
//!
//! The result of the acquisition is examined once, when the [`Presenter`] is
//! made. On every tick the host asks what to do: draw the code, draw the
//! message of the failure in its place, or leave. A failure ends a native
//! process with a status that is not zero, but only after the message has
//! been on screen for one pass; in a browser nothing ever ends the process.

use vstd::prelude::*;

verus! {

/// The status of a process that ends because the user left.
pub const EXIT_SUCCESS: i32 = 0;

/// The status of a process that ends on a failure.
pub const EXIT_FAILURE: i32 = 1;

/// Where the program runs.
#[derive(Debug, Clone, Copy, PartialEq, Eq, Structural)]
pub enum Target {
    /// A process of its own, which can end.
    Native,
    /// A page in a browser, which cannot.
    Browser,
}

/// What the host does on one tick.
#[derive(Debug, PartialEq, Eq)]
pub enum Frame {
    /// Draw the code.
    Source,
    /// Draw this line in place of the code.
    Message(String),
    /// Leave the process with this status.
    Exit(i32),
}

/// Mathematical model of a [`Frame`].
pub enum FrameView {
    Source,
    Message(Seq<char>),
    Exit(int),
}

impl View for Frame {
    type V = FrameView;

    open spec fn view(&self) -> FrameView {
        match self {
            Frame::Source => FrameView::Source,
            Frame::Message(line) => FrameView::Message(line@),
            Frame::Exit(status) => FrameView::Exit(*status as int),
        }
    }
}

/// Mathematical model of a [`Presenter`].
pub struct PresenterView {
    pub target: Target,
    /// The message of the failure, where the acquisition failed.
    pub failure: Option<Seq<char>>,
    /// Whether the message has been on screen for a pass.
    pub shown: bool,
}

impl PresenterView {
    /// The frame of one tick. A failure is shown; on a native target it is
    /// shown once and then ends the process. Without a failure the code is
    /// drawn until, on a native target, the user asks to leave.
    pub open spec fn frame(self, quit_requested: bool) -> FrameView {
        match self.failure {
            Some(line) => if self.target == Target::Native && self.shown {
                FrameView::Exit(EXIT_FAILURE as int)
            } else {
                FrameView::Message(line)
            },
            None => if self.target == Target::Native && quit_requested {
                FrameView::Exit(EXIT_SUCCESS as int)
            } else {
                FrameView::Source
            },
        }
    }

    /// The presenter after one tick: it has shown the message if there is
    /// one, and nothing else has changed.
    pub open spec fn ticked(self) -> PresenterView {
        PresenterView { shown: self.shown || self.failure is Some, ..self }
    }

    /// The frame of the tick that follows `ticks` earlier ones.
    pub open spec fn frame_after(self, ticks: nat, quit_requested: bool) -> FrameView
        decreases ticks,
    {
        if ticks == 0 {
            self.frame(quit_requested)
        } else {
            self.ticked().frame_after((ticks - 1) as nat, quit_requested)
        }
    }
}

/// Decides, tick by tick, what is on screen and when the process ends.
#[derive(Debug, PartialEq, Eq)]
pub struct Presenter {
    target: Target,
    failure: Option<String>,
    shown: bool,
}

impl View for Presenter {
    type V = PresenterView;

    closed spec fn view(&self) -> PresenterView {
        PresenterView {
            target: self.target,
            failure: match self.failure {
                Some(line) => Some(line@),
                None => None,
            },
            shown: self.shown,
        }
    }
}

impl Presenter {
    /// A presenter for the given target. `failure` is the message of the
    /// error the acquisition ended in, if it ended in one.
    pub fn new(target: Target, failure: Option<String>) -> (presenter: Presenter)
        ensures
            presenter@ == (PresenterView {
                target,
                failure: match failure {
                    Some(line) => Some(line@),
                    None => None,
                },
                shown: false,
            }),
    {
        Presenter { target, failure, shown: false }
    }

    /// Says what to do on this tick. `quit_requested` tells whether the user
    /// asked to leave since the last one.
    pub fn tick(&mut self, quit_requested: bool) -> (frame: Frame)
        ensures
            frame@ == old(self)@.frame(quit_requested),
            final(self)@ == old(self)@.ticked(),
    {
        let native = match self.target {
            Target::Native => true,
            Target::Browser => false,
        };
        match &self.failure {
            Some(line) => {
                if native && self.shown {
                    Frame::Exit(EXIT_FAILURE)
                } else {
                    let line = line.clone();
                    self.shown = true;
                    Frame::Message(line)
                }
            },
            None => {
                if native && quit_requested {
                    Frame::Exit(EXIT_SUCCESS)
                } else {
                    Frame::Source
                }
            },
        }
    }
}

/// In a browser the process is never ended: whatever the presenter holds and
/// however many ticks have passed, no frame is an exit.
pub proof fn lemma_browser_never_exits(presenter: PresenterView, ticks: nat, quit_requested: bool)
    requires
        presenter.target == Target::Browser,
    ensures
        !(presenter.frame_after(ticks, quit_requested) is Exit),
    decreases ticks,
{
    if ticks > 0 {
        lemma_browser_never_exits(presenter.ticked(), (ticks - 1) as nat, quit_requested);
    }
}

/// On a native target a failure is shown for one pass and then ends the
/// process with the status of a failure, which is not zero; what the user
/// asks for changes nothing in that.
pub proof fn lemma_failure_is_shown_then_exits(
    target: Target,
    line: Seq<char>,
    ticks: nat,
    quit_requested: bool,
)
    requires
        target == Target::Native,
    ensures
        ({
            let presenter = PresenterView { target, failure: Some(line), shown: false };
            presenter.frame_after(ticks, quit_requested) == if ticks == 0 {
                FrameView::Message(line)
            } else {
                FrameView::Exit(EXIT_FAILURE as int)
            }
        }),
        EXIT_FAILURE != 0,
{
    let presenter = PresenterView { target, failure: Some(line), shown: false };
    if ticks > 0 {
        lemma_shown_failure_exits(presenter.ticked(), (ticks - 1) as nat, quit_requested);
    }
}

/// Once a failure has been shown on a native target, every later frame is
/// the exit.
proof fn lemma_shown_failure_exits(presenter: PresenterView, ticks: nat, quit_requested: bool)
    requires
        presenter.target == Target::Native,
        presenter.failure is Some,
        presenter.shown,
    ensures
        presenter.frame_after(ticks, quit_requested) == FrameView::Exit(EXIT_FAILURE as int),
    decreases ticks,
{
    if ticks > 0 {
        lemma_shown_failure_exits(presenter.ticked(), (ticks - 1) as nat, quit_requested);
    }
}

/// The status of an exit tells whether the acquisition failed: it is that of
/// a failure exactly where there is one, and zero exactly where there is
/// none.
pub proof fn lemma_exit_status_tells_the_outcome(presenter: PresenterView, quit_requested: bool)
    ensures
        presenter.frame(quit_requested) matches FrameView::Exit(status) ==> status == (
        if presenter.failure is Some {
            EXIT_FAILURE as int
        } else {
            EXIT_SUCCESS as int
        }),
{
}

} // verus!
