//! The draw/event cycle's decisions: event dispatch, exit-key handling and
//! the one-tick error overlay.
//!
//! The surrounding program owns the terminal and the blocking channel
//! receive; this module decides, for each received event, whether to stop,
//! ignore, or run the widget update, and what overlay the next draw shows.

use vstd::prelude::*;

use crate::events::Event;
use crate::widget::PollError;

verus! {

/// The loop's states; `Terminated` is terminal.
#[derive(Clone, Copy, Debug, PartialEq, Eq, Structural)]
pub enum LoopState {
    Running,
    Terminated,
}

/// What the loop must do with the event it just received.
#[derive(Clone, Copy, Debug, PartialEq, Eq, Structural)]
pub enum Dispatch {
    /// The configured exit key arrived: stop the loop.
    Exit,
    /// Some other key arrived: pass it through unacted upon.
    Ignored,
    /// A tick arrived: poll the sources, update the widget, and report the
    /// outcome back through `note_update`.
    RunUpdate,
}

/// The decision taken for a given event: the configured exit key stops the
/// loop, every other key is ignored, and a tick runs the update.
pub open spec fn spec_dispatch(ev: Event<char>, exit_key: char) -> Dispatch {
    match ev {
        Event::Input(k) => if k == exit_key {
            Dispatch::Exit
        } else {
            Dispatch::Ignored
        },
        Event::Tick => Dispatch::RunUpdate,
    }
}

/// Decision state of the render loop: whether it still runs, and the pending
/// non-fatal error overlay shown over the next draw.
pub struct RenderLoop {
    pub state: LoopState,
    pub overlay: Option<String>,
}

/// Whether the loop draws on its next iteration: only a running loop draws.
pub open spec fn spec_should_draw(rl: RenderLoop) -> bool {
    rl.state == LoopState::Running
}

/// The loop's state after it handles one event: the exit key terminates it,
/// everything else leaves it running; the overlay is untouched.
pub open spec fn stepped(rl: RenderLoop, ev: Event<char>, exit_key: char) -> RenderLoop {
    RenderLoop {
        state: if spec_dispatch(ev, exit_key) == Dispatch::Exit {
            LoopState::Terminated
        } else {
            rl.state
        },
        ..rl
    }
}

impl RenderLoop {
    /// A fresh loop: running, with no pending overlay.
    pub fn new() -> (rl: RenderLoop)
        ensures
            rl.state == LoopState::Running,
            rl.overlay is None,
    {
        RenderLoop { state: LoopState::Running, overlay: None }
    }

    /// True while the loop still draws; false once it has terminated, so no
    /// further draw happens after termination.
    pub fn should_draw(&self) -> (r: bool)
        ensures
            r == spec_should_draw(*self),
    {
        match self.state {
            LoopState::Running => true,
            LoopState::Terminated => false,
        }
    }

    /// Handles one received event while running, and returns what the caller
    /// must do: stop on the configured exit key, nothing for another key, or
    /// run the widget update on a tick.
    pub fn on_event(&mut self, ev: &Event<char>, exit_key: char) -> (d: Dispatch)
        requires
            old(self).state == LoopState::Running,
        ensures
            d == spec_dispatch(*ev, exit_key),
            *final(self) == stepped(*old(self), *ev, exit_key),
    {
        match ev {
            Event::Input(k) => {
                if *k == exit_key {
                    self.state = LoopState::Terminated;
                    Dispatch::Exit
                } else {
                    Dispatch::Ignored
                }
            },
            Event::Tick => Dispatch::RunUpdate,
        }
    }

    /// Records a tick's update outcome: a poll failure becomes the overlay
    /// shown over the next draw, named after the failed sub-metric; success
    /// clears any prior overlay, so a failure is overlaid for one tick only.
    pub fn note_update(&mut self, outcome: Result<(), PollError>)
        ensures
            final(self).state == old(self).state,
            (outcome matches Ok(_) ==> final(self).overlay is None),
            (outcome matches Err(e) ==> final(self).overlay == Some(e.label)),
    {
        match outcome {
            Ok(_) => {
                self.overlay = None;
            },
            Err(e) => {
                self.overlay = Some(e.label);
            },
        }
    }
}

/// Law: sending the configured exit key through the event fan-in terminates
/// the loop within that one event-processing cycle, and the terminated loop
/// draws nothing more.
pub proof fn lemma_exit_propagation(rl: RenderLoop, exit_key: char)
    requires
        rl.state == LoopState::Running,
    ensures
        stepped(rl, Event::Input(exit_key), exit_key).state == LoopState::Terminated,
        !spec_should_draw(stepped(rl, Event::Input(exit_key), exit_key)),
{
}

/// Law: termination is terminal — no event moves a terminated loop, and a
/// terminated loop never draws.
pub proof fn lemma_terminated_stays(rl: RenderLoop, ev: Event<char>, exit_key: char)
    requires
        rl.state == LoopState::Terminated,
    ensures
        stepped(rl, ev, exit_key).state == LoopState::Terminated,
        !spec_should_draw(rl),
{
}

} // verus!
