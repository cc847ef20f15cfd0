//! Showing and hiding the picture-in-picture window.
//!
//! A request to toggle the window is answered in steps. Each step either names
//! one call for the shell to make on the window, or is the reply that ends the
//! request. The shell makes the call, reports what it gave, and gets the next
//! step.

use vstd::prelude::*;
use crate::window::WindowCall;

verus! {

/// The text of the error for a request that finds no window to toggle.
pub const WINDOW_NOT_FOUND: &'static str = "PIP window not found";

/// One step of a toggle request.
#[derive(PartialEq, Eq, Debug)]
pub enum ToggleStep {
    /// The shell is to make this call on the window and report what it gave.
    Call(WindowCall),
    /// The request is over, and this is what the front end is told.
    Reply(Result<(), String>),
}

/// A step with every text as a sequence of characters.
pub enum ToggleStepView {
    Call(WindowCall),
    Reply(Result<(), Seq<char>>),
}

/// What a call gave, with the error's text as a sequence of characters.
pub open spec fn outcome_text(outcome: Result<(), String>) -> Result<(), Seq<char>> {
    match outcome {
        Ok(_) => Ok(()),
        Err(text) => Err(text@),
    }
}

impl View for ToggleStep {
    type V = ToggleStepView;

    open spec fn view(&self) -> ToggleStepView {
        match *self {
            ToggleStep::Call(call) => ToggleStepView::Call(call),
            ToggleStep::Reply(reply) => ToggleStepView::Reply(outcome_text(reply)),
        }
    }
}

/// The step a request starts with. Without a window there is nothing to call
/// and the request fails at once; with one, a request to show starts by
/// showing it and a request to hide by hiding it.
pub open spec fn first_step(window_found: bool, show: bool) -> ToggleStepView {
    if !window_found {
        ToggleStepView::Reply(Err(WINDOW_NOT_FOUND@))
    } else if show {
        ToggleStepView::Call(WindowCall::Show)
    } else {
        ToggleStepView::Call(WindowCall::Hide)
    }
}

/// The step that follows `call` once it gave `outcome`. A window that was
/// shown is focused next. Every other outcome ends the request and is the
/// reply: a failed call with its own error, focusing or hiding with success.
pub open spec fn next_step(call: WindowCall, outcome: Result<(), Seq<char>>) -> ToggleStepView {
    if call == WindowCall::Show && outcome is Ok {
        ToggleStepView::Call(WindowCall::SetFocus)
    } else {
        ToggleStepView::Reply(outcome)
    }
}

/// Starts a request to show (`show`) or hide (`!show`) the window.
/// `window_found` says whether the shell found a window under the label.
pub fn toggle_pip_window(window_found: bool, show: bool) -> (step: ToggleStep)
    ensures
        step@ == first_step(window_found, show),
{
    if !window_found {
        ToggleStep::Reply(Err(WINDOW_NOT_FOUND.to_owned()))
    } else if show {
        ToggleStep::Call(WindowCall::Show)
    } else {
        ToggleStep::Call(WindowCall::Hide)
    }
}

/// Continues a request after the shell made `call` and it gave `outcome`.
pub fn after_call(call: WindowCall, outcome: Result<(), String>) -> (step: ToggleStep)
    ensures
        step@ == next_step(call, outcome_text(outcome)),
{
    match (call, &outcome) {
        (WindowCall::Show, Ok(_)) => ToggleStep::Call(WindowCall::SetFocus),
        _ => ToggleStep::Reply(outcome),
    }
}

/// What each call gives on one window, if it is made. Within one request no
/// call is made twice, so one outcome for each is all that a request can see.
pub struct WindowOutcomes {
    pub show: Result<(), Seq<char>>,
    pub set_focus: Result<(), Seq<char>>,
    pub hide: Result<(), Seq<char>>,
}

impl WindowOutcomes {
    /// What `call` gives on this window.
    pub open spec fn of(self, call: WindowCall) -> Result<(), Seq<char>> {
        match call {
            WindowCall::Show => self.show,
            WindowCall::SetFocus => self.set_focus,
            WindowCall::Hide => self.hide,
        }
    }
}

/// A request from start to end: the calls that were made on the window, in
/// order, and the reply.
pub struct ToggleRun {
    pub calls: Seq<WindowCall>,
    pub reply: Result<(), Seq<char>>,
}

/// How many calls can still follow a step, at most.
pub open spec fn calls_left(step: ToggleStepView) -> nat {
    match step {
        ToggleStepView::Call(WindowCall::Show) => 2,
        ToggleStepView::Call(_) => 1,
        ToggleStepView::Reply(_) => 0,
    }
}

/// The rest of a request that stands at `step`, when every call that a step
/// names is made on `window` and its outcome is handed to `next_step`.
pub open spec fn run_from(step: ToggleStepView, window: WindowOutcomes) -> ToggleRun
    decreases calls_left(step),
{
    match step {
        ToggleStepView::Reply(reply) => ToggleRun { calls: Seq::empty(), reply },
        ToggleStepView::Call(call) => {
            let rest = run_from(next_step(call, window.of(call)), window);
            ToggleRun { calls: seq![call] + rest.calls, reply: rest.reply }
        },
    }
}

/// What a whole request comes to.
///
/// Without a window nothing is called and the request fails with
/// `WINDOW_NOT_FOUND`. A request to show makes the window visible and then
/// focuses it; if showing fails the window is not focused, and the reply is
/// the error of the first call that failed. A request to hide makes the one
/// call and replies with what it gave.
pub open spec fn toggle_run(window_found: bool, show: bool, window: WindowOutcomes) -> ToggleRun {
    if !window_found {
        ToggleRun { calls: Seq::empty(), reply: Err(WINDOW_NOT_FOUND@) }
    } else if !show {
        ToggleRun { calls: seq![WindowCall::Hide], reply: window.hide }
    } else if window.show is Err {
        ToggleRun { calls: seq![WindowCall::Show], reply: window.show }
    } else {
        ToggleRun { calls: seq![WindowCall::Show, WindowCall::SetFocus], reply: window.set_focus }
    }
}

/// Every call brings a request nearer to its reply: a request starts at most
/// two calls away from it, and the step after a call is nearer than the call.
pub proof fn lemma_requests_end(
    window_found: bool,
    show: bool,
    call: WindowCall,
    outcome: Result<(), Seq<char>>,
)
    ensures
        calls_left(first_step(window_found, show)) <= 2,
        calls_left(next_step(call, outcome)) < calls_left(ToggleStepView::Call(call)),
{
}

/// Following the steps from `first_step` to a reply makes exactly the calls
/// of `toggle_run`, in its order, and ends in its reply, whatever the window
/// gives.
pub proof fn lemma_steps_make_the_run(window_found: bool, show: bool, window: WindowOutcomes)
    ensures
        run_from(first_step(window_found, show), window) == toggle_run(window_found, show, window),
{
    reveal_with_fuel(run_from, 3);
    let stepped = run_from(first_step(window_found, show), window);
    let whole = toggle_run(window_found, show, window);
    assert(stepped.calls =~= whole.calls);
}

/// A request succeeds exactly when there is a window and no call that was
/// made on it failed. Every call but the last one succeeded, and the reply to
/// a request that made a call is what its last call gave.
pub proof fn lemma_reply_is_first_failure(window_found: bool, show: bool, window: WindowOutcomes)
    ensures
        ({
            let run = toggle_run(window_found, show, window);
            &&& run.reply is Ok <==> window_found && forall|i: int|
                0 <= i < run.calls.len() ==> window.of(#[trigger] run.calls[i]) is Ok
            &&& forall|i: int|
                0 <= i < run.calls.len() - 1 ==> window.of(#[trigger] run.calls[i]) is Ok
            &&& run.calls.len() > 0 ==> run.reply == window.of(run.calls.last())
        }),
{
    let run = toggle_run(window_found, show, window);
    if window_found && run.reply is Ok {
        assert forall|i: int| 0 <= i < run.calls.len() implies window.of(
            #[trigger] run.calls[i],
        ) is Ok by {}
    }
    if window_found && run.reply is Err {
        assert(window.of(run.calls.last()) is Err);
    }
}

} // verus!
