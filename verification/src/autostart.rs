//! Bringing the operating system's launch-at-login registration in line with
//! the user's choice, one plugin call at a time.
use vstd::prelude::*;

use crate::text::{joined, contains, has_substring, lowercase_view, to_lowercase};

verus! {

/// A request to the autostart plugin.
#[derive(Clone, Copy, Debug, PartialEq, Eq, Structural)]
pub enum AutostartCall {
    /// Register the application to start at login.
    Enable,
    /// Ask whether the application is registered.
    QueryEnabled,
    /// Remove the registration.
    Disable,
}

/// What the procedure does next: one more plugin call, or stop with its result.
#[derive(Debug)]
pub enum AutostartStep {
    Call(AutostartCall),
    Finished(Result<(), String>),
}

pub enum AutostartStepView {
    Call(AutostartCall),
    Finished(Result<(), Seq<char>>),
}

impl View for AutostartStep {
    type V = AutostartStepView;

    open spec fn view(&self) -> AutostartStepView {
        match self {
            AutostartStep::Call(c) => AutostartStepView::Call(*c),
            AutostartStep::Finished(Ok(())) => AutostartStepView::Finished(Ok(())),
            AutostartStep::Finished(Err(m)) => AutostartStepView::Finished(Err(m@)),
        }
    }
}

/// What the plugin answered to the last call; errors carry the plugin's
/// error text.
#[derive(Debug)]
pub enum AutostartReply {
    Enabled(Result<(), String>),
    Queried(Result<bool, String>),
    Disabled(Result<(), String>),
}

pub enum AutostartReplyView {
    Enabled(Result<(), Seq<char>>),
    Queried(Result<bool, Seq<char>>),
    Disabled(Result<(), Seq<char>>),
}

impl View for AutostartReply {
    type V = AutostartReplyView;

    open spec fn view(&self) -> AutostartReplyView {
        match self {
            AutostartReply::Enabled(Ok(())) => AutostartReplyView::Enabled(Ok(())),
            AutostartReply::Enabled(Err(m)) => AutostartReplyView::Enabled(Err(m@)),
            AutostartReply::Queried(Ok(b)) => AutostartReplyView::Queried(Ok(*b)),
            AutostartReply::Queried(Err(m)) => AutostartReplyView::Queried(Err(m@)),
            AutostartReply::Disabled(Ok(())) => AutostartReplyView::Disabled(Ok(())),
            AutostartReply::Disabled(Err(m)) => AutostartReplyView::Disabled(Err(m@)),
        }
    }
}

/// A lowercased error text that says the registration was not there to remove.
pub open spec fn benign_lowered(lowered: Seq<char>) -> bool {
    ||| has_substring(lowered, "not found"@)
    ||| has_substring(lowered, "cannot find"@)
    ||| has_substring(lowered, "os error 2"@)
}

/// An error from removing the registration that only says it was not there.
pub open spec fn benign_disable_error(message: Seq<char>) -> bool {
    benign_lowered(lowercase_view(message))
}

pub open spec fn enable_failed_message(detail: Seq<char>) -> Seq<char> {
    "Unable to enable launch at login: "@ + detail
}

pub open spec fn disable_failed_message(detail: Seq<char>) -> Seq<char> {
    "Unable to disable launch at login: "@ + detail
}

/// The first step towards launch at login being `target`: register when it
/// should be on, otherwise first ask whether there is anything to remove.
pub open spec fn begin_view(target: bool) -> AutostartStepView {
    if target {
        AutostartStepView::Call(AutostartCall::Enable)
    } else {
        AutostartStepView::Call(AutostartCall::QueryEnabled)
    }
}

/// The step after the plugin's reply.
pub open spec fn next_view(reply: AutostartReplyView) -> AutostartStepView {
    match reply {
        AutostartReplyView::Enabled(Ok(())) => AutostartStepView::Finished(Ok(())),
        AutostartReplyView::Enabled(Err(e)) => AutostartStepView::Finished(
            Err(enable_failed_message(e)),
        ),
        AutostartReplyView::Queried(Ok(false)) => AutostartStepView::Finished(Ok(())),
        AutostartReplyView::Queried(_) => AutostartStepView::Call(AutostartCall::Disable),
        AutostartReplyView::Disabled(Ok(())) => AutostartStepView::Finished(Ok(())),
        AutostartReplyView::Disabled(Err(e)) => if benign_disable_error(e) {
            AutostartStepView::Finished(Ok(()))
        } else {
            AutostartStepView::Finished(Err(disable_failed_message(e)))
        },
    }
}

/// Whether an already lowercased error text says that there was nothing to
/// remove.
pub fn is_benign_lowercase(lowered: &str) -> (b: bool)
    ensures
        b == benign_lowered(lowered@),
{
    let a = contains(lowered, "not found");
    let b = contains(lowered, "cannot find");
    let c = contains(lowered, "os error 2");
    a || b || c
}

/// Whether an error from removing the launch-at-login registration only says
/// that there was nothing to remove; the comparison ignores case.
pub fn is_benign_disable_error(message: &str) -> (b: bool)
    ensures
        b == benign_disable_error(message@),
{
    let lowered = to_lowercase(message);
    is_benign_lowercase(lowered.as_str())
}

/// Where the procedure starts for the wished-for state `target`.
pub fn launch_at_login_begin(target: bool) -> (s: AutostartStep)
    ensures
        s@ == begin_view(target),
{
    if target {
        AutostartStep::Call(AutostartCall::Enable)
    } else {
        AutostartStep::Call(AutostartCall::QueryEnabled)
    }
}

/// Where the procedure goes after the plugin's reply: an error from
/// registering is reported; an answer that nothing is registered ends it; any
/// other answer, an error included, leads to removing the registration, whose
/// error is reported unless it only says the registration was missing.
pub fn launch_at_login_next(reply: AutostartReply) -> (s: AutostartStep)
    ensures
        s@ == next_view(reply@),
{
    match reply {
        AutostartReply::Enabled(Ok(())) => AutostartStep::Finished(Ok(())),
        AutostartReply::Enabled(Err(e)) => AutostartStep::Finished(
            Err(joined("Unable to enable launch at login: ", e.as_str())),
        ),
        AutostartReply::Queried(Ok(false)) => AutostartStep::Finished(Ok(())),
        AutostartReply::Queried(_) => AutostartStep::Call(AutostartCall::Disable),
        AutostartReply::Disabled(Ok(())) => AutostartStep::Finished(Ok(())),
        AutostartReply::Disabled(Err(e)) => {
            if is_benign_disable_error(e.as_str()) {
                AutostartStep::Finished(Ok(()))
            } else {
                AutostartStep::Finished(
                    Err(joined("Unable to disable launch at login: ", e.as_str())),
                )
            }
        },
    }
}

/// A plugin that does what it is asked: registering sets the registration,
/// removing clears it, asking tells it. Gives the reply and the registration
/// afterwards.
pub open spec fn faithful_plugin(call: AutostartCall, registered: bool) -> (
    AutostartReplyView,
    bool,
) {
    match call {
        AutostartCall::Enable => (AutostartReplyView::Enabled(Ok(())), true),
        AutostartCall::QueryEnabled => (AutostartReplyView::Queried(Ok(registered)), registered),
        AutostartCall::Disable => (AutostartReplyView::Disabled(Ok(())), false),
    }
}

/// The procedure's result and the registration afterwards, when every call
/// goes to a faithful plugin; the procedure never asks for more than two calls.
pub open spec fn run_with_faithful_plugin(target: bool, registered: bool) -> (
    AutostartStepView,
    bool,
) {
    match begin_view(target) {
        AutostartStepView::Call(c1) => {
            let (r1, reg1) = faithful_plugin(c1, registered);
            match next_view(r1) {
                AutostartStepView::Call(c2) => {
                    let (r2, reg2) = faithful_plugin(c2, reg1);
                    (next_view(r2), reg2)
                },
                done => (done, reg1),
            }
        },
        done => (done, registered),
    }
}

/// Removing the registration fails the procedure with the error text unless
/// that text, lowercased, contains `not found`, `cannot find` or `os error 2`,
/// in which case it succeeds; a removal that went through succeeds.
pub proof fn law_disable_outcome(e: Seq<char>)
    ensures
        next_view(AutostartReplyView::Disabled(Ok(()))) == AutostartStepView::Finished(Ok(())),
        (has_substring(lowercase_view(e), "not found"@) || has_substring(
            lowercase_view(e),
            "cannot find"@,
        ) || has_substring(lowercase_view(e), "os error 2"@)) ==> next_view(
            AutostartReplyView::Disabled(Err(e)),
        ) == AutostartStepView::Finished(Ok(())),
        !(has_substring(lowercase_view(e), "not found"@) || has_substring(
            lowercase_view(e),
            "cannot find"@,
        ) || has_substring(lowercase_view(e), "os error 2"@)) ==> next_view(
            AutostartReplyView::Disabled(Err(e)),
        ) == AutostartStepView::Finished(Err("Unable to disable launch at login: "@ + e)),
{
}

/// Registering fails the procedure exactly when the plugin fails, with its
/// error text; it never leads to a further call.
pub proof fn law_enable_outcome(e: Seq<char>)
    ensures
        next_view(AutostartReplyView::Enabled(Ok(()))) == AutostartStepView::Finished(Ok(())),
        next_view(AutostartReplyView::Enabled(Err(e))) == AutostartStepView::Finished(
            Err("Unable to enable launch at login: "@ + e),
        ),
{
}

/// Launch at login on is asked for by registering; off by first asking, and
/// an answer that nothing is registered ends it successfully; any other
/// answer leads to removing the registration.
pub proof fn law_begin_and_query(target: bool, answer: Result<bool, Seq<char>>)
    ensures
        target ==> begin_view(target) == AutostartStepView::Call(AutostartCall::Enable),
        !target ==> begin_view(target) == AutostartStepView::Call(AutostartCall::QueryEnabled),
        answer == Ok::<bool, Seq<char>>(false) ==> next_view(AutostartReplyView::Queried(answer))
            == AutostartStepView::Finished(Ok(())),
        answer != Ok::<bool, Seq<char>>(false) ==> next_view(AutostartReplyView::Queried(answer))
            == AutostartStepView::Call(AutostartCall::Disable),
{
}

/// Against a plugin that does what it is asked, the procedure succeeds and
/// leaves launch at login exactly as wished, from either starting state.
pub proof fn law_reaches_target(target: bool, registered: bool)
    ensures
        run_with_faithful_plugin(target, registered) == (
            AutostartStepView::Finished(Ok(())),
            target,
        ),
{
}

/// Only an answer to the question whether launch at login is registered can
/// lead to a further call, that call removes the registration, and its reply
/// always ends the procedure; so it ends after at most two plugin calls.
pub proof fn law_at_most_two_calls(reply: AutostartReplyView)
    ensures
        next_view(reply) is Call ==> reply is Queried && next_view(reply) == AutostartStepView::Call(
            AutostartCall::Disable,
        ),
        forall|r: Result<(), Seq<char>>| #[trigger] next_view(AutostartReplyView::Disabled(r)) is Finished,
{
}

} // verus!
