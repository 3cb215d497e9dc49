//! The command launch policy: per trigger, either replace-semantics (the
//! launching process image is handed over to the command; the call returns
//! only on failure) or supervised (a child is spawned and awaited; the event
//! loop resumes whatever happened). This module decides, for every observed
//! outcome, what the panel does next; the operating-system calls themselves
//! live outside the library.

use vstd::prelude::*;
use crate::binder::GridElement;

verus! {

/// The two launch variants.
pub enum LaunchPolicy {
    /// `is_toggle == false`: hand the current process image to the command.
    /// On success the call never returns; on failure it yields an error.
    Replace,
    /// `is_toggle == true`: spawn a child, block until it exits, and return
    /// its status (or a spawn error) to the event loop.
    Supervised,
}

/// The policy a descriptor's `is_toggle` flag selects.
pub open spec fn policy_of(is_toggle: bool) -> LaunchPolicy {
    if is_toggle {
        LaunchPolicy::Supervised
    } else {
        LaunchPolicy::Replace
    }
}

/// Executable form of the policy selection.
pub fn select_policy(is_toggle: bool) -> (r: LaunchPolicy)
    ensures
        r == policy_of(is_toggle),
{
    if is_toggle {
        LaunchPolicy::Supervised
    } else {
        LaunchPolicy::Replace
    }
}

/// A launch that did not happen: why the command could not be started or the
/// process image could not be replaced (command not found, permission
/// denied, ...), as a plain description.
pub struct LaunchFailure {
    pub message: String,
}

/// What one activation leaves behind. `continue_running` says whether the
/// event loop stays able to process the next activation; `surfaced_error`
/// holds the failure that this activation must report, if there is one.
/// Failures are contained: nothing here ever propagates to sibling triggers.
pub struct ActivationReport {
    pub continue_running: bool,
    pub surfaced_error: Option<LaunchFailure>,
}

/// The report owed after a supervised launch: for every outcome the event
/// loop keeps running, a spawn failure is surfaced as an error value and
/// otherwise the exit status is accepted silently.
pub open spec fn supervised_report(outcome: Result<i32, LaunchFailure>) -> ActivationReport {
    match outcome {
        Result::Ok(_status) => ActivationReport {
            continue_running: true,
            surfaced_error: None,
        },
        Result::Err(failure) => ActivationReport {
            continue_running: true,
            surfaced_error: Some(failure),
        },
    }
}

/// Settles one supervised activation. Whatever the child did — exited with
/// any status, or never spawned — the application process continues running:
/// a failure yields an error value, never a fatal condition.
pub fn settle_supervised(outcome: Result<i32, LaunchFailure>) -> (r: ActivationReport)
    ensures
        r == supervised_report(outcome),
        r.continue_running,
        outcome is Err <==> r.surfaced_error is Some,
{
    match outcome {
        Result::Ok(_status) => ActivationReport {
            continue_running: true,
            surfaced_error: None,
        },
        Result::Err(failure) => ActivationReport {
            continue_running: true,
            surfaced_error: Some(failure),
        },
    }
}

/// Settles a replace-semantics launch that returned. Such a launch returns
/// only when the replacement did not occur, so the failure is always
/// surfaced: a replace launch never silently succeeds. The failure stays
/// local to this trigger, so the loop may keep running.
pub fn settle_replace(failure: LaunchFailure) -> (r: ActivationReport)
    ensures
        r.surfaced_error == Some(failure),
        r.continue_running,
{
    ActivationReport {
        continue_running: true,
        surfaced_error: Some(failure),
    }
}

/// A supervised launch never stops the event loop, for every possible
/// outcome: a clean exit, a nonzero exit and a spawn failure all leave the
/// panel able to process the next activation.
pub proof fn lemma_supervised_keeps_loop_running(outcome: Result<i32, LaunchFailure>)
    ensures
        supervised_report(outcome).continue_running,
{
}

impl GridElement {
    /// The launch policy a clickable element activates under.
    pub open spec fn spec_policy(&self) -> LaunchPolicy
        recommends
            self.is_clickable(),
    {
        match self {
            GridElement::Trigger { is_toggle, .. } => policy_of(*is_toggle),
            GridElement::Passive { .. } => LaunchPolicy::Replace,
        }
    }

    /// What activating this element launches: the captured command, the
    /// captured arguments and the captured policy for a trigger, and nothing
    /// at all for a passive label.
    pub fn activation(&self) -> (r: Option<(&String, &Vec<String>, LaunchPolicy)>)
        ensures
            match r {
                Some((cmd, args, policy)) => {
                    &&& self.is_clickable()
                    &&& self matches GridElement::Trigger { cmd: c, args: a, .. }
                        && cmd == c && args == a
                    &&& policy == self.spec_policy()
                },
                None => !self.is_clickable(),
            },
    {
        match self {
            GridElement::Trigger { cmd, args, is_toggle, .. } => {
                Some((cmd, args, select_policy(*is_toggle)))
            },
            GridElement::Passive { .. } => None,
        }
    }
}

} // verus!
