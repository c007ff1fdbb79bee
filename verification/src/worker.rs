//! The worker that looks for a package to update to.
//!
//! A worker tries to install a package again and again, once in each
//! period, until it has one to deliver. The worker of a follower in a
//! rolling update is after one given package and delivers it as soon as it
//! is installed. Every other worker is after whatever is newest and
//! delivers only a package that is newer than the one that runs.

use vstd::prelude::*;
use crate::ident::{PackageIdent, PackageIdentView};

verus! {

/// What a worker does after an attempt to install.
#[derive(Debug, PartialEq, Eq)]
pub enum WorkerStep {
    /// It hands the package over and ends.
    Deliver(PackageIdent),
    /// It waits for the rest of the period and tries again.
    TryAgain,
}

/// The mathematical value of a `WorkerStep`.
pub enum WorkerStepView {
    Deliver(PackageIdentView),
    TryAgain,
}

impl View for WorkerStep {
    type V = WorkerStepView;

    open spec fn view(&self) -> WorkerStepView {
        match *self {
            WorkerStep::Deliver(p) => WorkerStepView::Deliver(p@),
            WorkerStep::TryAgain => WorkerStepView::TryAgain,
        }
    }
}

/// The package that a worker asks for: the one it was given, else the one
/// that the spec names.
pub open spec fn wanted_of(spec_ident: PackageIdentView, target: Option<PackageIdentView>) -> PackageIdentView {
    match target {
        Some(t) => t,
        None => spec_ident,
    }
}

/// What follows an attempt to install. A failed attempt is tried again. A
/// worker that was given its package delivers what was installed; one that
/// was not delivers it only where it is newer than `current`.
pub open spec fn step_after(
    current: PackageIdentView,
    target_given: bool,
    installed: Option<PackageIdentView>,
) -> WorkerStepView {
    match installed {
        Some(p) => if target_given || current.older_than(p) {
            WorkerStepView::Deliver(p)
        } else {
            WorkerStepView::TryAgain
        },
        None => WorkerStepView::TryAgain,
    }
}

/// The package that a worker asks for.
pub fn wanted(spec_ident: &PackageIdent, target: Option<&PackageIdent>) -> (r: PackageIdent)
    ensures
        r@ == wanted_of(
            spec_ident@,
            match target {
                Some(t) => Some(t@),
                None => None,
            },
        ),
{
    match target {
        Some(t) => t.clone(),
        None => spec_ident.clone(),
    }
}

/// What a worker does after an attempt to install: `installed` is the
/// package that the attempt gave, if it gave one.
pub fn after_attempt(current: &PackageIdent, target_given: bool, installed: Option<PackageIdent>) -> (r:
    WorkerStep)
    ensures
        r@ == step_after(
            current@,
            target_given,
            match installed {
                Some(p) => Some(p@),
                None => None,
            },
        ),
{
    match installed {
        Some(p) => {
            if target_given || current.older_than(&p) {
                WorkerStep::Deliver(p)
            } else {
                WorkerStep::TryAgain
            }
        },
        None => WorkerStep::TryAgain,
    }
}

/// A worker that was given its package delivers the first package that it
/// installs, whatever runs.
pub proof fn law_given_package_is_delivered(current: PackageIdentView, p: PackageIdentView)
    ensures
        step_after(current, true, Some(p)) == WorkerStepView::Deliver(p),
{
}

/// A worker never delivers the package that runs already when it looks for
/// a newer one.
pub proof fn law_same_package_is_not_delivered(current: PackageIdentView)
    ensures
        step_after(current, false, Some(current)) == WorkerStepView::TryAgain,
{
    crate::ident::lemma_not_older_than_itself(current);
}

} // verus!
