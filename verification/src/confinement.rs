//! The two ways of confining the process, of which a daemon uses exactly
//! one: an allow-list of system calls, or a ruleset on what it may reach.

use crate::landlock::{LandlockConfiner, LandlockRuleset};
use crate::seccomp::{outcome_view, BpfInstruction, ConfineError, Enforcement, SeccompConfiner};
use vstd::prelude::*;

verus! {

/// The way in which a daemon confines itself.
#[derive(Clone, Copy, Debug)]
pub enum ConfinementStrategy {
    Seccomp(SeccompConfiner),
    Landlock(LandlockConfiner),
}

/// Why no strategy could be selected.
#[derive(Clone, Copy, Debug, PartialEq, Eq, Structural)]
pub enum SelectionError {
    /// Confinement is wanted, but neither way was chosen.
    NoStrategy,
    /// Both ways were chosen; only one can be used.
    BothStrategies,
}

/// What is to be installed to confine the process.
#[derive(Debug)]
pub enum Confinement {
    /// A filter program for the kernel.
    Filter(Vec<BpfInstruction>),
    /// A ruleset that restricts the process itself.
    Ruleset(LandlockRuleset),
}

/// What a `Confinement` holds.
pub enum ConfinementView {
    Filter(Seq<BpfInstruction>),
    Ruleset(LandlockRuleset),
}

impl View for Confinement {
    type V = ConfinementView;

    open spec fn view(&self) -> ConfinementView {
        match self {
            Confinement::Filter(program) => ConfinementView::Filter(program@),
            Confinement::Ruleset(ruleset) => ConfinementView::Ruleset(*ruleset),
        }
    }
}

/// A result of `ConfinementStrategy::confine`, taken by its view.
pub open spec fn confinement_view(result: Result<Confinement, ConfineError>) -> Result<
    ConfinementView,
    ConfineError,
> {
    match result {
        Ok(c) => Ok(c@),
        Err(e) => Err(e),
    }
}

impl ConfinementStrategy {
    /// Selects the strategy from the two choices, of which exactly one has
    /// to be made. The allow-list is an enforcing one, for the descriptor
    /// `device_fd` of the virtual keyboard, with `setuid` on it where
    /// `allow_setuid` says so.
    pub fn select(seccomp: bool, landlock: bool, allow_setuid: bool, device_fd: i32) -> (selected:
        Result<ConfinementStrategy, SelectionError>)
        ensures
            seccomp && landlock ==> selected == Err::<ConfinementStrategy, _>(
                SelectionError::BothStrategies,
            ),
            !seccomp && !landlock ==> selected == Err::<ConfinementStrategy, _>(
                SelectionError::NoStrategy,
            ),
            seccomp && !landlock ==> {
                &&& selected matches Ok(ConfinementStrategy::Seccomp(confiner))
                &&& confiner.allows_setuid() == allow_setuid
                &&& confiner.device() == device_fd
                &&& confiner.enforcement() == Enforcement::Enforcing
            },
            landlock && !seccomp ==> selected matches Ok(ConfinementStrategy::Landlock(_)),
    {
        if seccomp && landlock {
            Err(SelectionError::BothStrategies)
        } else if seccomp {
            Ok(ConfinementStrategy::Seccomp(SeccompConfiner::new(allow_setuid, device_fd)))
        } else if landlock {
            Ok(ConfinementStrategy::Landlock(LandlockConfiner::new()))
        } else {
            Err(SelectionError::NoStrategy)
        }
    }

    /// What `confine` hands out for the architecture named `arch_name`.
    pub open spec fn spec_confine(&self, arch_name: Seq<char>) -> Result<
        ConfinementView,
        ConfineError,
    > {
        match self {
            ConfinementStrategy::Seccomp(confiner) => match confiner.spec_confine(arch_name) {
                Ok(program) => Ok(ConfinementView::Filter(program)),
                Err(e) => Err(e),
            },
            ConfinementStrategy::Landlock(_) => Ok(
                ConfinementView::Ruleset(LandlockConfiner::spec_ruleset()),
            ),
        }
    }

    /// Prepares what the strategy installs: the filter program for the
    /// architecture named `arch_name`, or the ruleset, which is the same on
    /// every architecture. Where this fails the daemon must not go on.
    pub fn confine(&self, arch_name: &str) -> (result: Result<Confinement, ConfineError>)
        ensures
            confinement_view(result) == self.spec_confine(arch_name@),
    {
        match self {
            ConfinementStrategy::Seccomp(confiner) => {
                let compiled = confiner.confine(arch_name);
                proof {
                    assert(outcome_view(compiled) == confiner.spec_confine(arch_name@));
                }
                match compiled {
                    Ok(program) => Ok(Confinement::Filter(program)),
                    Err(e) => Err(e),
                }
            },
            ConfinementStrategy::Landlock(confiner) => Ok(Confinement::Ruleset(confiner.confine())),
        }
    }
}


/// Whether two strategies are the same selection: the same way of confining,
/// made with the same choices.
pub open spec fn same_selection(a: ConfinementStrategy, b: ConfinementStrategy) -> bool {
    match (a, b) {
        (ConfinementStrategy::Seccomp(x), ConfinementStrategy::Seccomp(y)) => {
            &&& x.allows_setuid() == y.allows_setuid()
            &&& x.device() == y.device()
            &&& x.enforcement() == y.enforcement()
        },
        (ConfinementStrategy::Landlock(_), ConfinementStrategy::Landlock(_)) => true,
        _ => false,
    }
}

/// The same selection gives the same confinement, whenever and wherever it
/// is prepared: nothing but the selection and the architecture goes into it.
pub proof fn lemma_confinement_is_determined(
    a: ConfinementStrategy,
    b: ConfinementStrategy,
    arch_name: Seq<char>,
)
    requires
        same_selection(a, b),
    ensures
        a.spec_confine(arch_name) == b.spec_confine(arch_name),
{
    match (a, b) {
        (ConfinementStrategy::Seccomp(x), ConfinementStrategy::Seccomp(y)) => {
            crate::seccomp::lemma_policy_is_determined(x, y, arch_name);
        },
        _ => {},
    }
}

} // verus!
