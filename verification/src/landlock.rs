//! Confinement by restricting what the process may reach: no file, no TCP
//! port, no signal and no abstract socket outside its own domain.

use ::landlock::{Access, AccessFs, AccessNet, ABI};
use vstd::prelude::*;

verus! {

/// The version of the kernel's interface that the ruleset is written for.
pub const LANDLOCK_ABI: i32 = 6;

/// Scope: no connection to an abstract socket outside the domain.
pub const SCOPE_ABSTRACT_UNIX_SOCKET: u64 = 1;

/// Scope: no signal to a process outside the domain.
pub const SCOPE_SIGNAL: u64 = 2;

/// The filesystem access rights that version `abi` of the interface defines,
/// one bit each: thirteen in the first version, one more in the second, the
/// third, the fifth and the ninth.
pub open spec fn spec_fs_access(abi: int) -> u64 {
    if abi <= 0 {
        0
    } else if abi == 1 {
        0x1fff
    } else if abi == 2 {
        0x3fff
    } else if abi <= 4 {
        0x7fff
    } else if abi <= 8 {
        0xffff
    } else {
        0x1_ffff
    }
}

/// The network access rights that version `abi` of the interface defines:
/// binding and connecting a TCP port, from the fourth version on.
pub open spec fn spec_net_access(abi: int) -> u64 {
    if abi <= 3 {
        0
    } else {
        0x3
    }
}

/// `AccessFs::from_all` of `landlock`, on the version that `ABI::from` makes
/// of `abi`: the filesystem access rights of that version, as bits.
#[verifier::external_body]
fn fs_access(abi: i32) -> (rights: u64)
    ensures
        rights == spec_fs_access(abi as int),
{
    AccessFs::from_all(ABI::from(abi)).bits()
}

/// `AccessNet::from_all` of `landlock`, on the version that `ABI::from` makes
/// of `abi`: the network access rights of that version, as bits.
#[verifier::external_body]
fn net_access(abi: i32) -> (rights: u64)
    ensures
        rights == spec_net_access(abi as int),
{
    AccessNet::from_all(ABI::from(abi)).bits()
}

/// What a ruleset takes from the process. A right that is handled is denied
/// wherever no rule grants it, and this ruleset holds no rule.
#[derive(Clone, Copy, Debug, PartialEq, Eq, Structural)]
pub struct LandlockRuleset {
    /// The filesystem access rights that are handled, as bits.
    pub handled_fs: u64,
    /// The network access rights that are handled, as bits.
    pub handled_net: u64,
    /// The scopes that the process is shut into, as bits.
    pub scoped: u64,
}

/// Confinement by a ruleset that restricts the current process.
#[derive(Clone, Copy, Debug, PartialEq, Eq, Structural)]
pub struct LandlockConfiner {}

impl LandlockConfiner {
    pub fn new() -> (confiner: LandlockConfiner)
        ensures
            confiner == (LandlockConfiner {  }),
    {
        LandlockConfiner {  }
    }

    /// The ruleset of the daemon.
    pub open spec fn spec_ruleset() -> LandlockRuleset {
        LandlockRuleset {
            handled_fs: spec_fs_access(LANDLOCK_ABI as int),
            handled_net: spec_net_access(LANDLOCK_ABI as int),
            scoped: 0x3,
        }
    }

    /// Builds the ruleset of the daemon: every filesystem and network access
    /// right of the sixth version is handled and none granted, and the
    /// process is shut into its own domain for signals and for abstract
    /// sockets. Restricting the process with it is left to the caller, who
    /// must not go on without it where that fails.
    pub fn confine(&self) -> (ruleset: LandlockRuleset)
        ensures
            ruleset == Self::spec_ruleset(),
            ruleset.handled_fs == 0xffff,
            ruleset.handled_net == 0x3,
            ruleset.scoped == SCOPE_SIGNAL + SCOPE_ABSTRACT_UNIX_SOCKET,
    {
        let scoped: u64 = SCOPE_SIGNAL | SCOPE_ABSTRACT_UNIX_SOCKET;
        assert(scoped == 0x3) by (bit_vector)
            requires
                scoped == 2u64 | 1u64,
        ;
        LandlockRuleset {
            handled_fs: fs_access(LANDLOCK_ABI),
            handled_net: net_access(LANDLOCK_ABI),
            scoped,
        }
    }
}

/// What the kernel made of a ruleset that the process was restricted with.
#[derive(Clone, Copy, Debug, PartialEq, Eq, Structural)]
pub enum RulesetStatus {
    /// Everything that was asked for is enforced.
    FullyEnforced,
    /// Only a part of what was asked for is enforced.
    PartiallyEnforced,
    /// Nothing is enforced: the kernel does not know how.
    NotEnforced,
}

/// Why a restriction does not confine the process.
#[derive(Clone, Copy, Debug, PartialEq, Eq, Structural)]
pub enum RestrictionError {
    /// The kernel enforces only a part of the ruleset.
    PartiallyEnforced,
    /// The kernel enforces nothing of the ruleset.
    NotEnforced,
}

impl LandlockConfiner {
    /// Whether a restriction that the kernel reports as `status` confines
    /// the process.
    pub open spec fn spec_confirm(status: RulesetStatus) -> Result<(), RestrictionError> {
        match status {
            RulesetStatus::FullyEnforced => Ok(()),
            RulesetStatus::PartiallyEnforced => Err(RestrictionError::PartiallyEnforced),
            RulesetStatus::NotEnforced => Err(RestrictionError::NotEnforced),
        }
    }

    /// Judges what the kernel reported of the restriction. The process counts
    /// as confined only where the whole ruleset is enforced; a daemon that is
    /// confined in part, or not at all, must not go on.
    pub fn confirm(&self, status: RulesetStatus) -> (confirmed: Result<(), RestrictionError>)
        ensures
            confirmed == Self::spec_confirm(status),
            confirmed is Ok <==> status == RulesetStatus::FullyEnforced,
    {
        match status {
            RulesetStatus::FullyEnforced => Ok(()),
            RulesetStatus::PartiallyEnforced => Err(RestrictionError::PartiallyEnforced),
            RulesetStatus::NotEnforced => Err(RestrictionError::NotEnforced),
        }
    }
}

} // verus!
