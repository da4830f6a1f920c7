use vstd::prelude::*;
use vstd::string::StringExecFns;

use crate::addr::AddrType;
use crate::error::{ErrorKind, SpecError, SpecResult};
use crate::types::ValuePath;
use crate::vars::ValueDict;

verus! {

/// How far an update reaches.
#[derive(Clone, Copy, Debug, PartialEq, Eq, Structural)]
pub enum UpdateLevel {
    All,
    Mod,
    Elm,
}

/// How aggressively a cached fetch may be reused.  Each level gives every
/// guarantee of the levels below it.
#[derive(Clone, Copy, Debug, PartialEq, Eq, Structural)]
pub enum ForcePolicy {
    /// No network access when a local copy already exists.
    UseCacheIfPresent,
    /// Re-fetch the named branch or tag tip even when cached.
    RefreshReference,
    /// Discard any local copy and fetch from scratch.
    FullReclone,
}

impl ForcePolicy {
    /// Numeric aggressiveness, for the ordering of the levels.
    pub open spec fn spec_rank(&self) -> int {
        match self {
            ForcePolicy::UseCacheIfPresent => 0,
            ForcePolicy::RefreshReference => 1,
            ForcePolicy::FullReclone => 2,
        }
    }

    pub fn rank(&self) -> (r: u8)
        ensures
            r as int == self.spec_rank(),
    {
        match self {
            ForcePolicy::UseCacheIfPresent => 0,
            ForcePolicy::RefreshReference => 1,
            ForcePolicy::FullReclone => 2,
        }
    }

    /// The policy a numeric force level names: 0 reuses caches, 1 refreshes
    /// references, anything higher reclones from scratch.
    pub fn from_force(force: usize) -> (r: Self)
        ensures
            force == 0 ==> r is UseCacheIfPresent,
            force == 1 ==> r is RefreshReference,
            force >= 2 ==> r is FullReclone,
    {
        if force == 0 {
            ForcePolicy::UseCacheIfPresent
        } else if force == 1 {
            ForcePolicy::RefreshReference
        } else {
            ForcePolicy::FullReclone
        }
    }
}

/// What occupies a resolve target directory before the resolve runs, as
/// whoever talks to the file system reports it.
#[derive(Clone, Copy, Debug, PartialEq, Eq, Structural)]
pub enum CacheState {
    /// Nothing is there yet.
    Absent,
    /// A valid prior fetch of the same address.
    Valid,
    /// Something else: not a prior fetch of this address.
    Incompatible,
}

/// What the resolver decides to do; the fetch itself runs outside the
/// verified core.
#[derive(Clone, Copy, Debug, PartialEq, Eq, Structural)]
pub enum ResolveAction {
    /// Reuse the cached copy; no network activity.
    UseCache,
    /// Fetch from the remote, first deleting the target when `clean_first`.
    Fetch { clean_first: bool },
}

/// A resolve decision together with where the result lands and what it is
/// to be renamed to.
#[derive(Debug)]
pub struct ResolveStep {
    pub local: ValuePath,
    pub action: ResolveAction,
    pub rename_to: Option<String>,
}

/// One fetch the update orchestrator schedules: which reference, from
/// where, into which directory, under which policy.  Any prior copy of the
/// destination is discarded before the fetch, so stale state is never
/// merged with a fresh one.
#[derive(Debug)]
pub struct FetchTask {
    pub name: String,
    pub addr: AddrType,
    pub dest: ValuePath,
    pub policy: ForcePolicy,
}

/// Options an update runs under.
#[derive(Debug)]
pub struct UpdateOptions {
    level: UpdateLevel,
    policy: ForcePolicy,
    values: ValueDict,
}

impl UpdateOptions {
    pub closed spec fn spec_level(&self) -> UpdateLevel {
        self.level
    }

    pub closed spec fn spec_policy(&self) -> ForcePolicy {
        self.policy
    }

    pub closed spec fn spec_values(&self) -> Seq<(String, crate::vars::ValueType)> {
        self.values.spec_entries()
    }

    pub fn new(level: UpdateLevel, policy: ForcePolicy, values: ValueDict) -> (r: Self)
        ensures
            r.spec_level() == level,
            r.spec_policy() == policy,
            r.spec_values() == values.spec_entries(),
    {
        UpdateOptions { level, policy, values }
    }

    /// Options from a numeric force level and operator-supplied values.
    pub fn from_force(force: usize, values: ValueDict) -> (r: Self)
        ensures
            r.spec_level() is All,
            force == 0 ==> r.spec_policy() is UseCacheIfPresent,
            force == 1 ==> r.spec_policy() is RefreshReference,
            force >= 2 ==> r.spec_policy() is FullReclone,
            r.spec_values() == values.spec_entries(),
    {
        UpdateOptions { level: UpdateLevel::All, policy: ForcePolicy::from_force(force), values }
    }

    pub fn policy(&self) -> (r: &ForcePolicy)
        ensures
            *r == self.spec_policy(),
    {
        &self.policy
    }

    pub fn level(&self) -> (r: &UpdateLevel)
        ensures
            *r == self.spec_level(),
    {
        &self.level
    }

    pub fn values(&self) -> (r: &ValueDict)
        ensures
            r.spec_entries() == self.spec_values(),
    {
        &self.values
    }

    pub fn duplicate(&self) -> (r: Self)
        ensures
            r.spec_level() == self.spec_level(),
            r.spec_policy() == self.spec_policy(),
            r.spec_values() == self.spec_values(),
    {
        UpdateOptions { level: self.level, policy: self.policy, values: self.values.duplicate() }
    }
}

/// What a resolve does for a given policy and cache state, when it can go
/// ahead: the cache is reused exactly when the policy is the mildest and a
/// valid cache exists; a full reclone always deletes first; a refresh
/// fetches without deleting; an incompatible occupant stops everything but
/// a full reclone.
pub open spec fn spec_resolve_action(policy: ForcePolicy, cache: CacheState) -> Option<
    ResolveAction,
> {
    match cache {
        CacheState::Absent => Some(ResolveAction::Fetch { clean_first: false }),
        CacheState::Valid => match policy {
            ForcePolicy::UseCacheIfPresent => Some(ResolveAction::UseCache),
            ForcePolicy::RefreshReference => Some(ResolveAction::Fetch { clean_first: false }),
            ForcePolicy::FullReclone => Some(ResolveAction::Fetch { clean_first: true }),
        },
        CacheState::Incompatible => match policy {
            ForcePolicy::FullReclone => Some(ResolveAction::Fetch { clean_first: true }),
            _ => None,
        },
    }
}

/// Decide how to resolve one address into `target`, under `policy`, given
/// what already occupies the target.  `Err` with a path-collision kind
/// comes exactly when the target holds an incompatible prior state that
/// the policy may not discard.
pub fn resolve_action(policy: &ForcePolicy, cache: &CacheState) -> (r: SpecResult<ResolveAction>)
    ensures
        match spec_resolve_action(*policy, *cache) {
            Some(a) => r matches Ok(got) && got == a,
            None => r matches Err(e) && e.spec_kind() == ErrorKind::PathCollision,
        },
{
    match cache {
        CacheState::Absent => Ok(ResolveAction::Fetch { clean_first: false }),
        CacheState::Valid => match policy {
            ForcePolicy::UseCacheIfPresent => Ok(ResolveAction::UseCache),
            ForcePolicy::RefreshReference => Ok(ResolveAction::Fetch { clean_first: false }),
            ForcePolicy::FullReclone => Ok(ResolveAction::Fetch { clean_first: true }),
        },
        CacheState::Incompatible => match policy {
            ForcePolicy::FullReclone => Ok(ResolveAction::Fetch { clean_first: true }),
            _ => Err(SpecError::new(ErrorKind::PathCollision)),
        },
    }
}

impl AddrType {
    /// Resolve this address into a subdirectory of `target`: decide the
    /// fetch action and where the result lands.  Fails with a
    /// malformed-input kind when the address yields no directory name, and
    /// with a path-collision kind when an incompatible occupant may not be
    /// discarded.
    pub fn resolve(&self, target: &ValuePath, policy: &ForcePolicy, cache: &CacheState) -> (r:
        SpecResult<ResolveStep>)
        ensures
            match r {
                Ok(step) => {
                    &&& self.spec_dir_name() matches Some(d) && step.local.spec_path()
                        == ValuePath::spec_join(target.spec_path(), d)
                    &&& spec_resolve_action(*policy, *cache) == Some(step.action)
                    &&& step.rename_to is None
                },
                Err(e) => {
                    ||| e.spec_kind() == ErrorKind::MalformedInput && self.spec_dir_name() is None
                    ||| e.spec_kind() == ErrorKind::PathCollision && spec_resolve_action(
                        *policy,
                        *cache,
                    ) is None
                },
            },
    {
        let name = match self.dir_name() {
            Some(n) => n,
            None => {
                return Err(SpecError::new(ErrorKind::MalformedInput));
            }
        };
        let action = resolve_action(policy, cache)?;
        let local = target.join(name.as_str());
        Ok(ResolveStep { local, action, rename_to: None })
    }

    /// Resolve, then rename the fetched directory to the given name, so the
    /// on-disk name matches the logical module name.
    pub fn resolve_rename(
        &self,
        target: &ValuePath,
        name: &str,
        policy: &ForcePolicy,
        cache: &CacheState,
    ) -> (r: SpecResult<ResolveStep>)
        ensures
            match r {
                Ok(step) => {
                    &&& self.spec_dir_name() matches Some(d) && step.local.spec_path()
                        == ValuePath::spec_join(target.spec_path(), d)
                    &&& spec_resolve_action(*policy, *cache) == Some(step.action)
                    &&& step.rename_to matches Some(n) && n@ == name@
                },
                Err(e) => {
                    ||| e.spec_kind() == ErrorKind::MalformedInput && self.spec_dir_name() is None
                    ||| e.spec_kind() == ErrorKind::PathCollision && spec_resolve_action(
                        *policy,
                        *cache,
                    ) is None
                },
            },
    {
        let step = self.resolve(target, policy, cache)?;
        Ok(ResolveStep {
            local: step.local,
            action: step.action,
            rename_to: Some(String::from_str(name)),
        })
    }
}

/// Law: a full reclone never reuses a cached directory — whatever occupies
/// the target, the decided action is a fetch that deletes any prior state
/// first — and the mildest policy performs no network activity when a
/// valid cache exists.
pub proof fn lemma_force_policy_monotonic(cache: CacheState)
    ensures
        spec_resolve_action(ForcePolicy::FullReclone, cache) == Some(
            ResolveAction::Fetch {
                clean_first: !(cache is Absent),
            },
        ),
        spec_resolve_action(ForcePolicy::FullReclone, cache) != Some(ResolveAction::UseCache),
        spec_resolve_action(ForcePolicy::UseCacheIfPresent, CacheState::Valid) == Some(
            ResolveAction::UseCache,
        ),
{
}

} // verus!
