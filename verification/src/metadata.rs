//! The metadata resolver: one record of three strings — head name,
//! commit descriptor, build time — read from the enclosing repository
//! and the wall clock, with a resolve-once cell that memoizes the first
//! outcome for every later read.
//!
//! The failure policy is strict: each step that cannot be completed
//! yields the [`ResolveError`] naming it, and no partial record is ever
//! produced.

use vstd::prelude::*;
use crate::clock::read_utc_clock;
use crate::repo::describe_head;
use crate::repo::discover_repo;
use crate::repo::reference_shorthand;
use crate::repo::repo_head;
use crate::rfc3339::format_rfc3339;
use crate::rfc3339::is_rfc3339;
use crate::rfc3339::lemma_rfc3339_round_trip;
use crate::rfc3339::spec_rfc3339;
use crate::rfc3339::ClockParts;

verus! {

/// Why resolution failed, named after the step that failed.
#[derive(Clone, Copy, Debug, PartialEq, Eq, Structural)]
pub enum ResolveError {
    /// No repository encloses the starting directory or any of its
    /// parents.
    RepositoryNotFound,
    /// The head reference is missing, unborn, or has no UTF-8 name.
    HeadUnresolvable,
    /// The repository has no commit for the describe operation to name.
    DescribeFailed,
    /// The wall clock could not be read, or its date falls outside the
    /// RFC 3339 years.
    ClockUnavailable,
}

impl ResolveError {
    /// The diagnostic for a strict build failure: it names the step that
    /// could not be resolved, and why.
    pub fn message(&self) -> (r: String)
        ensures
            *self is RepositoryNotFound ==> r@ == "not inside a repository"@,
            *self is HeadUnresolvable ==> r@ == "head reference has no usable short name"@,
            *self is DescribeFailed ==> r@ == "no commit or tag to describe"@,
            *self is ClockUnavailable ==> r@ == "wall clock unavailable or out of range"@,
    {
        match self {
            ResolveError::RepositoryNotFound => "not inside a repository".to_owned(),
            ResolveError::HeadUnresolvable => "head reference has no usable short name".to_owned(),
            ResolveError::DescribeFailed => "no commit or tag to describe".to_owned(),
            ResolveError::ClockUnavailable => "wall clock unavailable or out of range".to_owned(),
        }
    }
}

/// The resolved build metadata: three immutable strings.
#[derive(Debug)]
pub struct BuildMetadata {
    /// Short name of the current head reference (branch or tag).
    pub head: String,
    /// Nearest reachable tag name, or a short commit id when no tag is
    /// reachable.
    pub commit_descriptor: String,
    /// The wall-clock time of resolution, as a UTC RFC 3339 string.
    pub build_time: String,
}

impl BuildMetadata {
    /// The build-time field carries a well-shaped UTC RFC 3339
    /// timestamp.
    pub open spec fn wf(self) -> bool {
        is_rfc3339(self.build_time@)
    }

    /// An equal record, field by field.
    pub fn duplicate(&self) -> (r: Self)
        ensures
            r == *self,
    {
        BuildMetadata {
            head: self.head.clone(),
            commit_descriptor: self.commit_descriptor.clone(),
            build_time: self.build_time.clone(),
        }
    }
}

/// The pure assembly step of resolution: from the outcome of each probe
/// — whether a repository was found, the head name read from it, the
/// describe result, and the validated clock reading — either the bundled
/// record, or the error of the first probe that failed, in resolution
/// order.
pub fn assemble(
    repo_found: bool,
    head_name: Option<String>,
    descriptor: Option<String>,
    clock: Option<ClockParts>,
) -> (r: Result<BuildMetadata, ResolveError>)
    requires
        clock matches Some(c) ==> c.wf(),
    ensures
        !repo_found ==> r == Err::<BuildMetadata, ResolveError>(ResolveError::RepositoryNotFound),
        repo_found && head_name is None ==> r == Err::<BuildMetadata, ResolveError>(
            ResolveError::HeadUnresolvable,
        ),
        repo_found && head_name is Some && descriptor is None ==> r == Err::<
            BuildMetadata,
            ResolveError,
        >(ResolveError::DescribeFailed),
        repo_found && head_name is Some && descriptor is Some && clock is None ==> r == Err::<
            BuildMetadata,
            ResolveError,
        >(ResolveError::ClockUnavailable),
        repo_found && head_name is Some && descriptor is Some && clock is Some ==> r is Ok,
        r matches Ok(m) ==> ({
            &&& repo_found
            &&& head_name matches Some(h) && m.head@ == h@
            &&& descriptor matches Some(d) && m.commit_descriptor@ == d@
            &&& clock matches Some(c) && m.build_time@ == spec_rfc3339(c)
            &&& m.wf()
        }),
{
    if !repo_found {
        return Err(ResolveError::RepositoryNotFound);
    }
    let h = match head_name {
        Some(h) => h,
        None => { return Err(ResolveError::HeadUnresolvable) },
    };
    let d = match descriptor {
        Some(d) => d,
        None => { return Err(ResolveError::DescribeFailed) },
    };
    let c = match clock {
        Some(c) => c,
        None => { return Err(ResolveError::ClockUnavailable) },
    };
    let build_time = format_rfc3339(&c);
    proof {
        lemma_rfc3339_round_trip(c);
    }
    Ok(BuildMetadata { head: h, commit_descriptor: d, build_time })
}

/// Resolves the three metadata fields once, without memoization: opens
/// the repository that encloses `path`, reads the short head name,
/// computes the commit descriptor (nearest reachable tag, short commit
/// id as fallback), and stamps the current UTC wall-clock time.  Every
/// failing step is reported as its [`ResolveError`]; a returned record
/// always carries a well-shaped RFC 3339 build time.
pub fn resolve(path: &str) -> (r: Result<BuildMetadata, ResolveError>)
    ensures
        r matches Ok(m) ==> m.wf(),
{
    let repo = match discover_repo(path) {
        Ok(repo) => Some(repo),
        Err(_) => None,
    };
    let mut head_name: Option<String> = None;
    let mut descriptor: Option<String> = None;
    match &repo {
        Some(rep) => {
            head_name = match repo_head(rep) {
                Ok(re) => match reference_shorthand(&re) {
                    Ok(s) => Some(s),
                    Err(_) => None,
                },
                Err(_) => None,
            };
            descriptor = match describe_head(rep) {
                Ok(d) => Some(d),
                Err(_) => None,
            };
        },
        None => {},
    }
    let clock = read_utc_clock();
    assemble(repo.is_some(), head_name, descriptor, clock)
}

/// An equal outcome, field by field.
fn duplicate_outcome(r: &Result<BuildMetadata, ResolveError>) -> (d: Result<
    BuildMetadata,
    ResolveError,
>)
    ensures
        d == *r,
{
    match r {
        Ok(m) => Ok(m.duplicate()),
        Err(e) => Err(*e),
    }
}

/// A resolve-once cell.  It holds nothing until the first request; the
/// first request stores the outcome of one resolution, and every later
/// request returns that same outcome unchanged.
pub struct MetadataCell {
    cached: Option<Result<BuildMetadata, ResolveError>>,
}

impl MetadataCell {
    /// The memoized outcome, if resolution has run.
    pub closed spec fn cached(self) -> Option<Result<BuildMetadata, ResolveError>> {
        self.cached
    }

    /// Any memoized successful record is well-formed.
    pub open spec fn wf(self) -> bool {
        self.cached() matches Some(res) ==> (res matches Ok(m) ==> m.wf())
    }

    /// The head name a reader observes: present exactly when a
    /// successful record is memoized.
    pub open spec fn spec_head(self) -> Option<Seq<char>> {
        match self.cached() {
            Some(Ok(m)) => Some(m.head@),
            _ => None,
        }
    }

    /// The commit descriptor a reader observes: present exactly when a
    /// successful record is memoized.
    pub open spec fn spec_commit(self) -> Option<Seq<char>> {
        match self.cached() {
            Some(Ok(m)) => Some(m.commit_descriptor@),
            _ => None,
        }
    }

    /// The build time a reader observes: present exactly when a
    /// successful record is memoized.
    pub open spec fn spec_build_time(self) -> Option<Seq<char>> {
        match self.cached() {
            Some(Ok(m)) => Some(m.build_time@),
            _ => None,
        }
    }

    /// A fresh cell, with no resolution run yet.
    pub fn new() -> (c: Self)
        ensures
            c.cached() is None,
            c.wf(),
    {
        MetadataCell { cached: None }
    }

    /// Whether resolution has already run.
    pub fn is_resolved(&self) -> (b: bool)
        ensures
            b == (self.cached() is Some),
    {
        self.cached.is_some()
    }

    /// Resolves on the first request and memoizes the outcome; every
    /// later request returns the memoized outcome unchanged, and the
    /// cell itself never changes again.
    pub fn get_or_resolve(&mut self, path: &str) -> (r: Result<BuildMetadata, ResolveError>)
        requires
            old(self).wf(),
        ensures
            final(self).wf(),
            final(self).cached() == Some(r),
            old(self).cached() matches Some(prev) ==> r == prev && final(self).cached() == old(
                self,
            ).cached(),
            r matches Ok(m) ==> m.wf(),
    {
        match &self.cached {
            Some(res) => duplicate_outcome(res),
            None => {
                let r = resolve(path);
                self.cached = Some(duplicate_outcome(&r));
                r
            },
        }
    }

    /// The memoized head name: `None` until a successful resolution is
    /// memoized.
    pub fn head(&self) -> (r: Option<String>)
        ensures
            r is Some <==> self.spec_head() is Some,
            r matches Some(s) ==> self.spec_head() == Some(s@),
    {
        match &self.cached {
            Some(Ok(m)) => Some(m.head.clone()),
            _ => None,
        }
    }

    /// The memoized commit descriptor: `None` until a successful
    /// resolution is memoized.
    pub fn commit(&self) -> (r: Option<String>)
        ensures
            r is Some <==> self.spec_commit() is Some,
            r matches Some(s) ==> self.spec_commit() == Some(s@),
    {
        match &self.cached {
            Some(Ok(m)) => Some(m.commit_descriptor.clone()),
            _ => None,
        }
    }

    /// The memoized build time: `None` until a successful resolution is
    /// memoized.
    pub fn current_time(&self) -> (r: Option<String>)
        ensures
            r is Some <==> self.spec_build_time() is Some,
            r matches Some(s) ==> self.spec_build_time() == Some(s@),
    {
        match &self.cached {
            Some(Ok(m)) => Some(m.build_time.clone()),
            _ => None,
        }
    }
}

/// Law: the three fields of a cell resolve together.  A reader observes
/// either none of them or all of them — never a record with one field
/// resolved and another still unresolved.
pub proof fn lemma_fields_resolve_together(c: MetadataCell)
    ensures
        (c.spec_head() is Some) == (c.spec_commit() is Some),
        (c.spec_head() is Some) == (c.spec_build_time() is Some),
{
}

} // verus!
