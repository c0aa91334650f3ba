//! Trusted bindings to the git2 library: repository discovery, head
//! lookup, and the describe operation.  Every result depends on what is
//! on disk, so the contracts state only the shape of each outcome; the
//! verified resolver says what it does with every outcome.

use vstd::prelude::*;

verus! {

#[verifier::external_type_specification]
#[verifier::external_body]
pub struct ExRepository(git2::Repository);

#[verifier::external_type_specification]
#[verifier::external_body]
pub struct ExReference<'a>(git2::Reference<'a>);

#[verifier::external_type_specification]
#[verifier::external_body]
pub struct ExGitError(git2::Error);

/// Relies on git2::Repository::discover: opens the repository found by
/// searching `path` and walking up through its parent directories, and
/// returns git2's error when no repository encloses `path`.
#[verifier::external_body]
pub(crate) fn discover_repo(path: &str) -> Result<git2::Repository, git2::Error> {
    git2::Repository::discover(path)
}

/// Relies on git2::Repository::head: retrieves and resolves the reference
/// pointed at by HEAD, and returns git2's error when the head is unborn
/// or missing.
#[verifier::external_body]
pub(crate) fn repo_head<'a>(repo: &'a git2::Repository) -> Result<
    git2::Reference<'a>,
    git2::Error,
> {
    repo.head()
}

/// Relies on git2::Reference::shorthand: the short human-readable name of
/// the reference (the full name where no shorthand is appropriate), and
/// git2's error when the name is not valid UTF-8.
#[verifier::external_body]
pub(crate) fn reference_shorthand(re: &git2::Reference<'_>) -> Result<String, git2::Error> {
    match re.shorthand() {
        Ok(s) => Ok(s.to_string()),
        Err(e) => Err(e),
    }
}

/// Relies on git2::Repository::describe, configured with describe_tags
/// and show_commit_oid_as_fallback, and git2::Describe::format with its
/// default options: the nearest reachable tag name, `<tag>-<N>-g<hash>`
/// for commits past the tag, or an abbreviated commit id when no tag is
/// reachable; git2's error when there is no commit to describe.
#[verifier::external_body]
pub(crate) fn describe_head(repo: &git2::Repository) -> Result<String, git2::Error> {
    let mut opts = git2::DescribeOptions::new();
    opts.describe_tags();
    opts.show_commit_oid_as_fallback(true);
    match repo.describe(&opts) {
        Ok(d) => d.format(None),
        Err(e) => Err(e),
    }
}

} // verus!
