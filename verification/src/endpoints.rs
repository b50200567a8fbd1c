//! Where the hosting service answers.

use vstd::prelude::*;
use vstd::string::StringExecFns;

verus! {

/// The address under which the hosting service describes repositories.
pub const REPOSITORIES: &'static str = "https://api.github.com/repos/";

/// The path and query that ask for a repository's closed pull requests, the
/// most recently updated first.
pub const CLOSED_PULL_REQUESTS: &'static str = "/pulls?state=closed&sort=updated&direction=desc";

/// The address that describes `repository`, given as `owner/name`.
pub open spec fn repository_address(repository: Seq<char>) -> Seq<char> {
    REPOSITORIES@ + repository
}

/// The address that lists the closed pull requests of `repository`.
pub open spec fn pull_requests_address(repository: Seq<char>) -> Seq<char> {
    REPOSITORIES@ + repository + CLOSED_PULL_REQUESTS@
}

/// The address that describes `repository`, given as `owner/name`.
pub fn repository_url(repository: &str) -> (url: String)
    ensures
        url@ == repository_address(repository@),
{
    let mut url = String::new();
    url.append(REPOSITORIES);
    url.append(repository);
    assert(url@ =~= repository_address(repository@));
    url
}

/// The address that lists the closed pull requests of `repository`.
pub fn pull_requests_url(repository: &str) -> (url: String)
    ensures
        url@ == pull_requests_address(repository@),
{
    let mut url = repository_url(repository);
    url.append(CLOSED_PULL_REQUESTS);
    url
}

} // verus!
