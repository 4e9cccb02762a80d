//! Pull requests as the code-hosting service lists them, and the repository
//! names that select them.
use vstd::prelude::*;

verus! {

/// What is needed to list one repository's open pull requests.
#[derive(Clone, Debug)]
pub struct GithubEnv {
    pub github_api_token: String,
    pub workflow_repo: String,
    pub workflow_login: String,
    pub silent: bool,
    pub verbose: bool,
}

/// An open pull request: its number, title, address and labels in the order
/// the service lists them.
#[derive(Clone, Debug)]
pub struct PullRequest {
    pub number: i64,
    pub name: String,
    pub url: String,
    pub labels: Vec<String>,
}

/// A setup failure, found before any network access.
#[derive(Clone, Copy, Debug, PartialEq, Eq, Structural)]
pub enum ConfigurationError {
    /// The repository name is not of the form `owner/name`.
    MalformedRepoName,
}

/// The index of the first `/` in `s` at or after `i`, or the length of `s`
/// when there is none.
pub open spec fn next_slash(s: Seq<char>, i: int) -> int
    decreases s.len() - i,
{
    if i < 0 || i >= s.len() {
        s.len() as int
    } else if s[i] == '/' {
        i
    } else {
        next_slash(s, i + 1)
    }
}

/// Owner and name of a repository written `owner/name`: the text before the
/// first `/`, and the text between it and the next `/` or the end. Without a
/// `/` there are none.
pub open spec fn repo_parts(s: Seq<char>) -> Option<(Seq<char>, Seq<char>)> {
    let a = next_slash(s, 0);
    if a < s.len() {
        Some((s.subrange(0, a), s.subrange(a + 1, next_slash(s, a + 1))))
    } else {
        None
    }
}

fn find_slash(s: &str, len: usize, start: usize) -> (r: usize)
    requires
        len == s@.len(),
        start <= len,
    ensures
        r == next_slash(s@, start as int),
        start <= r <= len,
{
    let mut i: usize = start;
    while i < len && s.get_char(i) != '/'
        invariant
            start <= i <= len,
            len == s@.len(),
            next_slash(s@, start as int) == next_slash(s@, i as int),
        decreases len - i,
    {
        i = i + 1;
    }
    i
}

/// Splits `owner/name` into owner and name.
pub fn parse_repo_name(repo_name: &str) -> (r: Result<(&str, &str), ConfigurationError>)
    ensures
        match repo_parts(repo_name@) {
            Some((owner, name)) => r is Ok && r->Ok_0.0@ == owner && r->Ok_0.1@ == name,
            None => r == Err::<(&str, &str), _>(ConfigurationError::MalformedRepoName),
        },
{
    let len = repo_name.unicode_len();
    let a = find_slash(repo_name, len, 0);
    if a < len {
        let b = find_slash(repo_name, len, a + 1);
        Ok((repo_name.substring_char(0, a), repo_name.substring_char(a + 1, b)))
    } else {
        Err(ConfigurationError::MalformedRepoName)
    }
}

} // verus!
