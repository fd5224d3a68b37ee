//! Reading the command line into the sources to watch.
use crate::sources::{CodebergSource, GitHubSource, GitLabSource, GitSource, Source};
use vstd::prelude::*;

verus! {

/// Why a command line was refused.
#[derive(Debug, Clone, Copy, PartialEq, Eq, Structural)]
pub enum ArgsError {
    /// A flag came without its value.
    ArgumentMissing,
    /// A flag that is not known.
    UnknownArgument,
    /// `-c` together with other arguments.
    ConfigCombined,
    /// A value that is not `owner/repo`.
    NotOwnerRepo,
    /// A value that is not `hostname/projectid/projectname`.
    NotGitLabProject,
}

/// The access tokens found for each hosted kind, if any.
#[derive(Debug, Clone, Default)]
pub struct Tokens {
    pub github: Option<String>,
    pub gitlab: Option<String>,
    pub codeberg: Option<String>,
}

/// What the command line asks for.
#[derive(Debug)]
pub enum Invocation {
    /// Read the sources from the configuration file at its usual place.
    DefaultConfig,
    /// Read the sources from this configuration file.
    ConfigFile(String),
    /// Watch these sources.
    Sources(Vec<Source>),
}

/// The first position at or after `i` that holds `c`.
pub open spec fn find_from(s: Seq<char>, c: char, i: int) -> Option<int>
    decreases s.len() - i,
{
    if i < 0 || i >= s.len() {
        None
    } else if s[i] == c {
        Some(i)
    } else {
        find_from(s, c, i + 1)
    }
}

/// `owner/repo` split at its only slash.
pub open spec fn split_owner_repo(s: Seq<char>) -> Option<(Seq<char>, Seq<char>)> {
    match find_from(s, '/', 0) {
        Some(k) => if find_from(s, '/', k + 1) is None {
            Some((s.subrange(0, k), s.subrange(k + 1, s.len() as int)))
        } else {
            None
        },
        None => None,
    }
}

/// `hostname/projectid/projectname` split at its first two slashes; the
/// name keeps any further slash.
pub open spec fn split_gitlab(s: Seq<char>) -> Option<(Seq<char>, Seq<char>, Seq<char>)> {
    match find_from(s, '/', 0) {
        Some(k) => match find_from(s, '/', k + 1) {
            Some(m) => Some(
                (s.subrange(0, k), s.subrange(k + 1, m), s.subrange(m + 1, s.len() as int)),
            ),
            None => None,
        },
        None => None,
    }
}

fn find_char(s: &str, c: char, from: usize) -> (r: Option<usize>)
    ensures
        r matches Some(k) ==> find_from(s@, c, from as int) == Some(k as int) && from <= k
            < s@.len(),
        r is None ==> find_from(s@, c, from as int) is None,
{
    let n = s.unicode_len();
    let mut i = from;
    while i < n
        invariant
            n == s@.len(),
            from <= i,
            find_from(s@, c, from as int) == find_from(s@, c, i as int),
        decreases n - i,
    {
        if s.get_char(i) == c {
            return Some(i);
        }
        i = i + 1;
    }
    None
}

/// Splits `owner/repo` at its only slash.
pub fn parse_owner_repo(val: &str) -> (r: Result<(String, String), ArgsError>)
    ensures
        r is Ok <==> split_owner_repo(val@) is Some,
        r matches Ok((owner, repo)) ==> split_owner_repo(val@) == Some((owner@, repo@)),
        r matches Err(e) ==> e == ArgsError::NotOwnerRepo,
{
    let n = val.unicode_len();
    match find_char(val, '/', 0) {
        Some(k) => match find_char(val, '/', k + 1) {
            None => {
                let owner = String::from_str(val.substring_char(0, k));
                let repo = String::from_str(val.substring_char(k + 1, n));
                Ok((owner, repo))
            },
            Some(_) => Err(ArgsError::NotOwnerRepo),
        },
        None => Err(ArgsError::NotOwnerRepo),
    }
}

/// Splits `hostname/projectid/projectname` at its first two slashes.
pub fn parse_gitlab_project(val: &str) -> (r: Result<(String, String, String), ArgsError>)
    ensures
        r is Ok <==> split_gitlab(val@) is Some,
        r matches Ok((h, i, p)) ==> split_gitlab(val@) == Some((h@, i@, p@)),
        r matches Err(e) ==> e == ArgsError::NotGitLabProject,
{
    let n = val.unicode_len();
    match find_char(val, '/', 0) {
        Some(k) => match find_char(val, '/', k + 1) {
            Some(m) => {
                let host = String::from_str(val.substring_char(0, k));
                let id = String::from_str(val.substring_char(k + 1, m));
                let name = String::from_str(val.substring_char(m + 1, n));
                Ok((host, id, name))
            },
            None => Err(ArgsError::NotGitLabProject),
        },
        None => Err(ArgsError::NotGitLabProject),
    }
}

/// What refuses the flag `f` with value `v` (`None`: the value is missing).
pub open spec fn chunk_error(f: Seq<char>, v: Option<Seq<char>>) -> Option<ArgsError> {
    match v {
        None => Some(ArgsError::ArgumentMissing),
        Some(v) => if f == "-gh"@ || f == "-cb"@ {
            if split_owner_repo(v) is Some {
                None
            } else {
                Some(ArgsError::NotOwnerRepo)
            }
        } else if f == "-gl"@ {
            if split_gitlab(v) is Some {
                None
            } else {
                Some(ArgsError::NotGitLabProject)
            }
        } else if f == "-g"@ {
            None
        } else if f == "-c"@ {
            Some(ArgsError::ConfigCombined)
        } else {
            Some(ArgsError::UnknownArgument)
        },
    }
}

/// The first refusal among the flag/value pairs from position `j` on.
pub open spec fn first_error(a: Seq<Seq<char>>, j: int) -> Option<ArgsError>
    decreases a.len() - j,
{
    if j < 0 || j >= a.len() {
        None
    } else {
        let v = if j + 1 < a.len() {
            Some(a[j + 1])
        } else {
            None
        };
        match chunk_error(a[j], v) {
            Some(e) => Some(e),
            None => first_error(a, j + 2),
        }
    }
}

/// `src` is the source that flag `f` with value `v` describes.
pub open spec fn source_matches(src: Source, f: Seq<char>, v: Seq<char>, t: Tokens) -> bool {
    if f == "-gh"@ {
        src matches Source::GitHub(g) && split_owner_repo(v) == Some((g.owner@, g.repo@)) && g.pat
            == t.github
    } else if f == "-cb"@ {
        src matches Source::Codeberg(c) && split_owner_repo(v) == Some((c.owner@, c.repo@))
            && c.pat == t.codeberg
    } else if f == "-gl"@ {
        src matches Source::GitLab(g) && split_gitlab(v) == Some(
            (g.hostname@, g.project_id@, g.project_name@),
        ) && g.pat == t.gitlab
    } else if f == "-g"@ {
        src matches Source::Git(g) && g.path@ == v
    } else {
        false
    }
}

pub open spec fn arg_views(args: Seq<String>) -> Seq<Seq<char>> {
    args.map_values(|a: String| a@)
}

fn clone_token(t: &Option<String>) -> (r: Option<String>)
    ensures
        r == *t,
{
    match t {
        Some(s) => Some(s.clone()),
        None => None,
    }
}

/// The source that flag `f` with value `v` describes, or why it is refused.
fn parse_pair(f: &String, v: &String, tokens: &Tokens) -> (r: Result<Source, ArgsError>)
    ensures
        r matches Err(e) ==> chunk_error(f@, Some(v@)) == Some(e),
        r matches Ok(src) ==> chunk_error(f@, Some(v@)) is None && source_matches(
            src,
            f@,
            v@,
            *tokens,
        ),
        r is Err <==> chunk_error(f@, Some(v@)) is Some,
{
    if *f == String::from_str("-gh") {
        let (owner, repo) = parse_owner_repo(v.as_str())?;
        Ok(Source::GitHub(GitHubSource { owner, repo, pat: clone_token(&tokens.github) }))
    } else if *f == String::from_str("-cb") {
        let (owner, repo) = parse_owner_repo(v.as_str())?;
        Ok(Source::Codeberg(CodebergSource { owner, repo, pat: clone_token(&tokens.codeberg) }))
    } else if *f == String::from_str("-gl") {
        let (hostname, project_id, project_name) = parse_gitlab_project(v.as_str())?;
        Ok(
            Source::GitLab(
                GitLabSource { hostname, project_id, project_name, pat: clone_token(&tokens.gitlab) },
            ),
        )
    } else if *f == String::from_str("-g") {
        Ok(Source::Git(GitSource { path: v.clone() }))
    } else if *f == String::from_str("-c") {
        Err(ArgsError::ConfigCombined)
    } else {
        Err(ArgsError::UnknownArgument)
    }
}

/// Reads a command line (program name first). No argument means the usual
/// configuration file; `-c <file>` alone names another; otherwise the
/// arguments are flag/value pairs (`-g <path>`, `-gh <owner/repo>`,
/// `-cb <owner/repo>`, `-gl <hostname/projectid/projectname>`), each a
/// source in the order given, and the first pair that is refused decides
/// the error.
pub fn parse_args(args: &Vec<String>, tokens: &Tokens) -> (r: Result<Invocation, ArgsError>)
    ensures
        args@.len() <= 1 ==> r matches Ok(Invocation::DefaultConfig),
        args@.len() == 3 && args@[1]@ == "-c"@ ==> (r matches Ok(Invocation::ConfigFile(p))
            && p@ == args@[2]@),
        args@.len() > 1 && !(args@.len() == 3 && args@[1]@ == "-c"@) ==> {
            &&& r is Err <==> first_error(arg_views(args@), 1) is Some
            &&& r matches Err(e) ==> first_error(arg_views(args@), 1) == Some(e)
            &&& r matches Ok(Invocation::Sources(v)) ==> (v@.len() == (args@.len() - 1) / 2
                && forall|m: int|
                0 <= m < v@.len() ==> source_matches(
                    #[trigger] v@[m],
                    args@[1 + 2 * m]@,
                    args@[2 + 2 * m]@,
                    *tokens,
                ))
            &&& r is Ok ==> r matches Ok(Invocation::Sources(_))
        },
{
    let n = args.len();
    if n <= 1 {
        return Ok(Invocation::DefaultConfig);
    }
    if n == 3 && args[1] == String::from_str("-c") {
        return Ok(Invocation::ConfigFile(args[2].clone()));
    }
    let ghost a = arg_views(args@);
    let mut sources: Vec<Source> = Vec::new();
    let mut j: usize = 1;
    while j < n
        invariant
            n == args@.len(),
            n > 1,
            !(n == 3 && args@[1]@ == "-c"@),
            a == arg_views(args@),
            1 <= j,
            j == 1 + 2 * sources@.len(),
            j <= n,
            first_error(a, 1) == first_error(a, j as int),
            forall|m: int|
                0 <= m < sources@.len() ==> source_matches(
                    #[trigger] sources@[m],
                    args@[1 + 2 * m]@,
                    args@[2 + 2 * m]@,
                    *tokens,
                ),
        decreases n - j,
    {
        if j + 1 >= n {
            assert(first_error(a, j as int) == Some(ArgsError::ArgumentMissing));
            return Err(ArgsError::ArgumentMissing);
        }
        assert(a[j as int] == args@[j as int]@ && a[j + 1] == args@[j + 1]@);
        let src = parse_pair(&args[j], &args[j + 1], tokens)?;
        sources.push(src);
        j = j + 2;
    }
    assert(first_error(a, j as int) is None);
    Ok(Invocation::Sources(sources))
}

} // verus!
