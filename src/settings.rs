//! Turning the lists read from a configuration file into sources.
use crate::args::{parse_owner_repo, split_owner_repo, Tokens};
use crate::sources::{CodebergSource, GitHubSource, GitLabSource, GitSource, Source};
use vstd::prelude::*;

verus! {

/// A GitLab project as a configuration file lists it.
#[derive(Debug, Clone)]
pub struct GitLabEntry {
    pub hostname: String,
    pub project_id: String,
    pub project_name: String,
    pub pat: Option<String>,
}

/// The lists a configuration file holds, each possibly empty.
#[derive(Debug, Clone, Default)]
pub struct ConfigLists {
    /// Paths of local repositories.
    pub git: Vec<String>,
    /// `owner/repo` of GitHub repositories.
    pub github: Vec<String>,
    /// `owner/repo` of Codeberg repositories.
    pub codeberg: Vec<String>,
    pub gitlab: Vec<GitLabEntry>,
}

/// Why a configuration was refused.
#[derive(Debug, Clone, Copy, PartialEq, Eq, Structural)]
pub enum ConfigError {
    /// A GitHub or Codeberg entry is not `owner/repo`.
    NotOwnerRepo,
    /// The configuration names no source at all.
    NoSources,
}

/// Every entry of `s` is `owner/repo`.
pub open spec fn all_owner_repo(s: Seq<String>) -> bool {
    forall|i: int| 0 <= i < s.len() ==> (#[trigger] split_owner_repo(s[i]@)) is Some
}

/// `v[at + i]` is the GitHub (or, with `codeberg`, the Codeberg) source
/// of entry `i` of `s`, with access token `pat`.
pub open spec fn hosted_at(
    v: Seq<Source>,
    at: int,
    s: Seq<String>,
    codeberg: bool,
    pat: Option<String>,
) -> bool {
    forall|i: int|
        0 <= i < s.len() ==> match #[trigger] v[at + i] {
            Source::GitHub(g) => !codeberg && split_owner_repo(s[i]@) == Some((g.owner@, g.repo@))
                && g.pat == pat,
            Source::Codeberg(c) => codeberg && split_owner_repo(s[i]@) == Some((c.owner@, c.repo@))
                && c.pat == pat,
            _ => false,
        }
}

/// `v[at + i]` is the GitLab source of entry `i` of `s`: its token is the
/// one from `pat` where there is one, else the entry's own.
pub open spec fn gitlab_at(v: Seq<Source>, at: int, s: Seq<GitLabEntry>, pat: Option<String>) -> bool {
    forall|i: int|
        0 <= i < s.len() ==> match #[trigger] v[at + i] {
            Source::GitLab(g) => g.hostname == s[i].hostname && g.project_id == s[i].project_id
                && g.project_name == s[i].project_name && g.pat == (if pat is Some {
                pat
            } else {
                s[i].pat
            }),
            _ => false,
        }
}

fn clone_token(t: &Option<String>) -> (r: Option<String>)
    ensures
        r == *t,
{
    match t {
        Some(s) => Some(s.clone()),
        None => None,
    }
}

/// Appends the GitHub or Codeberg sources of the entries `s`.
fn push_hosted(out: &mut Vec<Source>, s: &Vec<String>, codeberg: bool, pat: &Option<String>) -> (r:
    Result<(), ConfigError>)
    ensures
        r is Ok <==> all_owner_repo(s@),
        r is Ok ==> final(out)@.len() == old(out)@.len() + s@.len() && final(out)@.subrange(
            0,
            old(out)@.len() as int,
        ) == old(out)@ && hosted_at(final(out)@, old(out)@.len() as int, s@, codeberg, *pat),
        r matches Err(e) ==> e == ConfigError::NotOwnerRepo,
{
    let ghost before = out@;
    let mut i: usize = 0;
    while i < s.len()
        invariant
            i <= s@.len(),
            out@.len() == before.len() + i,
            out@.subrange(0, before.len() as int) == before,
            forall|j: int| 0 <= j < i ==> (#[trigger] split_owner_repo(s@[j]@)) is Some,
            hosted_at(out@, before.len() as int, s@.subrange(0, i as int), codeberg, *pat),
        decreases s@.len() - i,
    {
        let (owner, repo) = match parse_owner_repo(s[i].as_str()) {
            Ok(pair) => pair,
            Err(_) => return Err(ConfigError::NotOwnerRepo),
        };
        let src = if codeberg {
            Source::Codeberg(CodebergSource { owner, repo, pat: clone_token(pat) })
        } else {
            Source::GitHub(GitHubSource { owner, repo, pat: clone_token(pat) })
        };
        let ghost prev = out@;
        out.push(src);
        proof {
            assert(out@.subrange(0, before.len() as int) =~= prev.subrange(0, before.len() as int));
            assert forall|j: int| 0 <= j < i + 1 implies match #[trigger] out@[before.len() + j] {
                Source::GitHub(g) => !codeberg && split_owner_repo(s@.subrange(0, i + 1)[j]@) == Some(
                    (g.owner@, g.repo@),
                ) && g.pat == *pat,
                Source::Codeberg(c) => codeberg && split_owner_repo(s@.subrange(0, i + 1)[j]@)
                    == Some((c.owner@, c.repo@)) && c.pat == *pat,
                _ => false,
            } by {
                if j < i {
                    assert(out@[before.len() + j] == prev[before.len() + j]);
                    assert(s@.subrange(0, i + 1)[j] == s@.subrange(0, i as int)[j]);
                }
            }
        }
        i = i + 1;
    }
    assert(s@.subrange(0, i as int) =~= s@);
    Ok(())
}

/// The sources a configuration names, in the order local repositories,
/// GitHub, Codeberg, GitLab, each list in its own order. GitHub and Codeberg
/// entries take the token of `tokens`; a GitLab entry takes that of `tokens`
/// where there is one, else its own. A GitHub or Codeberg entry that is not
/// `owner/repo` refuses the whole configuration, as does one without any
/// source.
pub fn sources_from_config(lists: &ConfigLists, tokens: &Tokens) -> (r: Result<
    Vec<Source>,
    ConfigError,
>)
    ensures
        r is Ok <==> all_owner_repo(lists.github@) && all_owner_repo(lists.codeberg@) && lists.git@.len()
            + lists.github@.len() + lists.codeberg@.len() + lists.gitlab@.len() > 0,
        r matches Err(e) ==> (e == ConfigError::NotOwnerRepo <==> !(all_owner_repo(lists.github@)
            && all_owner_repo(lists.codeberg@))),
        r matches Ok(v) ==> {
            let g = lists.git@.len() as int;
            let h = lists.github@.len() as int;
            let c = lists.codeberg@.len() as int;
            &&& v@.len() == g + h + c + lists.gitlab@.len()
            &&& forall|i: int|
                0 <= i < g ==> (#[trigger] v@[i] matches Source::Git(s) && s.path
                    == lists.git@[i])
            &&& hosted_at(v@, g, lists.github@, false, tokens.github)
            &&& hosted_at(v@, g + h, lists.codeberg@, true, tokens.codeberg)
            &&& gitlab_at(v@, g + h + c, lists.gitlab@, tokens.gitlab)
        },
{
    let mut out: Vec<Source> = Vec::new();
    let mut i: usize = 0;
    while i < lists.git.len()
        invariant
            i <= lists.git@.len(),
            out@.len() == i,
            forall|j: int|
                0 <= j < i ==> (#[trigger] out@[j] matches Source::Git(s) && s.path
                    == lists.git@[j]),
        decreases lists.git@.len() - i,
    {
        out.push(Source::Git(GitSource { path: lists.git[i].clone() }));
        i = i + 1;
    }
    let ghost after_git = out@;
    push_hosted(&mut out, &lists.github, false, &tokens.github)?;
    let ghost after_github = out@;
    assert(forall|j: int|
        0 <= j < after_git.len() ==> out@[j] == #[trigger] after_git[j]) by {
        assert forall|j: int| 0 <= j < after_git.len() implies out@[j] == #[trigger] after_git[j] by {
            assert(out@.subrange(0, after_git.len() as int)[j] == out@[j]);
        }
    }
    push_hosted(&mut out, &lists.codeberg, true, &tokens.codeberg)?;
    let ghost after_codeberg = out@;
    assert forall|j: int| 0 <= j < after_github.len() implies out@[j] == #[trigger] after_github[j] by {
        assert(out@.subrange(0, after_github.len() as int)[j] == out@[j]);
    }
    let mut k: usize = 0;
    while k < lists.gitlab.len()
        invariant
            k <= lists.gitlab@.len(),
            out@.len() == after_codeberg.len() + k,
            forall|j: int| 0 <= j < after_codeberg.len() ==> out@[j] == #[trigger] after_codeberg[j],
            gitlab_at(out@, after_codeberg.len() as int, lists.gitlab@.subrange(0, k as int), tokens.gitlab),
        decreases lists.gitlab@.len() - k,
    {
        let e = &lists.gitlab[k];
        let pat = if tokens.gitlab.is_some() {
            clone_token(&tokens.gitlab)
        } else {
            clone_token(&e.pat)
        };
        let ghost prev = out@;
        out.push(
            Source::GitLab(
                GitLabSource {
                    hostname: e.hostname.clone(),
                    project_id: e.project_id.clone(),
                    project_name: e.project_name.clone(),
                    pat,
                },
            ),
        );
        proof {
            assert forall|j: int| 0 <= j < k + 1 implies match #[trigger] out@[after_codeberg.len() + j] {
                Source::GitLab(g) => g.hostname == lists.gitlab@.subrange(0, k + 1)[j].hostname
                    && g.project_id == lists.gitlab@.subrange(0, k + 1)[j].project_id
                    && g.project_name == lists.gitlab@.subrange(0, k + 1)[j].project_name && g.pat == (
                if tokens.gitlab is Some {
                    tokens.gitlab
                } else {
                    lists.gitlab@.subrange(0, k + 1)[j].pat
                }),
                _ => false,
            } by {
                if j < k {
                    assert(out@[after_codeberg.len() + j] == prev[after_codeberg.len() + j]);
                    assert(lists.gitlab@.subrange(0, k + 1)[j] == lists.gitlab@.subrange(0, k as int)[j]);
                }
            }
        }
        k = k + 1;
    }
    assert(lists.gitlab@.subrange(0, k as int) =~= lists.gitlab@);
    proof {
        let g = lists.git@.len() as int;
        let h = lists.github@.len() as int;
        assert forall|j: int| 0 <= j < g implies #[trigger] out@[j] == after_git[j] by {
            assert(out@[j] == after_codeberg[j]);
            assert(after_codeberg[j] == after_github[j]);
        }
        assert forall|j: int| 0 <= j < h implies #[trigger] out@[g + j] == after_github[g + j] by {
            assert(out@[g + j] == after_codeberg[g + j]);
        }
        assert forall|j: int| 0 <= j < lists.codeberg@.len() implies #[trigger] out@[g + h + j]
            == after_codeberg[g + h + j] by {}
    }
    if out.len() == 0 {
        return Err(ConfigError::NoSources);
    }
    Ok(out)
}

} // verus!
