use ferriby::args::{parse_args, parse_owner_repo, ArgsError, Invocation, Tokens};
use ferriby::sources::{
    CodebergSource, ForgejoSource, GitHubSource, GitLabSource, GitSource, Source, SourceKind,
};

#[test]
fn github_display() {
    let source = Source::GitHub(GitHubSource {
        owner: "owner_name".into(),
        repo: "repo_name".into(),
        pat: None,
    });
    let s = source.label();
    assert_eq!("github: owner_name/repo_name", s);
}

#[test]
fn git_display() {
    let source = Source::Git(GitSource {
        path: "abc/cde/fgh".into(),
    });
    let s = source.label();
    assert_eq!("git: abc/cde/fgh", s);
}

#[test]
fn forgejo_display() {
    let source = Source::Forgejo(ForgejoSource {
        base_url: "http://localhost".into(),
        owner: "owner_name".into(),
        repo: "repo_name".into(),
        pat: None,
    });
    let s = source.label();
    assert_eq!("localhost: owner_name/repo_name", s);
}

#[test]
fn gitlab_and_codeberg_display() {
    let gl = Source::GitLab(GitLabSource {
        hostname: "gitlab.com".into(),
        project_id: "12345".into(),
        project_name: "proj1".into(),
        pat: None,
    });
    assert_eq!(gl.label(), "gitlab.com: proj1");
    let cb = Source::Codeberg(CodebergSource::default());
    assert_eq!(cb.label(), "codeberg: rust-lang/rust");
}

#[test]
fn defaults() {
    assert_eq!(GitSource::default().path, ".");
    let gh = GitHubSource::default();
    assert_eq!((gh.owner.as_str(), gh.repo.as_str(), gh.pat), ("rust-lang", "rust", None));
}

fn header<'a>(headers: &'a [(String, String)], name: &str) -> Option<&'a str> {
    headers.iter().find(|(n, _)| n == name).map(|(_, v)| v.as_str())
}

#[test]
fn github_request_with_token() {
    let source = Source::GitHub(GitHubSource {
        owner: "o".into(),
        repo: "r".into(),
        pat: Some("tok".into()),
    });
    let req = source.request().unwrap();
    assert_eq!(req.url, "https://api.github.com/repos/o/r/activity");
    assert_eq!(header(&req.headers, "User-Agent"), Some("ferriby"));
    assert_eq!(header(&req.headers, "Accept"), Some("application/vnd.github+json"));
    assert_eq!(header(&req.headers, "X-GitHub-Api-Version"), Some("2022-11-28"));
    assert_eq!(header(&req.headers, "Authorization"), Some("Bearer tok"));
    assert_eq!(req.headers.len(), 4);
}

#[test]
fn gitlab_request_without_token() {
    let source = Source::GitLab(GitLabSource {
        hostname: "gitlab.example.org".into(),
        project_id: "42".into(),
        project_name: "proj1".into(),
        pat: None,
    });
    let req = source.request().unwrap();
    assert_eq!(req.url, "https://gitlab.example.org/api/v4/projects/42/events");
    assert_eq!(header(&req.headers, "Accept"), Some("application/json"));
    assert_eq!(header(&req.headers, "PRIVATE-TOKEN"), None);
    assert_eq!(req.headers.len(), 2);
}

#[test]
fn codeberg_and_forgejo_requests() {
    let cb = Source::Codeberg(CodebergSource {
        owner: "o".into(),
        repo: "r".into(),
        pat: Some("t".into()),
    });
    let req = cb.request().unwrap();
    assert_eq!(req.url, "https://codeberg.org/api/v1/repos/o/r");
    assert_eq!(header(&req.headers, "Authorization"), Some("token t"));

    let fj = Source::Forgejo(ForgejoSource {
        base_url: "https://forge.example.org/".into(),
        owner: "o".into(),
        repo: "r".into(),
        pat: None,
    });
    let req = fj.request().unwrap();
    assert_eq!(req.url, "https://forge.example.org/api/v1/repos/o/r");
    assert_eq!(header(&req.headers, "Authorization"), None);
}

#[test]
fn local_source_makes_no_request() {
    let s = Source::Git(GitSource::default());
    assert!(s.request().is_none());
    assert_eq!(s.kind(), SourceKind::Git);
}

fn strings(v: &[&str]) -> Vec<String> {
    v.iter().map(|s| s.to_string()).collect()
}

#[test]
fn parse_args_returns_err_for_mutual_exclusive_args() {
    let args = strings(&["ferriby", "-gh", "owner1/repo1", "-f", "foo/config.json"]);
    let sources = parse_args(&args, &Tokens::default());

    assert!(sources.is_err());
}

#[test]
fn parse_args_returns_err_for_missing_arg() {
    let args = strings(&["ferriby", "-gh"]);
    let sources = parse_args(&args, &Tokens::default());
    assert!(sources.is_err());
}

#[test]
fn parse_args_returns_err_for_unknown_arg() {
    let args = strings(&["ferriby", "-xxx"]);
    let sources = parse_args(&args, &Tokens::default());
    assert!(sources.is_err());
}

#[test]
fn parse_args_returns_sources() {
    let args = strings(&[
        "ferriby",
        "-gh",
        "owner1/repo1",
        "-g",
        "dir1/repo2",
        "-cb",
        "owner2/repo3",
        "-gl",
        "gitlab.com/12345/proj1",
    ]);
    let sources = parse_args(&args, &Tokens::default());

    assert!(sources.is_ok());
    let sources = match sources.unwrap() {
        Invocation::Sources(s) => s,
        other => panic!("unexpected invocation {other:?}"),
    };
    assert_eq!(sources.len(), 4);

    if let Source::GitHub(GitHubSource { owner, repo, pat: _ }) = &sources[0] {
        assert_eq!(owner, "owner1");
        assert_eq!(repo, "repo1");
    } else {
        panic!("unexpected source");
    }

    if let Source::Git(GitSource { path }) = &sources[1] {
        assert_eq!(path, "dir1/repo2");
    } else {
        panic!("unexpected source");
    }

    if let Source::Codeberg(CodebergSource { owner, repo, pat: _ }) = &sources[2] {
        assert_eq!(owner, "owner2");
        assert_eq!(repo, "repo3");
    } else {
        panic!("unexpected source");
    }

    if let Source::GitLab(GitLabSource { hostname, project_id, project_name, pat: _ }) =
        &sources[3]
    {
        assert_eq!(hostname, "gitlab.com");
        assert_eq!(project_id, "12345");
        assert_eq!(project_name, "proj1");
    } else {
        panic!("unexpected source");
    }
}

#[test]
fn parse_args_errors_and_config_forms() {
    let t = Tokens::default();
    assert_eq!(parse_args(&strings(&["ferriby", "-gh", "a/b", "-c", "x"]), &t).unwrap_err(), ArgsError::ConfigCombined);
    assert_eq!(parse_args(&strings(&["ferriby", "-gh", "ab"]), &t).unwrap_err(), ArgsError::NotOwnerRepo);
    assert_eq!(parse_args(&strings(&["ferriby", "-gl", "host/id"]), &t).unwrap_err(), ArgsError::NotGitLabProject);
    assert_eq!(parse_args(&strings(&["ferriby", "-xxx"]), &t).unwrap_err(), ArgsError::ArgumentMissing);
    assert_eq!(parse_args(&strings(&["ferriby", "-xxx", "v"]), &t).unwrap_err(), ArgsError::UnknownArgument);
    assert!(matches!(parse_args(&strings(&["ferriby"]), &t), Ok(Invocation::DefaultConfig)));
    match parse_args(&strings(&["ferriby", "-c", "conf.json"]), &t) {
        Ok(Invocation::ConfigFile(p)) => assert_eq!(p, "conf.json"),
        other => panic!("unexpected {other:?}"),
    }
}

#[test]
fn parse_args_hands_tokens_to_hosted_sources() {
    let t = Tokens { github: Some("gh".into()), gitlab: None, codeberg: Some("cb".into()) };
    let args = strings(&["ferriby", "-gh", "a/b", "-cb", "c/d", "-gl", "h/1/n/with/slash"]);
    match parse_args(&args, &t) {
        Ok(Invocation::Sources(s)) => {
            assert!(matches!(&s[0], Source::GitHub(g) if g.pat.as_deref() == Some("gh")));
            assert!(matches!(&s[1], Source::Codeberg(c) if c.pat.as_deref() == Some("cb")));
            assert!(matches!(&s[2], Source::GitLab(g) if g.pat.is_none() && g.project_name == "n/with/slash"));
        }
        other => panic!("unexpected {other:?}"),
    }
}

#[test]
fn owner_repo_needs_exactly_one_slash() {
    assert_eq!(parse_owner_repo("a/b").unwrap(), ("a".to_string(), "b".to_string()));
    assert_eq!(parse_owner_repo("/b").unwrap(), ("".to_string(), "b".to_string()));
    assert!(parse_owner_repo("ab").is_err());
    assert!(parse_owner_repo("a/b/c").is_err());
}

#[test]
fn forgejo_joins_onto_the_base_path() {
    let fj = Source::Forgejo(ForgejoSource {
        base_url: "https://example.org/forgejo/".into(),
        owner: "o".into(),
        repo: "r".into(),
        pat: Some("t".into()),
    });
    let req = fj.request().unwrap();
    assert_eq!(req.url, "https://example.org/forgejo/api/v1/repos/o/r");
    assert_eq!(header(&req.headers, "Authorization"), Some("token t"));
    assert_eq!(fj.label(), "example.org: o/r");
}

#[test]
fn forgejo_base_that_is_no_url() {
    let fj = Source::Forgejo(ForgejoSource {
        base_url: "not a url".into(),
        owner: "o".into(),
        repo: "r".into(),
        pat: None,
    });
    assert!(fj.request().is_none());
    assert_eq!(fj.label(), "not a url: o/r");
}
