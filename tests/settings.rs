use ferriby::args::Tokens;
use ferriby::settings::{sources_from_config, ConfigError, ConfigLists, GitLabEntry};
use ferriby::sources::Source;

fn strings(v: &[&str]) -> Vec<String> {
    v.iter().map(|s| s.to_string()).collect()
}

#[test]
fn empty_lists_are_refused() {
    assert_eq!(
        sources_from_config(&ConfigLists::default(), &Tokens::default()).unwrap_err(),
        ConfigError::NoSources
    );
}

#[test]
fn lists_become_sources_in_order() {
    let lists = ConfigLists {
        git: strings(&["foo/bar/baz", "mi/mu/meh"]),
        github: strings(&["gh_owner1/gh_repo1", "gh_owner2/gh_repo2", "gh_owner3/gh_repo3"]),
        codeberg: strings(&["cb_owner1/cb_repo1", "cb_owner2/cb_repo2"]),
        gitlab: vec![GitLabEntry {
            hostname: "gitlab.example.org".into(),
            project_id: "42".into(),
            project_name: "proj1".into(),
            pat: Some("glpat-123".into()),
        }],
    };
    let sources = sources_from_config(&lists, &Tokens::default()).unwrap();
    assert_eq!(sources.len(), 8);
    assert!(matches!(&sources[0], Source::Git(g) if g.path == "foo/bar/baz"));
    assert!(matches!(&sources[3], Source::GitHub(gh) if gh.owner == "gh_owner2" && gh.repo == "gh_repo2"));
    assert!(matches!(&sources[5], Source::Codeberg(cb) if cb.owner == "cb_owner1" && cb.repo == "cb_repo1"));
    assert!(matches!(&sources[6], Source::Codeberg(cb) if cb.owner == "cb_owner2" && cb.repo == "cb_repo2"));
    assert!(matches!(&sources[7], Source::GitLab(gl)
        if gl.hostname == "gitlab.example.org" && gl.project_id == "42"
            && gl.project_name == "proj1" && gl.pat == Some("glpat-123".into())));
}

#[test]
fn environment_token_wins_for_gitlab() {
    let lists = ConfigLists {
        gitlab: vec![GitLabEntry {
            hostname: "h".into(),
            project_id: "1".into(),
            project_name: "n".into(),
            pat: Some("own".into()),
        }],
        ..ConfigLists::default()
    };
    let tokens = Tokens { gitlab: Some("env".into()), ..Tokens::default() };
    let sources = sources_from_config(&lists, &tokens).unwrap();
    assert!(matches!(&sources[0], Source::GitLab(gl) if gl.pat.as_deref() == Some("env")));
}

#[test]
fn malformed_owner_repo_is_refused() {
    let lists = ConfigLists { codeberg: strings(&["no-slash"]), ..ConfigLists::default() };
    assert_eq!(
        sources_from_config(&lists, &Tokens::default()).unwrap_err(),
        ConfigError::NotOwnerRepo
    );
}

