//! The kinds of source whose activity is watched: a local repository and
//! several hosting providers, with what each is asked and how its answer
//! is read.
use crate::calendar::Timestamp;
use crate::stamps::{instants_in, is_latest, latest, scan_instants, StampFormat};
use url::Url;
use vstd::prelude::*;
use vstd::string::StringSliceAdditionalSpecFns;

verus! {

/// The text of the URL that url's parser gives for `reference` resolved
/// against the base URL written as `base`; `None` where either cannot be
/// parsed.
pub uninterp spec fn joined_url(base: Seq<char>, reference: Seq<char>) -> Option<Seq<char>>;

/// The host part of the URL written as `url`, as url's parser reads it;
/// `None` where it cannot be parsed or has no host.
pub uninterp spec fn url_host(url: Seq<char>) -> Option<Seq<char>>;

/// Relies on url's `Url::join` (with `Url::parse` reading the base): the
/// result depends on the two texts alone.
#[verifier::external_body]
fn join_url(base: &str, reference: &str) -> (r: Option<String>)
    ensures
        r is Some <==> joined_url(base@, reference@) is Some,
        r matches Some(u) ==> joined_url(base@, reference@) == Some(u@),
{
    Url::parse(base).and_then(|b| b.join(reference)).ok().map(String::from)
}

/// Relies on url's `Url::host_str` (with `Url::parse` reading the URL): the
/// result depends on the text alone.
#[verifier::external_body]
fn host_of(url: &str) -> (r: Option<String>)
    ensures
        r is Some <==> url_host(url@) is Some,
        r matches Some(h) ==> url_host(url@) == Some(h@),
{
    Url::parse(url).ok().and_then(|u| u.host_str().map(String::from))
}

/// The closed set of source kinds; each has its own polling timer.
#[derive(Debug, Clone, Copy, PartialEq, Eq, Structural)]
pub enum SourceKind {
    Git,
    GitHub,
    GitLab,
    Codeberg,
    Forgejo,
}

/// A local repository.
#[derive(Debug, Clone, PartialEq)]
pub struct GitSource {
    pub path: String,
}

/// A repository on GitHub.
#[derive(Debug, Clone, PartialEq)]
pub struct GitHubSource {
    pub owner: String,
    pub repo: String,
    pub pat: Option<String>,
}

/// A project on a GitLab instance.
#[derive(Debug, Clone, PartialEq)]
pub struct GitLabSource {
    pub hostname: String,
    pub project_id: String,
    pub project_name: String,
    pub pat: Option<String>,
}

/// A repository on Codeberg.
#[derive(Debug, Clone, PartialEq)]
pub struct CodebergSource {
    pub owner: String,
    pub repo: String,
    pub pat: Option<String>,
}

/// A repository on a Forgejo instance.
#[derive(Debug, Clone, PartialEq)]
pub struct ForgejoSource {
    /// The instance's base URL, as written.
    pub base_url: String,
    pub owner: String,
    pub repo: String,
    pub pat: Option<String>,
}

/// One source to watch.
#[derive(Debug, Clone, PartialEq)]
pub enum Source {
    Git(GitSource),
    GitHub(GitHubSource),
    GitLab(GitLabSource),
    Codeberg(CodebergSource),
    Forgejo(ForgejoSource),
}

pub open spec fn kind_of(s: Source) -> SourceKind {
    match s {
        Source::Git(_) => SourceKind::Git,
        Source::GitHub(_) => SourceKind::GitHub,
        Source::GitLab(_) => SourceKind::GitLab,
        Source::Codeberg(_) => SourceKind::Codeberg,
        Source::Forgejo(_) => SourceKind::Forgejo,
    }
}

/// The access token of a hosted source.
pub open spec fn token_of(s: Source) -> Option<String> {
    match s {
        Source::Git(_) => None,
        Source::GitHub(g) => g.pat,
        Source::GitLab(g) => g.pat,
        Source::Codeberg(c) => c.pat,
        Source::Forgejo(f) => f.pat,
    }
}

impl Source {
    pub fn kind(&self) -> (r: SourceKind)
        ensures
            r == kind_of(*self),
    {
        match self {
            Source::Git(_) => SourceKind::Git,
            Source::GitHub(_) => SourceKind::GitHub,
            Source::GitLab(_) => SourceKind::GitLab,
            Source::Codeberg(_) => SourceKind::Codeberg,
            Source::Forgejo(_) => SourceKind::Forgejo,
        }
    }

    /// Whether an access token is configured.
    pub fn has_token(&self) -> (r: bool)
        ensures
            r == token_of(*self) is Some,
    {
        match self {
            Source::Git(_) => false,
            Source::GitHub(g) => g.pat.is_some(),
            Source::GitLab(g) => g.pat.is_some(),
            Source::Codeberg(c) => c.pat.is_some(),
            Source::Forgejo(f) => f.pat.is_some(),
        }
    }
}

/// Bytes of the JSON key under which a provider writes its timestamps.
pub open spec fn key_of(k: SourceKind) -> Seq<u8> {
    match k {
        // "timestamp"
        SourceKind::GitHub => seq![116u8, 105, 109, 101, 115, 116, 97, 109, 112],
        // "created_at"
        SourceKind::GitLab => seq![99u8, 114, 101, 97, 116, 101, 100, 95, 97, 116],
        // "updated_at"
        SourceKind::Codeberg | SourceKind::Forgejo => seq![
            117u8,
            112,
            100,
            97,
            116,
            101,
            100,
            95,
            97,
            116,
        ],
        SourceKind::Git => Seq::empty(),
    }
}

/// How a provider writes its timestamps.
pub open spec fn format_of(k: SourceKind) -> StampFormat {
    match k {
        SourceKind::GitHub => StampFormat::Zulu,
        SourceKind::GitLab => StampFormat::ZuluMillis,
        SourceKind::Codeberg => StampFormat::Offset,
        SourceKind::Forgejo => StampFormat::ZuluOrOffset,
        SourceKind::Git => StampFormat::Zulu,
    }
}

fn key_bytes(k: SourceKind) -> (r: Vec<u8>)
    ensures
        r@ == key_of(k),
{
    let r: Vec<u8> = match k {
        SourceKind::GitHub => vec![116u8, 105, 109, 101, 115, 116, 97, 109, 112],
        SourceKind::GitLab => vec![99u8, 114, 101, 97, 116, 101, 100, 95, 97, 116],
        SourceKind::Codeberg | SourceKind::Forgejo => vec![
            117u8,
            112,
            100,
            97,
            116,
            101,
            100,
            95,
            97,
            116,
        ],
        SourceKind::Git => Vec::new(),
    };
    assert(r@ =~= key_of(k));
    r
}

fn format_for(k: SourceKind) -> (r: StampFormat)
    ensures
        r == format_of(k),
{
    match k {
        SourceKind::GitHub => StampFormat::Zulu,
        SourceKind::GitLab => StampFormat::ZuluMillis,
        SourceKind::Codeberg => StampFormat::Offset,
        SourceKind::Forgejo => StampFormat::ZuluOrOffset,
        SourceKind::Git => StampFormat::Zulu,
    }
}

/// The instants in a response body of a provider of kind `k`, one for each
/// occurrence of its timestamp field, in the order they are written.
pub open spec fn response_instants(k: SourceKind, body: &str) -> Seq<Timestamp> {
    instants_in(body.spec_bytes(), key_of(k), format_of(k))
}

/// Every timestamp of a provider of kind `k` in `response`, as UTC instants.
pub fn timestamps_in(k: SourceKind, response: &str) -> (r: Vec<Timestamp>)
    ensures
        r@ == response_instants(k, response),
{
    let key = key_bytes(k);
    scan_instants(response.as_bytes(), key.as_slice(), format_for(k))
}

/// The latest timestamp of a provider of kind `k` in `response`, or `None`
/// where the body holds none.
pub fn last_activity_in(k: SourceKind, response: &str) -> (r: Option<Timestamp>)
    ensures
        r is None <==> response_instants(k, response).len() == 0,
        r matches Some(m) ==> is_latest(response_instants(k, response), m),
{
    let all = timestamps_in(k, response);
    latest(&all)
}

impl GitHubSource {
    /// The instants of the `"timestamp"` fields (`YYYY-MM-DDThh:mm:ssZ`).
    pub fn parse_timestamps(response: &str) -> (r: Vec<Timestamp>)
        ensures
            r@ == response_instants(SourceKind::GitHub, response),
    {
        timestamps_in(SourceKind::GitHub, response)
    }
}

impl GitLabSource {
    /// The instants of the `"created_at"` fields (`YYYY-MM-DDThh:mm:ss.fffZ`).
    pub fn parse_timestamps(response: &str) -> (r: Vec<Timestamp>)
        ensures
            r@ == response_instants(SourceKind::GitLab, response),
    {
        timestamps_in(SourceKind::GitLab, response)
    }
}

impl CodebergSource {
    /// The instants of the `"updated_at"` fields (`YYYY-MM-DDThh:mm:ss+hh:mm`).
    pub fn parse_timestamps(response: &str) -> (r: Vec<Timestamp>)
        ensures
            r@ == response_instants(SourceKind::Codeberg, response),
    {
        timestamps_in(SourceKind::Codeberg, response)
    }
}

impl ForgejoSource {
    /// The instants of the `"updated_at"` fields, written with `Z` or with
    /// a signed offset.
    pub fn parse_timestamps(response: &str) -> (r: Vec<Timestamp>)
        ensures
            r@ == response_instants(SourceKind::Forgejo, response),
    {
        timestamps_in(SourceKind::Forgejo, response)
    }
}

/// The host of a Forgejo source's base URL, or the whole URL where it has
/// no host.
pub open spec fn forgejo_host(f: ForgejoSource) -> Seq<char> {
    match url_host(f.base_url@) {
        Some(h) => h,
        None => f.base_url@,
    }
}

/// What a source is shown as: `git: <path>`, `github: <owner>/<repo>`,
/// `<hostname>: <project name>`, `codeberg: <owner>/<repo>`, and
/// `<host>: <owner>/<repo>` for Forgejo, with the host of its base URL (or
/// the whole URL where it has no host).
pub open spec fn label_of(s: Source) -> Seq<char> {
    match s {
        Source::Git(g) => "git: "@ + g.path@,
        Source::GitHub(g) => "github: "@ + g.owner@ + "/"@ + g.repo@,
        Source::GitLab(g) => g.hostname@ + ": "@ + g.project_name@,
        Source::Codeberg(c) => "codeberg: "@ + c.owner@ + "/"@ + c.repo@,
        Source::Forgejo(f) => forgejo_host(f) + ": "@ + f.owner@ + "/"@ + f.repo@,
    }
}

impl Source {
    /// The text a source is shown as.
    pub fn label(&self) -> (r: String)
        ensures
            r@ == label_of(*self),
    {
        match self {
            Source::Git(g) => {
                let mut r = String::from_str("git: ");
                r.append(g.path.as_str());
                r
            },
            Source::GitHub(g) => {
                let mut r = String::from_str("github: ");
                r.append(g.owner.as_str());
                r.append("/");
                r.append(g.repo.as_str());
                r
            },
            Source::GitLab(g) => {
                let mut r = g.hostname.clone();
                r.append(": ");
                r.append(g.project_name.as_str());
                r
            },
            Source::Codeberg(c) => {
                let mut r = String::from_str("codeberg: ");
                r.append(c.owner.as_str());
                r.append("/");
                r.append(c.repo.as_str());
                r
            },
            Source::Forgejo(f) => {
                let mut r = match host_of(f.base_url.as_str()) {
                    Some(h) => h,
                    None => f.base_url.clone(),
                };
                r.append(": ");
                r.append(f.owner.as_str());
                r.append("/");
                r.append(f.repo.as_str());
                r
            },
        }
    }
}

/// One GET request for a hosted source's recent activity: the URL and the
/// headers, as (name, value) pairs in the order they are sent.
#[derive(Debug)]
pub struct HostedRequest {
    pub url: String,
    pub headers: Vec<(String, String)>,
}

pub open spec fn headers_view(h: Seq<(String, String)>) -> Seq<(Seq<char>, Seq<char>)> {
    h.map_values(|p: (String, String)| (p.0@, p.1@))
}

/// The headers sent to a provider of kind `k`: an identifying user agent,
/// the media type asked for, and the token in the provider's scheme.
pub open spec fn request_headers(k: SourceKind, pat: Option<String>) -> Seq<
    (Seq<char>, Seq<char>),
> {
    let agent = seq![("User-Agent"@, "ferriby"@)];
    match k {
        SourceKind::GitHub => agent + seq![
            ("Accept"@, "application/vnd.github+json"@),
            ("X-GitHub-Api-Version"@, "2022-11-28"@),
        ] + match pat {
            Some(t) => seq![("Authorization"@, "Bearer "@ + t@)],
            None => Seq::empty(),
        },
        SourceKind::GitLab => agent + seq![("Accept"@, "application/json"@)] + match pat {
            Some(t) => seq![("PRIVATE-TOKEN"@, t@)],
            None => Seq::empty(),
        },
        _ => agent + seq![("Accept"@, "application/json"@)] + match pat {
            Some(t) => seq![("Authorization"@, "token "@ + t@)],
            None => Seq::empty(),
        },
    }
}

/// The URL asked for a hosted source, for the kinds whose URL is written
/// out whole.
pub open spec fn url_of(s: Source) -> Seq<char> {
    match s {
        Source::GitHub(g) => "https://api.github.com/repos/"@ + g.owner@ + "/"@ + g.repo@
            + "/activity"@,
        Source::GitLab(g) => "https://"@ + g.hostname@ + "/api/v4/projects/"@ + g.project_id@
            + "/events"@,
        Source::Codeberg(c) => "https://codeberg.org/api/v1/repos/"@ + c.owner@ + "/"@
            + c.repo@,
        _ => Seq::empty(),
    }
}

/// The path, relative to a Forgejo instance's base URL, that is asked for.
pub open spec fn forgejo_path(f: ForgejoSource) -> Seq<char> {
    "api/v1/repos/"@ + f.owner@ + "/"@ + f.repo@
}

/// The URL a source is asked at: none for a local repository, the base URL
/// joined with `forgejo_path` for Forgejo (where they join), else `url_of`.
pub open spec fn request_url(s: Source) -> Option<Seq<char>> {
    match s {
        Source::Git(_) => None,
        Source::Forgejo(f) => joined_url(f.base_url@, forgejo_path(f)),
        _ => Some(url_of(s)),
    }
}

fn forgejo_path_of(f: &ForgejoSource) -> (r: String)
    ensures
        r@ == forgejo_path(*f),
{
    let mut path = String::from_str("api/v1/repos/");
    path.append(f.owner.as_str());
    path.append("/");
    path.append(f.repo.as_str());
    path
}

fn push_header(v: &mut Vec<(String, String)>, name: &str, value: String)
    ensures
        headers_view(final(v)@) == headers_view(old(v)@).push((name@, value@)),
{
    let ghost before = v@;
    v.push((String::from_str(name), value));
    assert(headers_view(v@) =~= headers_view(before).push((name@, value@)));
}

fn headers_for(k: SourceKind, pat: &Option<String>) -> (r: Vec<(String, String)>)
    ensures
        headers_view(r@) == request_headers(k, *pat),
{
    let mut r: Vec<(String, String)> = Vec::new();
    push_header(&mut r, "User-Agent", String::from_str("ferriby"));
    match k {
        SourceKind::GitHub => {
            push_header(&mut r, "Accept", String::from_str("application/vnd.github+json"));
            push_header(&mut r, "X-GitHub-Api-Version", String::from_str("2022-11-28"));
            if let Some(t) = pat {
                let mut value = String::from_str("Bearer ");
                value.append(t.as_str());
                push_header(&mut r, "Authorization", value);
            }
        },
        SourceKind::GitLab => {
            push_header(&mut r, "Accept", String::from_str("application/json"));
            if let Some(t) = pat {
                push_header(&mut r, "PRIVATE-TOKEN", t.clone());
            }
        },
        _ => {
            push_header(&mut r, "Accept", String::from_str("application/json"));
            if let Some(t) = pat {
                let mut value = String::from_str("token ");
                value.append(t.as_str());
                push_header(&mut r, "Authorization", value);
            }
        },
    }
    assert(headers_view(r@) =~= request_headers(k, *pat));
    r
}

impl Source {
    /// The request that asks a hosted source for its recent activity; `None`
    /// for a local repository, and for a Forgejo source whose base URL the
    /// path cannot be joined to.
    pub fn request(&self) -> (r: Option<HostedRequest>)
        ensures
            r is Some <==> request_url(*self) is Some,
            r matches Some(q) ==> request_url(*self) == Some(q.url@) && headers_view(q.headers@)
                == request_headers(kind_of(*self), token_of(*self)),
    {
        match self {
            Source::Git(_) => None,
            Source::GitHub(g) => {
                let mut url = String::from_str("https://api.github.com/repos/");
                url.append(g.owner.as_str());
                url.append("/");
                url.append(g.repo.as_str());
                url.append("/activity");
                Some(HostedRequest { url, headers: headers_for(SourceKind::GitHub, &g.pat) })
            },
            Source::GitLab(g) => {
                let mut url = String::from_str("https://");
                url.append(g.hostname.as_str());
                url.append("/api/v4/projects/");
                url.append(g.project_id.as_str());
                url.append("/events");
                Some(HostedRequest { url, headers: headers_for(SourceKind::GitLab, &g.pat) })
            },
            Source::Codeberg(c) => {
                let mut url = String::from_str("https://codeberg.org/api/v1/repos/");
                url.append(c.owner.as_str());
                url.append("/");
                url.append(c.repo.as_str());
                Some(HostedRequest { url, headers: headers_for(SourceKind::Codeberg, &c.pat) })
            },
            Source::Forgejo(f) => {
                let path = forgejo_path_of(f);
                match join_url(f.base_url.as_str(), path.as_str()) {
                    Some(url) => Some(
                        HostedRequest { url, headers: headers_for(SourceKind::Forgejo, &f.pat) },
                    ),
                    None => None,
                }
            },
        }
    }
}

impl Default for GitSource {
    /// The repository in the working directory.
    fn default() -> (r: GitSource)
        ensures
            r.path@ == "."@,
    {
        GitSource { path: String::from_str(".") }
    }
}

impl Default for GitHubSource {
    /// `rust-lang/rust`, without a token.
    fn default() -> (r: GitHubSource)
        ensures
            r.owner@ == "rust-lang"@,
            r.repo@ == "rust"@,
            r.pat is None,
    {
        GitHubSource { owner: String::from_str("rust-lang"), repo: String::from_str("rust"), pat: None }
    }
}

impl Default for CodebergSource {
    /// `rust-lang/rust`, without a token.
    fn default() -> (r: CodebergSource)
        ensures
            r.owner@ == "rust-lang"@,
            r.repo@ == "rust"@,
            r.pat is None,
    {
        CodebergSource {
            owner: String::from_str("rust-lang"),
            repo: String::from_str("rust"),
            pat: None,
        }
    }
}

} // verus!
