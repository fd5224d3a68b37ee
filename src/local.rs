//! The latest activity of a local repository: the newest commit time among
//! the tips of its local branches.
use crate::calendar::Timestamp;
use crate::sources::GitSource;
use crate::stamps::{is_latest, latest};
use git2::{Branch, BranchType, Branches, Commit, Error, Oid, Reference, Repository, RepositoryOpenFlags};
use vstd::prelude::*;

verus! {

// git2's handles, carried through opaquely: nothing is read inside them.
#[verifier::external_type_specification]
#[verifier::external_body]
pub struct ExRepository(Repository);

#[verifier::external_type_specification]
#[verifier::external_body]
pub struct ExError(Error);

#[verifier::external_type_specification]
#[verifier::external_body]
pub struct ExBranches<'repo>(Branches<'repo>);

#[verifier::external_type_specification]
#[verifier::external_body]
pub struct ExBranch<'repo>(Branch<'repo>);

#[verifier::external_type_specification]
#[verifier::external_body]
pub struct ExReference<'repo>(Reference<'repo>);

#[verifier::external_type_specification]
#[verifier::external_body]
pub struct ExCommit<'repo>(Commit<'repo>);

#[verifier::external_type_specification]
#[verifier::external_body]
pub struct ExOid(Oid);

#[verifier::external_type_specification]
#[verifier::external_body]
pub struct ExBranchType(BranchType);

/// Why the latest activity of a local repository could not be read. Each is
/// a setup problem rather than a passing one.
#[derive(Debug)]
pub enum LocalRepoError {
    /// No repository could be opened at the path.
    Open(Error),
    /// The local branches could not be listed.
    Branches(Error),
    /// A branch's reference could not be found.
    Reference(Error),
    /// A branch's reference points at no object directly.
    NoTarget,
    /// A branch's tip commit could not be found.
    Commit(Error),
}

/// Relies on git2's `Repository::open_ext` with `CROSS_FS` and no ceiling
/// directories: opens the repository at or above `path`.
#[verifier::external_body]
fn open_repository(path: &str) -> (r: Result<Repository, Error>) {
    Repository::open_ext(path, RepositoryOpenFlags::CROSS_FS, Vec::<String>::new())
}

/// Relies on git2's `Repository::branches`, asked for local branches only.
#[verifier::external_body]
fn local_branches<'repo>(repo: &'repo Repository) -> (r: Result<Branches<'repo>, Error>) {
    repo.branches(Some(BranchType::Local))
}

/// Relies on git2's `Iterator` for `Branches`: the next branch, or its error;
/// the branch type that comes with it is dropped.
#[verifier::external_body]
fn next_branch<'repo>(it: &mut Branches<'repo>) -> (r: Option<Result<Branch<'repo>, Error>>) {
    it.next().map(|item| item.map(|pair| pair.0))
}

/// Relies on git2's `Branch::name`: the name, `None` where it is no UTF-8.
#[verifier::external_body]
fn branch_name(b: &Branch) -> (r: Result<Option<String>, Error>) {
    b.name().map(|n| n.map(String::from))
}

/// Relies on git2's `Repository::find_reference`.
#[verifier::external_body]
fn find_reference<'repo>(repo: &'repo Repository, name: &str) -> (r: Result<
    Reference<'repo>,
    Error,
>) {
    repo.find_reference(name)
}

/// Relies on git2's `Reference::target`: the object a direct reference names.
#[verifier::external_body]
fn reference_target(r: &Reference) -> (t: Option<Oid>) {
    r.target()
}

/// Relies on git2's `Repository::find_commit`.
#[verifier::external_body]
fn find_commit<'repo>(repo: &'repo Repository, oid: Oid) -> (r: Result<Commit<'repo>, Error>) {
    repo.find_commit(oid)
}

/// Relies on git2's `Commit::time`, read as seconds since the epoch by
/// `Time::seconds`.
#[verifier::external_body]
fn commit_seconds(c: &Commit) -> (r: Timestamp) {
    c.time().seconds()
}

/// What was read of a local repository: the commit time of each local
/// branch's tip, in the order the branches were listed, and the latest of
/// them.
#[derive(Debug)]
pub struct LocalActivity {
    pub tips: Vec<Timestamp>,
    pub latest: Option<Timestamp>,
}

/// `a.latest` is the latest of `a.tips`, and `None` exactly where there is
/// no tip.
pub open spec fn reports(a: LocalActivity) -> bool {
    &&& (a.latest is None <==> a.tips@.len() == 0)
    &&& (a.latest matches Some(m) ==> is_latest(a.tips@, m))
}

/// The names that could be read, in order.
pub open spec fn kept_names(s: Seq<Option<String>>) -> Seq<String>
    decreases s.len(),
{
    if s.len() == 0 {
        Seq::empty()
    } else {
        kept_names(s.drop_last()) + match s.last() {
            Some(n) => seq![n],
            None => Seq::empty(),
        }
    }
}

/// The names of the listed branches, skipping those whose name could not be
/// read (`None`).
pub fn readable_names(items: &Vec<Option<String>>) -> (r: Vec<String>)
    ensures
        r@ == kept_names(items@),
{
    let mut out: Vec<String> = Vec::new();
    let mut i: usize = 0;
    while i < items.len()
        invariant
            i <= items@.len(),
            out@ == kept_names(items@.subrange(0, i as int)),
        decreases items@.len() - i,
    {
        assert(items@.subrange(0, i + 1).drop_last() =~= items@.subrange(0, i as int));
        match &items[i] {
            Some(n) => {
                out.push(n.clone());
                assert(out@ =~= kept_names(items@.subrange(0, i + 1)));
            },
            None => {
                assert(out@ =~= kept_names(items@.subrange(0, i + 1)));
            },
        }
        i = i + 1;
    }
    assert(items@.subrange(0, i as int) =~= items@);
    out
}

/// The position of the first failed tip at or after `i`.
pub open spec fn first_failure(s: Seq<Result<Timestamp, LocalRepoError>>, i: int) -> Option<int>
    decreases s.len() - i,
{
    if i < 0 || i >= s.len() {
        None
    } else if s[i] is Err {
        Some(i)
    } else {
        first_failure(s, i + 1)
    }
}

/// The times of the tips that were read.
pub open spec fn tip_times(s: Seq<Result<Timestamp, LocalRepoError>>) -> Seq<Timestamp> {
    s.map_values(
        |x: Result<Timestamp, LocalRepoError>|
            match x {
                Ok(t) => t,
                Err(_) => 0,
            },
    )
}

/// Combines the outcomes of reading each branch's tip, in listing order: the
/// first failure is the result; otherwise the tip times and their latest.
pub fn combine_tips(outcomes: Vec<Result<Timestamp, LocalRepoError>>) -> (r: Result<
    LocalActivity,
    LocalRepoError,
>)
    ensures
        match first_failure(outcomes@, 0) {
            Some(k) => r == Err::<LocalActivity, LocalRepoError>(outcomes@[k]->Err_0),
            None => r matches Ok(a) && a.tips@ == tip_times(outcomes@) && reports(a),
        },
{
    let mut tips = outcomes;
    let ghost given = tips@;
    let mut i: usize = 0;
    while i < tips.len()
        invariant
            tips@ == given,
            given == outcomes@,
            i <= given.len(),
            first_failure(given, 0) == first_failure(given, i as int),
        decreases given.len() - i,
    {
        if tips[i].is_err() {
            assert(first_failure(given, i as int) == Some(i as int));
            let failed = tips.remove(i);
            match failed {
                Err(e) => {
                    assert(failed == given[i as int]);
                    assert(e == given[i as int]->Err_0);
                    return Err(e);
                },
                Ok(_) => {
                    assert(false);
                    return Ok(LocalActivity { tips: Vec::new(), latest: None });
                },
            }
        }
        i = i + 1;
    }
    let mut times: Vec<Timestamp> = Vec::new();
    let mut j: usize = 0;
    while j < tips.len()
        invariant
            tips@ == given,
            j <= given.len(),
            first_failure(given, j as int) is None,
            times@ == tip_times(given).subrange(0, j as int),
        decreases given.len() - j,
    {
        match &tips[j] {
            Ok(t) => {
                times.push(*t);
            },
            Err(_) => {},
        }
        assert(times@ =~= tip_times(given).subrange(0, j + 1));
        j = j + 1;
    }
    assert(times@ =~= tip_times(given));
    let latest = latest(&times);
    Ok(LocalActivity { tips: times, latest })
}

/// The reference name of local branch `name`.
pub fn branch_ref_name(name: &str) -> (r: String)
    ensures
        r@ == "refs/heads/"@ + name@,
{
    let mut full = String::from_str("refs/heads/");
    full.append(name);
    full
}

fn tip_after_commit(found: Result<Commit, Error>) -> (r: Result<Timestamp, LocalRepoError>)
    ensures
        found is Err ==> r == Err::<Timestamp, LocalRepoError>(
            LocalRepoError::Commit(found->Err_0),
        ),
        found is Ok ==> r is Ok,
{
    match found {
        Ok(c) => Ok(commit_seconds(&c)),
        Err(e) => Err(LocalRepoError::Commit(e)),
    }
}

fn tip_after_target(repo: &Repository, target: Option<Oid>) -> (r: Result<Timestamp, LocalRepoError>)
    ensures
        target is None ==> r == Err::<Timestamp, LocalRepoError>(LocalRepoError::NoTarget),
        r matches Err(e) ==> e is NoTarget || e is Commit,
{
    match target {
        None => Err(LocalRepoError::NoTarget),
        Some(oid) => tip_after_commit(find_commit(repo, oid)),
    }
}

fn tip_after_reference(repo: &Repository, found: Result<Reference, Error>) -> (r: Result<
    Timestamp,
    LocalRepoError,
>)
    ensures
        found is Err ==> r == Err::<Timestamp, LocalRepoError>(
            LocalRepoError::Reference(found->Err_0),
        ),
        r matches Err(e) ==> e is Reference || e is NoTarget || e is Commit,
{
    match found {
        Err(e) => Err(LocalRepoError::Reference(e)),
        Ok(reference) => tip_after_target(repo, reference_target(&reference)),
    }
}

/// The commit time of the tip of local branch `name`, looked up as
/// `refs/heads/<name>`.
fn tip_of(repo: &Repository, name: &str) -> (r: Result<Timestamp, LocalRepoError>)
    ensures
        r matches Err(e) ==> e is Reference || e is NoTarget || e is Commit,
{
    let full = branch_ref_name(name);
    tip_after_reference(repo, find_reference(repo, full.as_str()))
}

/// Goes on once the local branches were listed (or failed to be): a failed
/// listing is an error; otherwise every branch whose name can be read is
/// resolved, and the first that fails to resolve is the error.
pub fn activity_after_listing(repo: &Repository, listing: Result<Branches, Error>) -> (r: Result<
    LocalActivity,
    LocalRepoError,
>)
    ensures
        listing is Err ==> r == Err::<LocalActivity, LocalRepoError>(
            LocalRepoError::Branches(listing->Err_0),
        ),
        r matches Ok(a) ==> reports(a),
{
    let mut it = match listing {
        Ok(it) => it,
        Err(e) => return Err(LocalRepoError::Branches(e)),
    };
    let mut items: Vec<Option<String>> = Vec::new();
    let mut seen: usize = 0;
    while seen < usize::MAX
        decreases usize::MAX - seen,
    {
        match next_branch(&mut it) {
            None => break,
            Some(Ok(b)) => match branch_name(&b) {
                Ok(Some(name)) => items.push(Some(name)),
                _ => items.push(None),
            },
            Some(Err(_)) => items.push(None),
        }
        seen = seen + 1;
    }
    let names = readable_names(&items);
    let mut tips: Vec<Result<Timestamp, LocalRepoError>> = Vec::new();
    let mut i: usize = 0;
    while i < names.len()
        invariant
            i <= names@.len(),
        decreases names@.len() - i,
    {
        tips.push(tip_of(repo, names[i].as_str()));
        i = i + 1;
    }
    combine_tips(tips)
}

/// Goes on once the repository was opened (or failed to be): a failed open
/// is an error.
pub fn activity_after_open(opened: Result<Repository, Error>) -> (r: Result<
    LocalActivity,
    LocalRepoError,
>)
    ensures
        opened is Err ==> r == Err::<LocalActivity, LocalRepoError>(
            LocalRepoError::Open(opened->Err_0),
        ),
        r matches Ok(a) ==> reports(a),
{
    match opened {
        Err(e) => Err(LocalRepoError::Open(e)),
        Ok(repo) => activity_after_listing(&repo, local_branches(&repo)),
    }
}

/// The tip commit times of the local branches of the repository at
/// `source.path` and the newest of them (`None` where it has no local
/// branch). Failing to open the repository, to list its branches or to
/// resolve a branch is an error, never an empty result.
pub fn get_last_event(source: GitSource) -> (r: Result<LocalActivity, LocalRepoError>)
    ensures
        r matches Ok(a) ==> reports(a),
{
    activity_after_open(open_repository(source.path.as_str()))
}

} // verus!
