//! Read-only queries against a repository: bounded snapshots of its commit
//! history and of its branches, as plain records.
//!
//! What a repository holds is not known to the verifier. Each query
//! therefore has two parts: a walk that asks the repository and gathers
//! what it hands out, and a projection from what was gathered to records
//! (see [`crate::record`]), whose result is stated exactly.

use crate::record::{
    branch_records, branches_of, history, history_of, is_object_id, is_short_hash,
    lemma_history_short_hashes, BranchRecord, CommitRecord, RawCommit, RawCommitView,
};
use crate::section::BranchKind;
use vstd::prelude::*;

verus! {

/// The number of commits that [`commits`] shows where no bound is given.
pub const DEFAULT_COMMIT_LIMIT: usize = 20;

/// The number of entries that [`reflog`] shows where no bound is given.
pub const DEFAULT_REFLOG_LIMIT: usize = 100;

/// `git2::Repository`, a handle to an open repository. Nothing of its
/// contents is visible to the verifier.
#[verifier::external_type_specification]
#[verifier::external_body]
pub struct ExRepository(git2::Repository);

/// `git2::Error`, carried from a failed call to where it is dropped or
/// turned into a [`QueryError`].
#[verifier::external_type_specification]
#[verifier::external_body]
pub struct ExError(git2::Error);

/// `git2::Oid`, an object identifier, carried from the call that yields it
/// to the call that takes it.
#[verifier::external_type_specification]
#[verifier::external_body]
pub struct ExOid(git2::Oid);

/// `git2::Reference`, here the reference that HEAD resolves to.
#[verifier::external_type_specification]
#[verifier::external_body]
pub struct ExReference<'repo>(git2::Reference<'repo>);

/// `git2::Revwalk`, a traversal of the commit graph.
#[verifier::external_type_specification]
#[verifier::external_body]
pub struct ExRevwalk<'repo>(git2::Revwalk<'repo>);

/// `git2::Commit`, a commit object that was looked up.
#[verifier::external_type_specification]
#[verifier::external_body]
pub struct ExCommit<'repo>(git2::Commit<'repo>);

/// `git2::Signature`, here the author of a commit.
#[verifier::external_type_specification]
#[verifier::external_body]
pub struct ExSignature<'a>(git2::Signature<'a>);

/// `git2::Branches`, an iterator over the branches of a repository.
#[verifier::external_type_specification]
#[verifier::external_body]
pub struct ExBranches<'repo>(git2::Branches<'repo>);

/// `git2::BranchType`, the kind that a listing yields with each branch.
/// The library's own [`BranchKind`] stands for it everywhere else.
#[verifier::external_type_specification]
#[verifier::external_body]
pub struct ExBranchType(git2::BranchType);

/// `git2::Branch`, one branch of a listing.
#[verifier::external_type_specification]
#[verifier::external_body]
pub struct ExBranch<'repo>(git2::Branch<'repo>);

/// `git2::Statuses`, the status entries of a working tree.
#[verifier::external_type_specification]
#[verifier::external_body]
pub struct ExStatuses<'repo>(git2::Statuses<'repo>);

/// `git2::Repository::head` resolves HEAD to a reference, or fails, as it
/// does in a repository without commits. Nothing is claimed of the outcome.
pub assume_specification<'a>[ git2::Repository::head ](repo: &'a git2::Repository) -> Result<
    git2::Reference<'a>,
    git2::Error,
>;

/// `git2::Repository::revwalk` creates a traversal of the commit graph, or
/// fails. Nothing is claimed of the outcome.
pub assume_specification<'a>[ git2::Repository::revwalk ](repo: &'a git2::Repository) -> Result<
    git2::Revwalk<'a>,
    git2::Error,
>;

/// `git2::Repository::find_commit` looks a commit up by its identifier, or
/// fails. Nothing is claimed of the outcome.
pub assume_specification<'a>[ git2::Repository::find_commit ](
    repo: &'a git2::Repository,
    oid: git2::Oid,
) -> Result<git2::Commit<'a>, git2::Error>;

/// `git2::Reference::target` gives the identifier that a direct reference
/// points to, and `None` for a symbolic one. Nothing is claimed of the
/// outcome.
pub assume_specification<'repo>[ git2::Reference::<'repo>::target ](
    reference: &git2::Reference<'repo>,
) -> Option<git2::Oid>;

/// `git2::Revwalk::push` marks a commit as a starting point of the
/// traversal, or fails. Nothing is claimed of the outcome.
pub assume_specification<'repo>[ git2::Revwalk::<'repo>::push ](
    walk: &mut git2::Revwalk<'repo>,
    oid: git2::Oid,
) -> Result<(), git2::Error>;

/// `git2::Commit::id` gives the identifier of a commit. Nothing is claimed
/// of it.
pub assume_specification<'repo>[ git2::Commit::<'repo>::id ](
    commit: &git2::Commit<'repo>,
) -> git2::Oid;

/// `git2::Commit::author` gives the author's signature of a commit. Nothing
/// is claimed of it.
pub assume_specification<'repo, 'a>[ git2::Commit::<'repo>::author ](
    commit: &'a git2::Commit<'repo>,
) -> git2::Signature<'a>;

/// `git2::Commit::summary` gives the first paragraph of the commit message
/// on one line, and `None` where there is none or it is not UTF-8. Nothing
/// is claimed of the outcome.
pub assume_specification<'repo, 'a>[ git2::Commit::<'repo>::summary ](
    commit: &'a git2::Commit<'repo>,
) -> Option<&'a str>;

/// `git2::Signature::name` gives the name of a signature, and `None` where
/// it is not UTF-8. Nothing is claimed of the outcome.
pub assume_specification<'s, 'a>[ git2::Signature::<'s>::name ](
    signature: &'a git2::Signature<'s>,
) -> Option<&'a str>;

/// `git2::Branch::name` gives the name of a branch, `Ok(None)` where it is
/// not UTF-8, and an error where it cannot be read. Nothing is claimed of
/// the outcome.
pub assume_specification<'repo, 'a>[ git2::Branch::<'repo>::name ](
    branch: &'a git2::Branch<'repo>,
) -> Result<Option<&'a str>, git2::Error>;

/// `git2::Error::message` gives the text of an error. Nothing is claimed of
/// it.
pub assume_specification<'a>[ git2::Error::message ](error: &'a git2::Error) -> &'a str;

/// `git2::Revwalk::set_sorting` with `git2::Sort::TIME`: asks the traversal
/// to yield commits by commit time, newest first. Nothing is claimed of the
/// outcome.
#[verifier::external_body]
fn sort_by_time(walk: &mut git2::Revwalk<'_>) -> Result<(), git2::Error> {
    walk.set_sorting(git2::Sort::TIME)
}

/// `Iterator::next` of `git2::Revwalk`: the identifier of the next commit
/// of the traversal, an error, or `None` when the traversal is over.
/// Nothing is claimed of the outcome.
#[verifier::external_body]
fn next_commit_id(walk: &mut git2::Revwalk<'_>) -> Option<Result<git2::Oid, git2::Error>> {
    walk.next()
}

/// `Display` of `git2::Oid`, through `to_string`: the identifier in
/// hexadecimal. The contract claims its form, forty lower-case digits, not
/// which digits they are.
#[verifier::external_body]
fn oid_hex(oid: &git2::Oid) -> (hex: String)
    ensures
        is_object_id(hex@),
{
    oid.to_string()
}

/// `git2::Repository::branches`: an iterator over the branches of one kind,
/// or an error. Nothing is claimed of the outcome.
#[verifier::external_body]
fn open_branches<'a>(repo: &'a git2::Repository, kind: BranchKind) -> Result<
    git2::Branches<'a>,
    git2::Error,
> {
    repo.branches(
        Some(
            match kind {
                BranchKind::Local => git2::BranchType::Local,
                BranchKind::Remote => git2::BranchType::Remote,
            },
        ),
    )
}

/// `Iterator::next` of `git2::Branches`: the next branch of the listing, an
/// error, or `None` when the listing is over. The kind that comes with each
/// branch is dropped. Nothing is claimed of the outcome.
#[verifier::external_body]
fn next_branch<'a>(listing: &mut git2::Branches<'a>) -> Option<
    Result<git2::Branch<'a>, git2::Error>,
> {
    listing.next().map(|step| step.map(|(branch, _)| branch))
}

/// `git2::Repository::statuses` without options: the status entries of the
/// working tree, or an error. Nothing is claimed of the outcome.
#[verifier::external_body]
fn read_statuses<'a>(repo: &'a git2::Repository) -> Result<git2::Statuses<'a>, git2::Error> {
    repo.statuses(None)
}

/// Why a query that reports its failure failed.
#[derive(Clone, Debug)]
pub struct QueryError {
    pub message: String,
}

impl QueryError {
    /// The failure that `message` describes.
    pub fn from_message(message: &str) -> (error: QueryError)
        ensures
            error.message@ == message@,
    {
        QueryError { message: message.to_owned() }
    }
}

/// The text that the repository gave, where it gave text.
pub open spec fn text_of(text: Option<&str>) -> Option<Seq<char>> {
    match text {
        Some(text) => Some(text@),
        None => None,
    }
}

/// The name that a branch gave: its text where the name could be read and
/// is text, and nothing where reading it failed or it is not text.
pub open spec fn name_of(outcome: Result<Option<&str>, git2::Error>) -> Option<Seq<char>> {
    match outcome {
        Ok(text) => text_of(text),
        Err(_) => None,
    }
}

/// The text that the repository gave, where it gave text, as a string of
/// its own.
pub fn owned_text(text: Option<&str>) -> (owned: Option<String>)
    ensures
        owned.deep_view() == text_of(text),
{
    match text {
        Some(text) => Some(text.to_owned()),
        None => None,
    }
}

/// The name that a branch gave: its text where the name could be read and
/// is text, and nothing where reading it failed or it is not text.
pub fn decoded_name(outcome: Result<Option<&str>, git2::Error>) -> (name: Option<String>)
    ensures
        name.deep_view() == name_of(outcome),
{
    match outcome {
        Ok(text) => owned_text(text),
        Err(_) => None,
    }
}

/// The bound that a query works with: the one given, or `default` where
/// none is given.
pub open spec fn limit_or(limit: Option<usize>, default: usize) -> nat {
    match limit {
        Some(limit) => limit as nat,
        None => default as nat,
    }
}

/// Whether every commit that a walk found carries a full object
/// identifier.
pub open spec fn ids_are_full(walked: Seq<Option<RawCommit>>) -> bool {
    forall|i: int|
        0 <= i < walked.len() ==> (#[trigger] walked[i] matches Some(raw) ==> is_object_id(raw.id@))
}

/// Whether every record carries a well-formed short hash.
pub open spec fn hashes_are_short(records: Seq<CommitRecord>) -> bool {
    forall|i: int| 0 <= i < records.len() ==> is_short_hash((#[trigger] records[i])@.short_hash)
}

/// What the repository hands out of one commit.
fn read_commit(commit: &git2::Commit<'_>) -> (raw: RawCommit)
    ensures
        is_object_id(raw.id@),
{
    let id = oid_hex(&commit.id());
    let signature = commit.author();
    let author = owned_text(signature.name());
    let summary = owned_text(commit.summary());
    RawCommit { id, author, summary }
}

/// Walks the commit history from HEAD, newest first by commit time, for
/// `limit` steps at most, and gathers what each step finds: a commit, or
/// `None` where the step failed or its commit could not be looked up.
///
/// Where HEAD cannot be resolved, as in a repository without commits, or
/// the walk cannot be started, nothing is gathered: a repository without
/// history is a state to show, not a failure.
pub fn walk_history(repo: &git2::Repository, limit: usize) -> (walked: Vec<Option<RawCommit>>)
    ensures
        walked.len() <= limit,
        ids_are_full(walked@),
{
    let mut walked: Vec<Option<RawCommit>> = Vec::new();
    let mut walk = match repo.revwalk() {
        Ok(walk) => walk,
        Err(_) => {
            return walked;
        },
    };
    let head = match repo.head() {
        Ok(head) => head,
        Err(_) => {
            return walked;
        },
    };
    let target = match head.target() {
        Some(target) => target,
        None => {
            return walked;
        },
    };
    if walk.push(target).is_err() {
        return walked;
    }
    if sort_by_time(&mut walk).is_err() {
        return walked;
    }
    while walked.len() < limit
        invariant
            walked.len() <= limit,
            ids_are_full(walked@),
        decreases limit - walked.len(),
    {
        let step = match next_commit_id(&mut walk) {
            None => {
                break ;
            },
            Some(Ok(oid)) => match repo.find_commit(oid) {
                Ok(commit) => Some(read_commit(&commit)),
                Err(_) => None,
            },
            Some(Err(_)) => None,
        };
        walked.push(step);
    }
    walked
}

/// The records of a gathered walk carry well-formed short hashes.
proof fn lemma_gathered_hashes(
    walked: &Vec<Option<RawCommit>>,
    records: &Vec<CommitRecord>,
    limit: nat,
)
    requires
        ids_are_full(walked@),
        records.deep_view() == history_of(walked.deep_view(), limit),
    ensures
        hashes_are_short(records@),
{
    assert forall|i: int| 0 <= i < walked.deep_view().len() implies (
    #[trigger] walked.deep_view()[i] matches Some(raw) ==> is_object_id(raw.id)) by {
        assert(walked@[i] matches Some(raw) ==> is_object_id(raw.id@));
    }
    lemma_history_short_hashes(walked.deep_view(), limit);
    assert forall|i: int| 0 <= i < records@.len() implies is_short_hash(
        (#[trigger] records@[i])@.short_hash,
    ) by {
        assert(records.deep_view()[i] == records@[i]@);
    }
}

/// The most recent commits reachable from HEAD, newest first by commit
/// time: `limit` of them at most, twenty where no bound is given.
///
/// The result is the history of the walk from HEAD, cut at the bound: a
/// commit that cannot be read is left out, and a repository without commits
/// gives an empty list.
pub fn commits(repo: &git2::Repository, limit: Option<usize>) -> (records: Vec<CommitRecord>)
    ensures
        records.len() <= limit_or(limit, DEFAULT_COMMIT_LIMIT),
        hashes_are_short(records@),
        exists|walked: Seq<Option<RawCommitView>>|
            records.deep_view() == #[trigger] history_of(
                walked,
                limit_or(limit, DEFAULT_COMMIT_LIMIT),
            ),
{
    let limit = match limit {
        Some(limit) => limit,
        None => DEFAULT_COMMIT_LIMIT,
    };
    let walked = walk_history(repo, limit);
    let records = history(&walked, limit);
    proof {
        lemma_gathered_hashes(&walked, &records, limit as nat);
    }
    records
}

/// The entries of the reflog pane, newest first: `limit` of them at most,
/// one hundred where no bound is given.
///
/// Despite its name this does not read the reference log. It walks the
/// commit history from HEAD, as [`commits`] does, so that an entry carries
/// the author and the summary of a commit, not the actor and the message of
/// a reference update.
pub fn reflog(repo: &git2::Repository, limit: Option<usize>) -> (records: Vec<CommitRecord>)
    ensures
        records.len() <= limit_or(limit, DEFAULT_REFLOG_LIMIT),
        hashes_are_short(records@),
        exists|walked: Seq<Option<RawCommitView>>|
            records.deep_view() == #[trigger] history_of(
                walked,
                limit_or(limit, DEFAULT_REFLOG_LIMIT),
            ),
{
    let limit = match limit {
        Some(limit) => limit,
        None => DEFAULT_REFLOG_LIMIT,
    };
    let walked = walk_history(repo, limit);
    let records = history(&walked, limit);
    proof {
        lemma_gathered_hashes(&walked, &records, limit as nat);
    }
    records
}

/// Whether `name` is what [`decoded_name`] makes of the outcome of reading
/// a branch's name.
pub open spec fn is_name_read(name: Option<Seq<char>>) -> bool {
    exists|outcome: Result<Option<&str>, git2::Error>| name == #[trigger] name_of(outcome)
}

/// Reads the branches of one kind and gathers the name of each, as
/// [`decoded_name`] gives it: `None` for a branch whose name is not text or
/// cannot be read. Where the listing cannot be opened, nothing is gathered.
pub fn read_branch_names(repo: &git2::Repository, kind: BranchKind) -> (names: Vec<
    Option<String>,
>)
    ensures
        forall|i: int| 0 <= i < names.len() ==> is_name_read((#[trigger] names[i]).deep_view()),
{
    let mut names: Vec<Option<String>> = Vec::new();
    let mut listing = match open_branches(repo, kind) {
        Ok(listing) => listing,
        Err(_) => {
            return names;
        },
    };
    let mut steps: usize = 0;
    while steps < usize::MAX
        invariant
            names.len() <= steps,
            forall|i: int| 0 <= i < names.len() ==> is_name_read((#[trigger] names[i]).deep_view()),
        decreases usize::MAX - steps,
    {
        let name = match next_branch(&mut listing) {
            None => {
                break ;
            },
            Some(Ok(branch)) => {
                let outcome = branch.name();
                let ghost given = outcome;
                let name = decoded_name(outcome);
                assert(name.deep_view() == name_of(given));
                name
            },
            Some(Err(error)) => {
                let ghost failed: Result<Option<&str>, git2::Error> = Err(error);
                assert(name_of(failed) == None::<Seq<char>>);
                None
            },
        };
        names.push(name);
        steps = steps + 1;
    }
    names
}

/// The branches of one kind, in the order in which the repository lists
/// them.
///
/// The result is `branch_records(&read_branch_names(repo, kind))`: a branch
/// whose name cannot be decoded is left out and the others stay.
pub fn branches(repo: &git2::Repository, kind: BranchKind) -> (records: Vec<BranchRecord>)
    ensures
        exists|names: Seq<Option<Seq<char>>>| records.deep_view() == #[trigger] branches_of(names),
{
    let names = read_branch_names(repo, kind);
    let records = branch_records(&names);
    assert(records.deep_view() == branches_of(names.deep_view()));
    records
}

/// The status entries of the working tree, or why they could not be read.
pub fn status<'a>(repo: &'a git2::Repository) -> (entries: Result<
    git2::Statuses<'a>,
    QueryError,
>) {
    match read_statuses(repo) {
        Ok(entries) => Ok(entries),
        Err(error) => Err(QueryError::from_message(error.message())),
    }
}

} // verus!
