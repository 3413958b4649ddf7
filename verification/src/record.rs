//! Display records: what the dashboard shows of a commit or a branch, and
//! how a record is made from what a repository hands out.

use vstd::prelude::*;

verus! {

/// The number of characters of an object identifier that a record keeps.
pub const SHORT_HASH_LEN: usize = 7;

/// The number of characters of a full object identifier.
pub const OBJECT_ID_LEN: usize = 40;

/// A commit as the dashboard shows it.
///
/// The short hash is for display only: two commits may share it, and it is
/// never used to look a commit up.
#[derive(Clone, Debug)]
pub struct CommitRecord {
    pub short_hash: String,
    pub author: String,
    pub summary: String,
}

/// The text of a [`CommitRecord`].
pub struct CommitView {
    pub short_hash: Seq<char>,
    pub author: Seq<char>,
    pub summary: Seq<char>,
}

impl View for CommitRecord {
    type V = CommitView;

    open spec fn view(&self) -> CommitView {
        CommitView { short_hash: self.short_hash@, author: self.author@, summary: self.summary@ }
    }
}

impl DeepView for CommitRecord {
    type V = CommitView;

    open spec fn deep_view(&self) -> CommitView {
        self@
    }
}

/// A branch as the dashboard shows it.
#[derive(Clone, Debug)]
pub struct BranchRecord {
    pub name: String,
}

/// The text of a [`BranchRecord`].
pub struct BranchView {
    pub name: Seq<char>,
}

impl View for BranchRecord {
    type V = BranchView;

    open spec fn view(&self) -> BranchView {
        BranchView { name: self.name@ }
    }
}

impl DeepView for BranchRecord {
    type V = BranchView;

    open spec fn deep_view(&self) -> BranchView {
        self@
    }
}

/// What a repository hands out of one commit: its full identifier in
/// hexadecimal, and the author's name and the summary line where they can
/// be read as text.
#[derive(Clone, Debug)]
pub struct RawCommit {
    pub id: String,
    pub author: Option<String>,
    pub summary: Option<String>,
}

/// The text of a [`RawCommit`].
pub struct RawCommitView {
    pub id: Seq<char>,
    pub author: Option<Seq<char>>,
    pub summary: Option<Seq<char>>,
}

impl View for RawCommit {
    type V = RawCommitView;

    open spec fn view(&self) -> RawCommitView {
        RawCommitView {
            id: self.id@,
            author: self.author.deep_view(),
            summary: self.summary.deep_view(),
        }
    }
}

impl DeepView for RawCommit {
    type V = RawCommitView;

    open spec fn deep_view(&self) -> RawCommitView {
        self@
    }
}

/// A digit of lower-case hexadecimal.
pub open spec fn is_lower_hex(c: char) -> bool {
    ('0' <= c <= '9') || ('a' <= c <= 'f')
}

/// A full object identifier: forty digits of lower-case hexadecimal.
pub open spec fn is_object_id(id: Seq<char>) -> bool {
    &&& id.len() == OBJECT_ID_LEN
    &&& forall|i: int| 0 <= i < id.len() ==> is_lower_hex(#[trigger] id[i])
}

/// The short hash of a full object identifier: seven digits of lower-case
/// hexadecimal.
pub open spec fn is_short_hash(hash: Seq<char>) -> bool {
    &&& hash.len() == SHORT_HASH_LEN
    &&& forall|i: int| 0 <= i < hash.len() ==> is_lower_hex(#[trigger] hash[i])
}

/// The first seven characters of `id`, or all of it where it has fewer.
pub open spec fn short_hash_of(id: Seq<char>) -> Seq<char> {
    if id.len() <= SHORT_HASH_LEN {
        id
    } else {
        id.take(SHORT_HASH_LEN as int)
    }
}

/// The given text, or the empty text where there is none.
pub open spec fn text_or_empty(text: Option<Seq<char>>) -> Seq<char> {
    match text {
        Some(text) => text,
        None => Seq::empty(),
    }
}

/// The record of a commit: its identifier cut to the short hash, and empty
/// text in place of an author or a summary that could not be read.
pub open spec fn record_of(raw: RawCommitView) -> CommitView {
    CommitView {
        short_hash: short_hash_of(raw.id),
        author: text_or_empty(raw.author),
        summary: text_or_empty(raw.summary),
    }
}

/// The record of one step of a history walk, where the step found a commit
/// that could be read.
pub open spec fn readable_record() -> spec_fn(Option<RawCommitView>) -> Option<CommitView> {
    |step: Option<RawCommitView>|
        match step {
            Some(raw) => Some(record_of(raw)),
            None => None,
        }
}

/// The records of a history walk: of its first `limit` steps, those that
/// found a readable commit, in the order of the walk.
pub open spec fn history_of(walked: Seq<Option<RawCommitView>>, limit: nat) -> Seq<CommitView> {
    let steps = if limit < walked.len() {
        limit
    } else {
        walked.len()
    };
    walked.take(steps as int).filter_map(readable_record())
}

/// The record of a branch whose name could be decoded.
pub open spec fn decoded_branch() -> spec_fn(Option<Seq<char>>) -> Option<BranchView> {
    |name: Option<Seq<char>>|
        match name {
            Some(name) => Some(BranchView { name }),
            None => None,
        }
}

/// The records of a branch listing: one for each name that could be
/// decoded, in the order of the listing.
pub open spec fn branches_of(names: Seq<Option<Seq<char>>>) -> Seq<BranchView> {
    names.filter_map(decoded_branch())
}

/// The short hash of a full object identifier is well formed.
pub proof fn lemma_short_hash_of_object_id(id: Seq<char>)
    requires
        is_object_id(id),
    ensures
        is_short_hash(short_hash_of(id)),
{
}

/// Where every commit that a walk found carries a full object identifier,
/// every record of its history carries a well-formed short hash.
pub proof fn lemma_history_short_hashes(walked: Seq<Option<RawCommitView>>, limit: nat)
    requires
        forall|i: int|
            0 <= i < walked.len() ==> (#[trigger] walked[i] matches Some(raw) ==> is_object_id(
                raw.id,
            )),
    ensures
        forall|j: int|
            0 <= j < history_of(walked, limit).len() ==> is_short_hash(
                (#[trigger] history_of(walked, limit)[j]).short_hash,
            ),
{
    let steps = if limit < walked.len() {
        limit
    } else {
        walked.len()
    };
    let taken = walked.take(steps as int);
    let records = history_of(walked, limit);
    assert forall|j: int| 0 <= j < records.len() implies is_short_hash(
        (#[trigger] records[j]).short_hash,
    ) by {
        assert(taken.filter_map(readable_record()).contains(records[j]));
        taken.lemma_filter_map_contains(readable_record(), records[j]);
        let step = choose|step: Option<RawCommitView>| #[trigger]
            taken.contains(step) && readable_record()(step) == Some(records[j]);
        let i = choose|i: int| 0 <= i < taken.len() && taken[i] == step;
        assert(walked[i] == step);
        lemma_short_hash_of_object_id(step->0.id);
    }
}

/// The first seven characters of `id`, or all of it where it has fewer.
pub fn short_hash(id: &str) -> (short: String)
    ensures
        short@ == short_hash_of(id@),
{
    if id.unicode_len() <= SHORT_HASH_LEN {
        id.to_owned()
    } else {
        id.substring_char(0, SHORT_HASH_LEN).to_owned()
    }
}

fn owned_or_empty(text: &Option<String>) -> (out: String)
    ensures
        out@ == text_or_empty(text.deep_view()),
{
    match text {
        Some(text) => text.clone(),
        None => String::new(),
    }
}

impl CommitRecord {
    /// The record of a commit: its identifier cut to the short hash, and
    /// empty text in place of an author or a summary that could not be read.
    pub fn from_raw(raw: &RawCommit) -> (record: CommitRecord)
        ensures
            record@ == record_of(raw@),
    {
        CommitRecord {
            short_hash: short_hash(raw.id.as_str()),
            author: owned_or_empty(&raw.author),
            summary: owned_or_empty(&raw.summary),
        }
    }
}

/// The records of a history walk: of its first `limit` steps, those that
/// found a readable commit (`Some`), in the order of the walk.
pub fn history(walked: &Vec<Option<RawCommit>>, limit: usize) -> (records: Vec<CommitRecord>)
    ensures
        records.deep_view() == history_of(walked.deep_view(), limit as nat),
        records.len() <= limit,
        records.len() <= walked.len(),
{
    let steps = if limit < walked.len() {
        limit
    } else {
        walked.len()
    };
    let mut records: Vec<CommitRecord> = Vec::new();
    let mut i: usize = 0;
    while i < steps
        invariant
            i <= steps <= walked.len(),
            records.len() <= i,
            records.deep_view() == walked.deep_view().take(i as int).filter_map(readable_record()),
        decreases steps - i,
    {
        let ghost before = records.deep_view();
        match &walked[i] {
            Some(raw) => {
                let record = CommitRecord::from_raw(raw);
                records.push(record);
                assert(records.deep_view() =~= before + seq![record_of(raw@)]);
            },
            None => {},
        }
        proof {
            walked.deep_view().lemma_filter_map_take_succ(readable_record(), i as int);
        }
        i = i + 1;
    }
    records
}

/// The records of a branch listing: one for each name that could be decoded
/// (`Some`), in the order of the listing.
pub fn branch_records(names: &Vec<Option<String>>) -> (records: Vec<BranchRecord>)
    ensures
        records.deep_view() == branches_of(names.deep_view()),
        records.len() <= names.len(),
{
    let mut records: Vec<BranchRecord> = Vec::new();
    let mut i: usize = 0;
    while i < names.len()
        invariant
            i <= names.len(),
            records.len() <= i,
            records.deep_view() == names.deep_view().take(i as int).filter_map(decoded_branch()),
        decreases names.len() - i,
    {
        let ghost before = records.deep_view();
        match &names[i] {
            Some(name) => {
                records.push(BranchRecord { name: name.clone() });
                assert(records.deep_view() =~= before + seq![BranchView { name: name@ }]);
            },
            None => {},
        }
        proof {
            names.deep_view().lemma_filter_map_take_succ(decoded_branch(), i as int);
        }
        i = i + 1;
    }
    assert(names.deep_view().take(names.len() as int) =~= names.deep_view());
    records
}

} // verus!
