//! The replicated entities in their current shape, and the way a stored
//! record of any shipped shape becomes a current one.
//!
//! Records of a superseded shape may still sit in the log. They are never
//! rewritten there: whoever reads one upgrades it on the way in.

use vstd::prelude::*;
use crate::json::JsonValue;
use crate::string_map::StringMap;
use crate::text::str_eq;

pub mod v1;

verus! {

pub type ExtractionGraphId = String;

pub type ExtractionGraphName = String;

pub type ExtractionPolicyId = String;

pub type ExtractionPolicyName = String;

pub type ContentMetadataId = String;

pub type NamespaceName = String;

/// Where the content that a policy works on comes from.
#[derive(Debug, Clone, PartialEq, Eq)]
pub enum ExtractionPolicyContentSource {
    /// What another policy, named here, has put out.
    ExtractionPolicyName(ExtractionPolicyName),
    /// What was ingested.
    Ingestion,
}

/// How a content record came to be.
#[derive(Debug, Clone, PartialEq, Eq)]
pub enum ContentSource {
    /// Put out by the extraction policy named here.
    ExtractionPolicyName(ExtractionPolicyName),
    /// Ingested.
    Ingestion,
}

/// How a task ended, if it has.
#[derive(Debug, Clone, Copy, PartialEq, Eq)]
pub enum TaskOutcome {
    Unknown,
    Failed,
    Success,
}

/// One stage of an extraction graph.
#[derive(Debug, Clone, PartialEq)]
pub struct ExtractionPolicy {
    pub id: ExtractionPolicyId,
    pub graph_name: ExtractionGraphName,
    pub name: ExtractionPolicyName,
    pub namespace: String,
    pub extractor: String,
    pub filters: StringMap<JsonValue>,
    pub input_params: JsonValue,
    pub output_table_mapping: StringMap<String>,
    pub content_source: ExtractionPolicyContentSource,
}

/// A named pipeline: its policies, in the order in which they were added.
#[derive(Debug, Clone, PartialEq)]
pub struct ExtractionGraph {
    pub id: ExtractionGraphId,
    pub name: ExtractionGraphName,
    pub namespace: String,
    pub extraction_policies: Vec<ExtractionPolicy>,
}

impl ExtractionGraph {
    /// Every policy names this graph as its own.
    pub open spec fn consistent(&self) -> bool {
        forall|i: int|
            0 <= i < self.extraction_policies@.len() ==> (
            #[trigger] self.extraction_policies@[i]).graph_name@ == self.name@
    }

    /// Whether every policy names this graph as its own.
    pub fn is_consistent(&self) -> (r: bool)
        ensures
            r == self.consistent(),
    {
        let mut i: usize = 0;
        while i < self.extraction_policies.len()
            invariant
                i <= self.extraction_policies@.len(),
                forall|j: int|
                    0 <= j < i ==> (#[trigger] self.extraction_policies@[j]).graph_name@
                        == self.name@,
            decreases self.extraction_policies@.len() - i,
        {
            if !str_eq(self.extraction_policies[i].graph_name.as_str(), self.name.as_str()) {
                return false;
            }
            i = i + 1;
        }
        true
    }
}

/// What is known of one piece of content.
#[derive(Debug, Clone, PartialEq)]
pub struct ContentMetadata {
    pub id: ContentMetadataId,
    pub parent_id: Option<ContentMetadataId>,
    pub root_content_id: Option<String>,
    pub latest: bool,
    pub namespace: NamespaceName,
    pub name: String,
    pub content_type: String,
    pub labels: StringMap<JsonValue>,
    pub storage_url: String,
    pub created_at: i64,
    pub source: ContentSource,
    pub size_bytes: u64,
    pub tombstoned: bool,
    pub hash: String,
    pub extraction_policy_ids: StringMap<u64>,
    pub extraction_graph_names: Vec<ExtractionGraphName>,
}

impl ContentMetadata {
    /// Whether queries for live content see this record. A tombstoned one is
    /// kept, for what was derived from it, and no longer shown.
    pub fn is_active(&self) -> (r: bool)
        ensures
            r == !self.tombstoned,
    {
        !self.tombstoned
    }
}

/// What a task is, but for the content it was made against.
#[derive(Debug, Clone, PartialEq)]
pub struct TaskDescription {
    pub id: String,
    pub extractor: String,
    pub extraction_policy_id: String,
    pub extraction_graph_name: String,
    pub output_index_table_mapping: StringMap<String>,
    pub namespace: String,
    pub input_params: JsonValue,
    pub outcome: TaskOutcome,
    pub index_tables: Vec<String>,
}

/// One run of an extractor over one piece of content.
///
/// The task carries the whole content record as it was when the task was
/// made. Nothing changes that snapshot afterwards, whatever becomes of the
/// content elsewhere: the task owns its copy, the fields are not public, and
/// the one method that changes a task leaves the snapshot alone. Working on
/// the content again takes a new task.
#[derive(Debug, Clone, PartialEq)]
pub struct Task {
    description: TaskDescription,
    content_metadata: ContentMetadata,
}

impl Task {
    /// What the task is, but for its content snapshot.
    pub closed spec fn details(&self) -> TaskDescription {
        self.description
    }

    /// The content record that the task was made against.
    pub closed spec fn snapshot(&self) -> ContentMetadata {
        self.content_metadata
    }

    /// A task as `description` has it, made against `content`.
    pub fn new(description: TaskDescription, content: ContentMetadata) -> (r: Task)
        ensures
            r.details() == description,
            r.snapshot() == content,
    {
        Task { description: description, content_metadata: content }
    }

    /// What the task is, but for its content snapshot.
    pub fn description(&self) -> (r: &TaskDescription)
        ensures
            *r == self.details(),
    {
        &self.description
    }

    /// The content record that the task was made against.
    pub fn content_metadata(&self) -> (r: &ContentMetadata)
        ensures
            *r == self.snapshot(),
    {
        &self.content_metadata
    }

    /// Takes the task apart.
    pub fn into_parts(self) -> (r: (TaskDescription, ContentMetadata))
        ensures
            r.0 == self.details(),
            r.1 == self.snapshot(),
    {
        (self.description, self.content_metadata)
    }

    /// Records how the task ended and where its output went. All else stays
    /// as it was, the content snapshot too.
    pub fn finish(&mut self, outcome: TaskOutcome, index_tables: Vec<String>)
        ensures
            finishes(*old(self), *final(self), outcome, index_tables),
    {
        self.description.outcome = outcome;
        self.description.index_tables = index_tables;
    }
}

/// A description with the outcome and the index tables set, and all else
/// as in `description`.
pub open spec fn finished(
    description: TaskDescription,
    outcome: TaskOutcome,
    index_tables: Vec<String>,
) -> TaskDescription {
    TaskDescription { outcome: outcome, index_tables: index_tables, ..description }
}

/// Whether `after` is what `finish` makes of `before`: the outcome and the
/// index tables are set, and all else is as it was, the content snapshot
/// too.
pub open spec fn finishes(
    before: Task,
    after: Task,
    outcome: TaskOutcome,
    index_tables: Vec<String>,
) -> bool {
    &&& after.snapshot() == before.snapshot()
    &&& after.details() == finished(before.details(), outcome, index_tables)
}

/// A task's content snapshot is fixed when the task is made. Through
/// however many changes a task goes, from `states[0]` on, each the work of
/// `finish`, every state has the snapshot of the first.
pub proof fn lemma_snapshot_is_fixed(
    states: Seq<Task>,
    outcomes: Seq<(TaskOutcome, Vec<String>)>,
    at: int,
)
    requires
        states.len() == outcomes.len() + 1,
        forall|i: int|
            0 <= i < outcomes.len() ==> finishes(
                #[trigger] states[i],
                states[i + 1],
                outcomes[i].0,
                outcomes[i].1,
            ),
        0 <= at < states.len(),
    ensures
        states[at].snapshot() == states[0].snapshot(),
    decreases at,
{
    if at > 0 {
        lemma_snapshot_is_fixed(states, outcomes, at - 1);
        assert(finishes(states[at - 1], states[at - 1 + 1], outcomes[at - 1].0, outcomes[at - 1].1));
    }
}

/// A shape that records were once written in.
pub trait Upgrade: Sized {
    /// The current shape of the same entity.
    type Current;

    /// Whether `current` is this record in the current shape.
    spec fn upgrades_to(self, current: Self::Current) -> bool;

    /// This record in the current shape. Every record has one: the
    /// conversion does not fail.
    fn upgrade(self) -> (r: Self::Current)
        ensures
            self.upgrades_to(r),
    ;
}

/// A record as it is found in the log or in a snapshot: in the first
/// shape, or in the current one.
pub enum Stored<Old: Upgrade> {
    V1(Old),
    Current(Old::Current),
}

impl<Old: Upgrade> Stored<Old> {
    /// Whether `current` is what reading this record gives.
    pub open spec fn reads_as(self, current: Old::Current) -> bool {
        match self {
            Stored::V1(old) => old.upgrades_to(current),
            Stored::Current(record) => current == record,
        }
    }

    /// The record in the current shape: a current one as it is, an older one
    /// upgraded.
    pub fn upgrade(self) -> (r: Old::Current)
        ensures
            self.reads_as(r),
    {
        match self {
            Stored::V1(old) => old.upgrade(),
            Stored::Current(record) => record,
        }
    }
}

/// Upgrading is idempotent: a record that is already in the current shape,
/// such as the result of an upgrade, reads as itself and as nothing else.
pub proof fn lemma_upgrade_idempotent<Old: Upgrade>(record: Old::Current, again: Old::Current)
    ensures
        Stored::<Old>::Current(record).reads_as(record),
        Stored::<Old>::Current(record).reads_as(again) ==> again == record,
{
}

} // verus!
