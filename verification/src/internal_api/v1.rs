//! The first shape of the entities, and its upgrade.
//!
//! Filters and labels were strings then. They are read as JSON now; one
//! that is no JSON stays the string it was.

use vstd::prelude::*;
use vstd::std_specs::convert::FromSpecImpl;
use crate::internal_api::Upgrade;
use crate::json::from_str_to_json;
use crate::json::reads_as;
use crate::json::JsonValue;
use crate::string_map::lemma_position_from;
use crate::string_map::lemma_same_keys_same_position;
use crate::string_map::position_from;
use crate::string_map::StringMap;

verus! {

/// Whether `typed` has the keys of `raw`, in the same order, each with the
/// structured reading of the string that `raw` holds under it.
pub open spec fn typed_from(raw: StringMap<String>, typed: StringMap<JsonValue>) -> bool {
    &&& typed.wf()
    &&& typed.entries().len() == raw.entries().len()
    &&& forall|i: int|
        0 <= i < raw.entries().len() ==> {
            &&& (#[trigger] typed.entries()[i]).0 == raw.entries()[i].0
            &&& reads_as(raw.entries()[i].1@, typed.entries()[i].1)
        }
}

/// Reads every value of `raw` as JSON, under the key it had.
pub fn typed_values(raw: &StringMap<String>) -> (r: StringMap<JsonValue>)
    ensures
        typed_from(*raw, r),
{
    let n = raw.len();
    let mut out: Vec<(String, JsonValue)> = Vec::new();
    let mut i: usize = 0;
    while i < n
        invariant
            i <= n,
            n == raw.entries().len(),
            raw.wf(),
            out@.len() == i,
            forall|j: int|
                0 <= j < i ==> {
                    &&& (#[trigger] out@[j]).0 == raw.entries()[j].0
                    &&& reads_as(raw.entries()[j].1@, out@[j].1)
                },
        decreases n - i,
    {
        let (key, value) = raw.entry(i);
        out.push((key.clone(), from_str_to_json(value.as_str())));
        i = i + 1;
    }
    proof {
        assert forall|a: int, b: int| 0 <= a < b < out@.len() implies (#[trigger] out@[a]).0@ != (
        #[trigger] out@[b]).0@ by {
            assert(raw.entries()[a].0@ != raw.entries()[b].0@);
        }
    }
    StringMap::from_entries(out)
}

/// Reading the values of a map as JSON keeps its keys: as maps from key
/// text to value, the typed map has the domain of the raw one, and under
/// each key the structured reading of the string that stood there.
pub proof fn lemma_typed_values_keep_keys(raw: StringMap<String>, typed: StringMap<JsonValue>)
    requires
        typed_from(raw, typed),
    ensures
        typed.as_map().dom() =~= raw.as_map().dom(),
        forall|key: Seq<char>| #[trigger]
            raw.has(key) ==> typed.has(key) && reads_as(raw.value(key)@, typed.value(key)),
{
    assert forall|key: Seq<char>|
        typed.has(key) == raw.has(key) && (#[trigger] raw.has(key) ==> reads_as(
            raw.value(key)@,
            typed.value(key),
        )) by {
        lemma_same_keys_same_position(typed.entries(), raw.entries(), key, 0);
        lemma_position_from(raw.entries(), key, 0);
        if raw.has(key) {
            let at = position_from(raw.entries(), key, 0);
            assert(typed.entries()[at].0 == raw.entries()[at].0);
        }
    }
    assert forall|key: Seq<char>| typed.as_map().dom().contains(key) == raw.as_map().dom().contains(
        key,
    ) by {
        assert(typed.has(key) == raw.has(key));
    }
}

#[derive(Debug, Clone, PartialEq)]
pub struct ExtractionGraph {
    pub id: super::ExtractionGraphId,
    pub name: super::ExtractionGraphName,
    pub namespace: String,
    pub extraction_policies: Vec<ExtractionPolicy>,
}

impl ExtractionGraph {
    /// Every policy names this graph as its own.
    pub open spec fn consistent(&self) -> bool {
        forall|i: int|
            0 <= i < self.extraction_policies@.len() ==> (
            #[trigger] self.extraction_policies@[i]).graph_name@ == self.name@
    }
}

impl Upgrade for ExtractionGraph {
    type Current = super::ExtractionGraph;

    /// The policies are upgraded one for one, in their order; the rest is
    /// kept.
    open spec fn upgrades_to(self, current: super::ExtractionGraph) -> bool {
        &&& current.id == self.id
        &&& current.name == self.name
        &&& current.namespace == self.namespace
        &&& current.extraction_policies@.len() == self.extraction_policies@.len()
        &&& forall|i: int|
            0 <= i < self.extraction_policies@.len() ==> (
            #[trigger] self.extraction_policies@[i]).upgrades_to(current.extraction_policies@[i])
    }

    fn upgrade(self) -> (r: super::ExtractionGraph) {
        let ghost before = self.extraction_policies@;
        let mut policies: Vec<super::ExtractionPolicy> = Vec::new();
        for policy in it: self.extraction_policies.into_iter()
            invariant
                it.seq() == before,
                policies@.len() == it.index(),
                forall|j: int|
                    0 <= j < it.index() ==> (#[trigger] before[j]).upgrades_to(policies@[j]),
        {
            policies.push(policy.upgrade());
        }
        super::ExtractionGraph {
            id: self.id,
            name: self.name,
            namespace: self.namespace,
            extraction_policies: policies,
        }
    }
}

impl From<ExtractionGraph> for super::ExtractionGraph {
    fn from(graph: ExtractionGraph) -> (r: Self)
        ensures
            graph.upgrades_to(r),
    {
        graph.upgrade()
    }
}

impl FromSpecImpl<ExtractionGraph> for super::ExtractionGraph {
    /// The conversion makes new strings and vectors, so its result is stated
    /// by `upgrades_to`, as a relation, and not as a function.
    open spec fn obeys_from_spec() -> bool {
        false
    }

    open spec fn from_spec(v: ExtractionGraph) -> Self {
        choose|r: Self| v.upgrades_to(r)
    }
}

/// An upgrade keeps a graph consistent: where every policy of the old graph
/// named it as its own, every policy of the upgraded graph does.
pub proof fn lemma_upgrade_keeps_consistency(graph: ExtractionGraph, current: super::ExtractionGraph)
    requires
        graph.upgrades_to(current),
        graph.consistent(),
    ensures
        current.consistent(),
{
    assert forall|i: int| 0 <= i < current.extraction_policies@.len() implies (
    #[trigger] current.extraction_policies@[i]).graph_name@ == current.name@ by {
        assert(graph.extraction_policies@[i].upgrades_to(current.extraction_policies@[i]));
        assert(graph.extraction_policies@[i].graph_name@ == graph.name@);
    }
}

#[derive(Debug, Clone, PartialEq)]
pub struct ExtractionPolicy {
    pub id: super::ExtractionPolicyId,
    pub graph_name: super::ExtractionGraphName,
    pub name: super::ExtractionPolicyName,
    pub namespace: String,
    pub extractor: String,
    pub filters: StringMap<String>,
    pub input_params: JsonValue,
    pub output_table_mapping: StringMap<String>,
    pub content_source: super::ExtractionPolicyContentSource,
}

impl Upgrade for ExtractionPolicy {
    type Current = super::ExtractionPolicy;

    /// The filters are read as JSON; the rest is kept.
    open spec fn upgrades_to(self, current: super::ExtractionPolicy) -> bool {
        &&& typed_from(self.filters, current.filters)
        &&& current.id == self.id
        &&& current.graph_name == self.graph_name
        &&& current.name == self.name
        &&& current.namespace == self.namespace
        &&& current.extractor == self.extractor
        &&& current.input_params == self.input_params
        &&& current.output_table_mapping == self.output_table_mapping
        &&& current.content_source == self.content_source
    }

    fn upgrade(self) -> (r: super::ExtractionPolicy) {
        super::ExtractionPolicy {
            filters: typed_values(&self.filters),
            id: self.id,
            graph_name: self.graph_name,
            name: self.name,
            namespace: self.namespace,
            extractor: self.extractor,
            input_params: self.input_params,
            output_table_mapping: self.output_table_mapping,
            content_source: self.content_source,
        }
    }
}

impl From<ExtractionPolicy> for super::ExtractionPolicy {
    fn from(policy: ExtractionPolicy) -> (r: Self)
        ensures
            policy.upgrades_to(r),
    {
        policy.upgrade()
    }
}

impl FromSpecImpl<ExtractionPolicy> for super::ExtractionPolicy {
    /// The conversion makes new strings and vectors, so its result is stated
    /// by `upgrades_to`, as a relation, and not as a function.
    open spec fn obeys_from_spec() -> bool {
        false
    }

    open spec fn from_spec(v: ExtractionPolicy) -> Self {
        choose|r: Self| v.upgrades_to(r)
    }
}

#[derive(Debug, Clone, PartialEq)]
pub struct ContentMetadata {
    pub id: super::ContentMetadataId,
    pub parent_id: Option<super::ContentMetadataId>,
    pub root_content_id: Option<String>,
    pub latest: bool,
    pub namespace: super::NamespaceName,
    pub name: String,
    pub content_type: String,
    pub labels: StringMap<String>,
    pub storage_url: String,
    pub created_at: i64,
    pub source: super::ContentSource,
    pub size_bytes: u64,
    pub tombstoned: bool,
    pub hash: String,
    pub extraction_policy_ids: StringMap<u64>,
    pub extraction_graph_names: Vec<super::ExtractionGraphName>,
}

impl Upgrade for ContentMetadata {
    type Current = super::ContentMetadata;

    /// The labels are read as JSON; the rest is kept.
    open spec fn upgrades_to(self, current: super::ContentMetadata) -> bool {
        &&& typed_from(self.labels, current.labels)
        &&& current.id == self.id
        &&& current.parent_id == self.parent_id
        &&& current.root_content_id == self.root_content_id
        &&& current.latest == self.latest
        &&& current.namespace == self.namespace
        &&& current.source == self.source
        &&& current.extraction_policy_ids == self.extraction_policy_ids
        &&& current.extraction_graph_names == self.extraction_graph_names
        &&& current.name == self.name
        &&& current.storage_url == self.storage_url
        &&& current.created_at == self.created_at
        &&& current.size_bytes == self.size_bytes
        &&& current.tombstoned == self.tombstoned
        &&& current.hash == self.hash
        &&& current.content_type == self.content_type
    }

    fn upgrade(self) -> (r: super::ContentMetadata) {
        super::ContentMetadata {
            labels: typed_values(&self.labels),
            id: self.id,
            parent_id: self.parent_id,
            root_content_id: self.root_content_id,
            latest: self.latest,
            namespace: self.namespace,
            source: self.source,
            extraction_policy_ids: self.extraction_policy_ids,
            extraction_graph_names: self.extraction_graph_names,
            name: self.name,
            storage_url: self.storage_url,
            created_at: self.created_at,
            size_bytes: self.size_bytes,
            tombstoned: self.tombstoned,
            hash: self.hash,
            content_type: self.content_type,
        }
    }
}

impl From<ContentMetadata> for super::ContentMetadata {
    fn from(metadata: ContentMetadata) -> (r: Self)
        ensures
            metadata.upgrades_to(r),
    {
        metadata.upgrade()
    }
}

impl FromSpecImpl<ContentMetadata> for super::ContentMetadata {
    /// The conversion makes new strings and vectors, so its result is stated
    /// by `upgrades_to`, as a relation, and not as a function.
    open spec fn obeys_from_spec() -> bool {
        false
    }

    open spec fn from_spec(v: ContentMetadata) -> Self {
        choose|r: Self| v.upgrades_to(r)
    }
}

#[derive(Debug, Clone, PartialEq)]
pub struct Task {
    pub id: String,
    pub extractor: String,
    pub extraction_policy_id: String,
    pub extraction_graph_name: String,
    pub output_index_table_mapping: StringMap<String>,
    pub namespace: String,
    pub content_metadata: ContentMetadata,
    pub input_params: JsonValue,
    pub outcome: super::TaskOutcome,
    pub index_tables: Vec<String>,
}

impl Upgrade for Task {
    type Current = super::Task;

    /// The content snapshot is upgraded; the rest is kept.
    open spec fn upgrades_to(self, current: super::Task) -> bool {
        &&& self.content_metadata.upgrades_to(current.snapshot())
        &&& current.details() == (super::TaskDescription {
            id: self.id,
            extractor: self.extractor,
            extraction_policy_id: self.extraction_policy_id,
            extraction_graph_name: self.extraction_graph_name,
            output_index_table_mapping: self.output_index_table_mapping,
            namespace: self.namespace,
            input_params: self.input_params,
            outcome: self.outcome,
            index_tables: self.index_tables,
        })
    }

    fn upgrade(self) -> (r: super::Task) {
        let content = self.content_metadata.upgrade();
        super::Task::new(
            super::TaskDescription {
                id: self.id,
                extractor: self.extractor,
                extraction_policy_id: self.extraction_policy_id,
                extraction_graph_name: self.extraction_graph_name,
                output_index_table_mapping: self.output_index_table_mapping,
                namespace: self.namespace,
                input_params: self.input_params,
                outcome: self.outcome,
                index_tables: self.index_tables,
            },
            content,
        )
    }
}

impl From<Task> for super::Task {
    fn from(task: Task) -> (r: Self)
        ensures
            task.upgrades_to(r),
    {
        task.upgrade()
    }
}

impl FromSpecImpl<Task> for super::Task {
    /// The conversion makes new strings and vectors, so its result is stated
    /// by `upgrades_to`, as a relation, and not as a function.
    open spec fn obeys_from_spec() -> bool {
        false
    }

    open spec fn from_spec(v: Task) -> Self {
        choose|r: Self| v.upgrades_to(r)
    }
}

} // verus!
