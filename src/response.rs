use vstd::prelude::*;
use crate::json::{
    as_bool, as_opt_array, as_opt_number, as_opt_string, as_string, as_u64, bool_of, field,
    lemma_field_in_decreases, opt_array_of, opt_number_of, opt_string_of, string_of,
    strings_match, strings_of, take_field, text_is, u64_of, Json, JsonNumber,
};

verus! {

/// The lifecycle state of a statement or of one of its stages.
#[derive(Debug, PartialEq, Eq, Structural, Clone, Copy)]
pub enum QueryState {
    Aborted,
    Failed,
    Finished,
    Finishing,
    Flushing,
    Queued,
    Running,
    Scheduled,
}

impl QueryState {
    /// The state's name on the wire.
    pub open spec fn wire(self) -> Seq<char> {
        match self {
            QueryState::Aborted => "ABORTED"@,
            QueryState::Failed => "FAILED"@,
            QueryState::Finished => "FINISHED"@,
            QueryState::Finishing => "FINISHING"@,
            QueryState::Flushing => "FLUSHING"@,
            QueryState::Queued => "QUEUED"@,
            QueryState::Running => "RUNNING"@,
            QueryState::Scheduled => "SCHEDULED"@,
        }
    }

    /// Reads a state from its wire name; any other text is refused.
    pub fn from_wire(s: &String) -> (r: Option<QueryState>)
        ensures
            match r {
                Some(st) => st.wire() == s@,
                None => forall|st: QueryState| #[trigger] st.wire() != s@,
            },
    {
        if text_is(s, "ABORTED") {
            Some(QueryState::Aborted)
        } else if text_is(s, "FAILED") {
            Some(QueryState::Failed)
        } else if text_is(s, "FINISHED") {
            Some(QueryState::Finished)
        } else if text_is(s, "FINISHING") {
            Some(QueryState::Finishing)
        } else if text_is(s, "FLUSHING") {
            Some(QueryState::Flushing)
        } else if text_is(s, "QUEUED") {
            Some(QueryState::Queued)
        } else if text_is(s, "RUNNING") {
            Some(QueryState::Running)
        } else if text_is(s, "SCHEDULED") {
            Some(QueryState::Scheduled)
        } else {
            None
        }
    }
}

pub(crate) proof fn lemma_state_names()
    ensures
        "ABORTED"@.len() == 7,
        "ABORTED"@[0] == 'A',
        "ABORTED"@[1] == 'B',
        "FAILED"@.len() == 6,
        "FAILED"@[0] == 'F',
        "FAILED"@[1] == 'A',
        "FINISHED"@.len() == 8,
        "FINISHED"@[0] == 'F',
        "FINISHED"@[1] == 'I',
        "FINISHING"@.len() == 9,
        "FINISHING"@[0] == 'F',
        "FINISHING"@[1] == 'I',
        "FLUSHING"@.len() == 8,
        "FLUSHING"@[0] == 'F',
        "FLUSHING"@[1] == 'L',
        "QUEUED"@.len() == 6,
        "QUEUED"@[0] == 'Q',
        "QUEUED"@[1] == 'U',
        "RUNNING"@.len() == 7,
        "RUNNING"@[0] == 'R',
        "RUNNING"@[1] == 'U',
        "SCHEDULED"@.len() == 9,
        "SCHEDULED"@[0] == 'S',
        "SCHEDULED"@[1] == 'C',
{
    reveal_strlit("ABORTED");
    reveal_strlit("FAILED");
    reveal_strlit("FINISHED");
    reveal_strlit("FINISHING");
    reveal_strlit("FLUSHING");
    reveal_strlit("QUEUED");
    reveal_strlit("RUNNING");
    reveal_strlit("SCHEDULED");
}

/// Distinct states have distinct wire names.
pub proof fn lemma_wire_injective(a: QueryState, b: QueryState)
    requires
        a.wire() == b.wire(),
    ensures
        a == b,
{
    lemma_state_names();
}

/// The state held by a field.
pub open spec fn state_decodes(f: Option<Json>, st: QueryState) -> bool {
    exists|s: String| f == Some(Json::Str(s)) && st.wire() == s@
}

/// Reads a state from a field.
pub fn state_of(f: Option<Json>) -> (r: Option<QueryState>)
    ensures
        match r {
            Some(st) => state_decodes(f, st),
            None => forall|st: QueryState| !state_decodes(f, st),
        },
{
    match f {
        Some(Json::Str(s)) => QueryState::from_wire(&s),
        _ => None,
    }
}

/// The server's version.
#[derive(Debug, PartialEq)]
pub struct NodeVersion {
    pub version: String,
}

/// Metadata a server reports about itself.
#[derive(Debug, PartialEq)]
pub struct Info {
    pub node_version: NodeVersion,
    pub environment: String,
    pub coordinator: bool,
    pub starting: bool,
    pub uptime: String,
}

/// `v` is what the JSON value `j` describes.
pub open spec fn node_version_decodes(j: Json, v: NodeVersion) -> bool {
    &&& j is Object
    &&& as_string(field(j, "version"@)) == Some(v.version)
}

/// `info` is what the JSON value `j` describes.
pub open spec fn info_decodes(j: Json, info: Info) -> bool {
    &&& j is Object
    &&& (match field(j, "nodeVersion"@) {
        Some(v) => node_version_decodes(v, info.node_version),
        None => false,
    })
    &&& as_string(field(j, "environment"@)) == Some(info.environment)
    &&& as_bool(field(j, "coordinator"@)) == Some(info.coordinator)
    &&& as_bool(field(j, "starting"@)) == Some(info.starting)
    &&& as_string(field(j, "uptime"@)) == Some(info.uptime)
}

/// Length and end characters of the field names, which tell the names apart.
pub(crate) proof fn lemma_info_keys()
    ensures
        "nodeVersion"@ != "environment"@,
        "nodeVersion"@ != "coordinator"@,
        "environment"@ != "coordinator"@,
        "starting"@.len() == 8,
        "uptime"@.len() == 6,
        "nodeVersion"@.len() == 11,
        "environment"@.len() == 11,
        "coordinator"@.len() == 11,
{
    reveal_strlit("nodeVersion");
    reveal_strlit("environment");
    reveal_strlit("coordinator");
    reveal_strlit("starting");
    reveal_strlit("uptime");
    assert("nodeVersion"@[0] == 'n');
    assert("environment"@[0] == 'e');
    assert("coordinator"@[0] == 'c');
}

impl NodeVersion {
    pub fn from_json(j: Json) -> (r: Option<NodeVersion>)
        ensures
            match r {
                Some(v) => node_version_decodes(j, v),
                None => forall|v: NodeVersion| !node_version_decodes(j, v),
            },
    {
        match j {
            Json::Object(mut entries) => {
                let version = string_of(take_field(&mut entries, "version"))?;
                Some(NodeVersion { version })
            },
            _ => None,
        }
    }
}

impl Info {
    /// Decodes the server metadata held by `j`.
    pub fn from_json(j: Json) -> (r: Option<Info>)
        ensures
            match r {
                Some(info) => info_decodes(j, info),
                None => forall|info: Info| !info_decodes(j, info),
            },
    {
        proof {
            lemma_info_keys();
        }
        match j {
            Json::Object(mut entries) => {
                let node_version = match take_field(&mut entries, "nodeVersion") {
                    Some(v) => NodeVersion::from_json(v)?,
                    None => return None,
                };
                let environment = string_of(take_field(&mut entries, "environment"))?;
                let coordinator = bool_of(take_field(&mut entries, "coordinator"))?;
                let starting = bool_of(take_field(&mut entries, "starting"))?;
                let uptime = string_of(take_field(&mut entries, "uptime"))?;
                Some(Info { node_version, environment, coordinator, starting, uptime })
            },
            _ => None,
        }
    }
}

/// One argument of a column's type signature; its value is left as it came.
#[derive(Debug, PartialEq)]
pub struct ColumnTypeSignatureArguments {
    pub kind: String,
    pub value: Json,
}

/// The structured description of a column's SQL type.
#[derive(Debug, PartialEq)]
pub struct ColumnTypeSignature {
    pub raw_type: String,
    pub arguments: Vec<ColumnTypeSignatureArguments>,
}

/// Metadata of one result column.
#[derive(Debug, PartialEq)]
pub struct QueryResultColumn {
    pub name: String,
    pub sql_type: String,
    pub type_signature: ColumnTypeSignature,
}

/// One node of a statement's tree of execution stages.
#[derive(Debug, PartialEq)]
pub struct QueryStage {
    pub stage_id: String,
    pub state: QueryState,
    pub done: bool,
    pub nodes: u64,
    pub total_splits: u64,
    pub queued_splits: u64,
    pub running_splits: u64,
    pub completed_splits: u64,
    pub cpu_time_millis: u64,
    pub wall_time_millis: u64,
    pub processed_rows: u64,
    pub processed_bytes: u64,
    pub physical_input_bytes: u64,
    pub sub_stages: Vec<QueryStage>,
}

/// A snapshot of a statement's execution progress.
#[derive(Debug, PartialEq)]
pub struct QueryStats {
    pub state: QueryState,
    pub queued: bool,
    pub scheduled: bool,
    pub nodes: u64,
    pub total_splits: u64,
    pub queued_splits: u64,
    pub running_splits: u64,
    pub completed_splits: u64,
    pub cpu_time_millis: u64,
    pub wall_time_millis: u64,
    pub queued_time_millis: u64,
    pub elapsed_time_millis: u64,
    pub processed_rows: u64,
    pub processed_bytes: u64,
    pub physical_input_bytes: u64,
    pub peak_memory_bytes: u64,
    pub spilled_bytes: u64,
    pub root_stage: Option<QueryStage>,
    pub progress_percentage: Option<JsonNumber>,
}

/// One response of the statement protocol.
#[derive(Debug, PartialEq)]
pub struct QueryResults {
    pub id: String,
    pub info_uri: String,
    pub partial_cancel_uri: Option<String>,
    pub next_uri: Option<String>,
    pub columns: Option<Vec<QueryResultColumn>>,
    pub data: Option<Vec<Json>>,
    pub stats: QueryStats,
    pub warnings: Vec<String>,
}

/// `a` is what the JSON value `j` describes.
pub open spec fn argument_decodes(j: Json, a: ColumnTypeSignatureArguments) -> bool {
    &&& j is Object
    &&& as_string(field(j, "kind"@)) == Some(a.kind)
    &&& field(j, "value"@) == Some(a.value)
}

/// Each argument is what the item at its place describes.
pub open spec fn arguments_decode(items: Seq<Json>, args: Seq<ColumnTypeSignatureArguments>) -> bool {
    &&& items.len() == args.len()
    &&& forall|i: int| 0 <= i < items.len() ==> argument_decodes(items[i], #[trigger] args[i])
}

/// `s` is what the JSON value `j` describes.
pub open spec fn signature_decodes(j: Json, s: ColumnTypeSignature) -> bool {
    &&& j is Object
    &&& as_string(field(j, "rawType"@)) == Some(s.raw_type)
    &&& (match field(j, "arguments"@) {
        Some(Json::Array(items)) => arguments_decode(items@, s.arguments@),
        _ => false,
    })
}

/// `c` is what the JSON value `j` describes.
pub open spec fn column_decodes(j: Json, c: QueryResultColumn) -> bool {
    &&& j is Object
    &&& as_string(field(j, "name"@)) == Some(c.name)
    &&& as_string(field(j, "type"@)) == Some(c.sql_type)
    &&& (match field(j, "typeSignature"@) {
        Some(v) => signature_decodes(v, c.type_signature),
        None => false,
    })
}

/// Each column is what the item at its place describes.
pub open spec fn columns_decode(items: Seq<Json>, cols: Seq<QueryResultColumn>) -> bool {
    &&& items.len() == cols.len()
    &&& forall|i: int| 0 <= i < items.len() ==> column_decodes(items[i], #[trigger] cols[i])
}

/// `st`, with its whole subtree, is what the JSON value `j` describes.
pub open spec fn stage_decodes(j: Json, st: QueryStage) -> bool
    decreases st,
{
    &&& j is Object
    &&& as_string(field(j, "stageId"@)) == Some(st.stage_id)
    &&& state_decodes(field(j, "state"@), st.state)
    &&& as_bool(field(j, "done"@)) == Some(st.done)
    &&& as_u64(field(j, "nodes"@)) == Some(st.nodes)
    &&& as_u64(field(j, "totalSplits"@)) == Some(st.total_splits)
    &&& as_u64(field(j, "queuedSplits"@)) == Some(st.queued_splits)
    &&& as_u64(field(j, "runningSplits"@)) == Some(st.running_splits)
    &&& as_u64(field(j, "completedSplits"@)) == Some(st.completed_splits)
    &&& as_u64(field(j, "cpuTimeMillis"@)) == Some(st.cpu_time_millis)
    &&& as_u64(field(j, "wallTimeMillis"@)) == Some(st.wall_time_millis)
    &&& as_u64(field(j, "processedRows"@)) == Some(st.processed_rows)
    &&& as_u64(field(j, "processedBytes"@)) == Some(st.processed_bytes)
    &&& as_u64(field(j, "physicalInputBytes"@)) == Some(st.physical_input_bytes)
    &&& (match field(j, "subStages"@) {
        Some(Json::Array(items)) => {
            &&& items@.len() == st.sub_stages@.len()
            &&& forall|i: int|
                0 <= i < items@.len() ==> stage_decodes(items@[i], #[trigger] st.sub_stages@[i])
        },
        _ => false,
    })
}

/// `s` is what the JSON value `j` describes.
pub open spec fn stats_decodes(j: Json, s: QueryStats) -> bool {
    &&& j is Object
    &&& state_decodes(field(j, "state"@), s.state)
    &&& as_bool(field(j, "queued"@)) == Some(s.queued)
    &&& as_bool(field(j, "scheduled"@)) == Some(s.scheduled)
    &&& as_u64(field(j, "nodes"@)) == Some(s.nodes)
    &&& as_u64(field(j, "totalSplits"@)) == Some(s.total_splits)
    &&& as_u64(field(j, "queuedSplits"@)) == Some(s.queued_splits)
    &&& as_u64(field(j, "runningSplits"@)) == Some(s.running_splits)
    &&& as_u64(field(j, "completedSplits"@)) == Some(s.completed_splits)
    &&& as_u64(field(j, "cpuTimeMillis"@)) == Some(s.cpu_time_millis)
    &&& as_u64(field(j, "wallTimeMillis"@)) == Some(s.wall_time_millis)
    &&& as_u64(field(j, "queuedTimeMillis"@)) == Some(s.queued_time_millis)
    &&& as_u64(field(j, "elapsedTimeMillis"@)) == Some(s.elapsed_time_millis)
    &&& as_u64(field(j, "processedRows"@)) == Some(s.processed_rows)
    &&& as_u64(field(j, "processedBytes"@)) == Some(s.processed_bytes)
    &&& as_u64(field(j, "physicalInputBytes"@)) == Some(s.physical_input_bytes)
    &&& as_u64(field(j, "peakMemoryBytes"@)) == Some(s.peak_memory_bytes)
    &&& as_u64(field(j, "spilledBytes"@)) == Some(s.spilled_bytes)
    &&& (match field(j, "rootStage"@) {
        None => s.root_stage is None,
        Some(Json::Null) => s.root_stage is None,
        Some(v) => s.root_stage matches Some(st) && stage_decodes(v, st),
    })
    &&& as_opt_number(field(j, "progressPercentage"@)) == Some(s.progress_percentage)
}

/// `q` is what the JSON value `j` describes.
pub open spec fn results_decodes(j: Json, q: QueryResults) -> bool {
    &&& j is Object
    &&& as_string(field(j, "id"@)) == Some(q.id)
    &&& as_string(field(j, "infoUri"@)) == Some(q.info_uri)
    &&& as_opt_string(field(j, "partialCancelUri"@)) == Some(q.partial_cancel_uri)
    &&& as_opt_string(field(j, "nextUri"@)) == Some(q.next_uri)
    &&& (match field(j, "columns"@) {
        None => q.columns is None,
        Some(Json::Null) => q.columns is None,
        Some(Json::Array(items)) => q.columns matches Some(cols) && columns_decode(items@, cols@),
        _ => false,
    })
    &&& as_opt_array(field(j, "data"@)) == Some(q.data)
    &&& (match field(j, "stats"@) {
        Some(v) => stats_decodes(v, q.stats),
        None => false,
    })
    &&& (match field(j, "warnings"@) {
        Some(Json::Array(items)) => strings_match(items@, q.warnings@),
        _ => false,
    })
}

/// Length and end characters of the field names, which tell the names apart.
pub(crate) proof fn lemma_argument_keys()
    ensures
        "kind"@.len() == 4,
        "kind"@[0] == 'k',
        "kind"@[3] == 'd',
        "value"@.len() == 5,
        "value"@[0] == 'v',
        "value"@[4] == 'e',
{
    reveal_strlit("kind");
    reveal_strlit("value");
}

/// Length and end characters of the field names, which tell the names apart.
pub(crate) proof fn lemma_signature_keys()
    ensures
        "rawType"@.len() == 7,
        "rawType"@[0] == 'r',
        "rawType"@[6] == 'e',
        "arguments"@.len() == 9,
        "arguments"@[0] == 'a',
        "arguments"@[8] == 's',
{
    reveal_strlit("rawType");
    reveal_strlit("arguments");
}

/// Length and end characters of the field names, which tell the names apart.
pub(crate) proof fn lemma_column_keys()
    ensures
        "name"@.len() == 4,
        "name"@[0] == 'n',
        "name"@[3] == 'e',
        "type"@.len() == 4,
        "type"@[0] == 't',
        "type"@[3] == 'e',
        "typeSignature"@.len() == 13,
        "typeSignature"@[0] == 't',
        "typeSignature"@[12] == 'e',
{
    reveal_strlit("name");
    reveal_strlit("type");
    reveal_strlit("typeSignature");
}

/// Length and end characters of the field names, which tell the names apart.
pub(crate) proof fn lemma_stats_keys()
    ensures
        "state"@.len() == 5,
        "state"@[0] == 's',
        "state"@[4] == 'e',
        "queued"@.len() == 6,
        "queued"@[0] == 'q',
        "queued"@[5] == 'd',
        "scheduled"@.len() == 9,
        "scheduled"@[0] == 's',
        "scheduled"@[8] == 'd',
        "nodes"@.len() == 5,
        "nodes"@[0] == 'n',
        "nodes"@[4] == 's',
        "totalSplits"@.len() == 11,
        "totalSplits"@[0] == 't',
        "totalSplits"@[10] == 's',
        "queuedSplits"@.len() == 12,
        "queuedSplits"@[0] == 'q',
        "queuedSplits"@[11] == 's',
        "runningSplits"@.len() == 13,
        "runningSplits"@[0] == 'r',
        "runningSplits"@[12] == 's',
        "completedSplits"@.len() == 15,
        "completedSplits"@[0] == 'c',
        "completedSplits"@[14] == 's',
        "cpuTimeMillis"@.len() == 13,
        "cpuTimeMillis"@[0] == 'c',
        "cpuTimeMillis"@[12] == 's',
        "wallTimeMillis"@.len() == 14,
        "wallTimeMillis"@[0] == 'w',
        "wallTimeMillis"@[13] == 's',
        "queuedTimeMillis"@.len() == 16,
        "queuedTimeMillis"@[0] == 'q',
        "queuedTimeMillis"@[15] == 's',
        "elapsedTimeMillis"@.len() == 17,
        "elapsedTimeMillis"@[0] == 'e',
        "elapsedTimeMillis"@[16] == 's',
        "processedRows"@.len() == 13,
        "processedRows"@[0] == 'p',
        "processedRows"@[12] == 's',
        "processedBytes"@.len() == 14,
        "processedBytes"@[0] == 'p',
        "processedBytes"@[13] == 's',
        "physicalInputBytes"@.len() == 18,
        "physicalInputBytes"@[0] == 'p',
        "physicalInputBytes"@[17] == 's',
        "peakMemoryBytes"@.len() == 15,
        "peakMemoryBytes"@[0] == 'p',
        "peakMemoryBytes"@[14] == 's',
        "spilledBytes"@.len() == 12,
        "spilledBytes"@[0] == 's',
        "spilledBytes"@[11] == 's',
        "rootStage"@.len() == 9,
        "rootStage"@[0] == 'r',
        "rootStage"@[8] == 'e',
        "progressPercentage"@.len() == 18,
        "progressPercentage"@[0] == 'p',
        "progressPercentage"@[17] == 'e',
{
    reveal_strlit("state");
    reveal_strlit("queued");
    reveal_strlit("scheduled");
    reveal_strlit("nodes");
    reveal_strlit("totalSplits");
    reveal_strlit("queuedSplits");
    reveal_strlit("runningSplits");
    reveal_strlit("completedSplits");
    reveal_strlit("cpuTimeMillis");
    reveal_strlit("wallTimeMillis");
    reveal_strlit("queuedTimeMillis");
    reveal_strlit("elapsedTimeMillis");
    reveal_strlit("processedRows");
    reveal_strlit("processedBytes");
    reveal_strlit("physicalInputBytes");
    reveal_strlit("peakMemoryBytes");
    reveal_strlit("spilledBytes");
    reveal_strlit("rootStage");
    reveal_strlit("progressPercentage");
}

/// Length and end characters of the field names, which tell the names apart.
pub(crate) proof fn lemma_stage_keys()
    ensures
        "stageId"@.len() == 7,
        "stageId"@[0] == 's',
        "stageId"@[6] == 'd',
        "state"@.len() == 5,
        "state"@[0] == 's',
        "state"@[4] == 'e',
        "done"@.len() == 4,
        "done"@[0] == 'd',
        "done"@[3] == 'e',
        "nodes"@.len() == 5,
        "nodes"@[0] == 'n',
        "nodes"@[4] == 's',
        "totalSplits"@.len() == 11,
        "totalSplits"@[0] == 't',
        "totalSplits"@[10] == 's',
        "queuedSplits"@.len() == 12,
        "queuedSplits"@[0] == 'q',
        "queuedSplits"@[11] == 's',
        "runningSplits"@.len() == 13,
        "runningSplits"@[0] == 'r',
        "runningSplits"@[12] == 's',
        "completedSplits"@.len() == 15,
        "completedSplits"@[0] == 'c',
        "completedSplits"@[14] == 's',
        "cpuTimeMillis"@.len() == 13,
        "cpuTimeMillis"@[0] == 'c',
        "cpuTimeMillis"@[12] == 's',
        "wallTimeMillis"@.len() == 14,
        "wallTimeMillis"@[0] == 'w',
        "wallTimeMillis"@[13] == 's',
        "processedRows"@.len() == 13,
        "processedRows"@[0] == 'p',
        "processedRows"@[12] == 's',
        "processedBytes"@.len() == 14,
        "processedBytes"@[0] == 'p',
        "processedBytes"@[13] == 's',
        "physicalInputBytes"@.len() == 18,
        "physicalInputBytes"@[0] == 'p',
        "physicalInputBytes"@[17] == 's',
        "subStages"@.len() == 9,
        "subStages"@[0] == 's',
        "subStages"@[8] == 's',
{
    reveal_strlit("stageId");
    reveal_strlit("state");
    reveal_strlit("done");
    reveal_strlit("nodes");
    reveal_strlit("totalSplits");
    reveal_strlit("queuedSplits");
    reveal_strlit("runningSplits");
    reveal_strlit("completedSplits");
    reveal_strlit("cpuTimeMillis");
    reveal_strlit("wallTimeMillis");
    reveal_strlit("processedRows");
    reveal_strlit("processedBytes");
    reveal_strlit("physicalInputBytes");
    reveal_strlit("subStages");
}

/// Length and end characters of the field names, which tell the names apart.
pub(crate) proof fn lemma_results_keys()
    ensures
        "id"@.len() == 2,
        "id"@[0] == 'i',
        "id"@[1] == 'd',
        "infoUri"@.len() == 7,
        "infoUri"@[0] == 'i',
        "infoUri"@[6] == 'i',
        "partialCancelUri"@.len() == 16,
        "partialCancelUri"@[0] == 'p',
        "partialCancelUri"@[15] == 'i',
        "nextUri"@.len() == 7,
        "nextUri"@[0] == 'n',
        "nextUri"@[6] == 'i',
        "columns"@.len() == 7,
        "columns"@[0] == 'c',
        "columns"@[6] == 's',
        "data"@.len() == 4,
        "data"@[0] == 'd',
        "data"@[3] == 'a',
        "stats"@.len() == 5,
        "stats"@[0] == 's',
        "stats"@[4] == 's',
        "warnings"@.len() == 8,
        "warnings"@[0] == 'w',
        "warnings"@[7] == 's',
{
    reveal_strlit("id");
    reveal_strlit("infoUri");
    reveal_strlit("partialCancelUri");
    reveal_strlit("nextUri");
    reveal_strlit("columns");
    reveal_strlit("data");
    reveal_strlit("stats");
    reveal_strlit("warnings");
}

impl ColumnTypeSignatureArguments {
    pub fn from_json(j: Json) -> (r: Option<ColumnTypeSignatureArguments>)
        ensures
            match r {
                Some(a) => argument_decodes(j, a),
                None => forall|a: ColumnTypeSignatureArguments| !argument_decodes(j, a),
            },
    {
        proof {
            lemma_argument_keys();
        }
        match j {
            Json::Object(mut entries) => {
                let kind = string_of(take_field(&mut entries, "kind"))?;
                let value = take_field(&mut entries, "value")?;
                Some(ColumnTypeSignatureArguments { kind, value })
            },
            _ => None,
        }
    }

    /// Decodes every item of an array of arguments; fails if one fails.
    pub fn list_from_json(items: Vec<Json>) -> (r: Option<Vec<ColumnTypeSignatureArguments>>)
        ensures
            match r {
                Some(args) => arguments_decode(items@, args@),
                None => forall|args: Seq<ColumnTypeSignatureArguments>| !arguments_decode(items@, args),
            },
    {
        let ghost all = items@;
        let mut rest = items;
        let mut out: Vec<ColumnTypeSignatureArguments> = Vec::new();
        while rest.len() > 0
            invariant
                all == items@,
                out@.len() + rest@.len() == all.len(),
                rest@ == all.subrange(out@.len() as int, all.len() as int),
                forall|i: int| 0 <= i < out@.len() ==> argument_decodes(all[i], #[trigger] out@[i]),
            decreases rest.len(),
        {
            let ghost k = out@.len() as int;
            let item = rest.remove(0);
            assert(item == all[k]);
            match ColumnTypeSignatureArguments::from_json(item) {
                Some(a) => out.push(a),
                None => {
                    assert forall|args: Seq<ColumnTypeSignatureArguments>| !arguments_decode(items@, args) by {
                        if arguments_decode(items@, args) {
                            assert(argument_decodes(all[k], args[k]));
                        }
                    }
                    return None;
                },
            }
            assert(rest@ =~= all.subrange(out@.len() as int, all.len() as int));
        }
        Some(out)
    }
}

impl ColumnTypeSignature {
    pub fn from_json(j: Json) -> (r: Option<ColumnTypeSignature>)
        ensures
            match r {
                Some(s) => signature_decodes(j, s),
                None => forall|s: ColumnTypeSignature| !signature_decodes(j, s),
            },
    {
        proof {
            lemma_signature_keys();
        }
        match j {
            Json::Object(mut entries) => {
                let raw_type = string_of(take_field(&mut entries, "rawType"))?;
                let arguments = match take_field(&mut entries, "arguments") {
                    Some(Json::Array(items)) => ColumnTypeSignatureArguments::list_from_json(items)?,
                    _ => return None,
                };
                Some(ColumnTypeSignature { raw_type, arguments })
            },
            _ => None,
        }
    }
}

impl QueryResultColumn {
    pub fn from_json(j: Json) -> (r: Option<QueryResultColumn>)
        ensures
            match r {
                Some(c) => column_decodes(j, c),
                None => forall|c: QueryResultColumn| !column_decodes(j, c),
            },
    {
        proof {
            lemma_column_keys();
        }
        match j {
            Json::Object(mut entries) => {
                let name = string_of(take_field(&mut entries, "name"))?;
                let sql_type = string_of(take_field(&mut entries, "type"))?;
                let type_signature = match take_field(&mut entries, "typeSignature") {
                    Some(v) => ColumnTypeSignature::from_json(v)?,
                    None => return None,
                };
                Some(QueryResultColumn { name, sql_type, type_signature })
            },
            _ => None,
        }
    }

    /// Decodes every item of an array of columns; fails if one fails.
    pub fn list_from_json(items: Vec<Json>) -> (r: Option<Vec<QueryResultColumn>>)
        ensures
            match r {
                Some(cols) => columns_decode(items@, cols@),
                None => forall|cols: Seq<QueryResultColumn>| !columns_decode(items@, cols),
            },
    {
        let ghost all = items@;
        let mut rest = items;
        let mut out: Vec<QueryResultColumn> = Vec::new();
        while rest.len() > 0
            invariant
                all == items@,
                out@.len() + rest@.len() == all.len(),
                rest@ == all.subrange(out@.len() as int, all.len() as int),
                forall|i: int| 0 <= i < out@.len() ==> column_decodes(all[i], #[trigger] out@[i]),
            decreases rest.len(),
        {
            let ghost k = out@.len() as int;
            let item = rest.remove(0);
            assert(item == all[k]);
            match QueryResultColumn::from_json(item) {
                Some(c) => out.push(c),
                None => {
                    assert forall|cols: Seq<QueryResultColumn>| !columns_decode(items@, cols) by {
                        if columns_decode(items@, cols) {
                            assert(column_decodes(all[k], cols[k]));
                        }
                    }
                    return None;
                },
            }
            assert(rest@ =~= all.subrange(out@.len() as int, all.len() as int));
        }
        Some(out)
    }
}

impl QueryStage {
    /// Decodes a stage together with its whole subtree.
    pub fn from_json(j: Json) -> (r: Option<QueryStage>)
        ensures
            match r {
                Some(st) => stage_decodes(j, st),
                None => forall|st: QueryStage| !stage_decodes(j, st),
            },
        decreases j,
    {
        proof {
            lemma_stage_keys();
        }
        match j {
            Json::Object(mut entries) => {
                let ghost whole = entries@;
                proof {
                    lemma_field_in_decreases(whole, "subStages"@);
                }
                let stage_id = string_of(take_field(&mut entries, "stageId"))?;
                let state = state_of(take_field(&mut entries, "state"))?;
                let done = bool_of(take_field(&mut entries, "done"))?;
                let nodes = u64_of(take_field(&mut entries, "nodes"))?;
                let total_splits = u64_of(take_field(&mut entries, "totalSplits"))?;
                let queued_splits = u64_of(take_field(&mut entries, "queuedSplits"))?;
                let running_splits = u64_of(take_field(&mut entries, "runningSplits"))?;
                let completed_splits = u64_of(take_field(&mut entries, "completedSplits"))?;
                let cpu_time_millis = u64_of(take_field(&mut entries, "cpuTimeMillis"))?;
                let wall_time_millis = u64_of(take_field(&mut entries, "wallTimeMillis"))?;
                let processed_rows = u64_of(take_field(&mut entries, "processedRows"))?;
                let processed_bytes = u64_of(take_field(&mut entries, "processedBytes"))?;
                let physical_input_bytes = u64_of(take_field(&mut entries, "physicalInputBytes"))?;
                let items = match take_field(&mut entries, "subStages") {
                    Some(Json::Array(items)) => items,
                    _ => return None,
                };
                assert(decreases_to!(j => items@));
                let ghost all = items@;
                let mut rest = items;
                let mut sub_stages: Vec<QueryStage> = Vec::new();
                while rest.len() > 0
                    invariant
                        all == items@,
                        field(j, "subStages"@) matches Some(Json::Array(v)) && v@ == all,
                        decreases_to!(j => all),
                        sub_stages@.len() + rest@.len() == all.len(),
                        rest@ == all.subrange(sub_stages@.len() as int, all.len() as int),
                        forall|i: int|
                            0 <= i < sub_stages@.len() ==> stage_decodes(all[i], #[trigger] sub_stages@[i]),
                    decreases rest.len(),
                {
                    let ghost k = sub_stages@.len() as int;
                    let item = rest.remove(0);
                    assert(item == all[k]);
                    assert(decreases_to!(all => all[k]));
                    match QueryStage::from_json(item) {
                        Some(st) => sub_stages.push(st),
                        None => {
                            assert forall|st: QueryStage| !stage_decodes(j, st) by {
                                if stage_decodes(j, st) {
                                    assert(stage_decodes(all[k], st.sub_stages@[k]));
                                }
                            }
                            return None;
                        },
                    }
                    assert(rest@ =~= all.subrange(sub_stages@.len() as int, all.len() as int));
                }
                Some(QueryStage {
                    stage_id,
                    state,
                    done,
                    nodes,
                    total_splits,
                    queued_splits,
                    running_splits,
                    completed_splits,
                    cpu_time_millis,
                    wall_time_millis,
                    processed_rows,
                    processed_bytes,
                    physical_input_bytes,
                    sub_stages,
                })
            },
            _ => None,
        }
    }
}

impl QueryStats {
    pub fn from_json(j: Json) -> (r: Option<QueryStats>)
        ensures
            match r {
                Some(s) => stats_decodes(j, s),
                None => forall|s: QueryStats| !stats_decodes(j, s),
            },
    {
        proof {
            lemma_stats_keys();
        }
        match j {
            Json::Object(mut entries) => {
                let state = state_of(take_field(&mut entries, "state"))?;
                let queued = bool_of(take_field(&mut entries, "queued"))?;
                let scheduled = bool_of(take_field(&mut entries, "scheduled"))?;
                let nodes = u64_of(take_field(&mut entries, "nodes"))?;
                let total_splits = u64_of(take_field(&mut entries, "totalSplits"))?;
                let queued_splits = u64_of(take_field(&mut entries, "queuedSplits"))?;
                let running_splits = u64_of(take_field(&mut entries, "runningSplits"))?;
                let completed_splits = u64_of(take_field(&mut entries, "completedSplits"))?;
                let cpu_time_millis = u64_of(take_field(&mut entries, "cpuTimeMillis"))?;
                let wall_time_millis = u64_of(take_field(&mut entries, "wallTimeMillis"))?;
                let queued_time_millis = u64_of(take_field(&mut entries, "queuedTimeMillis"))?;
                let elapsed_time_millis = u64_of(take_field(&mut entries, "elapsedTimeMillis"))?;
                let processed_rows = u64_of(take_field(&mut entries, "processedRows"))?;
                let processed_bytes = u64_of(take_field(&mut entries, "processedBytes"))?;
                let physical_input_bytes = u64_of(take_field(&mut entries, "physicalInputBytes"))?;
                let peak_memory_bytes = u64_of(take_field(&mut entries, "peakMemoryBytes"))?;
                let spilled_bytes = u64_of(take_field(&mut entries, "spilledBytes"))?;
                let root_stage = match take_field(&mut entries, "rootStage") {
                    None => None,
                    Some(Json::Null) => None,
                    Some(v) => Some(QueryStage::from_json(v)?),
                };
                let progress_percentage = opt_number_of(take_field(&mut entries, "progressPercentage"))?;
                Some(QueryStats {
                    state,
                    queued,
                    scheduled,
                    nodes,
                    total_splits,
                    queued_splits,
                    running_splits,
                    completed_splits,
                    cpu_time_millis,
                    wall_time_millis,
                    queued_time_millis,
                    elapsed_time_millis,
                    processed_rows,
                    processed_bytes,
                    physical_input_bytes,
                    peak_memory_bytes,
                    spilled_bytes,
                    root_stage,
                    progress_percentage,
                })
            },
            _ => None,
        }
    }
}

impl QueryResults {
    /// Decodes one response of the statement protocol.
    pub fn from_json(j: Json) -> (r: Option<QueryResults>)
        ensures
            match r {
                Some(q) => results_decodes(j, q),
                None => forall|q: QueryResults| !results_decodes(j, q),
            },
    {
        proof {
            lemma_results_keys();
        }
        match j {
            Json::Object(mut entries) => {
                let id = string_of(take_field(&mut entries, "id"))?;
                let info_uri = string_of(take_field(&mut entries, "infoUri"))?;
                let partial_cancel_uri = opt_string_of(take_field(&mut entries, "partialCancelUri"))?;
                let next_uri = opt_string_of(take_field(&mut entries, "nextUri"))?;
                let columns = match take_field(&mut entries, "columns") {
                    None => None,
                    Some(Json::Null) => None,
                    Some(Json::Array(items)) => Some(QueryResultColumn::list_from_json(items)?),
                    _ => return None,
                };
                let data = opt_array_of(take_field(&mut entries, "data"))?;
                let stats = match take_field(&mut entries, "stats") {
                    Some(v) => QueryStats::from_json(v)?,
                    None => return None,
                };
                let warnings = match take_field(&mut entries, "warnings") {
                    Some(Json::Array(items)) => strings_of(items)?,
                    _ => return None,
                };
                Some(QueryResults {
                    id,
                    info_uri,
                    partial_cancel_uri,
                    next_uri,
                    columns,
                    data,
                    stats,
                    warnings,
                })
            },
            _ => None,
        }
    }
}

} // verus!
