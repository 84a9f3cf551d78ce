use vstd::prelude::*;
use crate::json::{
    as_opt_string, field, put, strings_into_json, Json, JsonNumber,
};
use crate::response::{
    argument_decodes, column_decodes, columns_decode, lemma_argument_keys, lemma_column_keys,
    lemma_results_keys, lemma_signature_keys, lemma_stage_keys, lemma_stats_keys,
    lemma_wire_injective, results_decodes, signature_decodes, stage_decodes, stats_decodes,
    ColumnTypeSignature, ColumnTypeSignatureArguments, QueryResultColumn, QueryResults,
    QueryStage, QueryState, QueryStats,
};

verus! {

impl QueryState {
    /// The state's name on the wire.
    pub fn wire_text(self) -> (r: String)
        ensures
            r@ == self.wire(),
    {
        let name = match self {
            QueryState::Aborted => "ABORTED",
            QueryState::Failed => "FAILED",
            QueryState::Finished => "FINISHED",
            QueryState::Finishing => "FINISHING",
            QueryState::Flushing => "FLUSHING",
            QueryState::Queued => "QUEUED",
            QueryState::Running => "RUNNING",
            QueryState::Scheduled => "SCHEDULED",
        };
        let r = name.to_string();
        proof {
            vstd::string::to_string_from_display_ensures_for_str(name, r);
        }
        r
    }
}

fn opt_string_into_json(s: Option<String>) -> (r: Json)
    ensures
        as_opt_string(Some(r)) == Some(s),
{
    match s {
        Some(s) => Json::Str(s),
        None => Json::Null,
    }
}

impl ColumnTypeSignatureArguments {
    /// The JSON object that decodes back to this argument.
    pub fn into_json(self) -> (r: Json)
        ensures
            argument_decodes(r, self),
    {
        proof {
            lemma_argument_keys();
        }
        let mut e: Vec<(String, Json)> = Vec::new();
        put(&mut e, "kind", Json::Str(self.kind));
        put(&mut e, "value", self.value);
        Json::Object(e)
    }
}

impl ColumnTypeSignature {
    /// The JSON object that decodes back to this signature.
    pub fn into_json(self) -> (r: Json)
        ensures
            signature_decodes(r, self),
    {
        proof {
            lemma_signature_keys();
        }
        let ghost args = self.arguments@;
        let mut rest = self.arguments;
        let mut items: Vec<Json> = Vec::new();
        while rest.len() > 0
            invariant
                items@.len() + rest@.len() == args.len(),
                rest@ == args.subrange(items@.len() as int, args.len() as int),
                forall|i: int| 0 <= i < items@.len() ==> argument_decodes(#[trigger] items@[i], args[i]),
            decreases rest.len(),
        {
            let ghost k = items@.len() as int;
            let a = rest.remove(0);
            assert(a == args[k]);
            items.push(a.into_json());
            assert(rest@ =~= args.subrange(items@.len() as int, args.len() as int));
        }
        let mut e: Vec<(String, Json)> = Vec::new();
        put(&mut e, "rawType", Json::Str(self.raw_type));
        put(&mut e, "arguments", Json::Array(items));
        Json::Object(e)
    }
}

impl QueryResultColumn {
    /// The JSON object that decodes back to this column.
    pub fn into_json(self) -> (r: Json)
        ensures
            column_decodes(r, self),
    {
        proof {
            lemma_column_keys();
        }
        let mut e: Vec<(String, Json)> = Vec::new();
        put(&mut e, "name", Json::Str(self.name));
        put(&mut e, "type", Json::Str(self.sql_type));
        put(&mut e, "typeSignature", self.type_signature.into_json());
        Json::Object(e)
    }

    /// The JSON array that decodes back to these columns.
    pub fn list_into_json(cols: Vec<QueryResultColumn>) -> (r: Vec<Json>)
        ensures
            columns_decode(r@, cols@),
    {
        let ghost all = cols@;
        let mut rest = cols;
        let mut items: Vec<Json> = Vec::new();
        while rest.len() > 0
            invariant
                all == cols@,
                items@.len() + rest@.len() == all.len(),
                rest@ == all.subrange(items@.len() as int, all.len() as int),
                forall|i: int| 0 <= i < items@.len() ==> column_decodes(#[trigger] items@[i], all[i]),
            decreases rest.len(),
        {
            let ghost k = items@.len() as int;
            let c = rest.remove(0);
            assert(c == all[k]);
            items.push(c.into_json());
            assert(rest@ =~= all.subrange(items@.len() as int, all.len() as int));
        }
        items
    }
}

impl QueryStage {
    /// The JSON object that decodes back to this stage and its whole subtree.
    pub fn into_json(self) -> (r: Json)
        ensures
            stage_decodes(r, self),
        decreases self,
    {
        proof {
            lemma_stage_keys();
        }
        let ghost subs = self.sub_stages@;
        let ghost whole = self;
        let mut e: Vec<(String, Json)> = Vec::new();
        put(&mut e, "stageId", Json::Str(self.stage_id));
        put(&mut e, "state", Json::Str(self.state.wire_text()));
        put(&mut e, "done", Json::Bool(self.done));
        put(&mut e, "nodes", Json::Number(JsonNumber::Unsigned(self.nodes)));
        put(&mut e, "totalSplits", Json::Number(JsonNumber::Unsigned(self.total_splits)));
        put(&mut e, "queuedSplits", Json::Number(JsonNumber::Unsigned(self.queued_splits)));
        put(&mut e, "runningSplits", Json::Number(JsonNumber::Unsigned(self.running_splits)));
        put(&mut e, "completedSplits", Json::Number(JsonNumber::Unsigned(self.completed_splits)));
        put(&mut e, "cpuTimeMillis", Json::Number(JsonNumber::Unsigned(self.cpu_time_millis)));
        put(&mut e, "wallTimeMillis", Json::Number(JsonNumber::Unsigned(self.wall_time_millis)));
        put(&mut e, "processedRows", Json::Number(JsonNumber::Unsigned(self.processed_rows)));
        put(&mut e, "processedBytes", Json::Number(JsonNumber::Unsigned(self.processed_bytes)));
        put(&mut e, "physicalInputBytes", Json::Number(JsonNumber::Unsigned(self.physical_input_bytes)));
        let mut rest = self.sub_stages;
        let mut items: Vec<Json> = Vec::new();
        while rest.len() > 0
            invariant
                subs == whole.sub_stages@,
                whole == self,
                items@.len() + rest@.len() == subs.len(),
                rest@ == subs.subrange(items@.len() as int, subs.len() as int),
                forall|i: int| 0 <= i < items@.len() ==> stage_decodes(#[trigger] items@[i], subs[i]),
            decreases rest.len(),
        {
            let ghost k = items@.len() as int;
            let st = rest.remove(0);
            assert(st == subs[k]);
            assert(decreases_to!(whole => whole.sub_stages@[k]));
            items.push(st.into_json());
            assert(rest@ =~= subs.subrange(items@.len() as int, subs.len() as int));
        }
        put(&mut e, "subStages", Json::Array(items));
        Json::Object(e)
    }
}

impl QueryStats {
    /// The JSON object that decodes back to these statistics.
    pub fn into_json(self) -> (r: Json)
        ensures
            stats_decodes(r, self),
    {
        proof {
            lemma_stats_keys();
        }
        let mut e: Vec<(String, Json)> = Vec::new();
        put(&mut e, "state", Json::Str(self.state.wire_text()));
        put(&mut e, "queued", Json::Bool(self.queued));
        put(&mut e, "scheduled", Json::Bool(self.scheduled));
        put(&mut e, "nodes", Json::Number(JsonNumber::Unsigned(self.nodes)));
        put(&mut e, "totalSplits", Json::Number(JsonNumber::Unsigned(self.total_splits)));
        put(&mut e, "queuedSplits", Json::Number(JsonNumber::Unsigned(self.queued_splits)));
        put(&mut e, "runningSplits", Json::Number(JsonNumber::Unsigned(self.running_splits)));
        put(&mut e, "completedSplits", Json::Number(JsonNumber::Unsigned(self.completed_splits)));
        put(&mut e, "cpuTimeMillis", Json::Number(JsonNumber::Unsigned(self.cpu_time_millis)));
        put(&mut e, "wallTimeMillis", Json::Number(JsonNumber::Unsigned(self.wall_time_millis)));
        put(&mut e, "queuedTimeMillis", Json::Number(JsonNumber::Unsigned(self.queued_time_millis)));
        put(&mut e, "elapsedTimeMillis", Json::Number(JsonNumber::Unsigned(self.elapsed_time_millis)));
        put(&mut e, "processedRows", Json::Number(JsonNumber::Unsigned(self.processed_rows)));
        put(&mut e, "processedBytes", Json::Number(JsonNumber::Unsigned(self.processed_bytes)));
        put(&mut e, "physicalInputBytes", Json::Number(JsonNumber::Unsigned(self.physical_input_bytes)));
        put(&mut e, "peakMemoryBytes", Json::Number(JsonNumber::Unsigned(self.peak_memory_bytes)));
        put(&mut e, "spilledBytes", Json::Number(JsonNumber::Unsigned(self.spilled_bytes)));
        let root = match self.root_stage {
            Some(st) => st.into_json(),
            None => Json::Null,
        };
        put(&mut e, "rootStage", root);
        let progress = match self.progress_percentage {
            Some(n) => Json::Number(n),
            None => Json::Null,
        };
        put(&mut e, "progressPercentage", progress);
        Json::Object(e)
    }
}

impl QueryResults {
    /// The JSON object that decodes back to this response.
    pub fn into_json(self) -> (r: Json)
        ensures
            results_decodes(r, self),
    {
        proof {
            lemma_results_keys();
        }
        let mut e: Vec<(String, Json)> = Vec::new();
        put(&mut e, "id", Json::Str(self.id));
        put(&mut e, "infoUri", Json::Str(self.info_uri));
        put(&mut e, "partialCancelUri", opt_string_into_json(self.partial_cancel_uri));
        put(&mut e, "nextUri", opt_string_into_json(self.next_uri));
        let columns = match self.columns {
            Some(cols) => Json::Array(QueryResultColumn::list_into_json(cols)),
            None => Json::Null,
        };
        put(&mut e, "columns", columns);
        let data = match self.data {
            Some(rows) => Json::Array(rows),
            None => Json::Null,
        };
        put(&mut e, "data", data);
        put(&mut e, "stats", self.stats.into_json());
        put(&mut e, "warnings", Json::Array(strings_into_json(self.warnings)));
        Json::Object(e)
    }
}

/// Two signatures with equal fields.
pub open spec fn same_signature(a: ColumnTypeSignature, b: ColumnTypeSignature) -> bool {
    &&& a.raw_type == b.raw_type
    &&& a.arguments@ == b.arguments@
}

/// Two column lists with equal fields, place by place.
pub open spec fn same_columns(a: Seq<QueryResultColumn>, b: Seq<QueryResultColumn>) -> bool {
    &&& a.len() == b.len()
    &&& forall|i: int| 0 <= i < a.len() ==> {
        &&& (#[trigger] a[i]).name == b[i].name
        &&& a[i].sql_type == b[i].sql_type
        &&& same_signature(a[i].type_signature, b[i].type_signature)
    }
}

/// Two stage trees with equal fields, node by node.
pub open spec fn same_stage(a: QueryStage, b: QueryStage) -> bool
    decreases a,
{
    &&& a.stage_id == b.stage_id
    &&& a.state == b.state
    &&& a.done == b.done
    &&& a.nodes == b.nodes
    &&& a.total_splits == b.total_splits
    &&& a.queued_splits == b.queued_splits
    &&& a.running_splits == b.running_splits
    &&& a.completed_splits == b.completed_splits
    &&& a.cpu_time_millis == b.cpu_time_millis
    &&& a.wall_time_millis == b.wall_time_millis
    &&& a.processed_rows == b.processed_rows
    &&& a.processed_bytes == b.processed_bytes
    &&& a.physical_input_bytes == b.physical_input_bytes
    &&& a.sub_stages@.len() == b.sub_stages@.len()
    &&& forall|i: int|
        0 <= i < a.sub_stages@.len() ==> same_stage(#[trigger] a.sub_stages@[i], b.sub_stages@[i])
}

/// Two statistics snapshots with equal fields.
pub open spec fn same_stats(a: QueryStats, b: QueryStats) -> bool {
    &&& a.state == b.state
    &&& a.queued == b.queued
    &&& a.scheduled == b.scheduled
    &&& a.nodes == b.nodes
    &&& a.total_splits == b.total_splits
    &&& a.queued_splits == b.queued_splits
    &&& a.running_splits == b.running_splits
    &&& a.completed_splits == b.completed_splits
    &&& a.cpu_time_millis == b.cpu_time_millis
    &&& a.wall_time_millis == b.wall_time_millis
    &&& a.queued_time_millis == b.queued_time_millis
    &&& a.elapsed_time_millis == b.elapsed_time_millis
    &&& a.processed_rows == b.processed_rows
    &&& a.processed_bytes == b.processed_bytes
    &&& a.physical_input_bytes == b.physical_input_bytes
    &&& a.peak_memory_bytes == b.peak_memory_bytes
    &&& a.spilled_bytes == b.spilled_bytes
    &&& (match (a.root_stage, b.root_stage) {
        (Some(x), Some(y)) => same_stage(x, y),
        (None, None) => true,
        _ => false,
    })
    &&& a.progress_percentage == b.progress_percentage
}

/// Two responses with equal fields.
pub open spec fn same_results(a: QueryResults, b: QueryResults) -> bool {
    &&& a.id == b.id
    &&& a.info_uri == b.info_uri
    &&& a.partial_cancel_uri == b.partial_cancel_uri
    &&& a.next_uri == b.next_uri
    &&& (match (a.columns, b.columns) {
        (Some(x), Some(y)) => same_columns(x@, y@),
        (None, None) => true,
        _ => false,
    })
    &&& a.data == b.data
    &&& same_stats(a.stats, b.stats)
    &&& a.warnings@ == b.warnings@
}

proof fn lemma_stage_unique(j: Json, a: QueryStage, b: QueryStage)
    requires
        stage_decodes(j, a),
        stage_decodes(j, b),
    ensures
        same_stage(a, b),
    decreases a,
{
    lemma_wire_injective(a.state, b.state);
    if let Some(Json::Array(items)) = field(j, "subStages"@) {
        assert forall|i: int| 0 <= i < a.sub_stages@.len() implies same_stage(
            #[trigger] a.sub_stages@[i],
            b.sub_stages@[i],
        ) by {
            assert(decreases_to!(a => a.sub_stages@[i]));
            lemma_stage_unique(items@[i], a.sub_stages@[i], b.sub_stages@[i]);
        }
    }
}

/// Decoding is a function of the JSON: two responses decoded from one value agree in
/// every field.
pub proof fn lemma_decoding_is_unique(j: Json, a: QueryResults, b: QueryResults)
    requires
        results_decodes(j, a),
        results_decodes(j, b),
    ensures
        same_results(a, b),
{
    lemma_wire_injective(a.stats.state, b.stats.state);
    if let (Some(x), Some(y)) = (a.columns, b.columns) {
        if let Some(Json::Array(items)) = field(j, "columns"@) {
            assert forall|i: int| 0 <= i < x@.len() implies same_signature(
                (#[trigger] x@[i]).type_signature,
                y@[i].type_signature,
            ) by {
                assert(column_decodes(items@[i], x@[i]));
                assert(column_decodes(items@[i], y@[i]));
                if let Some(Json::Array(args)) = field(field(items@[i], "typeSignature"@).unwrap(), "arguments"@) {
                    assert(x@[i].type_signature.arguments@ =~= y@[i].type_signature.arguments@) by {
                        assert forall|k: int| 0 <= k < args@.len() implies
                            x@[i].type_signature.arguments@[k] == y@[i].type_signature.arguments@[k] by {
                            assert(argument_decodes(args@[k], x@[i].type_signature.arguments@[k]));
                            assert(argument_decodes(args@[k], y@[i].type_signature.arguments@[k]));
                        }
                    }
                }
            }
        }
    }
    if let (Some(x), Some(y)) = (a.stats.root_stage, b.stats.root_stage) {
        lemma_stage_unique(field(field(j, "stats"@).unwrap(), "rootStage"@).unwrap(), x, y);
    }
    if let Some(Json::Array(items)) = field(j, "warnings"@) {
        assert(a.warnings@ =~= b.warnings@) by {
            assert forall|k: int| 0 <= k < items@.len() implies a.warnings@[k] == b.warnings@[k] by {
                assert(items@[k] == Json::Str(a.warnings@[k]));
                assert(items@[k] == Json::Str(b.warnings@[k]));
            }
        }
    }
}

/// Encoding a response and decoding the result again gives back every field value: the
/// object that `into_json` returns for `q` decodes to `q`, and anything decoded from it
/// agrees with `q` in every field.
pub proof fn lemma_round_trip(q: QueryResults, j: Json, back: QueryResults)
    requires
        results_decodes(j, q),
        results_decodes(j, back),
    ensures
        same_results(q, back),
{
    lemma_decoding_is_unique(j, q, back);
}

} // verus!
