//! Where the Codex message fields live: for each field, the JSON paths tried in turn,
//! and a verified accessor that reads the field by them.
use vstd::prelude::*;
use crate::json::{
    JsonValue, first_str, first_i64, first_bool, json_path, paths_view, path_view, first_str_at,
    first_i64_at, first_bool_at, at, opt_str, opt_json,
};

verus! {

pub open spec fn delta_paths() -> Seq<Seq<Seq<char>>> {
    seq![seq!["params"@, "delta"@], seq!["params"@, "text"@], seq!["params"@, "content"@], seq!["params"@, "item"@, "delta"@], seq!["params"@, "item"@, "text"@]]
}

pub(crate) fn delta_at(m: &JsonValue) -> (r: Option<&str>)
    ensures
        opt_str(r) == first_str(m@, delta_paths()),
{
    let paths: [&[&str]; 5] = [&["params", "delta"], &["params", "text"], &["params", "content"], &["params", "item", "delta"], &["params", "item", "text"]];
    let r = first_str_at(m, &paths);
    proof {
        assert(paths_view(paths@) =~~= delta_paths());
    }
    r
}

pub open spec fn completed_content_paths() -> Seq<Seq<Seq<char>>> {
    seq![seq!["params"@, "content"@], seq!["params"@, "text"@], seq!["params"@, "message"@], seq!["params"@, "item"@, "text"@], seq!["params"@, "item"@, "content"@]]
}

pub(crate) fn completed_content_at(m: &JsonValue) -> (r: Option<&str>)
    ensures
        opt_str(r) == first_str(m@, completed_content_paths()),
{
    let paths: [&[&str]; 5] = [&["params", "content"], &["params", "text"], &["params", "message"], &["params", "item", "text"], &["params", "item", "content"]];
    let r = first_str_at(m, &paths);
    proof {
        assert(paths_view(paths@) =~~= completed_content_paths());
    }
    r
}

pub open spec fn plan_list_paths() -> Seq<Seq<Seq<char>>> {
    seq![seq!["params"@, "plan"@]]
}

pub(crate) fn plan_list_at(m: &JsonValue) -> (r: Option<&JsonValue>)
    ensures
        opt_json(r) == json_path(m@, plan_list_paths()[0]),
{
    let path: [&str; 2] = ["params", "plan"];
    let r = at(m, &path);
    proof {
        assert(path_view(path@) =~= plan_list_paths()[0]);
    }
    r
}

pub open spec fn entry_label_paths() -> Seq<Seq<Seq<char>>> {
    seq![seq!["step"@], seq!["label"@], seq!["content"@], seq!["text"@]]
}

pub(crate) fn entry_label_at(m: &JsonValue) -> (r: Option<&str>)
    ensures
        opt_str(r) == first_str(m@, entry_label_paths()),
{
    let paths: [&[&str]; 4] = [&["step"], &["label"], &["content"], &["text"]];
    let r = first_str_at(m, &paths);
    proof {
        assert(paths_view(paths@) =~~= entry_label_paths());
    }
    r
}

pub open spec fn entry_status_paths() -> Seq<Seq<Seq<char>>> {
    seq![seq!["status"@]]
}

pub(crate) fn entry_status_at(m: &JsonValue) -> (r: Option<&str>)
    ensures
        opt_str(r) == first_str(m@, entry_status_paths()),
{
    let paths: [&[&str]; 1] = [&["status"]];
    let r = first_str_at(m, &paths);
    proof {
        assert(paths_view(paths@) =~~= entry_status_paths());
    }
    r
}

pub open spec fn explanation_paths() -> Seq<Seq<Seq<char>>> {
    seq![seq!["params"@, "explanation"@]]
}

pub(crate) fn explanation_at(m: &JsonValue) -> (r: Option<&str>)
    ensures
        opt_str(r) == first_str(m@, explanation_paths()),
{
    let paths: [&[&str]; 1] = [&["params", "explanation"]];
    let r = first_str_at(m, &paths);
    proof {
        assert(paths_view(paths@) =~~= explanation_paths());
    }
    r
}

pub open spec fn turn_or_id_paths() -> Seq<Seq<Seq<char>>> {
    seq![seq!["params"@, "turnId"@], seq!["params"@, "id"@]]
}

pub(crate) fn turn_or_id_at(m: &JsonValue) -> (r: Option<&str>)
    ensures
        opt_str(r) == first_str(m@, turn_or_id_paths()),
{
    let paths: [&[&str]; 2] = [&["params", "turnId"], &["params", "id"]];
    let r = first_str_at(m, &paths);
    proof {
        assert(paths_view(paths@) =~~= turn_or_id_paths());
    }
    r
}

pub open spec fn plan_delta_content_paths() -> Seq<Seq<Seq<char>>> {
    seq![seq!["params"@, "delta"@], seq!["params"@, "text"@], seq!["params"@, "content"@]]
}

pub(crate) fn plan_delta_content_at(m: &JsonValue) -> (r: Option<&str>)
    ensures
        opt_str(r) == first_str(m@, plan_delta_content_paths()),
{
    let paths: [&[&str]; 3] = [&["params", "delta"], &["params", "text"], &["params", "content"]];
    let r = first_str_at(m, &paths);
    proof {
        assert(paths_view(paths@) =~~= plan_delta_content_paths());
    }
    r
}

pub open spec fn plan_delta_id_paths() -> Seq<Seq<Seq<char>>> {
    seq![seq!["params"@, "turnId"@], seq!["params"@, "item"@, "turnId"@], seq!["params"@, "itemId"@], seq!["params"@, "item"@, "id"@], seq!["params"@, "id"@]]
}

pub(crate) fn plan_delta_id_at(m: &JsonValue) -> (r: Option<&str>)
    ensures
        opt_str(r) == first_str(m@, plan_delta_id_paths()),
{
    let paths: [&[&str]; 5] = [&["params", "turnId"], &["params", "item", "turnId"], &["params", "itemId"], &["params", "item", "id"], &["params", "id"]];
    let r = first_str_at(m, &paths);
    proof {
        assert(paths_view(paths@) =~~= plan_delta_id_paths());
    }
    r
}

pub open spec fn output_delta_paths() -> Seq<Seq<Seq<char>>> {
    seq![seq!["params"@, "delta"@], seq!["params"@, "text"@], seq!["params"@, "output"@]]
}

pub(crate) fn output_delta_at(m: &JsonValue) -> (r: Option<&str>)
    ensures
        opt_str(r) == first_str(m@, output_delta_paths()),
{
    let paths: [&[&str]; 3] = [&["params", "delta"], &["params", "text"], &["params", "output"]];
    let r = first_str_at(m, &paths);
    proof {
        assert(paths_view(paths@) =~~= output_delta_paths());
    }
    r
}

pub open spec fn stream_paths() -> Seq<Seq<Seq<char>>> {
    seq![seq!["params"@, "stream"@]]
}

pub(crate) fn stream_at(m: &JsonValue) -> (r: Option<&str>)
    ensures
        opt_str(r) == first_str(m@, stream_paths()),
{
    let paths: [&[&str]; 1] = [&["params", "stream"]];
    let r = first_str_at(m, &paths);
    proof {
        assert(paths_view(paths@) =~~= stream_paths());
    }
    r
}

pub open spec fn accepted_paths() -> Seq<Seq<Seq<char>>> {
    seq![seq!["accepted"@]]
}

pub(crate) fn accepted_at(m: &JsonValue) -> (r: Option<bool>)
    ensures
        r == first_bool(m@, accepted_paths()),
{
    let paths: [&[&str]; 1] = [&["accepted"]];
    let r = first_bool_at(m, &paths);
    proof {
        assert(paths_view(paths@) =~~= accepted_paths());
    }
    r
}

pub open spec fn command_id_field_paths() -> Seq<Seq<Seq<char>>> {
    seq![seq!["command_id"@]]
}

pub(crate) fn command_id_field_at(m: &JsonValue) -> (r: Option<&str>)
    ensures
        opt_str(r) == first_str(m@, command_id_field_paths()),
{
    let paths: [&[&str]; 1] = [&["command_id"]];
    let r = first_str_at(m, &paths);
    proof {
        assert(paths_view(paths@) =~~= command_id_field_paths());
    }
    r
}

pub open spec fn raw_input_title_paths() -> Seq<Seq<Seq<char>>> {
    seq![seq!["raw_input"@], seq!["command_id"@]]
}

pub(crate) fn raw_input_title_at(m: &JsonValue) -> (r: Option<&str>)
    ensures
        opt_str(r) == first_str(m@, raw_input_title_paths()),
{
    let paths: [&[&str]; 2] = [&["raw_input"], &["command_id"]];
    let r = first_str_at(m, &paths);
    proof {
        assert(paths_view(paths@) =~~= raw_input_title_paths());
    }
    r
}

pub open spec fn top_message_paths() -> Seq<Seq<Seq<char>>> {
    seq![seq!["message"@]]
}

pub(crate) fn top_message_at(m: &JsonValue) -> (r: Option<&str>)
    ensures
        opt_str(r) == first_str(m@, top_message_paths()),
{
    let paths: [&[&str]; 1] = [&["message"]];
    let r = first_str_at(m, &paths);
    proof {
        assert(paths_view(paths@) =~~= top_message_paths());
    }
    r
}

pub open spec fn compaction_id_paths() -> Seq<Seq<Seq<char>>> {
    seq![seq!["id"@], seq!["itemId"@], seq!["item"@, "id"@]]
}

pub(crate) fn compaction_id_at(m: &JsonValue) -> (r: Option<&str>)
    ensures
        opt_str(r) == first_str(m@, compaction_id_paths()),
{
    let paths: [&[&str]; 3] = [&["id"], &["itemId"], &["item", "id"]];
    let r = first_str_at(m, &paths);
    proof {
        assert(paths_view(paths@) =~~= compaction_id_paths());
    }
    r
}

pub open spec fn status_type_paths() -> Seq<Seq<Seq<char>>> {
    seq![seq!["params"@, "status"@, "type"@]]
}

pub(crate) fn status_type_at(m: &JsonValue) -> (r: Option<&str>)
    ensures
        opt_str(r) == first_str(m@, status_type_paths()),
{
    let paths: [&[&str]; 1] = [&["params", "status", "type"]];
    let r = first_str_at(m, &paths);
    proof {
        assert(paths_view(paths@) =~~= status_type_paths());
    }
    r
}

pub open spec fn status_plain_paths() -> Seq<Seq<Seq<char>>> {
    seq![seq!["params"@, "status"@]]
}

pub(crate) fn status_plain_at(m: &JsonValue) -> (r: Option<&str>)
    ensures
        opt_str(r) == first_str(m@, status_plain_paths()),
{
    let paths: [&[&str]; 1] = [&["params", "status"]];
    let r = first_str_at(m, &paths);
    proof {
        assert(paths_view(paths@) =~~= status_plain_paths());
    }
    r
}

pub open spec fn param_thread_id_paths() -> Seq<Seq<Seq<char>>> {
    seq![seq!["params"@, "threadId"@]]
}

pub(crate) fn param_thread_id_at(m: &JsonValue) -> (r: Option<&str>)
    ensures
        opt_str(r) == first_str(m@, param_thread_id_paths()),
{
    let paths: [&[&str]; 1] = [&["params", "threadId"]];
    let r = first_str_at(m, &paths);
    proof {
        assert(paths_view(paths@) =~~= param_thread_id_paths());
    }
    r
}

pub open spec fn turn_status_paths() -> Seq<Seq<Seq<char>>> {
    seq![seq!["params"@, "turn"@, "status"@]]
}

pub(crate) fn turn_status_at(m: &JsonValue) -> (r: Option<&str>)
    ensures
        opt_str(r) == first_str(m@, turn_status_paths()),
{
    let paths: [&[&str]; 1] = [&["params", "turn", "status"]];
    let r = first_str_at(m, &paths);
    proof {
        assert(paths_view(paths@) =~~= turn_status_paths());
    }
    r
}

pub open spec fn turn_event_id_paths() -> Seq<Seq<Seq<char>>> {
    seq![seq!["params"@, "turn"@, "id"@], seq!["params"@, "turnId"@]]
}

pub(crate) fn turn_event_id_at(m: &JsonValue) -> (r: Option<&str>)
    ensures
        opt_str(r) == first_str(m@, turn_event_id_paths()),
{
    let paths: [&[&str]; 2] = [&["params", "turn", "id"], &["params", "turnId"]];
    let r = first_str_at(m, &paths);
    proof {
        assert(paths_view(paths@) =~~= turn_event_id_paths());
    }
    r
}

pub open spec fn last_tokens_paths() -> Seq<Seq<Seq<char>>> {
    seq![seq!["params"@, "tokenUsage"@, "last"@, "totalTokens"@]]
}

pub(crate) fn last_tokens_at(m: &JsonValue) -> (r: Option<i64>)
    ensures
        r == first_i64(m@, last_tokens_paths()),
{
    let paths: [&[&str]; 1] = [&["params", "tokenUsage", "last", "totalTokens"]];
    let r = first_i64_at(m, &paths);
    proof {
        assert(paths_view(paths@) =~~= last_tokens_paths());
    }
    r
}

pub open spec fn total_tokens_paths() -> Seq<Seq<Seq<char>>> {
    seq![seq!["params"@, "tokenUsage"@, "total"@, "totalTokens"@]]
}

pub(crate) fn total_tokens_at(m: &JsonValue) -> (r: Option<i64>)
    ensures
        r == first_i64(m@, total_tokens_paths()),
{
    let paths: [&[&str]; 1] = [&["params", "tokenUsage", "total", "totalTokens"]];
    let r = first_i64_at(m, &paths);
    proof {
        assert(paths_view(paths@) =~~= total_tokens_paths());
    }
    r
}

pub open spec fn context_window_paths() -> Seq<Seq<Seq<char>>> {
    seq![seq!["params"@, "tokenUsage"@, "modelContextWindow"@]]
}

pub(crate) fn context_window_at(m: &JsonValue) -> (r: Option<i64>)
    ensures
        r == first_i64(m@, context_window_paths()),
{
    let paths: [&[&str]; 1] = [&["params", "tokenUsage", "modelContextWindow"]];
    let r = first_i64_at(m, &paths);
    proof {
        assert(paths_view(paths@) =~~= context_window_paths());
    }
    r
}

pub open spec fn turn_or_thread_paths() -> Seq<Seq<Seq<char>>> {
    seq![seq!["params"@, "turnId"@], seq!["params"@, "threadId"@]]
}

pub(crate) fn turn_or_thread_at(m: &JsonValue) -> (r: Option<&str>)
    ensures
        opt_str(r) == first_str(m@, turn_or_thread_paths()),
{
    let paths: [&[&str]; 2] = [&["params", "turnId"], &["params", "threadId"]];
    let r = first_str_at(m, &paths);
    proof {
        assert(paths_view(paths@) =~~= turn_or_thread_paths());
    }
    r
}

pub open spec fn plan_type_paths() -> Seq<Seq<Seq<char>>> {
    seq![seq!["params"@, "rateLimits"@, "planType"@]]
}

pub(crate) fn plan_type_at(m: &JsonValue) -> (r: Option<&str>)
    ensures
        opt_str(r) == first_str(m@, plan_type_paths()),
{
    let paths: [&[&str]; 1] = [&["params", "rateLimits", "planType"]];
    let r = first_str_at(m, &paths);
    proof {
        assert(paths_view(paths@) =~~= plan_type_paths());
    }
    r
}

pub open spec fn primary_used_paths() -> Seq<Seq<Seq<char>>> {
    seq![seq!["params"@, "rateLimits"@, "primary"@, "usedPercent"@]]
}

pub(crate) fn primary_used_at(m: &JsonValue) -> (r: Option<i64>)
    ensures
        r == first_i64(m@, primary_used_paths()),
{
    let paths: [&[&str]; 1] = [&["params", "rateLimits", "primary", "usedPercent"]];
    let r = first_i64_at(m, &paths);
    proof {
        assert(paths_view(paths@) =~~= primary_used_paths());
    }
    r
}

pub open spec fn secondary_used_paths() -> Seq<Seq<Seq<char>>> {
    seq![seq!["params"@, "rateLimits"@, "secondary"@, "usedPercent"@]]
}

pub(crate) fn secondary_used_at(m: &JsonValue) -> (r: Option<i64>)
    ensures
        r == first_i64(m@, secondary_used_paths()),
{
    let paths: [&[&str]; 1] = [&["params", "rateLimits", "secondary", "usedPercent"]];
    let r = first_i64_at(m, &paths);
    proof {
        assert(paths_view(paths@) =~~= secondary_used_paths());
    }
    r
}

pub open spec fn limit_reached_paths() -> Seq<Seq<Seq<char>>> {
    seq![seq!["params"@, "rateLimits"@, "rateLimitReachedType"@]]
}

pub(crate) fn limit_reached_at(m: &JsonValue) -> (r: Option<&str>)
    ensures
        opt_str(r) == first_str(m@, limit_reached_paths()),
{
    let paths: [&[&str]; 1] = [&["params", "rateLimits", "rateLimitReachedType"]];
    let r = first_str_at(m, &paths);
    proof {
        assert(paths_view(paths@) =~~= limit_reached_paths());
    }
    r
}

pub open spec fn limit_id_paths() -> Seq<Seq<Seq<char>>> {
    seq![seq!["params"@, "rateLimits"@, "limitId"@]]
}

pub(crate) fn limit_id_at(m: &JsonValue) -> (r: Option<&str>)
    ensures
        opt_str(r) == first_str(m@, limit_id_paths()),
{
    let paths: [&[&str]; 1] = [&["params", "rateLimits", "limitId"]];
    let r = first_str_at(m, &paths);
    proof {
        assert(paths_view(paths@) =~~= limit_id_paths());
    }
    r
}

pub open spec fn notification_event_id_paths() -> Seq<Seq<Seq<char>>> {
    seq![seq!["params"@, "item"@, "id"@], seq!["params"@, "itemId"@], seq!["params"@, "id"@], seq!["params"@, "turnId"@], seq!["params"@, "turn"@, "id"@], seq!["params"@, "threadId"@]]
}

pub(crate) fn notification_event_id_at(m: &JsonValue) -> (r: Option<&str>)
    ensures
        opt_str(r) == first_str(m@, notification_event_id_paths()),
{
    let paths: [&[&str]; 6] = [&["params", "item", "id"], &["params", "itemId"], &["params", "id"], &["params", "turnId"], &["params", "turn", "id"], &["params", "threadId"]];
    let r = first_str_at(m, &paths);
    proof {
        assert(paths_view(paths@) =~~= notification_event_id_paths());
    }
    r
}

pub open spec fn command_paths() -> Seq<Seq<Seq<char>>> {
    seq![seq!["params"@, "command"@], seq!["params"@, "item"@, "command"@]]
}

pub(crate) fn command_at(m: &JsonValue) -> (r: Option<&str>)
    ensures
        opt_str(r) == first_str(m@, command_paths()),
{
    let paths: [&[&str]; 2] = [&["params", "command"], &["params", "item", "command"]];
    let r = first_str_at(m, &paths);
    proof {
        assert(paths_view(paths@) =~~= command_paths());
    }
    r
}

pub open spec fn cwd_paths() -> Seq<Seq<Seq<char>>> {
    seq![seq!["params"@, "cwd"@], seq!["params"@, "item"@, "cwd"@]]
}

pub(crate) fn cwd_at(m: &JsonValue) -> (r: Option<&str>)
    ensures
        opt_str(r) == first_str(m@, cwd_paths()),
{
    let paths: [&[&str]; 2] = [&["params", "cwd"], &["params", "item", "cwd"]];
    let r = first_str_at(m, &paths);
    proof {
        assert(paths_view(paths@) =~~= cwd_paths());
    }
    r
}

pub open spec fn source_paths() -> Seq<Seq<Seq<char>>> {
    seq![seq!["params"@, "source"@], seq!["params"@, "item"@, "source"@]]
}

pub(crate) fn source_at(m: &JsonValue) -> (r: Option<&str>)
    ensures
        opt_str(r) == first_str(m@, source_paths()),
{
    let paths: [&[&str]; 2] = [&["params", "source"], &["params", "item", "source"]];
    let r = first_str_at(m, &paths);
    proof {
        assert(paths_view(paths@) =~~= source_paths());
    }
    r
}

pub open spec fn process_id_paths() -> Seq<Seq<Seq<char>>> {
    seq![seq!["params"@, "processId"@], seq!["params"@, "item"@, "processId"@]]
}

pub(crate) fn process_id_at(m: &JsonValue) -> (r: Option<&str>)
    ensures
        opt_str(r) == first_str(m@, process_id_paths()),
{
    let paths: [&[&str]; 2] = [&["params", "processId"], &["params", "item", "processId"]];
    let r = first_str_at(m, &paths);
    proof {
        assert(paths_view(paths@) =~~= process_id_paths());
    }
    r
}

pub open spec fn tool_name_paths() -> Seq<Seq<Seq<char>>> {
    seq![seq!["params"@, "name"@], seq!["params"@, "item"@, "name"@]]
}

pub(crate) fn tool_name_at(m: &JsonValue) -> (r: Option<&str>)
    ensures
        opt_str(r) == first_str(m@, tool_name_paths()),
{
    let paths: [&[&str]; 2] = [&["params", "name"], &["params", "item", "name"]];
    let r = first_str_at(m, &paths);
    proof {
        assert(paths_view(paths@) =~~= tool_name_paths());
    }
    r
}

pub open spec fn tool_title_paths() -> Seq<Seq<Seq<char>>> {
    seq![seq!["params"@, "title"@], seq!["params"@, "item"@, "title"@]]
}

pub(crate) fn tool_title_at(m: &JsonValue) -> (r: Option<&str>)
    ensures
        opt_str(r) == first_str(m@, tool_title_paths()),
{
    let paths: [&[&str]; 2] = [&["params", "title"], &["params", "item", "title"]];
    let r = first_str_at(m, &paths);
    proof {
        assert(paths_view(paths@) =~~= tool_title_paths());
    }
    r
}

pub open spec fn tool_input_paths() -> Seq<Seq<Seq<char>>> {
    seq![seq!["params"@, "input"@]]
}

pub(crate) fn tool_input_at(m: &JsonValue) -> (r: Option<&JsonValue>)
    ensures
        opt_json(r) == json_path(m@, tool_input_paths()[0]),
{
    let path: [&str; 2] = ["params", "input"];
    let r = at(m, &path);
    proof {
        assert(path_view(path@) =~= tool_input_paths()[0]);
    }
    r
}

pub open spec fn tool_output_paths() -> Seq<Seq<Seq<char>>> {
    seq![seq!["params"@, "output"@]]
}

pub(crate) fn tool_output_at(m: &JsonValue) -> (r: Option<&JsonValue>)
    ensures
        opt_json(r) == json_path(m@, tool_output_paths()[0]),
{
    let path: [&str; 2] = ["params", "output"];
    let r = at(m, &path);
    proof {
        assert(path_view(path@) =~= tool_output_paths()[0]);
    }
    r
}

pub open spec fn exit_code_paths() -> Seq<Seq<Seq<char>>> {
    seq![seq!["params"@, "exitCode"@], seq!["params"@, "item"@, "exitCode"@]]
}

pub(crate) fn exit_code_at(m: &JsonValue) -> (r: Option<i64>)
    ensures
        r == first_i64(m@, exit_code_paths()),
{
    let paths: [&[&str]; 2] = [&["params", "exitCode"], &["params", "item", "exitCode"]];
    let r = first_i64_at(m, &paths);
    proof {
        assert(paths_view(paths@) =~~= exit_code_paths());
    }
    r
}

pub open spec fn duration_paths() -> Seq<Seq<Seq<char>>> {
    seq![seq!["params"@, "durationMs"@], seq!["params"@, "item"@, "durationMs"@]]
}

pub(crate) fn duration_at(m: &JsonValue) -> (r: Option<i64>)
    ensures
        r == first_i64(m@, duration_paths()),
{
    let paths: [&[&str]; 2] = [&["params", "durationMs"], &["params", "item", "durationMs"]];
    let r = first_i64_at(m, &paths);
    proof {
        assert(paths_view(paths@) =~~= duration_paths());
    }
    r
}

pub open spec fn success_paths() -> Seq<Seq<Seq<char>>> {
    seq![seq!["params"@, "success"@], seq!["params"@, "item"@, "success"@]]
}

pub(crate) fn success_at(m: &JsonValue) -> (r: Option<bool>)
    ensures
        r == first_bool(m@, success_paths()),
{
    let paths: [&[&str]; 2] = [&["params", "success"], &["params", "item", "success"]];
    let r = first_bool_at(m, &paths);
    proof {
        assert(paths_view(paths@) =~~= success_paths());
    }
    r
}

pub open spec fn file_path_paths() -> Seq<Seq<Seq<char>>> {
    seq![seq!["params"@, "path"@], seq!["params"@, "item"@, "path"@]]
}

pub(crate) fn file_path_at(m: &JsonValue) -> (r: Option<&str>)
    ensures
        opt_str(r) == first_str(m@, file_path_paths()),
{
    let paths: [&[&str]; 2] = [&["params", "path"], &["params", "item", "path"]];
    let r = first_str_at(m, &paths);
    proof {
        assert(paths_view(paths@) =~~= file_path_paths());
    }
    r
}

pub open spec fn file_diff_paths() -> Seq<Seq<Seq<char>>> {
    seq![seq!["params"@, "diff"@], seq!["params"@, "item"@, "diff"@]]
}

pub(crate) fn file_diff_at(m: &JsonValue) -> (r: Option<&str>)
    ensures
        opt_str(r) == first_str(m@, file_diff_paths()),
{
    let paths: [&[&str]; 2] = [&["params", "diff"], &["params", "item", "diff"]];
    let r = first_str_at(m, &paths);
    proof {
        assert(paths_view(paths@) =~~= file_diff_paths());
    }
    r
}

pub open spec fn change_kind_paths() -> Seq<Seq<Seq<char>>> {
    seq![seq!["params"@, "changeKind"@], seq!["params"@, "item"@, "changeKind"@]]
}

pub(crate) fn change_kind_at(m: &JsonValue) -> (r: Option<&str>)
    ensures
        opt_str(r) == first_str(m@, change_kind_paths()),
{
    let paths: [&[&str]; 2] = [&["params", "changeKind"], &["params", "item", "changeKind"]];
    let r = first_str_at(m, &paths);
    proof {
        assert(paths_view(paths@) =~~= change_kind_paths());
    }
    r
}

pub open spec fn error_code_paths() -> Seq<Seq<Seq<char>>> {
    seq![seq!["params"@, "code"@]]
}

pub(crate) fn error_code_at(m: &JsonValue) -> (r: Option<&str>)
    ensures
        opt_str(r) == first_str(m@, error_code_paths()),
{
    let paths: [&[&str]; 1] = [&["params", "code"]];
    let r = first_str_at(m, &paths);
    proof {
        assert(paths_view(paths@) =~~= error_code_paths());
    }
    r
}

pub open spec fn error_message_paths() -> Seq<Seq<Seq<char>>> {
    seq![seq!["params"@, "message"@]]
}

pub(crate) fn error_message_at(m: &JsonValue) -> (r: Option<&str>)
    ensures
        opt_str(r) == first_str(m@, error_message_paths()),
{
    let paths: [&[&str]; 1] = [&["params", "message"]];
    let r = first_str_at(m, &paths);
    proof {
        assert(paths_view(paths@) =~~= error_message_paths());
    }
    r
}

pub open spec fn message_id_paths() -> Seq<Seq<Seq<char>>> {
    seq![seq!["params"@, "messageId"@], seq!["params"@, "message_id"@], seq!["params"@, "itemId"@], seq!["params"@, "item"@, "id"@], seq!["params"@, "id"@], seq!["params"@, "turnId"@]]
}

pub(crate) fn message_id_at(m: &JsonValue) -> (r: Option<&str>)
    ensures
        opt_str(r) == first_str(m@, message_id_paths()),
{
    let paths: [&[&str]; 6] = [&["params", "messageId"], &["params", "message_id"], &["params", "itemId"], &["params", "item", "id"], &["params", "id"], &["params", "turnId"]];
    let r = first_str_at(m, &paths);
    proof {
        assert(paths_view(paths@) =~~= message_id_paths());
    }
    r
}

pub open spec fn item_id_paths() -> Seq<Seq<Seq<char>>> {
    seq![seq!["params"@, "item"@, "id"@], seq!["params"@, "id"@], seq!["params"@, "itemId"@], seq!["params"@, "item_id"@]]
}

pub(crate) fn item_id_at(m: &JsonValue) -> (r: Option<&str>)
    ensures
        opt_str(r) == first_str(m@, item_id_paths()),
{
    let paths: [&[&str]; 4] = [&["params", "item", "id"], &["params", "id"], &["params", "itemId"], &["params", "item_id"]];
    let r = first_str_at(m, &paths);
    proof {
        assert(paths_view(paths@) =~~= item_id_paths());
    }
    r
}

pub open spec fn item_type_paths() -> Seq<Seq<Seq<char>>> {
    seq![seq!["params"@, "item"@, "type"@], seq!["params"@, "type"@], seq!["type"@]]
}

pub(crate) fn item_type_at(m: &JsonValue) -> (r: Option<&str>)
    ensures
        opt_str(r) == first_str(m@, item_type_paths()),
{
    let paths: [&[&str]; 3] = [&["params", "item", "type"], &["params", "type"], &["type"]];
    let r = first_str_at(m, &paths);
    proof {
        assert(paths_view(paths@) =~~= item_type_paths());
    }
    r
}

pub open spec fn detail_paths() -> Seq<Seq<Seq<char>>> {
    seq![seq!["params"@, "message"@], seq!["params"@, "detail"@], seq!["params"@, "statusMessage"@], seq!["params"@, "error"@, "message"@], seq!["params"@, "reason"@]]
}

pub(crate) fn detail_at(m: &JsonValue) -> (r: Option<&str>)
    ensures
        opt_str(r) == first_str(m@, detail_paths()),
{
    let paths: [&[&str]; 5] = [&["params", "message"], &["params", "detail"], &["params", "statusMessage"], &["params", "error", "message"], &["params", "reason"]];
    let r = first_str_at(m, &paths);
    proof {
        assert(paths_view(paths@) =~~= detail_paths());
    }
    r
}

pub open spec fn message_thread_id_paths() -> Seq<Seq<Seq<char>>> {
    seq![seq!["params"@, "threadId"@], seq!["params"@, "thread"@, "id"@], seq!["result"@, "threadId"@], seq!["result"@, "thread"@, "id"@]]
}

pub(crate) fn message_thread_id_at(m: &JsonValue) -> (r: Option<&str>)
    ensures
        opt_str(r) == first_str(m@, message_thread_id_paths()),
{
    let paths: [&[&str]; 4] = [&["params", "threadId"], &["params", "thread", "id"], &["result", "threadId"], &["result", "thread", "id"]];
    let r = first_str_at(m, &paths);
    proof {
        assert(paths_view(paths@) =~~= message_thread_id_paths());
    }
    r
}

pub open spec fn message_turn_id_paths() -> Seq<Seq<Seq<char>>> {
    seq![seq!["params"@, "turnId"@], seq!["params"@, "turn"@, "id"@], seq!["result"@, "turnId"@], seq!["result"@, "turn"@, "id"@]]
}

pub(crate) fn message_turn_id_at(m: &JsonValue) -> (r: Option<&str>)
    ensures
        opt_str(r) == first_str(m@, message_turn_id_paths()),
{
    let paths: [&[&str]; 4] = [&["params", "turnId"], &["params", "turn", "id"], &["result", "turnId"], &["result", "turn", "id"]];
    let r = first_str_at(m, &paths);
    proof {
        assert(paths_view(paths@) =~~= message_turn_id_paths());
    }
    r
}

pub open spec fn codex_thread_id_paths() -> Seq<Seq<Seq<char>>> {
    seq![seq!["result"@, "thread"@, "id"@], seq!["result"@, "id"@], seq!["result"@, "threadId"@], seq!["params"@, "thread"@, "id"@], seq!["params"@, "threadId"@]]
}

pub(crate) fn codex_thread_id_at(m: &JsonValue) -> (r: Option<&str>)
    ensures
        opt_str(r) == first_str(m@, codex_thread_id_paths()),
{
    let paths: [&[&str]; 5] = [&["result", "thread", "id"], &["result", "id"], &["result", "threadId"], &["params", "thread", "id"], &["params", "threadId"]];
    let r = first_str_at(m, &paths);
    proof {
        assert(paths_view(paths@) =~~= codex_thread_id_paths());
    }
    r
}

pub open spec fn command_details_paths() -> Seq<Seq<Seq<char>>> {
    seq![seq!["params"@, "command"@], seq!["params"@, "item"@, "command"@], seq!["params"@, "description"@], seq!["params"@, "reason"@]]
}

pub(crate) fn command_details_at(m: &JsonValue) -> (r: Option<&str>)
    ensures
        opt_str(r) == first_str(m@, command_details_paths()),
{
    let paths: [&[&str]; 4] = [&["params", "command"], &["params", "item", "command"], &["params", "description"], &["params", "reason"]];
    let r = first_str_at(m, &paths);
    proof {
        assert(paths_view(paths@) =~~= command_details_paths());
    }
    r
}

pub open spec fn permission_details_paths() -> Seq<Seq<Seq<char>>> {
    seq![seq!["params"@, "description"@], seq!["params"@, "reason"@], seq!["params"@, "request"@, "summary"@]]
}

pub(crate) fn permission_details_at(m: &JsonValue) -> (r: Option<&str>)
    ensures
        opt_str(r) == first_str(m@, permission_details_paths()),
{
    let paths: [&[&str]; 3] = [&["params", "description"], &["params", "reason"], &["params", "request", "summary"]];
    let r = first_str_at(m, &paths);
    proof {
        assert(paths_view(paths@) =~~= permission_details_paths());
    }
    r
}

pub open spec fn approval_item_hint_paths() -> Seq<Seq<Seq<char>>> {
    seq![seq!["itemId"@], seq!["item"@, "id"@], seq!["item_id"@], seq!["approvalId"@], seq!["approval_id"@]]
}

pub(crate) fn approval_item_hint_at(m: &JsonValue) -> (r: Option<&str>)
    ensures
        opt_str(r) == first_str(m@, approval_item_hint_paths()),
{
    let paths: [&[&str]; 5] = [&["itemId"], &["item", "id"], &["item_id"], &["approvalId"], &["approval_id"]];
    let r = first_str_at(m, &paths);
    proof {
        assert(paths_view(paths@) =~~= approval_item_hint_paths());
    }
    r
}


pub open spec fn history_message_id_paths() -> Seq<Seq<Seq<char>>> {
    seq![seq!["id"@], seq!["messageId"@]]
}

pub(crate) fn history_message_id_at(m: &JsonValue) -> (r: Option<&str>)
    ensures
        opt_str(r) == first_str(m@, history_message_id_paths()),
{
    let paths: [&[&str]; 2] = [&["id"], &["messageId"]];
    let r = first_str_at(m, &paths);
    proof {
        assert(paths_view(paths@) =~~= history_message_id_paths());
    }
    r
}

pub open spec fn history_text_paths() -> Seq<Seq<Seq<char>>> {
    seq![seq!["text"@], seq!["content"@], seq!["message"@], seq!["item"@, "text"@], seq!["item"@, "content"@]]
}

pub(crate) fn history_text_at(m: &JsonValue) -> (r: Option<&str>)
    ensures
        opt_str(r) == first_str(m@, history_text_paths()),
{
    let paths: [&[&str]; 5] = [&["text"], &["content"], &["message"], &["item", "text"], &["item", "content"]];
    let r = first_str_at(m, &paths);
    proof {
        assert(paths_view(paths@) =~~= history_text_paths());
    }
    r
}

pub open spec fn history_command_paths() -> Seq<Seq<Seq<char>>> {
    seq![seq!["command"@], seq!["cmdLine"@], seq!["cmd"@], seq!["executable"@], seq!["shellCommand"@]]
}

pub(crate) fn history_command_at(m: &JsonValue) -> (r: Option<&str>)
    ensures
        opt_str(r) == first_str(m@, history_command_paths()),
{
    let paths: [&[&str]; 5] = [&["command"], &["cmdLine"], &["cmd"], &["executable"], &["shellCommand"]];
    let r = first_str_at(m, &paths);
    proof {
        assert(paths_view(paths@) =~~= history_command_paths());
    }
    r
}

pub open spec fn history_detail_paths() -> Seq<Seq<Seq<char>>> {
    seq![seq!["summary"@], seq!["prompt"@], seq!["message"@]]
}

pub(crate) fn history_detail_at(m: &JsonValue) -> (r: Option<&str>)
    ensures
        opt_str(r) == first_str(m@, history_detail_paths()),
{
    let paths: [&[&str]; 3] = [&["summary"], &["prompt"], &["message"]];
    let r = first_str_at(m, &paths);
    proof {
        assert(paths_view(paths@) =~~= history_detail_paths());
    }
    r
}

pub open spec fn history_tool_name_paths() -> Seq<Seq<Seq<char>>> {
    seq![seq!["tool"@], seq!["name"@]]
}

pub(crate) fn history_tool_name_at(m: &JsonValue) -> (r: Option<&str>)
    ensures
        opt_str(r) == first_str(m@, history_tool_name_paths()),
{
    let paths: [&[&str]; 2] = [&["tool"], &["name"]];
    let r = first_str_at(m, &paths);
    proof {
        assert(paths_view(paths@) =~~= history_tool_name_paths());
    }
    r
}

pub open spec fn history_change_kind_paths() -> Seq<Seq<Seq<char>>> {
    seq![seq!["kind"@, "type"@], seq!["changeKind"@]]
}

pub(crate) fn history_change_kind_at(m: &JsonValue) -> (r: Option<&str>)
    ensures
        opt_str(r) == first_str(m@, history_change_kind_paths()),
{
    let paths: [&[&str]; 2] = [&["kind", "type"], &["changeKind"]];
    let r = first_str_at(m, &paths);
    proof {
        assert(paths_view(paths@) =~~= history_change_kind_paths());
    }
    r
}

pub open spec fn history_part_text_paths() -> Seq<Seq<Seq<char>>> {
    seq![seq!["text"@], seq!["content"@]]
}

pub(crate) fn history_part_text_at(m: &JsonValue) -> (r: Option<&str>)
    ensures
        opt_str(r) == first_str(m@, history_part_text_paths()),
{
    let paths: [&[&str]; 2] = [&["text"], &["content"]];
    let r = first_str_at(m, &paths);
    proof {
        assert(paths_view(paths@) =~~= history_part_text_paths());
    }
    r
}

pub open spec fn thread_updated_text_paths() -> Seq<Seq<Seq<char>>> {
    seq![seq!["updatedAt"@], seq!["updated_at"@], seq!["lastActivityAt"@], seq!["last_activity_at"@], seq!["activityAt"@], seq!["activity_at"@], seq!["timestamp"@], seq!["createdAt"@], seq!["created_at"@], seq!["threadUpdatedAt"@], seq!["thread_updated_at"@]]
}

pub(crate) fn thread_updated_text_at(m: &JsonValue) -> (r: Option<&str>)
    ensures
        opt_str(r) == first_str(m@, thread_updated_text_paths()),
{
    let paths: [&[&str]; 11] = [&["updatedAt"], &["updated_at"], &["lastActivityAt"], &["last_activity_at"], &["activityAt"], &["activity_at"], &["timestamp"], &["createdAt"], &["created_at"], &["threadUpdatedAt"], &["thread_updated_at"]];
    let r = first_str_at(m, &paths);
    proof {
        assert(paths_view(paths@) =~~= thread_updated_text_paths());
    }
    r
}

pub open spec fn thread_updated_number_paths() -> Seq<Seq<Seq<char>>> {
    seq![seq!["updatedAt"@], seq!["updated_at"@], seq!["lastActivityAt"@], seq!["last_activity_at"@], seq!["timestamp"@], seq!["createdAt"@], seq!["created_at"@], seq!["threadUpdatedAt"@], seq!["thread_updated_at"@]]
}

pub(crate) fn thread_updated_number_at(m: &JsonValue) -> (r: Option<i64>)
    ensures
        r == first_i64(m@, thread_updated_number_paths()),
{
    let paths: [&[&str]; 9] = [&["updatedAt"], &["updated_at"], &["lastActivityAt"], &["last_activity_at"], &["timestamp"], &["createdAt"], &["created_at"], &["threadUpdatedAt"], &["thread_updated_at"]];
    let r = first_i64_at(m, &paths);
    proof {
        assert(paths_view(paths@) =~~= thread_updated_number_paths());
    }
    r
}

pub open spec fn thread_list_id_paths() -> Seq<Seq<Seq<char>>> {
    seq![seq!["id"@], seq!["threadId"@], seq!["thread"@, "id"@]]
}

pub(crate) fn thread_list_id_at(m: &JsonValue) -> (r: Option<&str>)
    ensures
        opt_str(r) == first_str(m@, thread_list_id_paths()),
{
    let paths: [&[&str]; 3] = [&["id"], &["threadId"], &["thread", "id"]];
    let r = first_str_at(m, &paths);
    proof {
        assert(paths_view(paths@) =~~= thread_list_id_paths());
    }
    r
}

pub open spec fn thread_list_title_paths() -> Seq<Seq<Seq<char>>> {
    seq![seq!["title"@], seq!["name"@], seq!["summary"@], seq!["preview"@]]
}

pub(crate) fn thread_list_title_at(m: &JsonValue) -> (r: Option<&str>)
    ensures
        opt_str(r) == first_str(m@, thread_list_title_paths()),
{
    let paths: [&[&str]; 4] = [&["title"], &["name"], &["summary"], &["preview"]];
    let r = first_str_at(m, &paths);
    proof {
        assert(paths_view(paths@) =~~= thread_list_title_paths());
    }
    r
}


pub open spec fn model_id_paths() -> Seq<Seq<Seq<char>>> {
    seq![seq!["id"@], seq!["model"@]]
}

pub(crate) fn model_id_at(m: &JsonValue) -> (r: Option<&str>)
    ensures
        opt_str(r) == first_str(m@, model_id_paths()),
{
    let paths: [&[&str]; 2] = [&["id"], &["model"]];
    let r = first_str_at(m, &paths);
    proof {
        assert(paths_view(paths@) =~~= model_id_paths());
    }
    r
}

pub open spec fn model_display_paths() -> Seq<Seq<Seq<char>>> {
    seq![seq!["displayName"@], seq!["display_name"@], seq!["model"@]]
}

pub(crate) fn model_display_at(m: &JsonValue) -> (r: Option<&str>)
    ensures
        opt_str(r) == first_str(m@, model_display_paths()),
{
    let paths: [&[&str]; 3] = [&["displayName"], &["display_name"], &["model"]];
    let r = first_str_at(m, &paths);
    proof {
        assert(paths_view(paths@) =~~= model_display_paths());
    }
    r
}

pub open spec fn model_is_default_paths() -> Seq<Seq<Seq<char>>> {
    seq![seq!["isDefault"@], seq!["is_default"@]]
}

pub(crate) fn model_is_default_at(m: &JsonValue) -> (r: Option<bool>)
    ensures
        r == first_bool(m@, model_is_default_paths()),
{
    let paths: [&[&str]; 2] = [&["isDefault"], &["is_default"]];
    let r = first_bool_at(m, &paths);
    proof {
        assert(paths_view(paths@) =~~= model_is_default_paths());
    }
    r
}

pub open spec fn model_default_effort_paths() -> Seq<Seq<Seq<char>>> {
    seq![seq!["defaultReasoningEffort"@], seq!["default_reasoning_effort"@]]
}

pub(crate) fn model_default_effort_at(m: &JsonValue) -> (r: Option<&str>)
    ensures
        opt_str(r) == first_str(m@, model_default_effort_paths()),
{
    let paths: [&[&str]; 2] = [&["defaultReasoningEffort"], &["default_reasoning_effort"]];
    let r = first_str_at(m, &paths);
    proof {
        assert(paths_view(paths@) =~~= model_default_effort_paths());
    }
    r
}

pub open spec fn effort_item_paths() -> Seq<Seq<Seq<char>>> {
    seq![seq!["effort"@], seq!["id"@], seq!["value"@]]
}

pub(crate) fn effort_item_at(m: &JsonValue) -> (r: Option<&str>)
    ensures
        opt_str(r) == first_str(m@, effort_item_paths()),
{
    let paths: [&[&str]; 3] = [&["effort"], &["id"], &["value"]];
    let r = first_str_at(m, &paths);
    proof {
        assert(paths_view(paths@) =~~= effort_item_paths());
    }
    r
}

pub open spec fn mode_id_paths() -> Seq<Seq<Seq<char>>> {
    seq![seq!["mode"@], seq!["id"@], seq!["name"@]]
}

pub(crate) fn mode_id_at(m: &JsonValue) -> (r: Option<&str>)
    ensures
        opt_str(r) == first_str(m@, mode_id_paths()),
{
    let paths: [&[&str]; 3] = [&["mode"], &["id"], &["name"]];
    let r = first_str_at(m, &paths);
    proof {
        assert(paths_view(paths@) =~~= mode_id_paths());
    }
    r
}

pub open spec fn mode_label_paths() -> Seq<Seq<Seq<char>>> {
    seq![seq!["name"@], seq!["label"@]]
}

pub(crate) fn mode_label_at(m: &JsonValue) -> (r: Option<&str>)
    ensures
        opt_str(r) == first_str(m@, mode_label_paths()),
{
    let paths: [&[&str]; 2] = [&["name"], &["label"]];
    let r = first_str_at(m, &paths);
    proof {
        assert(paths_view(paths@) =~~= mode_label_paths());
    }
    r
}

pub open spec fn mode_effort_paths() -> Seq<Seq<Seq<char>>> {
    seq![seq!["reasoning_effort"@], seq!["reasoningEffort"@]]
}

pub(crate) fn mode_effort_at(m: &JsonValue) -> (r: Option<&str>)
    ensures
        opt_str(r) == first_str(m@, mode_effort_paths()),
{
    let paths: [&[&str]; 2] = [&["reasoning_effort"], &["reasoningEffort"]];
    let r = first_str_at(m, &paths);
    proof {
        assert(paths_view(paths@) =~~= mode_effort_paths());
    }
    r
}

pub open spec fn review_base_paths() -> Seq<Seq<Seq<char>>> {
    seq![seq!["base"@], seq!["branch"@]]
}

pub(crate) fn review_base_at(m: &JsonValue) -> (r: Option<&str>)
    ensures
        opt_str(r) == first_str(m@, review_base_paths()),
{
    let paths: [&[&str]; 2] = [&["base"], &["branch"]];
    let r = first_str_at(m, &paths);
    proof {
        assert(paths_view(paths@) =~~= review_base_paths());
    }
    r
}

pub open spec fn review_commit_paths() -> Seq<Seq<Seq<char>>> {
    seq![seq!["commit"@], seq!["sha"@]]
}

pub(crate) fn review_commit_at(m: &JsonValue) -> (r: Option<&str>)
    ensures
        opt_str(r) == first_str(m@, review_commit_paths()),
{
    let paths: [&[&str]; 2] = [&["commit"], &["sha"]];
    let r = first_str_at(m, &paths);
    proof {
        assert(paths_view(paths@) =~~= review_commit_paths());
    }
    r
}

pub open spec fn review_custom_paths() -> Seq<Seq<Seq<char>>> {
    seq![seq!["custom"@], seq!["instructions"@], seq!["target"@]]
}

pub(crate) fn review_custom_at(m: &JsonValue) -> (r: Option<&str>)
    ensures
        opt_str(r) == first_str(m@, review_custom_paths()),
{
    let paths: [&[&str]; 3] = [&["custom"], &["instructions"], &["target"]];
    let r = first_str_at(m, &paths);
    proof {
        assert(paths_view(paths@) =~~= review_custom_paths());
    }
    r
}


} // verus!
