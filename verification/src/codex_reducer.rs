//! The Codex reducer: projects Codex thread items and server notifications onto
//! universal events, with stable ids for turns, items, blocks, plans and diffs.
use vstd::prelude::*;
use crate::json::{Json, JsonValue, json_get, json_path, json_as_str, json_as_i64, json_as_array, json_text,
    values_view, get, at, as_str, as_i64, as_array, json_clone, json_to_text, path_view, opt_json};
use crate::codec::{CodexServerNotificationFrame, CODEX_APP_SERVER_PROTOCOL};
use crate::codex_questions::{items_at, items_at_exec, strings_among, strings_among_exec};
use crate::events::opt_s;
use crate::id_map::{CodexIdMap, NAMESPACE_URL, codex_turn_uuid, codex_item_uuid};
use crate::model::{SessionId, TurnId, ItemId, SessionStatus, TurnStatus, FileChangeKind, PlanEntryStatus,
    ProviderNotificationSeverity, NativeRef, NativeRefView, UtcTimestamp};
use crate::outside::{uuid_v5, uuid_text, new_v5, uuid_to_text, utc_now, chrono_timestamp_in_range,
    timestamp_from_secs};
use crate::reducer::{item_title_spec, item_title, item_role_spec, item_role, turn_status_spec,
    codex_turn_status_to_universal, thread_status_spec, codex_thread_status_to_universal,
    notification_category_spec, notification_category, reduced_notification_methods,
    is_known_reduced_notification, pipe_non_empty};
use crate::text::{owned, str_eq, concat2, concat3, join_on, join_strings, strings_view, nat_decimal, int_decimal,
    u64_decimal, i64_decimal, blank};
use crate::universal::{ItemStatus, ContentBlockKind, ContentBlock, BlockView, blocks_view,
    ToolProjectionKind, ToolActionProjection, ActionView, actions_view, ToolCommandProjection, CommandView,
    ToolMcpProjection, McpView, ToolProjection, ToolView, ItemState, ItemView, PlanStatus, PlanSource,
    UniversalPlanEntry, EntryView, entries_view, PlanState, PlanView, DiffFile, DiffFileView,
    diff_files_view, DiffState, DiffView, TurnState, SessionUsageContext, ProviderNotification,
    ProviderNotificationView, UniversalEventKind, UniversalView};

verus! {

/// The RFC 4122 OID namespace UUID (`6ba7b812-9dad-11d1-80b4-00c04fd430c8`).
pub const NAMESPACE_OID: u128 = 0x6ba7b8129dad11d180b400c04fd430c8u128;

// ---------------------------------------------------------------------------
// Reading Codex values
// ---------------------------------------------------------------------------

/// A scalar as text: a string as is, a number or boolean as its JSON text.
pub open spec fn scalar_text(v: Json) -> Option<Seq<char>> {
    match v {
        Json::Str(s) => Some(s),
        Json::Int(_) | Json::UInt(_) | Json::Float(_) | Json::Bool(_) => Some(json_text(v)),
        _ => None,
    }
}

/// The scalar at a path as text.
pub open spec fn text_at(v: Json, path: Seq<Seq<char>>) -> Option<Seq<char>> {
    match json_path(v, path) {
        Some(x) => scalar_text(x),
        None => None,
    }
}

pub open spec fn field_text(v: Json, key: Seq<char>) -> Option<Seq<char>> {
    text_at(v, seq![key])
}

pub open spec fn or_else(a: Option<Seq<char>>, b: Option<Seq<char>>) -> Option<Seq<char>> {
    match a {
        Some(x) => Some(x),
        None => b,
    }
}

pub open spec fn or_text(a: Option<Seq<char>>, fallback: Seq<char>) -> Seq<char> {
    match a {
        Some(x) => x,
        None => fallback,
    }
}

pub open spec fn opt_json_text(v: Option<Json>) -> Option<Seq<char>> {
    match v {
        Some(x) => Some(json_text(x)),
        None => None,
    }
}

fn scalar_text_exec(v: &JsonValue) -> (r: Option<String>)
    ensures
        opt_s(r) == scalar_text(v@),
{
    match v {
        JsonValue::Str(s) => Some(s.clone()),
        JsonValue::Int(_) | JsonValue::UInt(_) | JsonValue::Float(_) | JsonValue::Bool(_) => Some(json_to_text(v)),
        _ => None,
    }
}

fn field_text_exec(v: &JsonValue, key: &str) -> (r: Option<String>)
    ensures
        opt_s(r) == field_text(v@, key@),
{
    let path: [&str; 1] = [key];
    proof {
        assert(path_view(path@) =~= seq![key@]);
    }
    match at(v, &path) {
        Some(x) => scalar_text_exec(x),
        None => None,
    }
}

fn text_at2(v: &JsonValue, k1: &str, k2: &str) -> (r: Option<String>)
    ensures
        opt_s(r) == text_at(v@, seq![k1@, k2@]),
{
    let path: [&str; 2] = [k1, k2];
    proof {
        assert(path_view(path@) =~= seq![k1@, k2@]);
    }
    match at(v, &path) {
        Some(x) => scalar_text_exec(x),
        None => None,
    }
}

fn text_at3(v: &JsonValue, k1: &str, k2: &str, k3: &str) -> (r: Option<String>)
    ensures
        opt_s(r) == text_at(v@, seq![k1@, k2@, k3@]),
{
    let path: [&str; 3] = [k1, k2, k3];
    proof {
        assert(path_view(path@) =~= seq![k1@, k2@, k3@]);
    }
    match at(v, &path) {
        Some(x) => scalar_text_exec(x),
        None => None,
    }
}

fn or_else_exec(a: Option<String>, b: Option<String>) -> (r: Option<String>)
    ensures
        opt_s(r) == or_else(opt_s(a), opt_s(b)),
{
    match a {
        Some(x) => Some(x),
        None => b,
    }
}

fn or_text_exec(a: Option<String>, fallback: &str) -> (r: String)
    ensures
        r@ == or_text(opt_s(a), fallback@),
{
    match a {
        Some(x) => x,
        None => owned(fallback),
    }
}

fn opt_json_text_exec(v: Option<&JsonValue>) -> (r: Option<String>)
    ensures
        opt_s(r) == opt_json_text(opt_json(v)),
{
    match v {
        Some(x) => Some(json_to_text(x)),
        None => None,
    }
}

// ---------------------------------------------------------------------------
// Ids
// ---------------------------------------------------------------------------

/// `{item}:{suffix}`: the id of a block of an item.
pub open spec fn block_id_of(item: ItemId, suffix: Seq<char>) -> Seq<char> {
    uuid_text(item.0) + ":"@ + suffix
}

/// The id of the plan or diff (`kind`) of an item of a session.
pub open spec fn artifact_uuid(kind: Seq<char>, session: SessionId, item: ItemId) -> u128 {
    uuid_v5(NAMESPACE_URL, "agenter:codex:"@ + kind + ":"@ + uuid_text(session.0) + ":"@ + uuid_text(item.0))
}

/// The key of an item without an id: the name-based UUID of its JSON text.
pub open spec fn synthetic_item_key(raw: Json) -> Seq<char> {
    uuid_text(uuid_v5(NAMESPACE_OID, json_text(raw)))
}

fn block_id(item: ItemId, suffix: &str) -> (r: String)
    ensures
        r@ == block_id_of(item, suffix@),
{
    let id = uuid_to_text(item.0);
    concat3(id.as_str(), ":", suffix)
}

fn artifact_id(kind: &str, session: SessionId, item: ItemId) -> (r: u128)
    ensures
        r == artifact_uuid(kind@, session, item),
{
    let s = uuid_to_text(session.0);
    let i = uuid_to_text(item.0);
    let mut name = concat3("agenter:codex:", kind, ":");
    name.append(s.as_str());
    name.append(":");
    name.append(i.as_str());
    new_v5(NAMESPACE_URL, name.as_str())
}

fn synthetic_key_exec(raw: &JsonValue) -> (r: String)
    ensures
        r@ == synthetic_item_key(raw@),
{
    let text = json_to_text(raw);
    uuid_to_text(new_v5(NAMESPACE_OID, text.as_str()))
}

// ---------------------------------------------------------------------------
// Content blocks
// ---------------------------------------------------------------------------

pub open spec fn text_block_of(item: ItemId, suffix: Seq<char>, kind: ContentBlockKind, text: Seq<char>) -> BlockView {
    BlockView { block_id: block_id_of(item, suffix), kind, text: Some(text), mime_type: None, artifact_id: None }
}

pub open spec fn opt_block(item: ItemId, suffix: Seq<char>, kind: ContentBlockKind, text: Option<Seq<char>>) -> Seq<BlockView> {
    match text {
        Some(t) => seq![text_block_of(item, suffix, kind, t)],
        None => Seq::empty(),
    }
}

/// The text a user message content block shows, when it shows any.
pub open spec fn user_block_text(block: Json) -> Option<Seq<char>> {
    let kind = field_text(block, "type"@);
    if kind == Some("text"@) {
        field_text(block, "text"@)
    } else if kind == Some("image"@) {
        match field_text(block, "url"@) {
            Some(u) => Some("[image] "@ + u),
            None => None,
        }
    } else if kind == Some("localImage"@) {
        match field_text(block, "path"@) {
            Some(p) => Some("[local image] "@ + p),
            None => None,
        }
    } else if kind == Some("skill"@) {
        match field_text(block, "name"@) {
            Some(n) => Some("[skill] "@ + n),
            None => None,
        }
    } else if kind == Some("mention"@) {
        match field_text(block, "path"@) {
            Some(p) => Some("[mention] "@ + p),
            None => None,
        }
    } else {
        Some(json_text(block))
    }
}

/// The texts of the blocks that show one, in order.
pub open spec fn user_block_texts(blocks: Seq<Json>) -> Seq<Seq<char>>
    decreases blocks.len(),
{
    if blocks.len() == 0 {
        Seq::empty()
    } else {
        let prev = user_block_texts(blocks.drop_last());
        match user_block_text(blocks.last()) {
            Some(t) => prev.push(t),
            None => prev,
        }
    }
}

/// The text of a user message: its content blocks' texts, one per line, unless that
/// is blank.
pub open spec fn user_message_text(raw: Json) -> Option<Seq<char>> {
    match json_get(raw, "content"@) {
        Some(c) => match json_as_array(c) {
            Some(blocks) => {
                let text = join_on(user_block_texts(blocks), "\n"@);
                if blank(text) {
                    None
                } else {
                    Some(text)
                }
            },
            None => None,
        },
        None => None,
    }
}

/// The texts of the parts that have one, in order.
pub open spec fn part_texts(parts: Seq<Json>, key: Seq<char>) -> Seq<Seq<char>>
    decreases parts.len(),
{
    if parts.len() == 0 {
        Seq::empty()
    } else {
        let prev = part_texts(parts.drop_last(), key);
        match field_text(parts.last(), key) {
            Some(t) => prev.push(t),
            None => prev,
        }
    }
}

/// One block per string, numbered from 0 after `prefix`.
pub open spec fn numbered_blocks(item: ItemId, prefix: Seq<char>, kind: ContentBlockKind, texts: Seq<Seq<char>>) -> Seq<BlockView> {
    Seq::new(texts.len(), |i: int| text_block_of(item, prefix + nat_decimal(i as nat), kind, texts[i]))
}

/// One diff block for each change that has a diff, numbered by the change's position.
pub open spec fn file_diff_blocks(item: ItemId, changes: Seq<Json>) -> Seq<BlockView>
    decreases changes.len(),
{
    if changes.len() == 0 {
        Seq::empty()
    } else {
        let prev = file_diff_blocks(item, changes.drop_last());
        match field_text(changes.last(), "diff"@) {
            Some(d) => prev.push(
                text_block_of(item, "file-diff-"@ + nat_decimal((changes.len() - 1) as nat), ContentBlockKind::FileDiff, d),
            ),
            None => prev,
        }
    }
}

/// The content blocks of a Codex item of kind `kind`.
pub open spec fn item_content_of(item: ItemId, kind: Seq<char>, raw: Json) -> Seq<BlockView> {
    if kind == "userMessage"@ {
        opt_block(item, "text"@, ContentBlockKind::Text, user_message_text(raw))
    } else if kind == "agentMessage"@ || kind == "plan"@ {
        opt_block(item, "text"@, ContentBlockKind::Text, field_text(raw, "text"@))
    } else if kind == "reasoning"@ {
        numbered_blocks(item, "reasoning-summary-"@, ContentBlockKind::Reasoning, strings_among(items_at(raw, seq!["summary"@])))
            + numbered_blocks(item, "reasoning-raw-"@, ContentBlockKind::Reasoning, strings_among(items_at(raw, seq!["content"@])))
    } else if kind == "commandExecution"@ {
        opt_block(item, "output"@, ContentBlockKind::CommandOutput, field_text(raw, "aggregatedOutput"@))
    } else if kind == "fileChange"@ {
        file_diff_blocks(item, items_at(raw, seq!["changes"@]))
    } else if kind == "hookPrompt"@ {
        let text = join_on(part_texts(items_at(raw, seq!["fragments"@]), "text"@), ""@);
        if blank(text) {
            Seq::empty()
        } else {
            seq![text_block_of(item, "text"@, ContentBlockKind::Native, text)]
        }
    } else if kind == "enteredReviewMode"@ || kind == "exitedReviewMode"@ {
        opt_block(item, "text"@, ContentBlockKind::ProviderStatus, field_text(raw, "review"@))
    } else if kind == "imageView"@ || kind == "imageGeneration"@ {
        seq![
            BlockView {
                block_id: block_id_of(item, "image"@),
                kind: ContentBlockKind::Image,
                text: or_else(field_text(raw, "path"@), or_else(field_text(raw, "savedPath"@), field_text(raw, "result"@))),
                mime_type: None,
                artifact_id: None,
            },
        ]
    } else {
        seq![
            BlockView {
                block_id: block_id_of(item, "native"@),
                kind: ContentBlockKind::Native,
                text: Some(json_text(raw)),
                mime_type: Some("application/json"@),
                artifact_id: None,
            },
        ]
    }
}

fn text_block(item: ItemId, suffix: &str, kind: ContentBlockKind, text: String) -> (r: ContentBlock)
    ensures
        r@ == text_block_of(item, suffix@, kind, text@),
{
    ContentBlock { block_id: block_id(item, suffix), kind, text: Some(text), mime_type: None, artifact_id: None }
}

fn opt_block_exec(item: ItemId, suffix: &str, kind: ContentBlockKind, text: Option<String>) -> (r: Vec<ContentBlock>)
    ensures
        blocks_view(r@) == opt_block(item, suffix@, kind, opt_s(text)),
{
    let mut v: Vec<ContentBlock> = Vec::new();
    match text {
        Some(t) => {
            let b = text_block(item, suffix, kind, t);
            let ghost bv = b@;
            v.push(b);
            proof {
                assert(blocks_view(v@) =~= seq![bv]);
            }
        },
        None => {
            proof {
                assert(blocks_view(v@) =~= Seq::<BlockView>::empty());
            }
        },
    }
    v
}

fn user_block_text_exec(block: &JsonValue) -> (r: Option<String>)
    ensures
        opt_s(r) == user_block_text(block@),
{
    let kind = field_text_exec(block, "type");
    let k = match &kind {
        Some(k) => k.as_str(),
        None => "",
    };
    let has = kind.is_some();
    proof {
        assert(has ==> field_text(block@, "type"@) == Some(k@));
    }
    if has && str_eq(k, "text") {
        field_text_exec(block, "text")
    } else if has && str_eq(k, "image") {
        match field_text_exec(block, "url") {
            Some(u) => Some(concat2("[image] ", u.as_str())),
            None => None,
        }
    } else if has && str_eq(k, "localImage") {
        match field_text_exec(block, "path") {
            Some(p) => Some(concat2("[local image] ", p.as_str())),
            None => None,
        }
    } else if has && str_eq(k, "skill") {
        match field_text_exec(block, "name") {
            Some(n) => Some(concat2("[skill] ", n.as_str())),
            None => None,
        }
    } else if has && str_eq(k, "mention") {
        match field_text_exec(block, "path") {
            Some(p) => Some(concat2("[mention] ", p.as_str())),
            None => None,
        }
    } else {
        Some(json_to_text(block))
    }
}

fn user_message_text_exec(raw: &JsonValue) -> (r: Option<String>)
    ensures
        opt_s(r) == user_message_text(raw@),
{
    let c = match get(raw, "content") {
        Some(c) => c,
        None => return None,
    };
    let blocks = match as_array(c) {
        Some(b) => b,
        None => return None,
    };
    let ghost bv = values_view(blocks@);
    let mut texts: Vec<String> = Vec::new();
    let mut i: usize = 0;
    proof {
        assert(bv.subrange(0, 0) =~= Seq::<Json>::empty());
        assert(strings_view(texts@) =~= Seq::<Seq<char>>::empty());
    }
    while i < blocks.len()
        invariant
            i <= blocks.len(),
            bv == values_view(blocks@),
            strings_view(texts@) == user_block_texts(bv.subrange(0, i as int)),
        decreases blocks.len() - i,
    {
        proof {
            assert(bv.subrange(0, i + 1).drop_last() =~= bv.subrange(0, i as int));
            assert(bv.subrange(0, i + 1).last() == blocks@[i as int]@);
        }
        match user_block_text_exec(&blocks[i]) {
            Some(t) => {
                let ghost before = texts@;
                let ghost tv = t@;
                texts.push(t);
                proof {
                    assert(strings_view(texts@) =~= strings_view(before).push(tv));
                }
            },
            None => {},
        }
        i = i + 1;
    }
    proof {
        assert(bv.subrange(0, blocks@.len() as int) =~= bv);
    }
    let text = join_strings(&texts, "\n");
    pipe_non_empty(text)
}

fn part_texts_exec(raw: &JsonValue, list: &str, key: &str) -> (r: Vec<String>)
    ensures
        strings_view(r@) == part_texts(items_at(raw@, seq![list@]), key@),
{
    let path: [&str; 1] = [list];
    proof {
        assert(path_view(path@) =~= seq![list@]);
    }
    let mut texts: Vec<String> = Vec::new();
    let ghost pv = items_at(raw@, seq![list@]);
    match items_at_exec(raw, &path) {
        Some(parts) => {
            let mut i: usize = 0;
            proof {
                assert(pv.subrange(0, 0) =~= Seq::<Json>::empty());
                assert(strings_view(texts@) =~= Seq::<Seq<char>>::empty());
            }
            while i < parts.len()
                invariant
                    i <= parts.len(),
                    pv == values_view(parts@),
                    strings_view(texts@) == part_texts(pv.subrange(0, i as int), key@),
                decreases parts.len() - i,
            {
                proof {
                    assert(pv.subrange(0, i + 1).drop_last() =~= pv.subrange(0, i as int));
                    assert(pv.subrange(0, i + 1).last() == parts@[i as int]@);
                }
                match field_text_exec(&parts[i], key) {
                    Some(t) => {
                        let ghost before = texts@;
                        let ghost tv = t@;
                        texts.push(t);
                        proof {
                            assert(strings_view(texts@) =~= strings_view(before).push(tv));
                        }
                    },
                    None => {},
                }
                i = i + 1;
            }
            proof {
                assert(pv.subrange(0, parts@.len() as int) =~= pv);
            }
        },
        None => {
            proof {
                assert(pv =~= Seq::<Json>::empty());
                assert(strings_view(texts@) =~= part_texts(pv, key@));
            }
        },
    }
    texts
}

fn numbered_blocks_exec(item: ItemId, prefix: &str, kind: ContentBlockKind, texts: Vec<String>, out: &mut Vec<ContentBlock>)
    ensures
        blocks_view(final(out)@) == blocks_view(old(out)@) + numbered_blocks(item, prefix@, kind, strings_view(texts@)),
{
    let ghost start = blocks_view(out@);
    let ghost tv = strings_view(texts@);
    let mut i: usize = 0;
    while i < texts.len()
        invariant
            i <= texts.len(),
            tv == strings_view(texts@),
            blocks_view(out@) =~= start + numbered_blocks(item, prefix@, kind, tv).subrange(0, i as int),
        decreases texts.len() - i,
    {
        let n = u64_decimal(i as u64);
        let suffix = concat2(prefix, n.as_str());
        let b = text_block(item, suffix.as_str(), kind, texts[i].clone());
        let ghost before = blocks_view(out@);
        let ghost bv = b@;
        out.push(b);
        proof {
            assert(blocks_view(out@) =~= before.push(bv));
        }
        i = i + 1;
    }
    proof {
        assert(numbered_blocks(item, prefix@, kind, tv).subrange(0, tv.len() as int) =~= numbered_blocks(item, prefix@, kind, tv));
    }
}

fn file_diff_blocks_exec(item: ItemId, raw: &JsonValue) -> (r: Vec<ContentBlock>)
    ensures
        blocks_view(r@) == file_diff_blocks(item, items_at(raw@, seq!["changes"@])),
{
    let path: [&str; 1] = ["changes"];
    proof {
        assert(path_view(path@) =~= seq!["changes"@]);
    }
    let mut out: Vec<ContentBlock> = Vec::new();
    let ghost cv = items_at(raw@, seq!["changes"@]);
    match items_at_exec(raw, &path) {
        Some(changes) => {
            let mut i: usize = 0;
            proof {
                assert(cv.subrange(0, 0) =~= Seq::<Json>::empty());
                assert(blocks_view(out@) =~= Seq::<BlockView>::empty());
            }
            while i < changes.len()
                invariant
                    i <= changes.len(),
                    cv == values_view(changes@),
                    blocks_view(out@) == file_diff_blocks(item, cv.subrange(0, i as int)),
                decreases changes.len() - i,
            {
                proof {
                    assert(cv.subrange(0, i + 1).drop_last() =~= cv.subrange(0, i as int));
                    assert(cv.subrange(0, i + 1).last() == changes@[i as int]@);
                }
                match field_text_exec(&changes[i], "diff") {
                    Some(d) => {
                        let n = u64_decimal(i as u64);
                        let suffix = concat2("file-diff-", n.as_str());
                        let b = text_block(item, suffix.as_str(), ContentBlockKind::FileDiff, d);
                        let ghost before = out@;
                        let ghost bv = b@;
                        out.push(b);
                        proof {
                            assert(blocks_view(out@) =~= blocks_view(before).push(bv));
                        }
                    },
                    None => {},
                }
                i = i + 1;
            }
            proof {
                assert(cv.subrange(0, changes@.len() as int) =~= cv);
            }
        },
        None => {
            proof {
                assert(cv =~= Seq::<Json>::empty());
                assert(blocks_view(out@) =~= file_diff_blocks(item, cv));
            }
        },
    }
    out
}

fn strings_at(raw: &JsonValue, key: &str) -> (r: Vec<String>)
    ensures
        strings_view(r@) == strings_among(items_at(raw@, seq![key@])),
{
    let path: [&str; 1] = [key];
    proof {
        assert(path_view(path@) =~= seq![key@]);
    }
    match items_at_exec(raw, &path) {
        Some(a) => strings_among_exec(a),
        None => {
            let v: Vec<String> = Vec::new();
            proof {
                assert(strings_view(v@) =~= Seq::<Seq<char>>::empty());
                assert(items_at(raw@, seq![key@]) =~= Seq::<Json>::empty());
            }
            v
        },
    }
}

/// The content blocks of a Codex item.
pub fn item_content(item: ItemId, kind: &str, raw: &JsonValue) -> (r: Vec<ContentBlock>)
    ensures
        blocks_view(r@) == item_content_of(item, kind@, raw@),
{
    if str_eq(kind, "userMessage") {
        opt_block_exec(item, "text", ContentBlockKind::Text, user_message_text_exec(raw))
    } else if str_eq(kind, "agentMessage") || str_eq(kind, "plan") {
        opt_block_exec(item, "text", ContentBlockKind::Text, field_text_exec(raw, "text"))
    } else if str_eq(kind, "reasoning") {
        let mut out: Vec<ContentBlock> = Vec::new();
        proof {
            assert(blocks_view(out@) =~= Seq::<BlockView>::empty());
        }
        numbered_blocks_exec(item, "reasoning-summary-", ContentBlockKind::Reasoning, strings_at(raw, "summary"), &mut out);
        numbered_blocks_exec(item, "reasoning-raw-", ContentBlockKind::Reasoning, strings_at(raw, "content"), &mut out);
        out
    } else if str_eq(kind, "commandExecution") {
        opt_block_exec(item, "output", ContentBlockKind::CommandOutput, field_text_exec(raw, "aggregatedOutput"))
    } else if str_eq(kind, "fileChange") {
        file_diff_blocks_exec(item, raw)
    } else if str_eq(kind, "hookPrompt") {
        let parts = part_texts_exec(raw, "fragments", "text");
        let text = join_strings(&parts, "");
        match pipe_non_empty(text) {
            Some(t) => opt_block_exec(item, "text", ContentBlockKind::Native, Some(t)),
            None => {
                let v: Vec<ContentBlock> = Vec::new();
                proof {
                    assert(blocks_view(v@) =~= Seq::<BlockView>::empty());
                }
                v
            },
        }
    } else if str_eq(kind, "enteredReviewMode") || str_eq(kind, "exitedReviewMode") {
        opt_block_exec(item, "text", ContentBlockKind::ProviderStatus, field_text_exec(raw, "review"))
    } else if str_eq(kind, "imageView") || str_eq(kind, "imageGeneration") {
        let text = or_else_exec(
            field_text_exec(raw, "path"),
            or_else_exec(field_text_exec(raw, "savedPath"), field_text_exec(raw, "result")),
        );
        let b = ContentBlock {
            block_id: block_id(item, "image"),
            kind: ContentBlockKind::Image,
            text,
            mime_type: None,
            artifact_id: None,
        };
        let ghost bv = b@;
        let mut v: Vec<ContentBlock> = Vec::new();
        v.push(b);
        proof {
            assert(blocks_view(v@) =~= seq![bv]);
        }
        v
    } else {
        let b = ContentBlock {
            block_id: block_id(item, "native"),
            kind: ContentBlockKind::Native,
            text: Some(json_to_text(raw)),
            mime_type: Some(owned("application/json")),
            artifact_id: None,
        };
        let ghost bv = b@;
        let mut v: Vec<ContentBlock> = Vec::new();
        v.push(b);
        proof {
            assert(blocks_view(v@) =~= seq![bv]);
        }
        v
    }
}

// ---------------------------------------------------------------------------
// Tools
// ---------------------------------------------------------------------------

/// One command action: its type (else `native`), its command line (else its JSON),
/// its reason and path.
pub open spec fn action_of(v: Json) -> ActionView {
    ActionView {
        kind: or_text(field_text(v, "type"@), "native"@),
        label: or_text(or_else(field_text(v, "cmd"@), field_text(v, "command"@)), json_text(v)),
        detail: field_text(v, "reason"@),
        path: field_text(v, "path"@),
    }
}

/// Whether a command succeeded, as its status says.
pub open spec fn command_success_of(raw: Json) -> Option<bool> {
    let s = field_text(raw, "status"@);
    if s == Some("completed"@) {
        Some(true)
    } else if s == Some("failed"@) || s == Some("declined"@) {
        Some(false)
    } else {
        None
    }
}

/// An integer member that fits `i32`.
pub open spec fn i32_member(raw: Json, key: Seq<char>) -> Option<i32> {
    match json_get(raw, key) {
        Some(v) => match json_as_i64(v) {
            Some(i) => if i32::MIN <= i && i <= i32::MAX {
                Some(i as i32)
            } else {
                None
            },
            None => None,
        },
        None => None,
    }
}

/// An integer member that is not negative.
pub open spec fn u64_member(raw: Json, key: Seq<char>) -> Option<u64> {
    match json_get(raw, key) {
        Some(v) => match json_as_i64(v) {
            Some(i) => if i >= 0 {
                Some(i as u64)
            } else {
                None
            },
            None => None,
        },
        None => None,
    }
}

pub open spec fn generic_tool_of(subkind: Seq<char>, title: Seq<char>, status: ItemStatus, detail: Option<Seq<char>>) -> ToolView {
    ToolView {
        kind: ToolProjectionKind::Tool,
        subkind: Some(subkind),
        name: subkind,
        title,
        status,
        detail,
        input_summary: None,
        output_summary: None,
        command: None,
        mcp: None,
    }
}

/// How a Codex item of kind `kind` shows its tool, if it is one.
pub open spec fn item_tool_of(kind: Seq<char>, raw: Json, status: ItemStatus) -> Option<ToolView> {
    if kind == "commandExecution"@ {
        Some(
            ToolView {
                kind: ToolProjectionKind::Command,
                subkind: Some("command_execution"@),
                name: "command"@,
                title: or_text(field_text(raw, "command"@), "Command"@),
                status,
                detail: field_text(raw, "status"@),
                input_summary: field_text(raw, "command"@),
                output_summary: field_text(raw, "aggregatedOutput"@),
                command: Some(
                    CommandView {
                        command: or_text(field_text(raw, "command"@), ""@),
                        cwd: field_text(raw, "cwd"@),
                        source: field_text(raw, "source"@),
                        process_id: field_text(raw, "processId"@),
                        actions: items_at(raw, seq!["commandActions"@]).map_values(|a: Json| action_of(a)),
                        exit_code: i32_member(raw, "exitCode"@),
                        duration_ms: u64_member(raw, "durationMs"@),
                        success: command_success_of(raw),
                    },
                ),
                mcp: None,
            },
        )
    } else if kind == "fileChange"@ {
        Some(
            ToolView {
                kind: ToolProjectionKind::Tool,
                subkind: Some("file_change"@),
                name: "file_change"@,
                title: "File change"@,
                status,
                detail: field_text(raw, "status"@),
                input_summary: Some(nat_decimal(items_at(raw, seq!["changes"@]).len()) + " changed file(s)"@),
                output_summary: None,
                command: None,
                mcp: None,
            },
        )
    } else if kind == "mcpToolCall"@ {
        Some(
            ToolView {
                kind: ToolProjectionKind::Mcp,
                subkind: None,
                name: or_text(field_text(raw, "tool"@), "mcp"@),
                title: or_text(field_text(raw, "server"@), "MCP"@) + " "@ + or_text(field_text(raw, "tool"@), "tool"@),
                status,
                detail: or_else(field_text(raw, "status"@), text_at(raw, seq!["error"@, "message"@])),
                input_summary: Some(
                    json_text(
                        match json_get(raw, "arguments"@) {
                            Some(a) => a,
                            None => Json::Null,
                        },
                    ),
                ),
                output_summary: opt_json_text(json_get(raw, "result"@)),
                command: None,
                mcp: Some(
                    McpView {
                        server: field_text(raw, "server"@),
                        tool: or_text(field_text(raw, "tool"@), "tool"@),
                        arguments_summary: opt_json_text(json_get(raw, "arguments"@)),
                        result_summary: opt_json_text(
                            match json_get(raw, "result"@) {
                                Some(r) => Some(r),
                                None => json_get(raw, "error"@),
                            },
                        ),
                    },
                ),
            },
        )
    } else if kind == "webSearch"@ {
        Some(generic_tool_of("web_search"@, "Web search"@, status, field_text(raw, "query"@)))
    } else if kind == "dynamicToolCall"@ {
        Some(
            generic_tool_of(
                "dynamic_tool"@,
                or_text(field_text(raw, "tool"@), "Dynamic tool"@),
                status,
                opt_json_text(json_get(raw, "arguments"@)),
            ),
        )
    } else if kind == "collabAgentToolCall"@ {
        Some(
            generic_tool_of(
                "collab_agent"@,
                or_text(field_text(raw, "tool"@), "Agent collaboration"@),
                status,
                field_text(raw, "prompt"@),
            ),
        )
    } else if kind == "imageView"@ {
        Some(generic_tool_of("image_view"@, "Image view"@, status, field_text(raw, "path"@)))
    } else if kind == "imageGeneration"@ {
        Some(generic_tool_of("image_generation"@, "Image generation"@, status, field_text(raw, "revisedPrompt"@)))
    } else {
        None
    }
}

fn action_exec(v: &JsonValue) -> (r: ToolActionProjection)
    ensures
        r@ == action_of(v@),
{
    let label = match or_else_exec(field_text_exec(v, "cmd"), field_text_exec(v, "command")) {
        Some(l) => l,
        None => json_to_text(v),
    };
    ToolActionProjection {
        kind: or_text_exec(field_text_exec(v, "type"), "native"),
        label,
        detail: field_text_exec(v, "reason"),
        path: field_text_exec(v, "path"),
    }
}

fn command_success(raw: &JsonValue) -> (r: Option<bool>)
    ensures
        r == command_success_of(raw@),
{
    match field_text_exec(raw, "status") {
        Some(s) => if str_eq(s.as_str(), "completed") {
            Some(true)
        } else if str_eq(s.as_str(), "failed") || str_eq(s.as_str(), "declined") {
            Some(false)
        } else {
            None
        },
        None => None,
    }
}

fn i32_member_exec(raw: &JsonValue, key: &str) -> (r: Option<i32>)
    ensures
        r == i32_member(raw@, key@),
{
    match get(raw, key) {
        Some(v) => match as_i64(v) {
            Some(i) => if i32::MIN as i64 <= i && i <= i32::MAX as i64 {
                Some(i as i32)
            } else {
                None
            },
            None => None,
        },
        None => None,
    }
}

fn u64_member_exec(raw: &JsonValue, key: &str) -> (r: Option<u64>)
    ensures
        r == u64_member(raw@, key@),
{
    match get(raw, key) {
        Some(v) => match as_i64(v) {
            Some(i) => if i >= 0 {
                Some(i as u64)
            } else {
                None
            },
            None => None,
        },
        None => None,
    }
}

fn actions_exec(raw: &JsonValue) -> (r: Vec<ToolActionProjection>)
    ensures
        actions_view(r@) == items_at(raw@, seq!["commandActions"@]).map_values(|a: Json| action_of(a)),
{
    let path: [&str; 1] = ["commandActions"];
    proof {
        assert(path_view(path@) =~= seq!["commandActions"@]);
    }
    let mut out: Vec<ToolActionProjection> = Vec::new();
    let ghost av = items_at(raw@, seq!["commandActions"@]);
    match items_at_exec(raw, &path) {
        Some(actions) => {
            let mut i: usize = 0;
            while i < actions.len()
                invariant
                    i <= actions.len(),
                    av == values_view(actions@),
                    actions_view(out@) =~= av.map_values(|a: Json| action_of(a)).subrange(0, i as int),
                decreases actions.len() - i,
            {
                let a = action_exec(&actions[i]);
                let ghost before = out@;
                let ghost x = a@;
                out.push(a);
                proof {
                    assert(actions_view(out@) =~= actions_view(before).push(x));
                }
                i = i + 1;
            }
            proof {
                assert(av.map_values(|a: Json| action_of(a)).subrange(0, actions@.len() as int) =~= av.map_values(
                    |a: Json| action_of(a),
                ));
            }
        },
        None => {
            proof {
                assert(av =~= Seq::<Json>::empty());
                assert(actions_view(out@) =~= av.map_values(|a: Json| action_of(a)));
            }
        },
    }
    out
}

fn generic_tool(subkind: &str, title: String, status: ItemStatus, detail: Option<String>) -> (r: ToolProjection)
    ensures
        r@ == generic_tool_of(subkind@, title@, status, opt_s(detail)),
{
    ToolProjection {
        kind: ToolProjectionKind::Tool,
        subkind: Some(owned(subkind)),
        name: owned(subkind),
        title,
        status,
        detail,
        input_summary: None,
        output_summary: None,
        command: None,
        mcp: None,
    }
}

fn count_at(raw: &JsonValue, key: &str) -> (r: usize)
    ensures
        r as nat == items_at(raw@, seq![key@]).len(),
{
    let path: [&str; 1] = [key];
    proof {
        assert(path_view(path@) =~= seq![key@]);
    }
    match items_at_exec(raw, &path) {
        Some(a) => a.len(),
        None => 0,
    }
}

/// How a Codex item shows its tool, if it is one.
pub fn item_tool(kind: &str, raw: &JsonValue, status: ItemStatus) -> (r: Option<ToolProjection>)
    ensures
        match r {
            Some(t) => item_tool_of(kind@, raw@, status) == Some(t@),
            None => item_tool_of(kind@, raw@, status) is None,
        },
{
    if str_eq(kind, "commandExecution") {
        Some(ToolProjection {
            kind: ToolProjectionKind::Command,
            subkind: Some(owned("command_execution")),
            name: owned("command"),
            title: or_text_exec(field_text_exec(raw, "command"), "Command"),
            status,
            detail: field_text_exec(raw, "status"),
            input_summary: field_text_exec(raw, "command"),
            output_summary: field_text_exec(raw, "aggregatedOutput"),
            command: Some(ToolCommandProjection {
                command: or_text_exec(field_text_exec(raw, "command"), ""),
                cwd: field_text_exec(raw, "cwd"),
                source: field_text_exec(raw, "source"),
                process_id: field_text_exec(raw, "processId"),
                actions: actions_exec(raw),
                exit_code: i32_member_exec(raw, "exitCode"),
                duration_ms: u64_member_exec(raw, "durationMs"),
                success: command_success(raw),
            }),
            mcp: None,
        })
    } else if str_eq(kind, "fileChange") {
        let n = u64_decimal(count_at(raw, "changes") as u64);
        Some(ToolProjection {
            kind: ToolProjectionKind::Tool,
            subkind: Some(owned("file_change")),
            name: owned("file_change"),
            title: owned("File change"),
            status,
            detail: field_text_exec(raw, "status"),
            input_summary: Some(concat2(n.as_str(), " changed file(s)")),
            output_summary: None,
            command: None,
            mcp: None,
        })
    } else if str_eq(kind, "mcpToolCall") {
        let server = or_text_exec(field_text_exec(raw, "server"), "MCP");
        let tool = or_text_exec(field_text_exec(raw, "tool"), "tool");
        let null = JsonValue::Null;
        let arguments = match get(raw, "arguments") {
            Some(a) => a,
            None => &null,
        };
        let result_or_error = match get(raw, "result") {
            Some(r) => Some(r),
            None => get(raw, "error"),
        };
        Some(ToolProjection {
            kind: ToolProjectionKind::Mcp,
            subkind: None,
            name: or_text_exec(field_text_exec(raw, "tool"), "mcp"),
            title: concat3(server.as_str(), " ", tool.as_str()),
            status,
            detail: or_else_exec(field_text_exec(raw, "status"), text_at2(raw, "error", "message")),
            input_summary: Some(json_to_text(arguments)),
            output_summary: opt_json_text_exec(get(raw, "result")),
            command: None,
            mcp: Some(ToolMcpProjection {
                server: field_text_exec(raw, "server"),
                tool: or_text_exec(field_text_exec(raw, "tool"), "tool"),
                arguments_summary: opt_json_text_exec(get(raw, "arguments")),
                result_summary: opt_json_text_exec(result_or_error),
            }),
        })
    } else if str_eq(kind, "webSearch") {
        Some(generic_tool("web_search", owned("Web search"), status, field_text_exec(raw, "query")))
    } else if str_eq(kind, "dynamicToolCall") {
        Some(
            generic_tool(
                "dynamic_tool",
                or_text_exec(field_text_exec(raw, "tool"), "Dynamic tool"),
                status,
                opt_json_text_exec(get(raw, "arguments")),
            ),
        )
    } else if str_eq(kind, "collabAgentToolCall") {
        Some(
            generic_tool(
                "collab_agent",
                or_text_exec(field_text_exec(raw, "tool"), "Agent collaboration"),
                status,
                field_text_exec(raw, "prompt"),
            ),
        )
    } else if str_eq(kind, "imageView") {
        Some(generic_tool("image_view", owned("Image view"), status, field_text_exec(raw, "path")))
    } else if str_eq(kind, "imageGeneration") {
        Some(generic_tool("image_generation", owned("Image generation"), status, field_text_exec(raw, "revisedPrompt")))
    } else {
        None
    }
}

/// The block a completed item finishes with: an agent message's or plan's text, a
/// reasoning's first summary, a command's output.
pub open spec fn completed_block_of(item: ItemId, kind: Seq<char>, raw: Json) -> Option<(Seq<char>, ContentBlockKind, Seq<char>)> {
    if kind == "agentMessage"@ || kind == "plan"@ {
        match field_text(raw, "text"@) {
            Some(t) => Some((block_id_of(item, "text"@), ContentBlockKind::Text, t)),
            None => None,
        }
    } else if kind == "reasoning"@ {
        let summary = items_at(raw, seq!["summary"@]);
        if summary.len() > 0 {
            match json_as_str(summary[0]) {
                Some(t) => Some((block_id_of(item, "reasoning-summary-0"@), ContentBlockKind::Reasoning, t)),
                None => None,
            }
        } else {
            None
        }
    } else if kind == "commandExecution"@ {
        match field_text(raw, "aggregatedOutput"@) {
            Some(t) => Some((block_id_of(item, "output"@), ContentBlockKind::CommandOutput, t)),
            None => None,
        }
    } else {
        None
    }
}

fn completed_block(item: ItemId, kind: &str, raw: &JsonValue) -> (r: Option<(String, ContentBlockKind, String)>)
    ensures
        match r {
            Some((b, k, t)) => completed_block_of(item, kind@, raw@) == Some((b@, k, t@)),
            None => completed_block_of(item, kind@, raw@) is None,
        },
{
    if str_eq(kind, "agentMessage") || str_eq(kind, "plan") {
        match field_text_exec(raw, "text") {
            Some(t) => Some((block_id(item, "text"), ContentBlockKind::Text, t)),
            None => None,
        }
    } else if str_eq(kind, "reasoning") {
        let path: [&str; 1] = ["summary"];
        proof {
            assert(path_view(path@) =~= seq!["summary"@]);
        }
        match items_at_exec(raw, &path) {
            Some(summary) => if summary.len() > 0 {
                match as_str(&summary[0]) {
                    Some(t) => Some((block_id(item, "reasoning-summary-0"), ContentBlockKind::Reasoning, owned(t))),
                    None => None,
                }
            } else {
                None
            },
            None => None,
        }
    } else if str_eq(kind, "commandExecution") {
        match field_text_exec(raw, "aggregatedOutput") {
            Some(t) => Some((block_id(item, "output"), ContentBlockKind::CommandOutput, t)),
            None => None,
        }
    } else {
        None
    }
}

// ---------------------------------------------------------------------------
// Diffs and plans
// ---------------------------------------------------------------------------

/// The file change kind of a patch change kind.
pub open spec fn patch_kind_of(kind: Option<Json>) -> FileChangeKind {
    let k = match kind {
        Some(v) => json_as_str(v),
        None => None,
    };
    if k == Some("add"@) {
        FileChangeKind::Create
    } else if k == Some("delete"@) {
        FileChangeKind::Delete
    } else {
        FileChangeKind::Modify
    }
}

pub open spec fn diff_file_of(change: Json) -> DiffFileView {
    DiffFileView {
        path: or_text(field_text(change, "path"@), "unknown"@),
        status: patch_kind_of(json_get(change, "kind"@)),
        diff: field_text(change, "diff"@),
    }
}

/// The diff of a list of changes, stamped `now`.
pub open spec fn diff_state_of(
    session: SessionId,
    turn: Option<TurnId>,
    diff_id: u128,
    title: Seq<char>,
    changes: Option<Json>,
    now: UtcTimestamp,
) -> DiffView {
    let items = match changes {
        Some(c) => match json_as_array(c) {
            Some(a) => a,
            None => Seq::empty(),
        },
        None => Seq::empty(),
    };
    DiffView {
        diff_id,
        session_id: session,
        turn_id: turn,
        title: Some(title),
        files: items.map_values(|c: Json| diff_file_of(c)),
        updated_at: Some(now),
    }
}

fn patch_kind(kind: Option<&JsonValue>) -> (r: FileChangeKind)
    ensures
        r == patch_kind_of(opt_json(kind)),
{
    let k = match kind {
        Some(v) => as_str(v),
        None => None,
    };
    match k {
        Some(s) => if str_eq(s, "add") {
            FileChangeKind::Create
        } else if str_eq(s, "delete") {
            FileChangeKind::Delete
        } else {
            FileChangeKind::Modify
        },
        None => FileChangeKind::Modify,
    }
}

fn diff_state(
    session: SessionId,
    turn: Option<TurnId>,
    diff_id: u128,
    title: &str,
    changes: Option<&JsonValue>,
    now: UtcTimestamp,
) -> (r: DiffState)
    ensures
        r@ == diff_state_of(session, turn, diff_id, title@, opt_json(changes), now),
{
    let ghost items = match opt_json(changes) {
        Some(c) => match json_as_array(c) {
            Some(a) => a,
            None => Seq::empty(),
        },
        None => Seq::empty(),
    };
    let mut files: Vec<DiffFile> = Vec::new();
    let arr = match changes {
        Some(c) => as_array(c),
        None => None,
    };
    match arr {
        Some(a) => {
            let mut i: usize = 0;
            while i < a.len()
                invariant
                    i <= a.len(),
                    items == values_view(a@),
                    diff_files_view(files@) =~= items.map_values(|c: Json| diff_file_of(c)).subrange(0, i as int),
                decreases a.len() - i,
            {
                let change = &a[i];
                let f = DiffFile {
                    path: or_text_exec(field_text_exec(change, "path"), "unknown"),
                    status: patch_kind(get(change, "kind")),
                    diff: field_text_exec(change, "diff"),
                };
                let ghost before = files@;
                let ghost fv = f@;
                files.push(f);
                proof {
                    assert(diff_files_view(files@) =~= diff_files_view(before).push(fv));
                }
                i = i + 1;
            }
            proof {
                assert(items.map_values(|c: Json| diff_file_of(c)).subrange(0, a@.len() as int) =~= items.map_values(
                    |c: Json| diff_file_of(c),
                ));
            }
        },
        None => {
            proof {
                assert(items =~= Seq::<Json>::empty());
                assert(diff_files_view(files@) =~= items.map_values(|c: Json| diff_file_of(c)));
            }
        },
    }
    DiffState { diff_id, session_id: session, turn_id: turn, title: Some(owned(title)), files, updated_at: Some(now) }
}

// ---------------------------------------------------------------------------
// Outputs
// ---------------------------------------------------------------------------

/// One universal event the reducer produced, with the session, turn and item it
/// belongs to, when it was produced, and the native frame it came from.
#[derive(Debug, PartialEq)]
pub struct CodexReducerOutput {
    pub session_id: SessionId,
    pub turn_id: Option<TurnId>,
    pub item_id: Option<ItemId>,
    pub ts: UtcTimestamp,
    pub native: NativeRef,
    pub event: UniversalEventKind,
}

pub struct ReducedView {
    pub session_id: SessionId,
    pub turn_id: Option<TurnId>,
    pub item_id: Option<ItemId>,
    pub ts: UtcTimestamp,
    pub native: NativeRefView,
    pub event: UniversalView,
}

impl View for CodexReducerOutput {
    type V = ReducedView;

    open spec fn view(&self) -> ReducedView {
        ReducedView {
            session_id: self.session_id,
            turn_id: self.turn_id,
            item_id: self.item_id,
            ts: self.ts,
            native: self.native@,
            event: self.event@,
        }
    }
}

pub open spec fn reduced_view(v: Seq<CodexReducerOutput>) -> Seq<ReducedView> {
    v.map_values(|o: CodexReducerOutput| o@)
}

pub open spec fn out_of(
    session: SessionId,
    turn: Option<TurnId>,
    item: Option<ItemId>,
    native: NativeRefView,
    event: UniversalView,
    now: UtcTimestamp,
) -> ReducedView {
    ReducedView { session_id: session, turn_id: turn, item_id: item, ts: now, native, event }
}

/// A provider notification about the item (its id as subject), when there is one.
pub open spec fn notice_of(
    session: SessionId,
    turn: Option<TurnId>,
    item: Option<ItemId>,
    native: NativeRefView,
    category: Seq<char>,
    title: Seq<char>,
    detail: Option<Seq<char>>,
    severity: Option<ProviderNotificationSeverity>,
    now: UtcTimestamp,
) -> ReducedView {
    out_of(
        session,
        turn,
        item,
        native,
        UniversalView::ProviderNotification {
            notification: ProviderNotificationView {
                category,
                title,
                detail,
                status: None,
                severity,
                subject: match item {
                    Some(i) => Some(uuid_text(i.0)),
                    None => None,
                },
            },
        },
        now,
    )
}

/// The native reference of a thread item.
pub open spec fn item_native_of(kind: Option<Seq<char>>, native_id: Option<Seq<char>>, raw: Json) -> NativeRefView {
    NativeRefView {
        protocol: CODEX_APP_SERVER_PROTOCOL@,
        method: match kind {
            Some(k) => Some("threadItem/"@ + k),
            None => None,
        },
        kind: Some("thread_item"@),
        native_id,
        summary: match kind {
            Some(k) => Some(item_title_spec(k)),
            None => None,
        },
        hash: None,
        pointer: None,
        raw_payload: Some(raw),
    }
}

/// The native reference of a server notification.
pub open spec fn notification_native_of(method: Seq<char>, raw: Json) -> NativeRefView {
    NativeRefView {
        protocol: CODEX_APP_SERVER_PROTOCOL@,
        method: Some(method),
        kind: Some("server_notification"@),
        native_id: None,
        summary: Some("Codex notification "@ + method),
        hash: None,
        pointer: None,
        raw_payload: Some(raw),
    }
}

pub(crate) fn native_clone(n: &NativeRef) -> (r: NativeRef)
    ensures
        r@ == n@,
{
    NativeRef {
        protocol: n.protocol.clone(),
        method: match &n.method {
            Some(m) => Some(m.clone()),
            None => None,
        },
        kind: match &n.kind {
            Some(k) => Some(k.clone()),
            None => None,
        },
        native_id: match &n.native_id {
            Some(i) => Some(i.clone()),
            None => None,
        },
        summary: match &n.summary {
            Some(s) => Some(s.clone()),
            None => None,
        },
        hash: match &n.hash {
            Some(h) => Some(h.clone()),
            None => None,
        },
        pointer: match &n.pointer {
            Some(p) => Some(p.clone()),
            None => None,
        },
        raw_payload: match &n.raw_payload {
            Some(p) => Some(json_clone(p)),
            None => None,
        },
    }
}

fn item_native(kind: Option<&str>, native_id: Option<&str>, raw: &JsonValue) -> (r: NativeRef)
    ensures
        r@ == item_native_of(crate::json::opt_str(kind), crate::json::opt_str(native_id), raw@),
{
    NativeRef {
        protocol: owned(CODEX_APP_SERVER_PROTOCOL),
        method: match kind {
            Some(k) => Some(concat2("threadItem/", k)),
            None => None,
        },
        kind: Some(owned("thread_item")),
        native_id: match native_id {
            Some(i) => Some(owned(i)),
            None => None,
        },
        summary: match kind {
            Some(k) => Some(item_title(k)),
            None => None,
        },
        hash: None,
        pointer: None,
        raw_payload: Some(json_clone(raw)),
    }
}

fn notification_native(frame: &CodexServerNotificationFrame) -> (r: NativeRef)
    ensures
        r@ == notification_native_of(frame.method@, frame.raw_payload@),
{
    NativeRef {
        protocol: owned(CODEX_APP_SERVER_PROTOCOL),
        method: Some(frame.method.clone()),
        kind: Some(owned("server_notification")),
        native_id: None,
        summary: Some(concat2("Codex notification ", frame.method.as_str())),
        hash: None,
        pointer: None,
        raw_payload: Some(json_clone(&frame.raw_payload)),
    }
}

fn out(
    session: SessionId,
    turn: Option<TurnId>,
    item: Option<ItemId>,
    native: NativeRef,
    event: UniversalEventKind,
    now: UtcTimestamp,
) -> (r: CodexReducerOutput)
    ensures
        r@ == out_of(session, turn, item, native@, event@, now),
{
    CodexReducerOutput { session_id: session, turn_id: turn, item_id: item, ts: now, native, event }
}

fn notice(
    session: SessionId,
    turn: Option<TurnId>,
    item: Option<ItemId>,
    native: NativeRef,
    category: &str,
    title: String,
    detail: Option<String>,
    severity: Option<ProviderNotificationSeverity>,
    now: UtcTimestamp,
) -> (r: CodexReducerOutput)
    ensures
        r@ == notice_of(session, turn, item, native@, category@, title@, opt_s(detail), severity, now),
{
    let subject = match item {
        Some(i) => Some(uuid_to_text(i.0)),
        None => None,
    };
    out(
        session,
        turn,
        item,
        native,
        UniversalEventKind::ProviderNotification {
            notification: ProviderNotification {
                category: owned(category),
                title,
                detail,
                status: None,
                severity,
                subject,
            },
        },
        now,
    )
}

fn one(o: CodexReducerOutput) -> (r: Vec<CodexReducerOutput>)
    ensures
        reduced_view(r@) == seq![o@],
{
    let ghost ov = o@;
    let mut v = Vec::new();
    v.push(o);
    proof {
        assert(reduced_view(v@) =~= seq![ov]);
    }
    v
}

fn push_out(v: &mut Vec<CodexReducerOutput>, o: CodexReducerOutput)
    ensures
        reduced_view(final(v)@) == reduced_view(old(v)@).push(o@),
{
    let ghost before = v@;
    let ghost ov = o@;
    v.push(o);
    proof {
        assert(reduced_view(v@) =~= reduced_view(before).push(ov));
    }
}

// ---------------------------------------------------------------------------
// Items
// ---------------------------------------------------------------------------

/// The plan a plan item stands for: a draft once the item completed, discovering
/// (and partial) while it streams.
pub open spec fn item_plan_of(
    session: SessionId,
    turn: Option<TurnId>,
    item: ItemId,
    raw: Json,
    status: ItemStatus,
    now: UtcTimestamp,
) -> PlanView {
    PlanView {
        plan_id: artifact_uuid("plan"@, session, item),
        session_id: session,
        turn_id: turn,
        status: if status == ItemStatus::Completed {
            PlanStatus::Draft
        } else {
            PlanStatus::Discovering
        },
        title: Some("Codex plan"@),
        content: field_text(raw, "text"@),
        entries: Seq::empty(),
        source: PlanSource::NativeStructured,
        partial: status != ItemStatus::Completed,
        updated_at: Some(now),
    }
}

pub open spec fn item_state_of(
    session: SessionId,
    turn: Option<TurnId>,
    item: ItemId,
    kind: Seq<char>,
    raw: Json,
    status: ItemStatus,
    native: NativeRefView,
) -> ItemView {
    ItemView {
        item_id: item,
        session_id: session,
        turn_id: turn,
        role: item_role_spec(kind),
        status,
        content: item_content_of(item, kind, raw),
        tool: item_tool_of(kind, raw, status),
        native: Some(native),
    }
}

/// What a Codex item becomes: a plan update for a plan; otherwise the item, its
/// completed block once it completed, and the diff of a file change or a notice for
/// compaction, review mode or a dynamic tool call.
pub open spec fn item_outputs(
    session: SessionId,
    turn: Option<TurnId>,
    item: ItemId,
    kind: Seq<char>,
    raw: Json,
    status: ItemStatus,
    native: NativeRefView,
    now: UtcTimestamp,
) -> Seq<ReducedView> {
    if kind == "plan"@ {
        seq![
            out_of(
                session,
                turn,
                Some(item),
                native,
                UniversalView::PlanUpdated { plan: item_plan_of(session, turn, item, raw, status, now) },
                now,
            ),
        ]
    } else {
        let created = seq![
            out_of(
                session,
                turn,
                Some(item),
                native,
                UniversalView::ItemCreated { item: item_state_of(session, turn, item, kind, raw, status, native) },
                now,
            ),
        ];
        let with_block = if status == ItemStatus::Completed {
            match completed_block_of(item, kind, raw) {
                Some((b, k, t)) => created.push(
                    out_of(
                        session,
                        turn,
                        Some(item),
                        native,
                        UniversalView::ContentCompleted { block_id: b, kind: Some(k), text: Some(t) },
                        now,
                    ),
                ),
                None => created,
            }
        } else {
            created
        };
        if kind == "fileChange"@ {
            with_block.push(
                out_of(
                    session,
                    turn,
                    Some(item),
                    native,
                    UniversalView::DiffUpdated {
                        diff: diff_state_of(
                            session,
                            turn,
                            artifact_uuid("diff"@, session, item),
                            "Codex file changes"@,
                            json_get(raw, "changes"@),
                            now,
                        ),
                    },
                    now,
                ),
            )
        } else if kind == "contextCompaction"@ {
            with_block.push(
                notice_of(
                    session,
                    turn,
                    Some(item),
                    native,
                    "compaction"@,
                    "Context compaction"@,
                    Some("Codex compacted thread context"@),
                    Some(ProviderNotificationSeverity::Info),
                    now,
                ),
            )
        } else if kind == "enteredReviewMode"@ || kind == "exitedReviewMode"@ {
            with_block.push(
                notice_of(
                    session,
                    turn,
                    Some(item),
                    native,
                    "review"@,
                    item_title_spec(kind),
                    field_text(raw, "review"@),
                    Some(ProviderNotificationSeverity::Info),
                    now,
                ),
            )
        } else if kind == "dynamicToolCall"@ {
            with_block.push(
                notice_of(
                    session,
                    turn,
                    Some(item),
                    native,
                    "dynamic_tool"@,
                    "Dynamic tool call"@,
                    Some("Dynamic client tools are not enabled in this reducer stage"@),
                    Some(ProviderNotificationSeverity::Warning),
                    now,
                ),
            )
        } else {
            with_block
        }
    }
}

/// The projection of one Codex item (see [`item_outputs`]).
pub fn reduce_item(
    session: SessionId,
    turn: Option<TurnId>,
    item: ItemId,
    kind: &str,
    raw: &JsonValue,
    status: ItemStatus,
    native: NativeRef,
    now: UtcTimestamp,
) -> (r: Vec<CodexReducerOutput>)
    ensures
        reduced_view(r@) == item_outputs(session, turn, item, kind@, raw@, status, native@, now),
{
    if str_eq(kind, "plan") {
        let plan = PlanState {
            plan_id: artifact_id("plan", session, item),
            session_id: session,
            turn_id: turn,
            status: if status == ItemStatus::Completed {
                PlanStatus::Draft
            } else {
                PlanStatus::Discovering
            },
            title: Some(owned("Codex plan")),
            content: field_text_exec(raw, "text"),
            entries: Vec::new(),
            source: PlanSource::NativeStructured,
            partial: status != ItemStatus::Completed,
            updated_at: Some(now),
        };
        proof {
            assert(entries_view(plan.entries@) =~= Seq::<EntryView>::empty());
        }
        return one(out(session, turn, Some(item), native, UniversalEventKind::PlanUpdated { plan }, now));
    }
    let state = ItemState {
        item_id: item,
        session_id: session,
        turn_id: turn,
        role: item_role(kind),
        status,
        content: item_content(item, kind, raw),
        tool: item_tool(kind, raw, status),
        native: Some(native_clone(&native)),
    };
    let mut outputs = one(
        out(session, turn, Some(item), native_clone(&native), UniversalEventKind::ItemCreated { item: state }, now),
    );
    if status == ItemStatus::Completed {
        match completed_block(item, kind, raw) {
            Some((b, k, t)) => {
                push_out(
                    &mut outputs,
                    out(
                        session,
                        turn,
                        Some(item),
                        native_clone(&native),
                        UniversalEventKind::ContentCompleted { block_id: b, kind: Some(k), text: Some(t) },
                        now,
                    ),
                );
            },
            None => {},
        }
    }
    if str_eq(kind, "fileChange") {
        let diff = diff_state(
            session,
            turn,
            artifact_id("diff", session, item),
            "Codex file changes",
            get(raw, "changes"),
            now,
        );
        push_out(&mut outputs, out(session, turn, Some(item), native, UniversalEventKind::DiffUpdated { diff }, now));
    } else if str_eq(kind, "contextCompaction") {
        push_out(
            &mut outputs,
            notice(
                session,
                turn,
                Some(item),
                native,
                "compaction",
                owned("Context compaction"),
                Some(owned("Codex compacted thread context")),
                Some(ProviderNotificationSeverity::Info),
                now,
            ),
        );
    } else if str_eq(kind, "enteredReviewMode") || str_eq(kind, "exitedReviewMode") {
        push_out(
            &mut outputs,
            notice(
                session,
                turn,
                Some(item),
                native,
                "review",
                item_title(kind),
                field_text_exec(raw, "review"),
                Some(ProviderNotificationSeverity::Info),
                now,
            ),
        );
    } else if str_eq(kind, "dynamicToolCall") {
        push_out(
            &mut outputs,
            notice(
                session,
                turn,
                Some(item),
                native,
                "dynamic_tool",
                owned("Dynamic tool call"),
                Some(owned("Dynamic client tools are not enabled in this reducer stage")),
                Some(ProviderNotificationSeverity::Warning),
                now,
            ),
        );
    }
    outputs
}

// ---------------------------------------------------------------------------
// Notification parameters
// ---------------------------------------------------------------------------

/// The notification's thread, else `global`.
pub open spec fn thread_or_global(params: Json) -> Seq<char> {
    or_text(field_text(params, "threadId"@), "global"@)
}

/// The native turn a notification names: `turnId`, else `turn.id`.
pub open spec fn native_turn_of(params: Json) -> Option<Seq<char>> {
    or_else(field_text(params, "turnId"@), text_at(params, seq!["turn"@, "id"@]))
}

/// The native item a notification names: `itemId`, else `item.id`, else
/// `audio.itemId`.
pub open spec fn native_item_of(params: Json) -> Option<Seq<char>> {
    or_else(
        field_text(params, "itemId"@),
        or_else(text_at(params, seq!["item"@, "id"@]), text_at(params, seq!["audio"@, "itemId"@])),
    )
}

pub open spec fn turn_from(ns: u128, params: Json) -> Option<TurnId> {
    match native_turn_of(params) {
        Some(t) => Some(TurnId(codex_turn_uuid(ns, thread_or_global(params), t))),
        None => None,
    }
}

pub open spec fn item_from(ns: u128, params: Json) -> Option<ItemId> {
    match native_item_of(params) {
        Some(i) => Some(ItemId(codex_item_uuid(ns, thread_or_global(params), i))),
        None => None,
    }
}

/// A native frame the reducer does not project, kept with what it names.
pub open spec fn unknown_of(session: SessionId, ns: u128, params: Json, native: NativeRefView, summary: Seq<char>, now: UtcTimestamp) -> ReducedView {
    out_of(
        session,
        turn_from(ns, params),
        item_from(ns, params),
        native,
        UniversalView::NativeUnknown { summary: Some(summary) },
        now,
    )
}

/// An instant given as whole seconds in a member of `turn`, when chrono can hold it.
pub open spec fn ts_member(turn: Option<Json>, key: Seq<char>) -> Option<UtcTimestamp> {
    match turn {
        Some(t) => match json_get(t, key) {
            Some(v) => match json_as_i64(v) {
                Some(secs) => if chrono_timestamp_in_range(secs) {
                    Some(UtcTimestamp { secs, nanos: 0 })
                } else {
                    None
                },
                None => None,
            },
            None => None,
        },
        None => None,
    }
}

pub open spec fn turn_state_of(session: SessionId, turn: TurnId, status: TurnStatus, raw: Option<Json>) -> TurnState {
    TurnState {
        turn_id: turn,
        session_id: session,
        status,
        started_at: ts_member(raw, "startedAt"@),
        completed_at: ts_member(raw, "completedAt"@),
    }
}

/// A non-negative integer as `u64`.
pub open spec fn count_of(v: Option<Json>) -> Option<u64> {
    match v {
        Some(x) => match json_as_i64(x) {
            Some(i) => if i >= 0 {
                Some(i as u64)
            } else {
                None
            },
            None => None,
        },
        None => None,
    }
}

/// `used * 100`, saturating at `u64::MAX`.
pub open spec fn percent_scaled(used: u64) -> u64 {
    if used * 100 > u64::MAX {
        u64::MAX
    } else {
        (used * 100) as u64
    }
}

/// The context use a token usage update reports: tokens used, the context window, and
/// the percentage used when the window is known and not empty.
pub open spec fn usage_context_of(params: Json) -> SessionUsageContext {
    let used = count_of(json_path(params, seq!["tokenUsage"@, "total"@, "totalTokens"@]));
    let window = count_of(json_path(params, seq!["tokenUsage"@, "modelContextWindow"@]));
    SessionUsageContext {
        used_percent: match (used, window) {
            (Some(u), Some(t)) => if t > 0 {
                Some((percent_scaled(u) / t) as u64)
            } else {
                None
            },
            _ => None,
        },
        used_tokens: used,
        total_tokens: window,
    }
}

/// The status of a plan step.
pub open spec fn plan_entry_status_of(status: Option<Seq<char>>) -> PlanEntryStatus {
    if status == Some("completed"@) {
        PlanEntryStatus::Completed
    } else if status == Some("inProgress"@) {
        PlanEntryStatus::InProgress
    } else {
        PlanEntryStatus::Pending
    }
}

/// The step at `index` of a structured plan.
pub open spec fn plan_entry_of(step: Json, index: nat) -> EntryView {
    EntryView {
        entry_id: "codex-plan-step-"@ + nat_decimal(index),
        label: or_text(field_text(step, "step"@), json_text(step)),
        status: plan_entry_status_of(field_text(step, "status"@)),
    }
}

pub open spec fn plan_entries_of(steps: Seq<Json>) -> Seq<EntryView> {
    Seq::new(steps.len(), |i: int| plan_entry_of(steps[i], i as nat))
}

/// The detail of a generic notification: its message, summary, details, error or
/// reason, else the whole parameters object as JSON.
pub open spec fn notification_detail_of(params: Json) -> Option<Seq<char>> {
    or_else(
        field_text(params, "message"@),
        or_else(
            field_text(params, "summary"@),
            or_else(
                field_text(params, "details"@),
                or_else(
                    field_text(params, "error"@),
                    or_else(
                        field_text(params, "reason"@),
                        if params is Object {
                            Some(json_text(params))
                        } else {
                            None
                        },
                    ),
                ),
            ),
        ),
    )
}

/// The request a resolved server request names: its id as text, or its JSON when that
/// is not `null`.
pub open spec fn resolved_request_of(params: Json) -> Option<Seq<char>> {
    match field_text(params, "requestId"@) {
        Some(t) => Some(t),
        None => match json_get(params, "requestId"@) {
            Some(v) => if json_text(v) == "null"@ {
                None
            } else {
                Some(json_text(v))
            },
            None => None,
        },
    }
}

// ---------------------------------------------------------------------------
// Notification projections
// ---------------------------------------------------------------------------

pub open spec fn error_outputs(session: SessionId, ns: u128, params: Json, native: NativeRefView, now: UtcTimestamp) -> Seq<ReducedView> {
    seq![
        out_of(
            session,
            turn_from(ns, params),
            item_from(ns, params),
            native,
            UniversalView::ErrorReported {
                code: or_else(text_at(params, seq!["error"@, "codexErrorInfo"@, "code"@]), field_text(params, "code"@)),
                message: or_text(
                    or_else(text_at(params, seq!["error"@, "message"@]), field_text(params, "message"@)),
                    "Codex reported an error"@,
                ),
            },
            now,
        ),
    ]
}

pub open spec fn status_outputs(session: SessionId, native: NativeRefView, status: SessionStatus, reason: Seq<char>, now: UtcTimestamp) -> Seq<ReducedView> {
    seq![out_of(session, None, None, native, UniversalView::SessionStatusChanged { status, reason: Some(reason) }, now)]
}

pub open spec fn delta_outputs(
    session: SessionId,
    ns: u128,
    params: Json,
    native: NativeRefView,
    suffix: Seq<char>,
    kind: ContentBlockKind,
    field: Seq<char>,
    now: UtcTimestamp,
) -> Seq<ReducedView> {
    match field_text(params, "threadId"@) {
        None => seq![unknown_of(session, ns, params, native, "Codex delta missing threadId"@, now)],
        Some(th) => match field_text(params, "turnId"@) {
            None => seq![unknown_of(session, ns, params, native, "Codex delta missing turnId"@, now)],
            Some(tu) => match field_text(params, "itemId"@) {
                None => seq![unknown_of(session, ns, params, native, "Codex delta missing itemId"@, now)],
                Some(it) => {
                    let item = ItemId(codex_item_uuid(ns, th, it));
                    seq![
                        out_of(
                            session,
                            Some(TurnId(codex_turn_uuid(ns, th, tu))),
                            Some(item),
                            native,
                            UniversalView::ContentDelta {
                                block_id: block_id_of(item, suffix),
                                kind: Some(kind),
                                delta: or_text(field_text(params, field), ""@),
                            },
                            now,
                        ),
                    ]
                },
            },
        },
    }
}

pub open spec fn realtime_outputs(session: SessionId, ns: u128, params: Json, native: NativeRefView, completed: bool, now: UtcTimestamp) -> Seq<ReducedView> {
    let role = or_text(field_text(params, "role"@), "assistant"@);
    let item = ItemId(codex_item_uuid(ns, thread_or_global(params), "realtime-transcript-"@ + role));
    seq![
        out_of(
            session,
            None,
            Some(item),
            native,
            if completed {
                UniversalView::ContentCompleted {
                    block_id: block_id_of(item, "text"@),
                    kind: Some(ContentBlockKind::Text),
                    text: field_text(params, "text"@),
                }
            } else {
                UniversalView::ContentDelta {
                    block_id: block_id_of(item, "text"@),
                    kind: Some(ContentBlockKind::Text),
                    delta: or_text(field_text(params, "delta"@), ""@),
                }
            },
            now,
        ),
    ]
}

pub open spec fn plan_delta_outputs(session: SessionId, ns: u128, params: Json, native: NativeRefView, now: UtcTimestamp) -> Seq<ReducedView> {
    match (field_text(params, "threadId"@), field_text(params, "turnId"@), field_text(params, "itemId"@)) {
        (Some(th), Some(tu), Some(it)) => {
            let turn = TurnId(codex_turn_uuid(ns, th, tu));
            let item = ItemId(codex_item_uuid(ns, th, it));
            seq![
                out_of(
                    session,
                    Some(turn),
                    Some(item),
                    native,
                    UniversalView::PlanUpdated {
                        plan: PlanView {
                            plan_id: artifact_uuid("plan"@, session, item),
                            session_id: session,
                            turn_id: Some(turn),
                            status: PlanStatus::Discovering,
                            title: Some("Codex plan"@),
                            content: field_text(params, "delta"@),
                            entries: Seq::empty(),
                            source: PlanSource::NativeStructured,
                            partial: true,
                            updated_at: Some(now),
                        },
                    },
                    now,
                ),
            ]
        },
        _ => Seq::empty(),
    }
}

pub open spec fn structured_plan_outputs(session: SessionId, ns: u128, params: Json, native: NativeRefView, now: UtcTimestamp) -> Seq<ReducedView> {
    match field_text(params, "threadId"@) {
        None => seq![unknown_of(session, ns, params, native, "Codex plan update missing threadId"@, now)],
        Some(th) => match field_text(params, "turnId"@) {
            None => seq![unknown_of(session, ns, params, native, "Codex plan update missing turnId"@, now)],
            Some(tu) => {
                let turn = TurnId(codex_turn_uuid(ns, th, tu));
                let item = ItemId(codex_item_uuid(ns, th, tu + ":plan"@));
                seq![
                    out_of(
                        session,
                        Some(turn),
                        Some(item),
                        native,
                        UniversalView::PlanUpdated {
                            plan: PlanView {
                                plan_id: artifact_uuid("plan"@, session, item),
                                session_id: session,
                                turn_id: Some(turn),
                                status: PlanStatus::Draft,
                                title: Some("Codex plan"@),
                                content: field_text(params, "explanation"@),
                                entries: plan_entries_of(items_at(params, seq!["plan"@])),
                                source: PlanSource::NativeStructured,
                                partial: false,
                                updated_at: Some(now),
                            },
                        },
                        now,
                    ),
                ]
            },
        },
    }
}

pub open spec fn patch_outputs(session: SessionId, ns: u128, params: Json, native: NativeRefView, now: UtcTimestamp) -> Seq<ReducedView> {
    match field_text(params, "threadId"@) {
        None => seq![unknown_of(session, ns, params, native, "Codex patch update missing threadId"@, now)],
        Some(th) => match field_text(params, "turnId"@) {
            None => seq![unknown_of(session, ns, params, native, "Codex patch update missing turnId"@, now)],
            Some(tu) => match field_text(params, "itemId"@) {
                None => seq![unknown_of(session, ns, params, native, "Codex patch update missing itemId"@, now)],
                Some(it) => {
                    let turn = TurnId(codex_turn_uuid(ns, th, tu));
                    let item = ItemId(codex_item_uuid(ns, th, it));
                    seq![
                        out_of(
                            session,
                            Some(turn),
                            Some(item),
                            native,
                            UniversalView::DiffUpdated {
                                diff: diff_state_of(
                                    session,
                                    Some(turn),
                                    artifact_uuid("diff"@, session, item),
                                    "Codex patch updated"@,
                                    json_get(params, "changes"@),
                                    now,
                                ),
                            },
                            now,
                        ),
                    ]
                },
            },
        },
    }
}

pub open spec fn diff_outputs(session: SessionId, ns: u128, params: Json, native: NativeRefView, now: UtcTimestamp) -> Seq<ReducedView> {
    match field_text(params, "threadId"@) {
        None => seq![unknown_of(session, ns, params, native, "Codex diff update missing threadId"@, now)],
        Some(th) => match field_text(params, "turnId"@) {
            None => seq![unknown_of(session, ns, params, native, "Codex diff update missing turnId"@, now)],
            Some(tu) => {
                let turn = TurnId(codex_turn_uuid(ns, th, tu));
                let item = ItemId(codex_item_uuid(ns, th, tu + ":diff"@));
                seq![
                    out_of(
                        session,
                        Some(turn),
                        Some(item),
                        native,
                        UniversalView::DiffUpdated {
                            diff: DiffView {
                                diff_id: artifact_uuid("diff"@, session, item),
                                session_id: session,
                                turn_id: Some(turn),
                                title: Some("Codex turn diff"@),
                                files: seq![
                                    DiffFileView {
                                        path: "turn.diff"@,
                                        status: FileChangeKind::Modify,
                                        diff: field_text(params, "diff"@),
                                    },
                                ],
                                updated_at: Some(now),
                            },
                        },
                        now,
                    ),
                ]
            },
        },
    }
}

pub open spec fn turn_started_outputs(session: SessionId, ns: u128, params: Json, native: NativeRefView, now: UtcTimestamp) -> Seq<ReducedView> {
    match field_text(params, "threadId"@) {
        None => seq![unknown_of(session, ns, params, native, "Codex turn started missing threadId"@, now)],
        Some(th) => match text_at(params, seq!["turn"@, "id"@]) {
            None => seq![unknown_of(session, ns, params, native, "Codex turn started missing turn.id"@, now)],
            Some(tu) => {
                let turn = TurnId(codex_turn_uuid(ns, th, tu));
                seq![
                    out_of(
                        session,
                        Some(turn),
                        None,
                        native,
                        UniversalView::TurnStarted {
                            turn: turn_state_of(session, turn, TurnStatus::Running, json_get(params, "turn"@)),
                        },
                        now,
                    ),
                ]
            },
        },
    }
}

/// The event of a finished turn, by its status.
pub open spec fn turn_end_event(state: TurnState) -> UniversalView {
    match state.status {
        TurnStatus::Completed => UniversalView::TurnCompleted { turn: state },
        TurnStatus::Interrupted => UniversalView::TurnInterrupted { turn: state },
        TurnStatus::Failed => UniversalView::TurnFailed { turn: state },
        _ => UniversalView::TurnStatusChanged { turn: state },
    }
}

pub open spec fn turn_completed_outputs(session: SessionId, ns: u128, params: Json, native: NativeRefView, now: UtcTimestamp) -> Seq<ReducedView> {
    match field_text(params, "threadId"@) {
        None => seq![unknown_of(session, ns, params, native, "Codex turn completed missing threadId"@, now)],
        Some(th) => match json_get(params, "turn"@) {
            None => seq![unknown_of(session, ns, params, native, "Codex turn completed missing turn"@, now)],
            Some(t) => match field_text(t, "id"@) {
                None => seq![unknown_of(session, ns, params, native, "Codex turn completed missing turn.id"@, now)],
                Some(tu) => {
                    let turn = TurnId(codex_turn_uuid(ns, th, tu));
                    let state = turn_state_of(session, turn, turn_status_spec(json_get(t, "status"@)), Some(t));
                    seq![out_of(session, Some(turn), None, native, turn_end_event(state), now)]
                },
            },
        },
    }
}

pub open spec fn item_notification_outputs(
    session: SessionId,
    ns: u128,
    params: Json,
    native: NativeRefView,
    status: ItemStatus,
    now: UtcTimestamp,
) -> Seq<ReducedView> {
    match json_get(params, "item"@) {
        None => seq![unknown_of(session, ns, params, native, "Codex item notification missing item"@, now)],
        Some(item) => match field_text(params, "threadId"@) {
            None => seq![unknown_of(session, ns, params, native, "Codex item notification missing threadId"@, now)],
            Some(th) => match field_text(params, "turnId"@) {
                None => seq![unknown_of(session, ns, params, native, "Codex item notification missing turnId"@, now)],
                Some(tu) => {
                    let native_item = or_text(field_text(item, "id"@), synthetic_item_key(item));
                    let kind = or_text(crate::codex_questions::member_text(item, "type"@), "unknown"@);
                    item_outputs(
                        session,
                        Some(TurnId(codex_turn_uuid(ns, th, tu))),
                        ItemId(codex_item_uuid(ns, th, native_item)),
                        kind,
                        item,
                        status,
                        native,
                        now,
                    )
                },
            },
        },
    }
}

/// Whether a notification is a native frame the reducer keeps without projecting.
pub open spec fn is_native_frame(method: Seq<char>) -> bool {
    method == "rawResponseItem/completed"@ || method == "thread/realtime/itemAdded"@ || method
        == "thread/realtime/outputAudio/delta"@ || method == "command/exec/outputDelta"@
}

/// What a Codex server notification becomes, stamped `now`, for a session whose Codex
/// ids derive in namespace `ns`.
pub open spec fn notification_outputs(session: SessionId, ns: u128, method: Seq<char>, raw: Json, now: UtcTimestamp) -> Seq<ReducedView> {
    let params = match json_get(raw, "params"@) {
        Some(p) => p,
        None => Json::Null,
    };
    let native = notification_native_of(method, raw);
    if method == "error"@ {
        error_outputs(session, ns, params, native, now)
    } else if method == "thread/status/changed"@ {
        status_outputs(session, native, thread_status_spec(json_get(params, "status"@)), "Codex thread status changed"@, now)
    } else if method == "thread/archived"@ {
        status_outputs(session, native, SessionStatus::Archived, "Codex thread archived"@, now)
    } else if method == "thread/unarchived"@ {
        status_outputs(session, native, SessionStatus::Idle, "Codex thread unarchived"@, now)
    } else if method == "thread/closed"@ {
        status_outputs(session, native, SessionStatus::Stopped, "Codex thread closed"@, now)
    } else if method == "thread/name/updated"@ {
        seq![
            out_of(
                session,
                None,
                None,
                native,
                UniversalView::SessionMetadataChanged { title: field_text(params, "threadName"@) },
                now,
            ),
        ]
    } else if method == "thread/tokenUsage/updated"@ {
        seq![
            out_of(
                session,
                turn_from(ns, params),
                None,
                native,
                UniversalView::UsageUpdated { context: Some(usage_context_of(params)) },
                now,
            ),
        ]
    } else if method == "turn/started"@ {
        turn_started_outputs(session, ns, params, native, now)
    } else if method == "turn/completed"@ {
        turn_completed_outputs(session, ns, params, native, now)
    } else if method == "turn/diff/updated"@ {
        diff_outputs(session, ns, params, native, now)
    } else if method == "turn/plan/updated"@ {
        structured_plan_outputs(session, ns, params, native, now)
    } else if method == "item/started"@ {
        item_notification_outputs(session, ns, params, native, ItemStatus::Streaming, now)
    } else if method == "item/completed"@ {
        item_notification_outputs(session, ns, params, native, ItemStatus::Completed, now)
    } else if method == "item/agentMessage/delta"@ {
        delta_outputs(session, ns, params, native, "text"@, ContentBlockKind::Text, "delta"@, now)
    } else if method == "item/plan/delta"@ {
        plan_delta_outputs(session, ns, params, native, now)
    } else if method == "item/reasoning/summaryTextDelta"@ {
        delta_outputs(
            session,
            ns,
            params,
            native,
            "reasoning-summary-"@ + int_decimal(or_zero(json_get(params, "summaryIndex"@)) as int),
            ContentBlockKind::Reasoning,
            "delta"@,
            now,
        )
    } else if method == "item/reasoning/textDelta"@ {
        delta_outputs(
            session,
            ns,
            params,
            native,
            "reasoning-raw-"@ + int_decimal(or_zero(json_get(params, "contentIndex"@)) as int),
            ContentBlockKind::Reasoning,
            "delta"@,
            now,
        )
    } else if method == "item/commandExecution/outputDelta"@ || method == "item/fileChange/outputDelta"@ {
        delta_outputs(session, ns, params, native, "output"@, ContentBlockKind::CommandOutput, "delta"@, now)
    } else if method == "item/commandExecution/terminalInteraction"@ {
        delta_outputs(session, ns, params, native, "terminal-input"@, ContentBlockKind::TerminalInput, "stdin"@, now)
    } else if method == "item/mcpToolCall/progress"@ {
        delta_outputs(session, ns, params, native, "progress"@, ContentBlockKind::ProviderStatus, "message"@, now)
    } else if method == "item/fileChange/patchUpdated"@ {
        patch_outputs(session, ns, params, native, now)
    } else if method == "thread/realtime/transcript/delta"@ {
        realtime_outputs(session, ns, params, native, false, now)
    } else if method == "thread/realtime/transcript/done"@ {
        realtime_outputs(session, ns, params, native, true, now)
    } else if method == "thread/realtime/error"@ {
        error_outputs(session, ns, params, native, now).push(
            notice_of(
                session,
                None,
                None,
                native,
                "realtime"@,
                "Realtime error"@,
                field_text(params, "message"@),
                Some(ProviderNotificationSeverity::Error),
                now,
            ),
        )
    } else if is_native_frame(method) {
        seq![
            out_of(
                session,
                turn_from(ns, params),
                item_from(ns, params),
                native,
                UniversalView::NativeUnknown { summary: Some("Codex native frame "@ + method) },
                now,
            ),
        ]
    } else if method == "serverRequest/resolved"@ {
        seq![
            notice_of(
                session,
                None,
                None,
                native,
                "server_request"@,
                "Server request resolved"@,
                resolved_request_of(params),
                Some(ProviderNotificationSeverity::Info),
                now,
            ),
        ]
    } else if reduced_notification_methods().contains(method) {
        let c = notification_category_spec(method);
        seq![
            notice_of(
                session,
                turn_from(ns, params),
                item_from(ns, params),
                native,
                c.0,
                c.1,
                notification_detail_of(params),
                c.2,
                now,
            ),
        ]
    } else {
        seq![
            out_of(
                session,
                turn_from(ns, params),
                item_from(ns, params),
                native,
                UniversalView::NativeUnknown { summary: Some("Unknown Codex notification "@ + method) },
                now,
            ),
        ]
    }
}

/// An integer member as `i64`, else 0.
pub open spec fn or_zero(v: Option<Json>) -> i64 {
    match v {
        Some(x) => match json_as_i64(x) {
            Some(i) => i,
            None => 0,
        },
        None => 0,
    }
}

/// What a history item of a thread's turn becomes: the completed item, or a native
/// frame when the item has no type.
pub open spec fn history_outputs(session: SessionId, ns: u128, thread: Seq<char>, turn: Seq<char>, raw: Json, now: UtcTimestamp) -> Seq<ReducedView> {
    match crate::codex_questions::member_text(raw, "type"@) {
        None => seq![
            out_of(
                session,
                None,
                None,
                item_native_of(None, None, raw),
                UniversalView::NativeUnknown { summary: Some("Codex thread item is missing type"@) },
                now,
            ),
        ],
        Some(kind) => {
            let native_item = or_text(field_text(raw, "id"@), synthetic_item_key(raw));
            item_outputs(
                session,
                Some(TurnId(codex_turn_uuid(ns, thread, turn))),
                ItemId(codex_item_uuid(ns, thread, native_item)),
                kind,
                raw,
                ItemStatus::Completed,
                item_native_of(Some(kind), Some(native_item), raw),
                now,
            )
        },
    }
}

// ---------------------------------------------------------------------------
// The reducer
// ---------------------------------------------------------------------------

fn thread_or_global_exec(params: &JsonValue) -> (r: String)
    ensures
        r@ == thread_or_global(params@),
{
    or_text_exec(field_text_exec(params, "threadId"), "global")
}

fn turn_from_exec(id_map: &mut CodexIdMap, params: &JsonValue) -> (r: Option<TurnId>)
    requires
        old(id_map).wf(),
    ensures
        final(id_map).wf(),
        final(id_map)@.namespace == old(id_map)@.namespace,
        r == turn_from(old(id_map)@.namespace, params@),
{
    match or_else_exec(field_text_exec(params, "turnId"), text_at2(params, "turn", "id")) {
        Some(t) => {
            let thread = thread_or_global_exec(params);
            Some(id_map.turn_id(thread.as_str(), t.as_str()))
        },
        None => None,
    }
}

fn item_from_exec(id_map: &mut CodexIdMap, params: &JsonValue) -> (r: Option<ItemId>)
    requires
        old(id_map).wf(),
    ensures
        final(id_map).wf(),
        final(id_map)@.namespace == old(id_map)@.namespace,
        r == item_from(old(id_map)@.namespace, params@),
{
    let found = or_else_exec(
        field_text_exec(params, "itemId"),
        or_else_exec(text_at2(params, "item", "id"), text_at2(params, "audio", "itemId")),
    );
    match found {
        Some(i) => {
            let thread = thread_or_global_exec(params);
            Some(id_map.item_id(thread.as_str(), i.as_str()))
        },
        None => None,
    }
}

fn unknown(
    session: SessionId,
    id_map: &mut CodexIdMap,
    params: &JsonValue,
    native: NativeRef,
    summary: &str,
    now: UtcTimestamp,
) -> (r: Vec<CodexReducerOutput>)
    requires
        old(id_map).wf(),
    ensures
        final(id_map).wf(),
        final(id_map)@.namespace == old(id_map)@.namespace,
        reduced_view(r@) == seq![unknown_of(session, old(id_map)@.namespace, params@, native@, summary@, now)],
{
    let turn = turn_from_exec(id_map, params);
    let item = item_from_exec(id_map, params);
    one(
        out(
            session,
            turn,
            item,
            native,
            UniversalEventKind::NativeUnknown { summary: Some(owned(summary)) },
            now,
        ),
    )
}

fn error_reported(
    session: SessionId,
    id_map: &mut CodexIdMap,
    params: &JsonValue,
    native: NativeRef,
    now: UtcTimestamp,
) -> (r: Vec<CodexReducerOutput>)
    requires
        old(id_map).wf(),
    ensures
        final(id_map).wf(),
        final(id_map)@.namespace == old(id_map)@.namespace,
        reduced_view(r@) == error_outputs(session, old(id_map)@.namespace, params@, native@, now),
{
    let turn = turn_from_exec(id_map, params);
    let item = item_from_exec(id_map, params);
    let code = or_else_exec(text_at3(params, "error", "codexErrorInfo", "code"), field_text_exec(params, "code"));
    let message = or_text_exec(
        or_else_exec(text_at2(params, "error", "message"), field_text_exec(params, "message")),
        "Codex reported an error",
    );
    one(out(session, turn, item, native, UniversalEventKind::ErrorReported { code, message }, now))
}

fn status_changed(session: SessionId, native: NativeRef, status: SessionStatus, reason: &str, now: UtcTimestamp) -> (r: Vec<CodexReducerOutput>)
    ensures
        reduced_view(r@) == status_outputs(session, native@, status, reason@, now),
{
    one(
        out(
            session,
            None,
            None,
            native,
            UniversalEventKind::SessionStatusChanged { status, reason: Some(owned(reason)) },
            now,
        ),
    )
}

fn content_delta(
    session: SessionId,
    id_map: &mut CodexIdMap,
    params: &JsonValue,
    native: NativeRef,
    suffix: &str,
    kind: ContentBlockKind,
    field: &str,
    now: UtcTimestamp,
) -> (r: Vec<CodexReducerOutput>)
    requires
        old(id_map).wf(),
    ensures
        final(id_map).wf(),
        final(id_map)@.namespace == old(id_map)@.namespace,
        reduced_view(r@) == delta_outputs(session, old(id_map)@.namespace, params@, native@, suffix@, kind, field@, now),
{
    let th = match field_text_exec(params, "threadId") {
        Some(t) => t,
        None => return unknown(session, id_map, params, native, "Codex delta missing threadId", now),
    };
    let tu = match field_text_exec(params, "turnId") {
        Some(t) => t,
        None => return unknown(session, id_map, params, native, "Codex delta missing turnId", now),
    };
    let it = match field_text_exec(params, "itemId") {
        Some(t) => t,
        None => return unknown(session, id_map, params, native, "Codex delta missing itemId", now),
    };
    let delta = or_text_exec(field_text_exec(params, field), "");
    let turn = id_map.turn_id(th.as_str(), tu.as_str());
    let item = id_map.item_id(th.as_str(), it.as_str());
    one(
        out(
            session,
            Some(turn),
            Some(item),
            native,
            UniversalEventKind::ContentDelta { block_id: block_id(item, suffix), kind: Some(kind), delta },
            now,
        ),
    )
}

fn realtime_transcript(
    session: SessionId,
    id_map: &mut CodexIdMap,
    params: &JsonValue,
    native: NativeRef,
    completed: bool,
    now: UtcTimestamp,
) -> (r: Vec<CodexReducerOutput>)
    requires
        old(id_map).wf(),
    ensures
        final(id_map).wf(),
        final(id_map)@.namespace == old(id_map)@.namespace,
        reduced_view(r@) == realtime_outputs(session, old(id_map)@.namespace, params@, native@, completed, now),
{
    let thread = thread_or_global_exec(params);
    let role = or_text_exec(field_text_exec(params, "role"), "assistant");
    let native_item = concat2("realtime-transcript-", role.as_str());
    let item = id_map.item_id(thread.as_str(), native_item.as_str());
    let event = if completed {
        UniversalEventKind::ContentCompleted {
            block_id: block_id(item, "text"),
            kind: Some(ContentBlockKind::Text),
            text: field_text_exec(params, "text"),
        }
    } else {
        UniversalEventKind::ContentDelta {
            block_id: block_id(item, "text"),
            kind: Some(ContentBlockKind::Text),
            delta: or_text_exec(field_text_exec(params, "delta"), ""),
        }
    };
    one(out(session, None, Some(item), native, event, now))
}

fn plan_delta(
    session: SessionId,
    id_map: &mut CodexIdMap,
    params: &JsonValue,
    native: NativeRef,
    now: UtcTimestamp,
) -> (r: Vec<CodexReducerOutput>)
    requires
        old(id_map).wf(),
    ensures
        final(id_map).wf(),
        final(id_map)@.namespace == old(id_map)@.namespace,
        reduced_view(r@) == plan_delta_outputs(session, old(id_map)@.namespace, params@, native@, now),
{
    let th = field_text_exec(params, "threadId");
    let tu = field_text_exec(params, "turnId");
    let it = field_text_exec(params, "itemId");
    match (th, tu, it) {
        (Some(th), Some(tu), Some(it)) => {
            let turn = id_map.turn_id(th.as_str(), tu.as_str());
            let item = id_map.item_id(th.as_str(), it.as_str());
            let plan = PlanState {
                plan_id: artifact_id("plan", session, item),
                session_id: session,
                turn_id: Some(turn),
                status: PlanStatus::Discovering,
                title: Some(owned("Codex plan")),
                content: field_text_exec(params, "delta"),
                entries: Vec::new(),
                source: PlanSource::NativeStructured,
                partial: true,
                updated_at: Some(now),
            };
            proof {
                assert(entries_view(plan.entries@) =~= Seq::<EntryView>::empty());
            }
            one(out(session, Some(turn), Some(item), native, UniversalEventKind::PlanUpdated { plan }, now))
        },
        _ => {
            let v: Vec<CodexReducerOutput> = Vec::new();
            proof {
                assert(reduced_view(v@) =~= Seq::<ReducedView>::empty());
            }
            v
        },
    }
}

fn plan_entry_status(status: Option<String>) -> (r: PlanEntryStatus)
    ensures
        r == plan_entry_status_of(opt_s(status)),
{
    match status {
        Some(s) => if str_eq(s.as_str(), "completed") {
            PlanEntryStatus::Completed
        } else if str_eq(s.as_str(), "inProgress") {
            PlanEntryStatus::InProgress
        } else {
            PlanEntryStatus::Pending
        },
        None => PlanEntryStatus::Pending,
    }
}

fn plan_entries(params: &JsonValue) -> (r: Vec<UniversalPlanEntry>)
    ensures
        entries_view(r@) == plan_entries_of(items_at(params@, seq!["plan"@])),
{
    let path: [&str; 1] = ["plan"];
    proof {
        assert(path_view(path@) =~= seq!["plan"@]);
    }
    let mut out: Vec<UniversalPlanEntry> = Vec::new();
    let ghost sv = items_at(params@, seq!["plan"@]);
    match items_at_exec(params, &path) {
        Some(steps) => {
            let mut i: usize = 0;
            while i < steps.len()
                invariant
                    i <= steps.len(),
                    sv == values_view(steps@),
                    entries_view(out@) =~= plan_entries_of(sv).subrange(0, i as int),
                decreases steps.len() - i,
            {
                let step = &steps[i];
                let n = u64_decimal(i as u64);
                let label = match field_text_exec(step, "step") {
                    Some(l) => l,
                    None => json_to_text(step),
                };
                let e = UniversalPlanEntry {
                    entry_id: concat2("codex-plan-step-", n.as_str()),
                    label,
                    status: plan_entry_status(field_text_exec(step, "status")),
                };
                let ghost before = out@;
                let ghost ev = e@;
                out.push(e);
                proof {
                    assert(entries_view(out@) =~= entries_view(before).push(ev));
                }
                i = i + 1;
            }
            proof {
                assert(plan_entries_of(sv).subrange(0, steps@.len() as int) =~= plan_entries_of(sv));
            }
        },
        None => {
            proof {
                assert(sv =~= Seq::<Json>::empty());
                assert(entries_view(out@) =~= plan_entries_of(sv));
            }
        },
    }
    out
}

fn structured_plan(
    session: SessionId,
    id_map: &mut CodexIdMap,
    params: &JsonValue,
    native: NativeRef,
    now: UtcTimestamp,
) -> (r: Vec<CodexReducerOutput>)
    requires
        old(id_map).wf(),
    ensures
        final(id_map).wf(),
        final(id_map)@.namespace == old(id_map)@.namespace,
        reduced_view(r@) == structured_plan_outputs(session, old(id_map)@.namespace, params@, native@, now),
{
    let th = match field_text_exec(params, "threadId") {
        Some(t) => t,
        None => return unknown(session, id_map, params, native, "Codex plan update missing threadId", now),
    };
    let tu = match field_text_exec(params, "turnId") {
        Some(t) => t,
        None => return unknown(session, id_map, params, native, "Codex plan update missing turnId", now),
    };
    let turn = id_map.turn_id(th.as_str(), tu.as_str());
    let plan_key = concat2(tu.as_str(), ":plan");
    let item = id_map.item_id(th.as_str(), plan_key.as_str());
    let plan = PlanState {
        plan_id: artifact_id("plan", session, item),
        session_id: session,
        turn_id: Some(turn),
        status: PlanStatus::Draft,
        title: Some(owned("Codex plan")),
        content: field_text_exec(params, "explanation"),
        entries: plan_entries(params),
        source: PlanSource::NativeStructured,
        partial: false,
        updated_at: Some(now),
    };
    one(out(session, Some(turn), Some(item), native, UniversalEventKind::PlanUpdated { plan }, now))
}

fn patch_updated(
    session: SessionId,
    id_map: &mut CodexIdMap,
    params: &JsonValue,
    native: NativeRef,
    now: UtcTimestamp,
) -> (r: Vec<CodexReducerOutput>)
    requires
        old(id_map).wf(),
    ensures
        final(id_map).wf(),
        final(id_map)@.namespace == old(id_map)@.namespace,
        reduced_view(r@) == patch_outputs(session, old(id_map)@.namespace, params@, native@, now),
{
    let th = match field_text_exec(params, "threadId") {
        Some(t) => t,
        None => return unknown(session, id_map, params, native, "Codex patch update missing threadId", now),
    };
    let tu = match field_text_exec(params, "turnId") {
        Some(t) => t,
        None => return unknown(session, id_map, params, native, "Codex patch update missing turnId", now),
    };
    let it = match field_text_exec(params, "itemId") {
        Some(t) => t,
        None => return unknown(session, id_map, params, native, "Codex patch update missing itemId", now),
    };
    let turn = id_map.turn_id(th.as_str(), tu.as_str());
    let item = id_map.item_id(th.as_str(), it.as_str());
    let diff = diff_state(
        session,
        Some(turn),
        artifact_id("diff", session, item),
        "Codex patch updated",
        get(params, "changes"),
        now,
    );
    one(out(session, Some(turn), Some(item), native, UniversalEventKind::DiffUpdated { diff }, now))
}

fn diff_updated(
    session: SessionId,
    id_map: &mut CodexIdMap,
    params: &JsonValue,
    native: NativeRef,
    now: UtcTimestamp,
) -> (r: Vec<CodexReducerOutput>)
    requires
        old(id_map).wf(),
    ensures
        final(id_map).wf(),
        final(id_map)@.namespace == old(id_map)@.namespace,
        reduced_view(r@) == diff_outputs(session, old(id_map)@.namespace, params@, native@, now),
{
    let th = match field_text_exec(params, "threadId") {
        Some(t) => t,
        None => return unknown(session, id_map, params, native, "Codex diff update missing threadId", now),
    };
    let tu = match field_text_exec(params, "turnId") {
        Some(t) => t,
        None => return unknown(session, id_map, params, native, "Codex diff update missing turnId", now),
    };
    let turn = id_map.turn_id(th.as_str(), tu.as_str());
    let diff_key = concat2(tu.as_str(), ":diff");
    let item = id_map.item_id(th.as_str(), diff_key.as_str());
    let mut files: Vec<DiffFile> = Vec::new();
    let f = DiffFile { path: owned("turn.diff"), status: FileChangeKind::Modify, diff: field_text_exec(params, "diff") };
    let ghost fv = f@;
    files.push(f);
    proof {
        assert(diff_files_view(files@) =~= seq![fv]);
    }
    let diff = DiffState {
        diff_id: artifact_id("diff", session, item),
        session_id: session,
        turn_id: Some(turn),
        title: Some(owned("Codex turn diff")),
        files,
        updated_at: Some(now),
    };
    one(out(session, Some(turn), Some(item), native, UniversalEventKind::DiffUpdated { diff }, now))
}

fn ts_member_exec(turn: Option<&JsonValue>, key: &str) -> (r: Option<UtcTimestamp>)
    ensures
        r == ts_member(opt_json(turn), key@),
{
    match turn {
        Some(t) => match get(t, key) {
            Some(v) => match as_i64(v) {
                Some(secs) => timestamp_from_secs(secs),
                None => None,
            },
            None => None,
        },
        None => None,
    }
}

fn turn_state(session: SessionId, turn: TurnId, status: TurnStatus, raw: Option<&JsonValue>) -> (r: TurnState)
    ensures
        r == turn_state_of(session, turn, status, opt_json(raw)),
{
    TurnState {
        turn_id: turn,
        session_id: session,
        status,
        started_at: ts_member_exec(raw, "startedAt"),
        completed_at: ts_member_exec(raw, "completedAt"),
    }
}

fn turn_started(
    session: SessionId,
    id_map: &mut CodexIdMap,
    params: &JsonValue,
    native: NativeRef,
    now: UtcTimestamp,
) -> (r: Vec<CodexReducerOutput>)
    requires
        old(id_map).wf(),
    ensures
        final(id_map).wf(),
        final(id_map)@.namespace == old(id_map)@.namespace,
        reduced_view(r@) == turn_started_outputs(session, old(id_map)@.namespace, params@, native@, now),
{
    let th = match field_text_exec(params, "threadId") {
        Some(t) => t,
        None => return unknown(session, id_map, params, native, "Codex turn started missing threadId", now),
    };
    let tu = match text_at2(params, "turn", "id") {
        Some(t) => t,
        None => return unknown(session, id_map, params, native, "Codex turn started missing turn.id", now),
    };
    let turn = id_map.turn_id(th.as_str(), tu.as_str());
    let state = turn_state(session, turn, TurnStatus::Running, get(params, "turn"));
    one(out(session, Some(turn), None, native, UniversalEventKind::TurnStarted { turn: state }, now))
}

fn turn_completed(
    session: SessionId,
    id_map: &mut CodexIdMap,
    params: &JsonValue,
    native: NativeRef,
    now: UtcTimestamp,
) -> (r: Vec<CodexReducerOutput>)
    requires
        old(id_map).wf(),
    ensures
        final(id_map).wf(),
        final(id_map)@.namespace == old(id_map)@.namespace,
        reduced_view(r@) == turn_completed_outputs(session, old(id_map)@.namespace, params@, native@, now),
{
    let th = match field_text_exec(params, "threadId") {
        Some(t) => t,
        None => return unknown(session, id_map, params, native, "Codex turn completed missing threadId", now),
    };
    let t = match get(params, "turn") {
        Some(t) => t,
        None => return unknown(session, id_map, params, native, "Codex turn completed missing turn", now),
    };
    let tu = match field_text_exec(t, "id") {
        Some(x) => x,
        None => return unknown(session, id_map, params, native, "Codex turn completed missing turn.id", now),
    };
    let turn = id_map.turn_id(th.as_str(), tu.as_str());
    let status = codex_turn_status_to_universal(get(t, "status"));
    let state = turn_state(session, turn, status, Some(t));
    let event = match status {
        TurnStatus::Completed => UniversalEventKind::TurnCompleted { turn: state },
        TurnStatus::Interrupted => UniversalEventKind::TurnInterrupted { turn: state },
        TurnStatus::Failed => UniversalEventKind::TurnFailed { turn: state },
        _ => UniversalEventKind::TurnStatusChanged { turn: state },
    };
    one(out(session, Some(turn), None, native, event, now))
}

fn count_exec(v: Option<&JsonValue>) -> (r: Option<u64>)
    ensures
        r == count_of(opt_json(v)),
{
    match v {
        Some(x) => match as_i64(x) {
            Some(i) => if i >= 0 {
                Some(i as u64)
            } else {
                None
            },
            None => None,
        },
        None => None,
    }
}

fn usage_context(params: &JsonValue) -> (r: SessionUsageContext)
    ensures
        r == usage_context_of(params@),
{
    let used = count_exec(text_path3(params, "tokenUsage", "total", "totalTokens"));
    let window = count_exec(text_path2(params, "tokenUsage", "modelContextWindow"));
    let used_percent = match (used, window) {
        (Some(u), Some(t)) => if t > 0 {
            let scaled = if u > u64::MAX / 100 {
                u64::MAX
            } else {
                u * 100
            };
            Some(scaled / t)
        } else {
            None
        },
        _ => None,
    };
    SessionUsageContext { used_percent, used_tokens: used, total_tokens: window }
}

fn text_path2<'a>(v: &'a JsonValue, k1: &str, k2: &str) -> (r: Option<&'a JsonValue>)
    ensures
        opt_json(r) == json_path(v@, seq![k1@, k2@]),
{
    let path: [&str; 2] = [k1, k2];
    proof {
        assert(path_view(path@) =~= seq![k1@, k2@]);
    }
    at(v, &path)
}

fn text_path3<'a>(v: &'a JsonValue, k1: &str, k2: &str, k3: &str) -> (r: Option<&'a JsonValue>)
    ensures
        opt_json(r) == json_path(v@, seq![k1@, k2@, k3@]),
{
    let path: [&str; 3] = [k1, k2, k3];
    proof {
        assert(path_view(path@) =~= seq![k1@, k2@, k3@]);
    }
    at(v, &path)
}

fn item_notification(
    session: SessionId,
    id_map: &mut CodexIdMap,
    params: &JsonValue,
    native: NativeRef,
    status: ItemStatus,
    now: UtcTimestamp,
) -> (r: Vec<CodexReducerOutput>)
    requires
        old(id_map).wf(),
    ensures
        final(id_map).wf(),
        final(id_map)@.namespace == old(id_map)@.namespace,
        reduced_view(r@) == item_notification_outputs(session, old(id_map)@.namespace, params@, native@, status, now),
{
    let item = match get(params, "item") {
        Some(i) => i,
        None => return unknown(session, id_map, params, native, "Codex item notification missing item", now),
    };
    let th = match field_text_exec(params, "threadId") {
        Some(t) => t,
        None => return unknown(session, id_map, params, native, "Codex item notification missing threadId", now),
    };
    let tu = match field_text_exec(params, "turnId") {
        Some(t) => t,
        None => return unknown(session, id_map, params, native, "Codex item notification missing turnId", now),
    };
    let native_item = match field_text_exec(item, "id") {
        Some(i) => i,
        None => synthetic_key_exec(item),
    };
    let kind = match crate::codex_questions::member_str(item, "type") {
        Some(k) => k,
        None => "unknown",
    };
    let turn = id_map.turn_id(th.as_str(), tu.as_str());
    let item_id = id_map.item_id(th.as_str(), native_item.as_str());
    reduce_item(session, Some(turn), item_id, kind, item, status, native, now)
}

fn notification_detail(params: &JsonValue) -> (r: Option<String>)
    ensures
        opt_s(r) == notification_detail_of(params@),
{
    let whole = match params {
        JsonValue::Object(_) => Some(json_to_text(params)),
        _ => None,
    };
    or_else_exec(
        field_text_exec(params, "message"),
        or_else_exec(
            field_text_exec(params, "summary"),
            or_else_exec(
                field_text_exec(params, "details"),
                or_else_exec(field_text_exec(params, "error"), or_else_exec(field_text_exec(params, "reason"), whole)),
            ),
        ),
    )
}

fn resolved_request(params: &JsonValue) -> (r: Option<String>)
    ensures
        opt_s(r) == resolved_request_of(params@),
{
    match field_text_exec(params, "requestId") {
        Some(t) => Some(t),
        None => match get(params, "requestId") {
            Some(v) => {
                let text = json_to_text(v);
                if str_eq(text.as_str(), "null") {
                    None
                } else {
                    Some(text)
                }
            },
            None => None,
        },
    }
}

fn or_zero_exec(v: Option<&JsonValue>) -> (r: i64)
    ensures
        r == or_zero(opt_json(v)),
{
    match v {
        Some(x) => match as_i64(x) {
            Some(i) => i,
            None => 0,
        },
        None => 0,
    }
}

/// Projects Codex items and notifications of one session onto universal events; the
/// ids it gives come from its id map.
#[derive(Debug)]
pub struct CodexReducer {
    session_id: SessionId,
    id_map: CodexIdMap,
}

impl CodexReducer {
    pub closed spec fn wf(&self) -> bool {
        self.id_map.wf()
    }

    /// The session the reducer projects for.
    pub closed spec fn session(&self) -> SessionId {
        self.session_id
    }

    /// The namespace of the reducer's Codex ids.
    pub closed spec fn namespace(&self) -> u128 {
        self.id_map@.namespace
    }

    pub fn new(session_id: SessionId, id_map: CodexIdMap) -> (r: Self)
        requires
            id_map.wf(),
        ensures
            r.wf(),
            r.session() == session_id,
            r.namespace() == id_map@.namespace,
    {
        CodexReducer { session_id, id_map }
    }

    /// The universal events of a Codex server notification, stamped `now`.
    pub fn reduce_server_notification_at(&mut self, frame: &CodexServerNotificationFrame, now: UtcTimestamp) -> (r: Vec<CodexReducerOutput>)
        requires
            old(self).wf(),
        ensures
            final(self).wf(),
            final(self).session() == old(self).session(),
            final(self).namespace() == old(self).namespace(),
            reduced_view(r@) == notification_outputs(
                old(self).session(),
                old(self).namespace(),
                frame.method@,
                frame.raw_payload@,
                now,
            ),
    {
        let session = self.session_id;
        let null = JsonValue::Null;
        let params = match get(&frame.raw_payload, "params") {
            Some(p) => p,
            None => &null,
        };
        let native = notification_native(frame);
        let method = frame.method.as_str();
        let id_map = &mut self.id_map;
        if str_eq(method, "error") {
            error_reported(session, id_map, params, native, now)
        } else if str_eq(method, "thread/status/changed") {
            status_changed(
                session,
                native,
                codex_thread_status_to_universal(get(params, "status")),
                "Codex thread status changed",
                now,
            )
        } else if str_eq(method, "thread/archived") {
            status_changed(session, native, SessionStatus::Archived, "Codex thread archived", now)
        } else if str_eq(method, "thread/unarchived") {
            status_changed(session, native, SessionStatus::Idle, "Codex thread unarchived", now)
        } else if str_eq(method, "thread/closed") {
            status_changed(session, native, SessionStatus::Stopped, "Codex thread closed", now)
        } else if str_eq(method, "thread/name/updated") {
            one(
                out(
                    session,
                    None,
                    None,
                    native,
                    UniversalEventKind::SessionMetadataChanged { title: field_text_exec(params, "threadName") },
                    now,
                ),
            )
        } else if str_eq(method, "thread/tokenUsage/updated") {
            let turn = turn_from_exec(id_map, params);
            one(
                out(
                    session,
                    turn,
                    None,
                    native,
                    UniversalEventKind::UsageUpdated { context: Some(usage_context(params)) },
                    now,
                ),
            )
        } else if str_eq(method, "turn/started") {
            turn_started(session, id_map, params, native, now)
        } else if str_eq(method, "turn/completed") {
            turn_completed(session, id_map, params, native, now)
        } else if str_eq(method, "turn/diff/updated") {
            diff_updated(session, id_map, params, native, now)
        } else if str_eq(method, "turn/plan/updated") {
            structured_plan(session, id_map, params, native, now)
        } else if str_eq(method, "item/started") {
            item_notification(session, id_map, params, native, ItemStatus::Streaming, now)
        } else if str_eq(method, "item/completed") {
            item_notification(session, id_map, params, native, ItemStatus::Completed, now)
        } else if str_eq(method, "item/agentMessage/delta") {
            content_delta(session, id_map, params, native, "text", ContentBlockKind::Text, "delta", now)
        } else if str_eq(method, "item/plan/delta") {
            plan_delta(session, id_map, params, native, now)
        } else if str_eq(method, "item/reasoning/summaryTextDelta") {
            let n = i64_decimal(or_zero_exec(get(params, "summaryIndex")));
            let suffix = concat2("reasoning-summary-", n.as_str());
            content_delta(session, id_map, params, native, suffix.as_str(), ContentBlockKind::Reasoning, "delta", now)
        } else if str_eq(method, "item/reasoning/textDelta") {
            let n = i64_decimal(or_zero_exec(get(params, "contentIndex")));
            let suffix = concat2("reasoning-raw-", n.as_str());
            content_delta(session, id_map, params, native, suffix.as_str(), ContentBlockKind::Reasoning, "delta", now)
        } else if str_eq(method, "item/commandExecution/outputDelta") || str_eq(method, "item/fileChange/outputDelta") {
            content_delta(session, id_map, params, native, "output", ContentBlockKind::CommandOutput, "delta", now)
        } else if str_eq(method, "item/commandExecution/terminalInteraction") {
            content_delta(session, id_map, params, native, "terminal-input", ContentBlockKind::TerminalInput, "stdin", now)
        } else if str_eq(method, "item/mcpToolCall/progress") {
            content_delta(session, id_map, params, native, "progress", ContentBlockKind::ProviderStatus, "message", now)
        } else if str_eq(method, "item/fileChange/patchUpdated") {
            patch_updated(session, id_map, params, native, now)
        } else if str_eq(method, "thread/realtime/transcript/delta") {
            realtime_transcript(session, id_map, params, native, false, now)
        } else if str_eq(method, "thread/realtime/transcript/done") {
            realtime_transcript(session, id_map, params, native, true, now)
        } else if str_eq(method, "thread/realtime/error") {
            let mut outputs = error_reported(session, id_map, params, native_clone(&native), now);
            push_out(
                &mut outputs,
                notice(
                    session,
                    None,
                    None,
                    native,
                    "realtime",
                    owned("Realtime error"),
                    field_text_exec(params, "message"),
                    Some(ProviderNotificationSeverity::Error),
                    now,
                ),
            );
            outputs
        } else if str_eq(method, "rawResponseItem/completed") || str_eq(method, "thread/realtime/itemAdded") || str_eq(
            method,
            "thread/realtime/outputAudio/delta",
        ) || str_eq(method, "command/exec/outputDelta") {
            let turn = turn_from_exec(id_map, params);
            let item = item_from_exec(id_map, params);
            one(
                out(
                    session,
                    turn,
                    item,
                    native,
                    UniversalEventKind::NativeUnknown { summary: Some(concat2("Codex native frame ", method)) },
                    now,
                ),
            )
        } else if str_eq(method, "serverRequest/resolved") {
            one(
                notice(
                    session,
                    None,
                    None,
                    native,
                    "server_request",
                    owned("Server request resolved"),
                    resolved_request(params),
                    Some(ProviderNotificationSeverity::Info),
                    now,
                ),
            )
        } else if is_known_reduced_notification(method) {
            let (category, title, severity) = notification_category(method);
            let turn = turn_from_exec(id_map, params);
            let item = item_from_exec(id_map, params);
            one(notice(session, turn, item, native, category, owned(title), notification_detail(params), severity, now))
        } else {
            let turn = turn_from_exec(id_map, params);
            let item = item_from_exec(id_map, params);
            one(
                out(
                    session,
                    turn,
                    item,
                    native,
                    UniversalEventKind::NativeUnknown { summary: Some(concat2("Unknown Codex notification ", method)) },
                    now,
                ),
            )
        }
    }

    /// The universal events of a Codex server notification, stamped with the current
    /// time (the clock decides which instant).
    pub fn reduce_server_notification(&mut self, frame: &CodexServerNotificationFrame) -> (r: Vec<CodexReducerOutput>)
        requires
            old(self).wf(),
        ensures
            final(self).wf(),
            final(self).session() == old(self).session(),
            final(self).namespace() == old(self).namespace(),
            exists|now: UtcTimestamp|
                reduced_view(r@) == #[trigger] notification_outputs(
                    old(self).session(),
                    old(self).namespace(),
                    frame.method@,
                    frame.raw_payload@,
                    now,
                ),
    {
        let now = utc_now();
        self.reduce_server_notification_at(frame, now)
    }

    /// The universal events of an item from a thread's history, stamped `now`.
    pub fn reduce_history_item_at(
        &mut self,
        native_thread_id: &str,
        native_turn_id: &str,
        raw_item: &JsonValue,
        now: UtcTimestamp,
    ) -> (r: Vec<CodexReducerOutput>)
        requires
            old(self).wf(),
        ensures
            final(self).wf(),
            final(self).session() == old(self).session(),
            final(self).namespace() == old(self).namespace(),
            reduced_view(r@) == history_outputs(
                old(self).session(),
                old(self).namespace(),
                native_thread_id@,
                native_turn_id@,
                raw_item@,
                now,
            ),
    {
        let session = self.session_id;
        let kind = match crate::codex_questions::member_str(raw_item, "type") {
            Some(k) => k,
            None => {
                return one(
                    out(
                        session,
                        None,
                        None,
                        item_native(None, None, raw_item),
                        UniversalEventKind::NativeUnknown { summary: Some(owned("Codex thread item is missing type")) },
                        now,
                    ),
                );
            },
        };
        let native_item = match field_text_exec(raw_item, "id") {
            Some(i) => i,
            None => synthetic_key_exec(raw_item),
        };
        let turn = self.id_map.turn_id(native_thread_id, native_turn_id);
        let item = self.id_map.item_id(native_thread_id, native_item.as_str());
        let native = item_native(Some(kind), Some(native_item.as_str()), raw_item);
        reduce_item(session, Some(turn), item, kind, raw_item, ItemStatus::Completed, native, now)
    }

    /// The universal events of an item from a thread's history, stamped with the
    /// current time.
    pub fn reduce_history_item(&mut self, native_thread_id: &str, native_turn_id: &str, raw_item: &JsonValue) -> (r: Vec<
        CodexReducerOutput,
    >)
        requires
            old(self).wf(),
        ensures
            final(self).wf(),
            final(self).session() == old(self).session(),
            final(self).namespace() == old(self).namespace(),
            exists|now: UtcTimestamp|
                reduced_view(r@) == #[trigger] history_outputs(
                    old(self).session(),
                    old(self).namespace(),
                    native_thread_id@,
                    native_turn_id@,
                    raw_item@,
                    now,
                ),
    {
        let now = utc_now();
        self.reduce_history_item_at(native_thread_id, native_turn_id, raw_item, now)
    }
}

// ---------------------------------------------------------------------------
// Laws
// ---------------------------------------------------------------------------

/// The native frame of an item's projection.
pub open spec fn keeps_native(outs: Seq<ReducedView>, session: SessionId, native: NativeRefView, now: UtcTimestamp) -> bool {
    forall|i: int| 0 <= i < outs.len() ==> {
        &&& (#[trigger] outs[i]).native == native
        &&& outs[i].session_id == session
        &&& outs[i].ts == now
    }
}

proof fn lemma_item_keeps_native(
    session: SessionId,
    turn: Option<TurnId>,
    item: ItemId,
    kind: Seq<char>,
    raw: Json,
    status: ItemStatus,
    native: NativeRefView,
    now: UtcTimestamp,
)
    ensures
        keeps_native(item_outputs(session, turn, item, kind, raw, status, native, now), session, native, now),
        item_outputs(session, turn, item, kind, raw, status, native, now).len() >= 1,
{
}

/// Every universal event a notification becomes belongs to the reducer's session,
/// carries the time it was stamped with, and keeps the notification's native frame,
/// full raw payload included: nothing Codex sent is lost.
pub proof fn law_notifications_keep_their_native_frame(
    session: SessionId,
    ns: u128,
    method: Seq<char>,
    raw: Json,
    now: UtcTimestamp,
)
    ensures
        keeps_native(notification_outputs(session, ns, method, raw, now), session, notification_native_of(method, raw), now),
        forall|i: int|
            0 <= i < notification_outputs(session, ns, method, raw, now).len() ==> (#[trigger] notification_outputs(
                session,
                ns,
                method,
                raw,
                now,
            )[i]).native.raw_payload == Some(raw),
{
    let params = match json_get(raw, "params"@) {
        Some(p) => p,
        None => Json::Null,
    };
    let native = notification_native_of(method, raw);
    match json_get(params, "item"@) {
        Some(item) => match (field_text(params, "threadId"@), field_text(params, "turnId"@)) {
            (Some(th), Some(tu)) => {
                let native_item = or_text(field_text(item, "id"@), synthetic_item_key(item));
                let kind = or_text(crate::codex_questions::member_text(item, "type"@), "unknown"@);
                lemma_item_keeps_native(
                    session,
                    Some(TurnId(codex_turn_uuid(ns, th, tu))),
                    ItemId(codex_item_uuid(ns, th, native_item)),
                    kind,
                    item,
                    ItemStatus::Streaming,
                    native,
                    now,
                );
                lemma_item_keeps_native(
                    session,
                    Some(TurnId(codex_turn_uuid(ns, th, tu))),
                    ItemId(codex_item_uuid(ns, th, native_item)),
                    kind,
                    item,
                    ItemStatus::Completed,
                    native,
                    now,
                );
            },
            _ => {},
        },
        None => {},
    }
}

/// Whether a notification's params name its thread, turn and item.
pub open spec fn names_thread_turn_and_item(raw: Json) -> bool {
    match json_get(raw, "params"@) {
        Some(p) => field_text(p, "threadId"@) is Some && field_text(p, "turnId"@) is Some && field_text(
            p,
            "itemId"@,
        ) is Some,
        None => false,
    }
}

/// No notification is dropped: every one, of every method, becomes at least one
/// universal event. The one exception is a plan delta that does not name its thread,
/// turn and item, which has nowhere to go.
pub proof fn law_every_notification_is_projected(
    session: SessionId,
    ns: u128,
    method: Seq<char>,
    raw: Json,
    now: UtcTimestamp,
)
    requires
        method == "item/plan/delta"@ ==> names_thread_turn_and_item(raw),
    ensures
        notification_outputs(session, ns, method, raw, now).len() >= 1,
{
    let params = match json_get(raw, "params"@) {
        Some(p) => p,
        None => Json::Null,
    };
    let native = notification_native_of(method, raw);
    match json_get(params, "item"@) {
        Some(item) => match (field_text(params, "threadId"@), field_text(params, "turnId"@)) {
            (Some(th), Some(tu)) => {
                let native_item = or_text(field_text(item, "id"@), synthetic_item_key(item));
                let kind = or_text(crate::codex_questions::member_text(item, "type"@), "unknown"@);
                lemma_item_keeps_native(
                    session,
                    Some(TurnId(codex_turn_uuid(ns, th, tu))),
                    ItemId(codex_item_uuid(ns, th, native_item)),
                    kind,
                    item,
                    ItemStatus::Streaming,
                    native,
                    now,
                );
                lemma_item_keeps_native(
                    session,
                    Some(TurnId(codex_turn_uuid(ns, th, tu))),
                    ItemId(codex_item_uuid(ns, th, native_item)),
                    kind,
                    item,
                    ItemStatus::Completed,
                    native,
                    now,
                );
            },
            _ => {},
        },
        None => {},
    }
}

/// A notification the reducer does not know is still shown, as a native frame that
/// names its method.
pub proof fn law_unknown_notifications_stay_visible(session: SessionId, ns: u128, method: Seq<char>, raw: Json, now: UtcTimestamp)
    requires
        !(method == "error"@ || method == "thread/status/changed"@ || method == "thread/archived"@ || method
            == "thread/unarchived"@ || method == "thread/closed"@ || method == "thread/name/updated"@ || method
            == "thread/tokenUsage/updated"@ || method == "turn/started"@ || method == "turn/completed"@ || method
            == "turn/diff/updated"@ || method == "turn/plan/updated"@ || method == "item/started"@ || method
            == "item/completed"@ || method == "item/agentMessage/delta"@ || method == "item/plan/delta"@ || method
            == "item/reasoning/summaryTextDelta"@ || method == "item/reasoning/textDelta"@ || method
            == "item/commandExecution/outputDelta"@ || method == "item/fileChange/outputDelta"@ || method
            == "item/commandExecution/terminalInteraction"@ || method == "item/mcpToolCall/progress"@ || method
            == "item/fileChange/patchUpdated"@ || method == "thread/realtime/transcript/delta"@ || method
            == "thread/realtime/transcript/done"@ || method == "thread/realtime/error"@ || is_native_frame(method)
            || method == "serverRequest/resolved"@ || reduced_notification_methods().contains(method)),
    ensures
        notification_outputs(session, ns, method, raw, now).len() == 1,
        notification_outputs(session, ns, method, raw, now)[0].event == (UniversalView::NativeUnknown {
            summary: Some("Unknown Codex notification "@ + method),
        }),
        notification_outputs(session, ns, method, raw, now)[0].native.raw_payload == Some(raw),
{
}

proof fn lemma_completed_agent_message(
    session: SessionId,
    turn: Option<TurnId>,
    item: ItemId,
    raw: Json,
    native: NativeRefView,
    now: UtcTimestamp,
)
    requires
        field_text(raw, "text"@) is Some,
    ensures
        ({
            let c = item_outputs(session, turn, item, "agentMessage"@, raw, ItemStatus::Completed, native, now);
            &&& c.len() == 2
            &&& c[0].item_id == Some(item) && c[1].item_id == Some(item) && c[0].turn_id == turn
            &&& c[0].event is ItemCreated
            &&& c[1].event == (UniversalView::ContentCompleted {
                block_id: block_id_of(item, "text"@),
                kind: Some(ContentBlockKind::Text),
                text: field_text(raw, "text"@),
            })
        }),
{
    reveal_strlit("agentMessage");
    reveal_strlit("plan");
    reveal_strlit("fileChange");
    reveal_strlit("contextCompaction");
    reveal_strlit("enteredReviewMode");
    reveal_strlit("exitedReviewMode");
    reveal_strlit("dynamicToolCall");
    assert("agentMessage"@.len() == 12);
    assert("fileChange"@.len() == 10);
    assert("agentMessage"@ != "fileChange"@);
}

/// An agent message delta and an item completion that name the same thread, turn and
/// item, the item being an agent message with text.
pub open spec fn delta_and_completion_of_one_message(delta_raw: Json, completed_raw: Json) -> bool {
    match (json_get(delta_raw, "params"@), json_get(completed_raw, "params"@)) {
        (Some(p1), Some(p2)) => match json_get(p2, "item"@) {
            Some(item) => {
                &&& field_text(p1, "threadId"@) is Some
                &&& field_text(p1, "threadId"@) == field_text(p2, "threadId"@)
                &&& field_text(p1, "turnId"@) is Some
                &&& field_text(p1, "turnId"@) == field_text(p2, "turnId"@)
                &&& field_text(p1, "itemId"@) is Some
                &&& field_text(item, "id"@) == field_text(p1, "itemId"@)
                &&& crate::codex_questions::member_text(item, "type"@) == Some("agentMessage"@)
                &&& field_text(item, "text"@) is Some
            },
            None => false,
        },
        _ => false,
    }
}

/// Streaming and completion converge: the deltas of an agent message and its
/// completed item land on the same turn, the same item and the same text block; the
/// delta carries the streamed text and the completion the message's whole text.
pub proof fn law_deltas_and_completion_share_ids(
    session: SessionId,
    ns: u128,
    delta_raw: Json,
    completed_raw: Json,
    now1: UtcTimestamp,
    now2: UtcTimestamp,
)
    requires
        delta_and_completion_of_one_message(delta_raw, completed_raw),
    ensures
        ({
            let d = notification_outputs(session, ns, "item/agentMessage/delta"@, delta_raw, now1);
            let c = notification_outputs(session, ns, "item/completed"@, completed_raw, now2);
            &&& d.len() == 1
            &&& c.len() == 2
            &&& d[0].turn_id == c[0].turn_id && d[0].turn_id is Some
            &&& d[0].item_id == c[0].item_id && d[0].item_id == c[1].item_id
            &&& c[0].turn_id == d[0].turn_id
            &&& c[0].event is ItemCreated
            &&& d[0].event == (UniversalView::ContentDelta {
                block_id: block_id_of(d[0].item_id.unwrap(), "text"@),
                kind: Some(ContentBlockKind::Text),
                delta: or_text(field_text(json_get(delta_raw, "params"@).unwrap(), "delta"@), ""@),
            })
            &&& c[1].event == (UniversalView::ContentCompleted {
                block_id: block_id_of(d[0].item_id.unwrap(), "text"@),
                kind: Some(ContentBlockKind::Text),
                text: field_text(json_get(json_get(completed_raw, "params"@).unwrap(), "item"@).unwrap(), "text"@),
            })
        }),
{
    let p1 = json_get(delta_raw, "params"@).unwrap();
    let p2 = json_get(completed_raw, "params"@).unwrap();
    let item = json_get(p2, "item"@).unwrap();
    let th = field_text(p1, "threadId"@).unwrap();
    let tu = field_text(p1, "turnId"@).unwrap();
    let it = field_text(p1, "itemId"@).unwrap();
    let n1 = notification_native_of("item/agentMessage/delta"@, delta_raw);
    let n2 = notification_native_of("item/completed"@, completed_raw);
    reveal_strlit("error");
    reveal_strlit("thread/status/changed");
    reveal_strlit("thread/archived");
    reveal_strlit("thread/unarchived");
    reveal_strlit("thread/closed");
    reveal_strlit("thread/name/updated");
    reveal_strlit("thread/tokenUsage/updated");
    reveal_strlit("turn/started");
    reveal_strlit("turn/completed");
    reveal_strlit("turn/diff/updated");
    reveal_strlit("turn/plan/updated");
    reveal_strlit("item/started");
    reveal_strlit("item/agentMessage/delta");
    reveal_strlit("item/completed");
    assert(notification_outputs(session, ns, "item/agentMessage/delta"@, delta_raw, now1) == delta_outputs(
        session,
        ns,
        p1,
        n1,
        "text"@,
        ContentBlockKind::Text,
        "delta"@,
        now1,
    ));
    assert("item/completed"@[0] != "turn/completed"@[0]);
    assert(notification_outputs(session, ns, "item/completed"@, completed_raw, now2) == item_notification_outputs(
        session,
        ns,
        p2,
        n2,
        ItemStatus::Completed,
        now2,
    ));
    assert(item_notification_outputs(session, ns, p2, n2, ItemStatus::Completed, now2) == item_outputs(
        session,
        Some(TurnId(codex_turn_uuid(ns, th, tu))),
        ItemId(codex_item_uuid(ns, th, it)),
        "agentMessage"@,
        item,
        ItemStatus::Completed,
        n2,
        now2,
    ));
    let iid = ItemId(codex_item_uuid(ns, th, it));
    assert(completed_block_of(iid, "agentMessage"@, item) == Some(
        (block_id_of(iid, "text"@), ContentBlockKind::Text, field_text(item, "text"@).unwrap()),
    ));
    let c = item_outputs(
        session,
        Some(TurnId(codex_turn_uuid(ns, th, tu))),
        iid,
        "agentMessage"@,
        item,
        ItemStatus::Completed,
        n2,
        now2,
    );
    lemma_completed_agent_message(session, Some(TurnId(codex_turn_uuid(ns, th, tu))), iid, item, n2, now2);
    let d = delta_outputs(session, ns, p1, n1, "text"@, ContentBlockKind::Text, "delta"@, now1);
    assert(d.len() == 1);
    assert(d[0].item_id == Some(iid));
}

/// A plan item, streaming or complete, becomes exactly one plan update (no item, no
/// block): a plan is shown as a plan.
pub proof fn law_plan_items_emit_only_plan_updates(
    session: SessionId,
    turn: Option<TurnId>,
    item: ItemId,
    raw: Json,
    status: ItemStatus,
    native: NativeRefView,
    now: UtcTimestamp,
)
    ensures
        item_outputs(session, turn, item, "plan"@, raw, status, native, now).len() == 1,
        item_outputs(session, turn, item, "plan"@, raw, status, native, now)[0].event is PlanUpdated,
{
}

} // verus!

verus! {

proof fn lemma_patch_update_branch(session: SessionId, ns: u128, raw: Json, now: UtcTimestamp)
    ensures
        notification_outputs(session, ns, "item/fileChange/patchUpdated"@, raw, now) == patch_outputs(
            session,
            ns,
            match json_get(raw, "params"@) {
                Some(p) => p,
                None => Json::Null,
            },
            notification_native_of("item/fileChange/patchUpdated"@, raw),
            now,
        ),
{
    reveal_strlit("error");
    reveal_strlit("thread/status/changed");
    reveal_strlit("thread/archived");
    reveal_strlit("thread/unarchived");
    reveal_strlit("thread/closed");
    reveal_strlit("thread/name/updated");
    reveal_strlit("thread/tokenUsage/updated");
    reveal_strlit("turn/started");
    reveal_strlit("turn/completed");
    reveal_strlit("turn/diff/updated");
    reveal_strlit("turn/plan/updated");
    reveal_strlit("item/started");
    reveal_strlit("item/completed");
    reveal_strlit("item/agentMessage/delta");
    reveal_strlit("item/plan/delta");
    reveal_strlit("item/reasoning/summaryTextDelta");
    reveal_strlit("item/reasoning/textDelta");
    reveal_strlit("item/commandExecution/outputDelta");
    reveal_strlit("item/fileChange/outputDelta");
    reveal_strlit("item/commandExecution/terminalInteraction");
    reveal_strlit("item/mcpToolCall/progress");
    reveal_strlit("item/fileChange/patchUpdated");
    assert("error"@.len() != "item/fileChange/patchUpdated"@.len());
    assert("thread/status/changed"@.len() != "item/fileChange/patchUpdated"@.len());
    assert("thread/archived"@.len() != "item/fileChange/patchUpdated"@.len());
    assert("thread/unarchived"@.len() != "item/fileChange/patchUpdated"@.len());
    assert("thread/closed"@.len() != "item/fileChange/patchUpdated"@.len());
    assert("thread/name/updated"@.len() != "item/fileChange/patchUpdated"@.len());
    assert("thread/tokenUsage/updated"@.len() != "item/fileChange/patchUpdated"@.len());
    assert("turn/started"@.len() != "item/fileChange/patchUpdated"@.len());
    assert("turn/completed"@.len() != "item/fileChange/patchUpdated"@.len());
    assert("turn/diff/updated"@.len() != "item/fileChange/patchUpdated"@.len());
    assert("turn/plan/updated"@.len() != "item/fileChange/patchUpdated"@.len());
    assert("item/started"@.len() != "item/fileChange/patchUpdated"@.len());
    assert("item/completed"@.len() != "item/fileChange/patchUpdated"@.len());
    assert("item/agentMessage/delta"@.len() != "item/fileChange/patchUpdated"@.len());
    assert("item/plan/delta"@.len() != "item/fileChange/patchUpdated"@.len());
    assert("item/reasoning/summaryTextDelta"@.len() != "item/fileChange/patchUpdated"@.len());
    assert("item/reasoning/textDelta"@.len() != "item/fileChange/patchUpdated"@.len());
    assert("item/commandExecution/outputDelta"@.len() != "item/fileChange/patchUpdated"@.len());
    assert("item/fileChange/outputDelta"@.len() != "item/fileChange/patchUpdated"@.len());
    assert("item/commandExecution/terminalInteraction"@.len() != "item/fileChange/patchUpdated"@.len());
    assert("item/mcpToolCall/progress"@.len() != "item/fileChange/patchUpdated"@.len());
}

/// The file status a patch change kind stands for, said directly: `add` creates,
/// `delete` deletes, anything else (or nothing) modifies.
pub open spec fn change_kind_is(change: Json, kind: Seq<char>) -> bool {
    json_get(change, "kind"@) == Some(Json::Str(kind))
}

/// Every change of a diff becomes one file, in order, with the change's path and diff,
/// and the file's status follows the change's kind: a deleted file is shown deleted, an
/// added one created, any other change modified.
pub proof fn law_diff_files_follow_change_kinds(
    session: SessionId,
    turn: Option<TurnId>,
    diff_id: u128,
    title: Seq<char>,
    changes: Seq<Json>,
    now: UtcTimestamp,
    i: int,
    path: Seq<char>,
    diff: Seq<char>,
)
    requires
        0 <= i < changes.len(),
    ensures
        ({
            let files = diff_state_of(session, turn, diff_id, title, Some(Json::Array(changes)), now).files;
            &&& files.len() == changes.len()
            &&& change_kind_is(changes[i], "delete"@) ==> files[i].status == FileChangeKind::Delete
            &&& change_kind_is(changes[i], "add"@) ==> files[i].status == FileChangeKind::Create
            &&& (!change_kind_is(changes[i], "delete"@) && !change_kind_is(changes[i], "add"@)) ==> files[i].status
                == FileChangeKind::Modify
            &&& json_get(changes[i], "path"@) == Some(Json::Str(path)) ==> files[i].path == path
            &&& json_get(changes[i], "path"@) is None ==> files[i].path == "unknown"@
            &&& json_get(changes[i], "diff"@) == Some(Json::Str(diff)) ==> files[i].diff == Some(diff)
            &&& json_get(changes[i], "diff"@) is None ==> files[i].diff is None
        }),
{
    reveal_strlit("add");
    reveal_strlit("delete");
    assert("add"@.len() != "delete"@.len());
    lemma_member_path(changes[i], "path"@);
    lemma_member_path(changes[i], "diff"@);
}

proof fn lemma_member_path(v: Json, key: Seq<char>)
    ensures
        json_path(v, seq![key]) == json_get(v, key),
{
    let p = seq![key];
    assert(p[0] == key);
    assert(p.drop_first() =~= Seq::<Seq<char>>::empty());
    match json_get(v, key) {
        Some(c) => {
            assert(json_path(c, p.drop_first()) == Some(c));
        },
        None => {},
    }
}

/// A patch update that names its thread, turn and item becomes one diff update whose
/// files follow the patch's changes, each with the status its kind says.
pub proof fn law_patch_updates_keep_file_kinds(
    session: SessionId,
    ns: u128,
    raw: Json,
    now: UtcTimestamp,
    changes: Seq<Json>,
    i: int,
)
    requires
        names_thread_turn_and_item(raw),
        json_get(json_get(raw, "params"@).unwrap(), "changes"@) == Some(Json::Array(changes)),
        0 <= i < changes.len(),
    ensures
        ({
            let outs = notification_outputs(session, ns, "item/fileChange/patchUpdated"@, raw, now);
            &&& outs.len() == 1
            &&& outs[0].event matches UniversalView::DiffUpdated { diff } && {
                &&& diff.files.len() == changes.len()
                &&& change_kind_is(changes[i], "delete"@) ==> diff.files[i].status == FileChangeKind::Delete
                &&& change_kind_is(changes[i], "add"@) ==> diff.files[i].status == FileChangeKind::Create
                &&& (!change_kind_is(changes[i], "delete"@) && !change_kind_is(changes[i], "add"@))
                    ==> diff.files[i].status == FileChangeKind::Modify
            }
        }),
{
    lemma_patch_update_branch(session, ns, raw, now);
    let params = json_get(raw, "params"@).unwrap();
    let th = field_text(params, "threadId"@).unwrap();
    let tu = field_text(params, "turnId"@).unwrap();
    let it = field_text(params, "itemId"@).unwrap();
    let turn = TurnId(codex_turn_uuid(ns, th, tu));
    let item = ItemId(codex_item_uuid(ns, th, it));
    law_diff_files_follow_change_kinds(
        session,
        Some(turn),
        artifact_uuid("diff"@, session, item),
        "Codex patch updated"@,
        changes,
        now,
        i,
        "unknown"@,
        Seq::empty(),
    );
}

} // verus!

verus! {

/// The params of a notification, or `null`.
pub open spec fn params_or_null(raw: Json) -> Json {
    match json_get(raw, "params"@) {
        Some(p) => p,
        None => Json::Null,
    }
}

/// Thread and session notifications become the session events they name: an archived
/// thread is archived, an unarchived one idle, a closed one stopped; a status change
/// carries the thread's status; a rename carries the new name; an error is reported as
/// an error.
pub proof fn law_thread_notifications_become_session_events(session: SessionId, ns: u128, raw: Json, now: UtcTimestamp)
    ensures
        ({
            let o = notification_outputs(session, ns, "thread/archived"@, raw, now);
            o.len() == 1 && (o[0].event matches UniversalView::SessionStatusChanged { status, .. } && status
                == SessionStatus::Archived)
        }),
        ({
            let o = notification_outputs(session, ns, "thread/unarchived"@, raw, now);
            o.len() == 1 && (o[0].event matches UniversalView::SessionStatusChanged { status, .. } && status
                == SessionStatus::Idle)
        }),
        ({
            let o = notification_outputs(session, ns, "thread/closed"@, raw, now);
            o.len() == 1 && (o[0].event matches UniversalView::SessionStatusChanged { status, .. } && status
                == SessionStatus::Stopped)
        }),
        ({
            let o = notification_outputs(session, ns, "thread/status/changed"@, raw, now);
            o.len() == 1 && (o[0].event matches UniversalView::SessionStatusChanged { status, .. } && status
                == thread_status_spec(json_get(params_or_null(raw), "status"@)))
        }),
        ({
            let o = notification_outputs(session, ns, "thread/name/updated"@, raw, now);
            o.len() == 1 && o[0].event == (UniversalView::SessionMetadataChanged {
                title: field_text(params_or_null(raw), "threadName"@),
            })
        }),
        ({
            let o = notification_outputs(session, ns, "error"@, raw, now);
            o.len() == 1 && o[0].event is ErrorReported
        }),
{
    reveal_strlit("error");
    reveal_strlit("thread/status/changed");
    reveal_strlit("thread/archived");
    reveal_strlit("thread/unarchived");
    reveal_strlit("thread/closed");
    reveal_strlit("thread/name/updated");
    reveal_strlit("thread/tokenUsage/updated");
    reveal_strlit("turn/started");
    reveal_strlit("turn/completed");
    reveal_strlit("completed");
    reveal_strlit("interrupted");
    reveal_strlit("failed");
    assert("error"@.len() != "thread/status/changed"@.len());
    assert("error"@.len() != "thread/archived"@.len());
    assert("error"@.len() != "thread/unarchived"@.len());
    assert("error"@.len() != "thread/closed"@.len());
    assert("error"@.len() != "thread/name/updated"@.len());
    assert("error"@.len() != "thread/tokenUsage/updated"@.len());
    assert("error"@.len() != "turn/started"@.len());
    assert("error"@.len() != "turn/completed"@.len());
    assert("thread/status/changed"@.len() != "thread/archived"@.len());
    assert("thread/status/changed"@.len() != "thread/unarchived"@.len());
    assert("thread/status/changed"@.len() != "thread/closed"@.len());
    assert("thread/status/changed"@.len() != "thread/name/updated"@.len());
    assert("thread/status/changed"@.len() != "thread/tokenUsage/updated"@.len());
    assert("thread/status/changed"@.len() != "turn/started"@.len());
    assert("thread/status/changed"@.len() != "turn/completed"@.len());
    assert("thread/archived"@.len() != "thread/unarchived"@.len());
    assert("thread/archived"@.len() != "thread/closed"@.len());
    assert("thread/archived"@.len() != "thread/name/updated"@.len());
    assert("thread/archived"@.len() != "thread/tokenUsage/updated"@.len());
    assert("thread/archived"@.len() != "turn/started"@.len());
    assert("thread/archived"@.len() != "turn/completed"@.len());
    assert("thread/unarchived"@.len() != "thread/closed"@.len());
    assert("thread/unarchived"@.len() != "thread/name/updated"@.len());
    assert("thread/unarchived"@.len() != "thread/tokenUsage/updated"@.len());
    assert("thread/unarchived"@.len() != "turn/started"@.len());
    assert("thread/unarchived"@.len() != "turn/completed"@.len());
    assert("thread/closed"@.len() != "thread/name/updated"@.len());
    assert("thread/closed"@.len() != "thread/tokenUsage/updated"@.len());
    assert("thread/closed"@.len() != "turn/started"@.len());
    assert("thread/closed"@.len() != "turn/completed"@.len());
    assert("thread/name/updated"@.len() != "thread/tokenUsage/updated"@.len());
    assert("thread/name/updated"@.len() != "turn/started"@.len());
    assert("thread/name/updated"@.len() != "turn/completed"@.len());
    assert("thread/tokenUsage/updated"@.len() != "turn/started"@.len());
    assert("thread/tokenUsage/updated"@.len() != "turn/completed"@.len());
    assert("turn/started"@.len() != "turn/completed"@.len());
}

/// A completed turn notification that names its thread and turn ends the turn as its
/// status word says: `completed` completes it, `interrupted` interrupts it, `failed`
/// fails it; any other status only changes its status.
pub proof fn law_turn_completion_follows_its_status(
    session: SessionId,
    ns: u128,
    raw: Json,
    now: UtcTimestamp,
    turn: Json,
    word: Seq<char>,
)
    requires
        field_text(params_or_null(raw), "threadId"@) is Some,
        json_get(params_or_null(raw), "turn"@) == Some(turn),
        field_text(turn, "id"@) is Some,
        json_get(turn, "status"@) == Some(Json::Str(word)),
    ensures
        ({
            let o = notification_outputs(session, ns, "turn/completed"@, raw, now);
            &&& o.len() == 1
            &&& word == "completed"@ ==> (o[0].event matches UniversalView::TurnCompleted { turn: t } && t.status
                == TurnStatus::Completed)
            &&& word == "interrupted"@ ==> (o[0].event matches UniversalView::TurnInterrupted { turn: t } && t.status
                == TurnStatus::Interrupted)
            &&& word == "failed"@ ==> (o[0].event matches UniversalView::TurnFailed { turn: t } && t.status
                == TurnStatus::Failed)
            &&& (word != "completed"@ && word != "interrupted"@ && word != "failed"@) ==> (o[0].event matches UniversalView::TurnStatusChanged {
                turn: t,
            } && t.status == TurnStatus::Running)
        }),
{
    reveal_strlit("error");
    reveal_strlit("thread/status/changed");
    reveal_strlit("thread/archived");
    reveal_strlit("thread/unarchived");
    reveal_strlit("thread/closed");
    reveal_strlit("thread/name/updated");
    reveal_strlit("thread/tokenUsage/updated");
    reveal_strlit("turn/started");
    reveal_strlit("turn/completed");
    reveal_strlit("completed");
    reveal_strlit("interrupted");
    reveal_strlit("failed");
    assert("error"@.len() != "thread/status/changed"@.len());
    assert("error"@.len() != "thread/archived"@.len());
    assert("error"@.len() != "thread/unarchived"@.len());
    assert("error"@.len() != "thread/closed"@.len());
    assert("error"@.len() != "thread/name/updated"@.len());
    assert("error"@.len() != "thread/tokenUsage/updated"@.len());
    assert("error"@.len() != "turn/started"@.len());
    assert("error"@.len() != "turn/completed"@.len());
    assert("thread/status/changed"@.len() != "thread/archived"@.len());
    assert("thread/status/changed"@.len() != "thread/unarchived"@.len());
    assert("thread/status/changed"@.len() != "thread/closed"@.len());
    assert("thread/status/changed"@.len() != "thread/name/updated"@.len());
    assert("thread/status/changed"@.len() != "thread/tokenUsage/updated"@.len());
    assert("thread/status/changed"@.len() != "turn/started"@.len());
    assert("thread/status/changed"@.len() != "turn/completed"@.len());
    assert("thread/archived"@.len() != "thread/unarchived"@.len());
    assert("thread/archived"@.len() != "thread/closed"@.len());
    assert("thread/archived"@.len() != "thread/name/updated"@.len());
    assert("thread/archived"@.len() != "thread/tokenUsage/updated"@.len());
    assert("thread/archived"@.len() != "turn/started"@.len());
    assert("thread/archived"@.len() != "turn/completed"@.len());
    assert("thread/unarchived"@.len() != "thread/closed"@.len());
    assert("thread/unarchived"@.len() != "thread/name/updated"@.len());
    assert("thread/unarchived"@.len() != "thread/tokenUsage/updated"@.len());
    assert("thread/unarchived"@.len() != "turn/started"@.len());
    assert("thread/unarchived"@.len() != "turn/completed"@.len());
    assert("thread/closed"@.len() != "thread/name/updated"@.len());
    assert("thread/closed"@.len() != "thread/tokenUsage/updated"@.len());
    assert("thread/closed"@.len() != "turn/started"@.len());
    assert("thread/closed"@.len() != "turn/completed"@.len());
    assert("thread/name/updated"@.len() != "thread/tokenUsage/updated"@.len());
    assert("thread/name/updated"@.len() != "turn/started"@.len());
    assert("thread/name/updated"@.len() != "turn/completed"@.len());
    assert("thread/tokenUsage/updated"@.len() != "turn/started"@.len());
    assert("thread/tokenUsage/updated"@.len() != "turn/completed"@.len());
    assert("turn/started"@.len() != "turn/completed"@.len());
    assert("completed"@.len() != "interrupted"@.len() && "completed"@.len() != "failed"@.len());
    assert("interrupted"@.len() != "failed"@.len());
}

} // verus!
