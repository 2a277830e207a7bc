//! Questions Codex asks the user (tool input and MCP elicitation forms), and the
//! answers sent back.
use vstd::prelude::*;
use crate::json::{Json, JsonValue, json_get, json_as_str, json_as_array, json_as_bool, json_path, get,
    as_str, as_array, values_view, at, opt_str, json_clone, json_to_text, jstr, obj1, obj2, obj3, path_view};
use crate::codex::{text_or, jsonrpc_method, jsonrpc_method_spec};
use crate::codex_rpc::{is_number, number_text};
use crate::events::{opt_s, opt_j};
use crate::model::SessionId;
use crate::events::{EventView, NormalizedEvent, QuestionRequestedEvent};
use crate::text::{owned, str_eq, strings_view};

verus! {

/// A choice offered for a question field.
#[derive(Debug, PartialEq)]
pub struct AgentQuestionChoice {
    pub value: String,
    pub label: String,
    pub description: Option<String>,
}

pub struct ChoiceView {
    pub value: Seq<char>,
    pub label: Seq<char>,
    pub description: Option<Seq<char>>,
}

impl View for AgentQuestionChoice {
    type V = ChoiceView;

    open spec fn view(&self) -> ChoiceView {
        ChoiceView { value: self.value@, label: self.label@, description: opt_s(self.description) }
    }
}

pub open spec fn choices_view(v: Seq<AgentQuestionChoice>) -> Seq<ChoiceView> {
    v.map_values(|c: AgentQuestionChoice| c@)
}

/// One field of a question form.
#[derive(Debug, PartialEq)]
pub struct AgentQuestionField {
    pub id: String,
    pub label: String,
    pub prompt: Option<String>,
    pub kind: String,
    pub required: bool,
    pub secret: bool,
    pub choices: Vec<AgentQuestionChoice>,
    pub default_answers: Vec<String>,
    pub schema: Option<JsonValue>,
}

pub struct FieldView {
    pub id: Seq<char>,
    pub label: Seq<char>,
    pub prompt: Option<Seq<char>>,
    pub kind: Seq<char>,
    pub required: bool,
    pub secret: bool,
    pub choices: Seq<ChoiceView>,
    pub default_answers: Seq<Seq<char>>,
    pub schema: Option<Json>,
}

impl View for AgentQuestionField {
    type V = FieldView;

    open spec fn view(&self) -> FieldView {
        FieldView {
            id: self.id@,
            label: self.label@,
            prompt: opt_s(self.prompt),
            kind: self.kind@,
            required: self.required,
            secret: self.secret,
            choices: choices_view(self.choices@),
            default_answers: strings_view(self.default_answers@),
            schema: opt_j(self.schema),
        }
    }
}

pub open spec fn fields_view(v: Seq<AgentQuestionField>) -> Seq<FieldView> {
    v.map_values(|f: AgentQuestionField| f@)
}

/// Which kind of question Codex asked.
#[derive(Clone, Copy, Debug, PartialEq, Eq, Structural)]
pub enum CodexQuestionKind {
    ToolUserInput,
    McpElicitation,
}


/// The text member `key` of a value.
pub open spec fn member_text(v: Json, key: Seq<char>) -> Option<Seq<char>> {
    match json_get(v, key) {
        Some(x) => json_as_str(x),
        None => None,
    }
}

/// The boolean member `key` of a value.
pub open spec fn member_bool(v: Json, key: Seq<char>) -> Option<bool> {
    match json_get(v, key) {
        Some(x) => json_as_bool(x),
        None => None,
    }
}

/// The text member `key` of a value.
pub fn member_str<'a>(v: &'a JsonValue, key: &str) -> (r: Option<&'a str>)
    ensures
        opt_str(r) == member_text(v@, key@),
{
    match get(v, key) {
        Some(x) => as_str(x),
        None => None,
    }
}

/// The boolean member `key` of a value.
pub fn member_bool_exec(v: &JsonValue, key: &str) -> (r: Option<bool>)
    ensures
        r == member_bool(v@, key@),
{
    match get(v, key) {
        Some(x) => crate::json::as_bool(x),
        None => None,
    }
}

/// The array at a path of a value, or no items.
pub open spec fn items_at(v: Json, path: Seq<Seq<char>>) -> Seq<Json> {
    match json_path(v, path) {
        Some(a) => match json_as_array(a) {
            Some(items) => items,
            None => Seq::empty(),
        },
        None => Seq::empty(),
    }
}

pub(crate) fn items_at_exec<'a>(v: &'a JsonValue, path: &[&str]) -> (r: Option<&'a Vec<JsonValue>>)
    ensures
        match r {
            Some(a) => values_view(a@) == items_at(v@, path_view(path@)),
            None => items_at(v@, path_view(path@)) == Seq::<Json>::empty(),
        },
{
    match at(v, path) {
        Some(a) => as_array(a),
        None => None,
    }
}

/// The strings among some values, in order.
pub open spec fn strings_among(a: Seq<Json>) -> Seq<Seq<char>>
    decreases a.len(),
{
    if a.len() == 0 {
        Seq::empty()
    } else {
        match json_as_str(a.last()) {
            Some(s) => strings_among(a.drop_last()).push(s),
            None => strings_among(a.drop_last()),
        }
    }
}

pub fn strings_among_exec(a: &Vec<JsonValue>) -> (r: Vec<String>)
    ensures
        strings_view(r@) == strings_among(values_view(a@)),
{
    let ghost av = values_view(a@);
    let mut out: Vec<String> = Vec::new();
    let mut i: usize = 0;
    proof {
        assert(av.subrange(0, 0) =~= Seq::<Json>::empty());
        assert(strings_view(out@) =~= Seq::<Seq<char>>::empty());
    }
    while i < a.len()
        invariant
            i <= a.len(),
            av == values_view(a@),
            strings_view(out@) == strings_among(av.subrange(0, i as int)),
        decreases a.len() - i,
    {
        proof {
            assert(av.subrange(0, i + 1).drop_last() =~= av.subrange(0, i as int));
            assert(av.subrange(0, i + 1).last() == a@[i as int]@);
        }
        match as_str(&a[i]) {
            Some(s) => {
                let ghost before = out@;
                out.push(owned(s));
                proof {
                    assert(strings_view(out@) =~= strings_view(before).push(s@));
                }
            },
            None => {},
        }
        i = i + 1;
    }
    proof {
        assert(av.subrange(0, a@.len() as int) =~= av);
    }
    out
}

/// A choice whose value and label are the same text.
pub open spec fn plain_choice(s: Seq<char>) -> ChoiceView {
    ChoiceView { value: s, label: s, description: None }
}

/// Choices from the strings among some values.
pub open spec fn enum_choices_of(a: Seq<Json>) -> Seq<ChoiceView> {
    strings_among(a).map_values(|s: Seq<char>| plain_choice(s))
}

fn enum_choices(a: &Vec<JsonValue>) -> (r: Vec<AgentQuestionChoice>)
    ensures
        choices_view(r@) == enum_choices_of(values_view(a@)),
{
    let strs = strings_among_exec(a);
    let mut out: Vec<AgentQuestionChoice> = Vec::new();
    let mut i: usize = 0;
    while i < strs.len()
        invariant
            i <= strs.len(),
            choices_view(out@) =~= strings_view(strs@).subrange(0, i as int).map_values(
                |s: Seq<char>| plain_choice(s),
            ),
        decreases strs.len() - i,
    {
        let ghost before = out@;
        let s = strs[i].as_str();
        out.push(AgentQuestionChoice { value: owned(s), label: owned(s), description: None });
        proof {
            assert(strings_view(strs@)[i as int] == s@);
            assert(choices_view(out@) =~= choices_view(before).push(plain_choice(s@)));
        }
        i = i + 1;
    }
    proof {
        assert(strings_view(strs@).subrange(0, strs@.len() as int) =~= strings_view(strs@));
    }
    out
}

/// The choices of a tool question: each option with a label.
pub open spec fn option_choices_of(a: Seq<Json>) -> Seq<ChoiceView>
    decreases a.len(),
{
    if a.len() == 0 {
        Seq::empty()
    } else {
        match member_text(a.last(), "label"@) {
            Some(label) => option_choices_of(a.drop_last()).push(
                ChoiceView {
                    value: label,
                    label,
                    description: member_text(a.last(), "description"@),
                },
            ),
            None => option_choices_of(a.drop_last()),
        }
    }
}

fn option_choices(a: &Vec<JsonValue>) -> (r: Vec<AgentQuestionChoice>)
    ensures
        choices_view(r@) == option_choices_of(values_view(a@)),
{
    let ghost av = values_view(a@);
    let mut out: Vec<AgentQuestionChoice> = Vec::new();
    let mut i: usize = 0;
    proof {
        assert(av.subrange(0, 0) =~= Seq::<Json>::empty());
        assert(choices_view(out@) =~= Seq::<ChoiceView>::empty());
    }
    while i < a.len()
        invariant
            i <= a.len(),
            av == values_view(a@),
            choices_view(out@) == option_choices_of(av.subrange(0, i as int)),
        decreases a.len() - i,
    {
        proof {
            assert(av.subrange(0, i + 1).drop_last() =~= av.subrange(0, i as int));
            assert(av.subrange(0, i + 1).last() == a@[i as int]@);
        }
        let option = &a[i];
        match member_str(option, "label") {
            Some(label) => {
                let description = match member_str(option, "description") {
                    Some(d) => Some(owned(d)),
                    None => None,
                };
                let ghost before = out@;
                out.push(AgentQuestionChoice { value: owned(label), label: owned(label), description });
                proof {
                    assert(choices_view(out@) =~= choices_view(before).push(
                        ChoiceView {
                            value: label@,
                            label: label@,
                            description: member_text(option@, "description"@),
                        },
                    ));
                }
            },
            None => {},
        }
        i = i + 1;
    }
    proof {
        assert(av.subrange(0, a@.len() as int) =~= av);
    }
    out
}

/// The field of one tool question, when it has an id.
pub open spec fn tool_field_of(q: Json) -> Option<FieldView> {
    match member_text(q, "id"@) {
        Some(id) => {
            let choices = option_choices_of(items_at(q, seq!["options"@]));
            Some(FieldView {
                id,
                label: text_or(member_text(q, "header"@), id),
                prompt: member_text(q, "question"@),
                kind: if choices.len() == 0 {
                    "text"@
                } else {
                    "single_select"@
                },
                required: true,
                secret: member_bool(q, "isSecret"@) == Some(true),
                choices,
                default_answers: Seq::empty(),
                schema: None,
            })
        },
        None => None,
    }
}

/// The fields of a tool input request: one per question with an id.
pub open spec fn tool_fields_of(qs: Seq<Json>) -> Seq<FieldView>
    decreases qs.len(),
{
    if qs.len() == 0 {
        Seq::empty()
    } else {
        match tool_field_of(qs.last()) {
            Some(f) => tool_fields_of(qs.drop_last()).push(f),
            None => tool_fields_of(qs.drop_last()),
        }
    }
}

fn tool_field(q: &JsonValue) -> (r: Option<AgentQuestionField>)
    ensures
        match r {
            Some(f) => tool_field_of(q@) == Some(f@),
            None => tool_field_of(q@) is None,
        },
{
    let options_path: [&str; 1] = ["options"];
    proof {
        assert(path_view(options_path@) =~= seq!["options"@]);
    }
    let id = match member_str(q, "id") {
        Some(id) => id,
        None => return None,
    };
    let choices = match items_at_exec(q, &options_path) {
        Some(a) => option_choices(a),
        None => {
            let v = Vec::new();
            proof {
                assert(choices_view(v@) =~= Seq::<ChoiceView>::empty());
            }
            v
        },
    };
    let label = match member_str(q, "header") {
        Some(h) => owned(h),
        None => owned(id),
    };
    let prompt = match member_str(q, "question") {
        Some(p) => Some(owned(p)),
        None => None,
    };
    let secret = match member_bool_exec(q, "isSecret") {
        Some(x) => x,
        None => false,
    };
    let kind = if choices.len() == 0 {
        owned("text")
    } else {
        owned("single_select")
    };
    let defaults: Vec<String> = Vec::new();
    proof {
        assert(strings_view(defaults@) =~= Seq::<Seq<char>>::empty());
    }
    Some(AgentQuestionField {
        id: owned(id),
        label,
        prompt,
        kind,
        required: true,
        secret,
        choices,
        default_answers: defaults,
        schema: None,
    })
}

/// The fields of a tool input request (`params.questions`).
pub fn tool_user_input_fields(m: &JsonValue) -> (r: Vec<AgentQuestionField>)
    ensures
        fields_view(r@) == tool_fields_of(items_at(m@, seq!["params"@, "questions"@])),
{
    let path: [&str; 2] = ["params", "questions"];
    proof {
        assert(path_view(path@) =~= seq!["params"@, "questions"@]);
    }
    let mut out: Vec<AgentQuestionField> = Vec::new();
    proof {
        assert(fields_view(out@) =~= Seq::<FieldView>::empty());
    }
    match items_at_exec(m, &path) {
        Some(qs) => {
            let ghost qv = values_view(qs@);
            let mut i: usize = 0;
            proof {
                assert(qv.subrange(0, 0) =~= Seq::<Json>::empty());
            }
            while i < qs.len()
                invariant
                    i <= qs.len(),
                    qv == values_view(qs@),
                    fields_view(out@) == tool_fields_of(qv.subrange(0, i as int)),
                decreases qs.len() - i,
            {
                proof {
                    assert(qv.subrange(0, i + 1).drop_last() =~= qv.subrange(0, i as int));
                    assert(qv.subrange(0, i + 1).last() == qs@[i as int]@);
                }
                match tool_field(&qs[i]) {
                    Some(f) => {
                        let ghost before = out@;
                        let ghost fv = f@;
                        out.push(f);
                        proof {
                            assert(fields_view(out@) =~= fields_view(before).push(fv));
                        }
                    },
                    None => {},
                }
                i = i + 1;
            }
            proof {
                assert(qv.subrange(0, qs@.len() as int) =~= qv);
            }
        },
        None => {},
    }
    out
}

/// The choices of a `oneOf` list: each option with a `const` value, titled by its
/// `title` or its value.
pub open spec fn one_of_choices_of(a: Seq<Json>) -> Seq<ChoiceView>
    decreases a.len(),
{
    if a.len() == 0 {
        Seq::empty()
    } else {
        match member_text(a.last(), "const"@) {
            Some(value) => one_of_choices_of(a.drop_last()).push(
                ChoiceView {
                    value,
                    label: text_or(member_text(a.last(), "title"@), value),
                    description: None,
                },
            ),
            None => one_of_choices_of(a.drop_last()),
        }
    }
}

fn one_of_choices(a: &Vec<JsonValue>) -> (r: Vec<AgentQuestionChoice>)
    ensures
        choices_view(r@) == one_of_choices_of(values_view(a@)),
{
    let ghost av = values_view(a@);
    let mut out: Vec<AgentQuestionChoice> = Vec::new();
    let mut i: usize = 0;
    proof {
        assert(av.subrange(0, 0) =~= Seq::<Json>::empty());
        assert(choices_view(out@) =~= Seq::<ChoiceView>::empty());
    }
    while i < a.len()
        invariant
            i <= a.len(),
            av == values_view(a@),
            choices_view(out@) == one_of_choices_of(av.subrange(0, i as int)),
        decreases a.len() - i,
    {
        proof {
            assert(av.subrange(0, i + 1).drop_last() =~= av.subrange(0, i as int));
            assert(av.subrange(0, i + 1).last() == a@[i as int]@);
        }
        let option = &a[i];
        match member_str(option, "const") {
            Some(value) => {
                let label = match member_str(option, "title") {
                    Some(t) => owned(t),
                    None => owned(value),
                };
                let ghost before = out@;
                let ghost lv = label@;
                out.push(AgentQuestionChoice { value: owned(value), label, description: None });
                proof {
                    assert(choices_view(out@) =~= choices_view(before).push(
                        ChoiceView { value: value@, label: lv, description: None },
                    ));
                }
            },
            None => {},
        }
        i = i + 1;
    }
    proof {
        assert(av.subrange(0, a@.len() as int) =~= av);
    }
    out
}

/// The `oneOf` array of a schema, when it is an array.
pub open spec fn one_of_of(schema: Json) -> Option<Seq<Json>> {
    match json_get(schema, "oneOf"@) {
        Some(o) => json_as_array(o),
        None => None,
    }
}

/// The `enum` array of a schema, when it is an array.
pub open spec fn enum_of(schema: Json) -> Option<Seq<Json>> {
    match json_get(schema, "enum"@) {
        Some(o) => json_as_array(o),
        None => None,
    }
}

/// The kind of an MCP form field and its choices, from its JSON schema.
pub open spec fn field_kind_of(schema: Json) -> (Seq<char>, Seq<ChoiceView>) {
    if member_text(schema, "type"@) == Some("array"@) {
        ("multi_select"@, enum_choices_of(items_at(schema, seq!["items"@, "enum"@])))
    } else if one_of_of(schema) is Some {
        ("single_select"@, one_of_choices_of(one_of_of(schema).unwrap()))
    } else if enum_of(schema) is Some {
        ("single_select"@, enum_choices_of(enum_of(schema).unwrap()))
    } else if member_text(schema, "type"@) == Some("boolean"@) {
        ("boolean"@, Seq::empty())
    } else if member_text(schema, "type"@) == Some("number"@) || member_text(schema, "type"@) == Some(
        "integer"@,
    ) {
        ("number"@, Seq::empty())
    } else {
        ("text"@, Seq::empty())
    }
}

fn no_choices() -> (r: Vec<AgentQuestionChoice>)
    ensures
        choices_view(r@) == Seq::<ChoiceView>::empty(),
{
    let v = Vec::new();
    proof {
        assert(choices_view(v@) =~= Seq::<ChoiceView>::empty());
    }
    v
}

fn member_array<'a>(v: &'a JsonValue, key: &str) -> (r: Option<&'a Vec<JsonValue>>)
    ensures
        match r {
            Some(a) => json_get(v@, key@) matches Some(x) && json_as_array(x) == Some(values_view(a@)),
            None => match json_get(v@, key@) {
                Some(x) => json_as_array(x) is None,
                None => true,
            },
        },
{
    match get(v, key) {
        Some(x) => as_array(x),
        None => None,
    }
}

/// The kind of an MCP form field and its choices, from its JSON schema.
pub fn mcp_field_kind_and_choices(schema: &JsonValue) -> (r: (String, Vec<AgentQuestionChoice>))
    ensures
        (r.0@, choices_view(r.1@)) == field_kind_of(schema@),
{
    let ty = member_str(schema, "type");
    let is_type = |t: &str| -> (b: bool)
        ensures
            b == (opt_str(ty) == Some(t@)),
        {
            match ty {
                Some(x) => str_eq(x, t),
                None => false,
            }
        };
    if is_type("array") {
        let path: [&str; 2] = ["items", "enum"];
        proof {
            assert(path_view(path@) =~= seq!["items"@, "enum"@]);
        }
        let choices = match items_at_exec(schema, &path) {
            Some(a) => enum_choices(a),
            None => {
                let v = no_choices();
                proof {
                    assert(strings_among(Seq::<Json>::empty()) =~= Seq::<Seq<char>>::empty());
                    assert(enum_choices_of(Seq::<Json>::empty()) =~= Seq::<ChoiceView>::empty());
                }
                v
            },
        };
        return (owned("multi_select"), choices);
    }
    match member_array(schema, "oneOf") {
        Some(a) => {
            return (owned("single_select"), one_of_choices(a));
        },
        None => {},
    }
    match member_array(schema, "enum") {
        Some(a) => {
            return (owned("single_select"), enum_choices(a));
        },
        None => {},
    }
    if is_type("boolean") {
        (owned("boolean"), no_choices())
    } else if is_type("number") || is_type("integer") {
        (owned("number"), no_choices())
    } else {
        (owned("text"), no_choices())
    }
}

/// The default answers a schema declares.
pub open spec fn default_answers_of(schema: Json) -> Seq<Seq<char>> {
    match json_get(schema, "default"@) {
        Some(Json::Array(vs)) => strings_among(vs),
        Some(Json::Str(s)) => seq![s],
        Some(Json::Bool(b)) => seq![
            if b {
                "true"@
            } else {
                "false"@
            },
        ],
        Some(n) => if is_number(n) {
            seq![number_text(n)]
        } else {
            Seq::empty()
        },
        None => Seq::empty(),
    }
}

fn one_string(s: String) -> (r: Vec<String>)
    ensures
        strings_view(r@) == seq![s@],
{
    let mut v = Vec::new();
    v.push(s);
    proof {
        assert(strings_view(v@) =~= seq![s@]);
    }
    v
}

/// The default answers a schema declares.
pub fn default_answers(schema: &JsonValue) -> (r: Vec<String>)
    ensures
        strings_view(r@) == default_answers_of(schema@),
{
    match get(schema, "default") {
        Some(d) => match d {
            JsonValue::Array(vs) => {
                let r = strings_among_exec(vs);
                proof {
                    assert(values_view(vs@) =~= match d@ {
                        Json::Array(x) => x,
                        _ => Seq::empty(),
                    });
                }
                r
            },
            JsonValue::Str(s) => one_string(s.clone()),
            JsonValue::Bool(b) => one_string(owned(if *b { "true" } else { "false" })),
            JsonValue::Int(_) | JsonValue::UInt(_) | JsonValue::Float(_) => one_string(json_to_text(d)),
            _ => {
                let v = Vec::new();
                proof {
                    assert(strings_view(v@) =~= Seq::<Seq<char>>::empty());
                }
                v
            },
        },
        None => {
            let v = Vec::new();
            proof {
                assert(strings_view(v@) =~= Seq::<Seq<char>>::empty());
            }
            v
        },
    }
}

/// The field for one MCP form property.
pub open spec fn mcp_field_of(id: Seq<char>, schema: Json, required: Seq<Seq<char>>) -> FieldView {
    FieldView {
        id,
        label: text_or(member_text(schema, "title"@), id),
        prompt: member_text(schema, "description"@),
        kind: field_kind_of(schema).0,
        required: required.contains(id),
        secret: false,
        choices: field_kind_of(schema).1,
        default_answers: default_answers_of(schema),
        schema: None,
    }
}

/// The properties of an MCP form schema.
pub open spec fn properties_of(params: Json) -> Seq<(Seq<char>, Json)> {
    match json_path(params, seq!["requestedSchema"@, "properties"@]) {
        Some(p) => match crate::json::json_as_object(p) {
            Some(e) => e,
            None => Seq::empty(),
        },
        None => Seq::empty(),
    }
}

/// The fields of an MCP elicitation form: one per schema property, in order.
pub open spec fn mcp_fields_of(params: Json) -> Seq<FieldView> {
    let required = strings_among(items_at(params, seq!["requestedSchema"@, "required"@]));
    properties_of(params).map_values(|e: (Seq<char>, Json)| mcp_field_of(e.0, e.1, required))
}

fn contains_string(v: &Vec<String>, s: &str) -> (r: bool)
    ensures
        r == strings_view(v@).contains(s@),
{
    let mut i: usize = 0;
    while i < v.len()
        invariant
            i <= v.len(),
            forall|j: int| 0 <= j < i ==> strings_view(v@)[j] != s@,
        decreases v.len() - i,
    {
        if str_eq(v[i].as_str(), s) {
            proof {
                assert(strings_view(v@)[i as int] == s@);
            }
            return true;
        }
        i = i + 1;
    }
    false
}

/// The fields of an MCP elicitation form.
pub fn mcp_elicitation_fields(params: &JsonValue) -> (r: Vec<AgentQuestionField>)
    ensures
        fields_view(r@) == mcp_fields_of(params@),
{
    let req_path: [&str; 2] = ["requestedSchema", "required"];
    let prop_path: [&str; 2] = ["requestedSchema", "properties"];
    proof {
        assert(path_view(req_path@) =~= seq!["requestedSchema"@, "required"@]);
        assert(path_view(prop_path@) =~= seq!["requestedSchema"@, "properties"@]);
    }
    let required = match items_at_exec(params, &req_path) {
        Some(a) => strings_among_exec(a),
        None => {
            let v = Vec::new();
            proof {
                assert(strings_view(v@) =~= Seq::<Seq<char>>::empty());
                assert(strings_among(Seq::<Json>::empty()) =~= Seq::<Seq<char>>::empty());
            }
            v
        },
    };
    let ghost rv = strings_view(required@);
    let props = match at(params, &prop_path) {
        Some(p) => crate::json::as_object(p),
        None => None,
    };
    let mut out: Vec<AgentQuestionField> = Vec::new();
    match props {
        Some(entries) => {
            let ghost ev = crate::json::entries_view(entries@);
            let mut i: usize = 0;
            while i < entries.len()
                invariant
                    i <= entries.len(),
                    ev == crate::json::entries_view(entries@),
                    rv == strings_view(required@),
                    fields_view(out@) =~= ev.subrange(0, i as int).map_values(
                        |e: (Seq<char>, Json)| mcp_field_of(e.0, e.1, rv),
                    ),
                decreases entries.len() - i,
            {
                let id = entries[i].0.as_str();
                let schema = &entries[i].1;
                let (kind, choices) = mcp_field_kind_and_choices(schema);
                let label = match member_str(schema, "title") {
                    Some(t) => owned(t),
                    None => owned(id),
                };
                let prompt = match member_str(schema, "description") {
                    Some(d) => Some(owned(d)),
                    None => None,
                };
                let field = AgentQuestionField {
                    id: owned(id),
                    label,
                    prompt,
                    kind,
                    required: contains_string(&required, id),
                    secret: false,
                    choices,
                    default_answers: default_answers(schema),
                    schema: None,
                };
                let ghost before = out@;
                proof {
                    assert(ev[i as int] == (id@, schema@));
                    assert(field@ == mcp_field_of(id@, schema@, rv));
                }
                out.push(field);
                proof {
                    assert(fields_view(out@) =~= fields_view(before).push(mcp_field_of(id@, schema@, rv)));
                }
                i = i + 1;
            }
            proof {
                assert(ev.subrange(0, entries@.len() as int) =~= ev);
            }
        },
        None => {
            proof {
                assert(fields_view(out@) =~= Seq::<FieldView>::empty());
            }
        },
    }
    out
}

/// Which kind of question a request is, by its method.
pub open spec fn question_kind_of(m: Json) -> Option<CodexQuestionKind> {
    match jsonrpc_method_spec(m) {
        Some(method) => if method == "item/tool/requestUserInput"@ {
            Some(CodexQuestionKind::ToolUserInput)
        } else if method == "mcpServer/elicitation/request"@ {
            Some(CodexQuestionKind::McpElicitation)
        } else {
            None
        },
        None => None,
    }
}

/// Which kind of question a request is, by its method.
pub fn codex_question_kind(m: &JsonValue) -> (r: Option<CodexQuestionKind>)
    ensures
        r == question_kind_of(m@),
{
    match jsonrpc_method(m) {
        Some(method) => if str_eq(method, "item/tool/requestUserInput") {
            Some(CodexQuestionKind::ToolUserInput)
        } else if str_eq(method, "mcpServer/elicitation/request") {
            Some(CodexQuestionKind::McpElicitation)
        } else {
            None
        },
        None => None,
    }
}

/// `params`, or `null` when there is none.
pub open spec fn params_of(m: Json) -> Json {
    match json_get(m, "params"@) {
        Some(p) => p,
        None => Json::Null,
    }
}

/// The question event of a tool-input or MCP-elicitation request with an id, under
/// the id `question_id` the runner gives it, together with Codex's request id.
pub open spec fn question_request_of(sid: SessionId, m: Json, question_id: u128) -> Option<(Json, EventView)> {
    match (jsonrpc_method_spec(m), json_get(m, "id"@)) {
        (Some(method), Some(id)) => if method == "item/tool/requestUserInput"@ {
            Some(
                (
                    id,
                    EventView::QuestionRequested {
                        session_id: sid,
                        question_id,
                        title: "Codex needs input"@,
                        description: None,
                        fields: tool_fields_of(items_at(m, seq!["params"@, "questions"@])),
                        provider_payload: Some(m),
                    },
                ),
            )
        } else if method == "mcpServer/elicitation/request"@ {
            let params = params_of(m);
            Some(
                (
                    id,
                    EventView::QuestionRequested {
                        session_id: sid,
                        question_id,
                        title: text_or(member_text(params, "serverName"@), "MCP input"@),
                        description: member_text(params, "message"@),
                        fields: mcp_fields_of(params),
                        provider_payload: Some(m),
                    },
                ),
            )
        } else {
            None
        },
        _ => None,
    }
}

/// The question event of a request Codex sent, with Codex's request id; `question_id`
/// is the id the runner gives the question.
pub fn normalize_codex_question_request(sid: SessionId, m: &JsonValue, question_id: u128) -> (r: Option<
    (u128, JsonValue, NormalizedEvent),
>)
    ensures
        match r {
            Some((qid, id, event)) => qid == question_id && question_request_of(sid, m@, question_id) == Some(
                (id@, event@),
            ),
            None => question_request_of(sid, m@, question_id) is None,
        },
{
    let method = match jsonrpc_method(m) {
        Some(method) => method,
        None => return None,
    };
    let id = match get(m, "id") {
        Some(id) => json_clone(id),
        None => return None,
    };
    if str_eq(method, "item/tool/requestUserInput") {
        let event = NormalizedEvent::QuestionRequested(QuestionRequestedEvent {
            session_id: sid,
            question_id,
            title: owned("Codex needs input"),
            description: None,
            fields: tool_user_input_fields(m),
            provider_payload: Some(json_clone(m)),
        });
        Some((question_id, id, event))
    } else if str_eq(method, "mcpServer/elicitation/request") {
        let null = JsonValue::Null;
        let params = match get(m, "params") {
            Some(p) => p,
            None => &null,
        };
        let title = match member_str(params, "serverName") {
            Some(t) => owned(t),
            None => owned("MCP input"),
        };
        let description = match member_str(params, "message") {
            Some(d) => Some(owned(d)),
            None => None,
        };
        let event = NormalizedEvent::QuestionRequested(QuestionRequestedEvent {
            session_id: sid,
            question_id,
            title,
            description,
            fields: mcp_elicitation_fields(params),
            provider_payload: Some(json_clone(m)),
        });
        Some((question_id, id, event))
    } else {
        None
    }
}

/// A user's answer to a question: the answers per field id.
#[derive(Debug, PartialEq)]
pub struct AgentQuestionAnswer {
    pub question_id: u128,
    pub answers: Vec<(String, Vec<String>)>,
}

pub open spec fn answers_view(a: Seq<(String, Vec<String>)>) -> Seq<(Seq<char>, Seq<Seq<char>>)> {
    a.map_values(|e: (String, Vec<String>)| (e.0@, strings_view(e.1@)))
}

/// A list of strings as a JSON array.
pub open spec fn string_array(v: Seq<Seq<char>>) -> Json {
    Json::Array(v.map_values(|s: Seq<char>| Json::Str(s)))
}

/// The reply to a question, in the shape its kind expects.
pub open spec fn question_response_of(kind: CodexQuestionKind, answers: Seq<(Seq<char>, Seq<Seq<char>>)>) -> Json {
    match kind {
        CodexQuestionKind::ToolUserInput => Json::Object(
            seq![
                (
                    "answers"@,
                    Json::Object(
                        answers.map_values(
                            |e: (Seq<char>, Seq<Seq<char>>)|
                                (e.0, Json::Object(seq![("answers"@, string_array(e.1))])),
                        ),
                    ),
                ),
            ],
        ),
        CodexQuestionKind::McpElicitation => Json::Object(
            seq![
                ("_meta"@, Json::Null),
                ("action"@, Json::Str("accept"@)),
                (
                    "content"@,
                    Json::Object(
                        answers.map_values(
                            |e: (Seq<char>, Seq<Seq<char>>)|
                                (
                                    e.0,
                                    if e.1.len() == 1 {
                                        Json::Str(e.1[0])
                                    } else {
                                        string_array(e.1)
                                    },
                                ),
                        ),
                    ),
                ),
            ],
        ),
    }
}

fn string_array_exec(v: &Vec<String>) -> (r: JsonValue)
    ensures
        r@ == string_array(strings_view(v@)),
{
    let mut items: Vec<JsonValue> = Vec::new();
    let mut i: usize = 0;
    while i < v.len()
        invariant
            i <= v.len(),
            values_view(items@) =~= strings_view(v@).subrange(0, i as int).map_values(
                |s: Seq<char>| Json::Str(s),
            ),
        decreases v.len() - i,
    {
        let ghost before = items@;
        items.push(jstr(v[i].as_str()));
        proof {
            assert(values_view(items@) =~= values_view(before).push(Json::Str(v@[i as int]@)));
        }
        i = i + 1;
    }
    let r = JsonValue::Array(items);
    proof {
        assert(strings_view(v@).subrange(0, v@.len() as int) =~= strings_view(v@));
        match r@ {
            Json::Array(x) => {
                assert(x =~= values_view(items@));
            },
            _ => {},
        }
    }
    r
}

/// The reply to a question, in the shape its kind expects.
pub fn question_response_for_answer(kind: CodexQuestionKind, answer: &AgentQuestionAnswer) -> (r: JsonValue)
    ensures
        r@ == question_response_of(kind, answers_view(answer.answers@)),
{
    let ghost av = answers_view(answer.answers@);
    let mut entries: Vec<(String, JsonValue)> = Vec::new();
    let mut i: usize = 0;
    while i < answer.answers.len()
        invariant
            i <= answer.answers.len(),
            av == answers_view(answer.answers@),
            crate::json::entries_view(entries@) =~= av.subrange(0, i as int).map_values(
                |e: (Seq<char>, Seq<Seq<char>>)|
                    (
                        e.0,
                        match kind {
                            CodexQuestionKind::ToolUserInput => Json::Object(
                                seq![("answers"@, string_array(e.1))],
                            ),
                            CodexQuestionKind::McpElicitation => if e.1.len() == 1 {
                                Json::Str(e.1[0])
                            } else {
                                string_array(e.1)
                            },
                        },
                    ),
            ),
        decreases answer.answers.len() - i,
    {
        let id = answer.answers[i].0.as_str();
        let values = &answer.answers[i].1;
        let value = match kind {
            CodexQuestionKind::ToolUserInput => obj1("answers", string_array_exec(values)),
            CodexQuestionKind::McpElicitation => if values.len() == 1 {
                jstr(values[0].as_str())
            } else {
                string_array_exec(values)
            },
        };
        let ghost before = entries@;
        let ghost vv = value@;
        entries.push((owned(id), value));
        proof {
            assert(av[i as int] == (id@, strings_view(values@)));
            assert(crate::json::entries_view(entries@) =~= crate::json::entries_view(before).push((id@, vv)));
        }
        i = i + 1;
    }
    proof {
        assert(av.subrange(0, answer.answers@.len() as int) =~= av);
        crate::json::lemma_object_view(entries);
    }
    let inner = JsonValue::Object(entries);
    proof {
        match kind {
            CodexQuestionKind::ToolUserInput => {
                assert(crate::json::entries_view(entries@) =~= av.map_values(
                    |e: (Seq<char>, Seq<Seq<char>>)|
                        (e.0, Json::Object(seq![("answers"@, string_array(e.1))])),
                ));
            },
            CodexQuestionKind::McpElicitation => {
                assert(crate::json::entries_view(entries@) =~= av.map_values(
                    |e: (Seq<char>, Seq<Seq<char>>)|
                        (
                            e.0,
                            if e.1.len() == 1 {
                                Json::Str(e.1[0])
                            } else {
                                string_array(e.1)
                            },
                        ),
                ));
            },
        }
    }
    match kind {
        CodexQuestionKind::ToolUserInput => obj1("answers", inner),
        CodexQuestionKind::McpElicitation => obj3("_meta", JsonValue::Null, "action", jstr("accept"), "content", inner),
    }
}


/// The response to a question request, answering it with the user's answers.
pub fn question_response_message(native_request_id: JsonValue, kind: CodexQuestionKind, answer: &AgentQuestionAnswer) -> (r:
    JsonValue)
    ensures
        r@ == crate::codex_approvals::response_envelope(
            native_request_id@,
            question_response_of(kind, answers_view(answer.answers@)),
        ),
{
    crate::json::obj2("id", native_request_id, "result", question_response_for_answer(kind, answer))
}

} // verus!
