//! Batch Response Decoder: reads one complete JSON body into an
//! `ApiResponse`, holding it to the response schema, and extracts the text of
//! the first choice.

use crate::errors::ApiError;
use crate::json::{
    json_of, parse_json, value_as_array, value_as_str, value_as_u64, value_get, value_is_null,
    json_error_text, JsonSpec,
};
use crate::json::value_model;
use crate::messages::{Message, MsgModel};
use vstd::prelude::*;

verus! {

/// Token accounting of one exchange; informational only.
#[derive(Debug, Clone, Copy, PartialEq, Eq, Structural)]
pub struct Usage {
    pub prompt_tokens: u64,
    pub completion_tokens: u64,
    pub total_tokens: u64,
}

/// One generated alternative of a completion response.
#[derive(Debug)]
pub struct Choice {
    pub index: u64,
    pub message: Message,
    pub finish_reason: Option<String>,
}

pub struct ChoiceModel {
    pub index: u64,
    pub message: MsgModel,
    pub finish_reason: Option<Seq<char>>,
}

impl View for Choice {
    type V = ChoiceModel;

    open spec fn view(&self) -> ChoiceModel {
        ChoiceModel {
            index: self.index,
            message: self.message@,
            finish_reason: self.finish_reason.deep_view(),
        }
    }
}

/// One complete (non-streaming) completion response.
#[derive(Debug)]
pub struct ApiResponse {
    pub id: String,
    pub model: String,
    pub object: String,
    pub created: u64,
    pub choices: Vec<Choice>,
    pub system_fingerprint: Option<String>,
    pub usage: Usage,
}

pub struct RespModel {
    pub id: Seq<char>,
    pub model: Seq<char>,
    pub object: Seq<char>,
    pub created: u64,
    pub choices: Seq<ChoiceModel>,
    pub system_fingerprint: Option<Seq<char>>,
    pub usage: Usage,
}

impl View for ApiResponse {
    type V = RespModel;

    open spec fn view(&self) -> RespModel {
        RespModel {
            id: self.id@,
            model: self.model@,
            object: self.object@,
            created: self.created,
            choices: self.choices@.map_values(|c: Choice| c@),
            system_fingerprint: self.system_fingerprint.deep_view(),
            usage: self.usage,
        }
    }
}

/// A required field of an object, by key.
pub open spec fn obj_field(m: Map<Seq<char>, JsonSpec>, k: Seq<char>) -> Option<JsonSpec> {
    if m.contains_key(k) {
        Some(m[k])
    } else {
        None
    }
}

/// A required text field: present and a string, or nothing.
pub open spec fn text_field(m: Map<Seq<char>, JsonSpec>, k: Seq<char>) -> Option<Seq<char>> {
    match obj_field(m, k) {
        Some(JsonSpec::Text(s)) => Some(s),
        _ => None,
    }
}

/// A required unsigned-integer field.
pub open spec fn uint_field(m: Map<Seq<char>, JsonSpec>, k: Seq<char>) -> Option<u64> {
    match obj_field(m, k) {
        Some(JsonSpec::UInt(n)) => Some(n),
        _ => None,
    }
}

/// An optional text field: absent or null is an accepted absence, a string is
/// its text, and any other value is a schema mismatch.
pub open spec fn opt_text_field(m: Map<Seq<char>, JsonSpec>, k: Seq<char>) -> Option<
    Option<Seq<char>>,
> {
    match obj_field(m, k) {
        None => Some(None),
        Some(JsonSpec::Null) => Some(None),
        Some(JsonSpec::Text(s)) => Some(Some(s)),
        Some(_) => None,
    }
}

/// The message schema: an object with text fields `role` and `content`.
pub open spec fn message_of_json(j: JsonSpec) -> Option<MsgModel> {
    match j {
        JsonSpec::Obj(m) => match (text_field(m, "role"@), text_field(m, "content"@)) {
            (Some(r), Some(c)) => Some(MsgModel { role: r, content: c }),
            _ => None,
        },
        _ => None,
    }
}

/// The choice schema: an object with an `index`, a `message`, and an optional
/// `finish_reason`.
pub open spec fn choice_of_json(j: JsonSpec) -> Option<ChoiceModel> {
    match j {
        JsonSpec::Obj(m) => match (
            uint_field(m, "index"@),
            obj_field(m, "message"@),
            opt_text_field(m, "finish_reason"@),
        ) {
            (Some(ix), Some(mj), Some(fr)) => match message_of_json(mj) {
                Some(msg) => Some(ChoiceModel { index: ix, message: msg, finish_reason: fr }),
                None => None,
            },
            _ => None,
        },
        _ => None,
    }
}

/// Every element must match the choice schema, in order.
pub open spec fn choices_of_json(elems: Seq<JsonSpec>) -> Option<Seq<ChoiceModel>>
    decreases elems.len(),
{
    if elems.len() == 0 {
        Some(Seq::<ChoiceModel>::empty())
    } else {
        match (choices_of_json(elems.drop_last()), choice_of_json(elems.last())) {
            (Some(pre), Some(c)) => Some(pre.push(c)),
            _ => None,
        }
    }
}

/// The usage schema: three unsigned-integer token counts.
pub open spec fn usage_of_json(j: JsonSpec) -> Option<Usage> {
    match j {
        JsonSpec::Obj(m) => match (
            uint_field(m, "prompt_tokens"@),
            uint_field(m, "completion_tokens"@),
            uint_field(m, "total_tokens"@),
        ) {
            (Some(p), Some(c), Some(t)) => Some(
                Usage { prompt_tokens: p, completion_tokens: c, total_tokens: t },
            ),
            _ => None,
        },
        _ => None,
    }
}

/// The full response schema. Unknown fields are ignored; a missing or
/// ill-typed required field is a mismatch.
pub open spec fn response_of_json(j: JsonSpec) -> Option<RespModel> {
    match j {
        JsonSpec::Obj(m) => match (
            text_field(m, "id"@),
            text_field(m, "model"@),
            text_field(m, "object"@),
            uint_field(m, "created"@),
        ) {
            (Some(id), Some(model), Some(object), Some(created)) => match (
                obj_field(m, "choices"@),
                obj_field(m, "usage"@),
                opt_text_field(m, "system_fingerprint"@),
            ) {
                (Some(JsonSpec::Arr(cs)), Some(uj), Some(fp)) => match (
                    choices_of_json(cs),
                    usage_of_json(uj),
                ) {
                    (Some(choices), Some(usage)) => Some(
                        RespModel {
                            id,
                            model,
                            object,
                            created,
                            choices,
                            system_fingerprint: fp,
                            usage,
                        },
                    ),
                    _ => None,
                },
                _ => None,
            },
            _ => None,
        },
        _ => None,
    }
}

fn get_text(v: &serde_json::Value, key: &str) -> (r: Option<String>)
    ensures
        value_model(*v) is Obj ==> (match text_field(value_model(*v)->Obj_0, key@) {
            Some(s) => r is Some && r->Some_0@ == s,
            None => r is None,
        }),
        !(value_model(*v) is Obj) ==> r is None,
{
    match value_get(v, key) {
        Some(f) => match value_as_str(f) {
            Some(s) => Some(String::from_str(s)),
            None => None,
        },
        None => None,
    }
}

fn get_u64(v: &serde_json::Value, key: &str) -> (r: Option<u64>)
    ensures
        value_model(*v) is Obj ==> r == uint_field(value_model(*v)->Obj_0, key@),
        !(value_model(*v) is Obj) ==> r is None,
{
    match value_get(v, key) {
        Some(f) => value_as_u64(f),
        None => None,
    }
}

fn get_opt_text(v: &serde_json::Value, key: &str) -> (r: Result<Option<String>, ()>)
    ensures
        value_model(*v) is Obj ==> (match opt_text_field(value_model(*v)->Obj_0, key@) {
            Some(o) => r is Ok && r->Ok_0.deep_view() == o,
            None => r is Err,
        }),
        !(value_model(*v) is Obj) ==> r == Ok::<Option<String>, ()>(None),
{
    match value_get(v, key) {
        None => Ok(None),
        Some(f) => {
            if value_is_null(f) {
                Ok(None)
            } else {
                match value_as_str(f) {
                    Some(s) => Ok(Some(String::from_str(s))),
                    None => Err(()),
                }
            }
        },
    }
}

fn get_message(v: &serde_json::Value) -> (r: Option<Message>)
    ensures
        match message_of_json(value_model(*v)) {
            Some(msg) => r is Some && r->Some_0@ == msg,
            None => r is None,
        },
{
    let role = match get_text(v, "role") {
        Some(s) => s,
        None => {
            return None;
        },
    };
    let content = match get_text(v, "content") {
        Some(s) => s,
        None => {
            return None;
        },
    };
    Some(Message { role, content })
}

fn get_choice(v: &serde_json::Value) -> (r: Option<Choice>)
    ensures
        match choice_of_json(value_model(*v)) {
            Some(c) => r is Some && r->Some_0@ == c,
            None => r is None,
        },
{
    let index = match get_u64(v, "index") {
        Some(n) => n,
        None => {
            return None;
        },
    };
    let message = match value_get(v, "message") {
        Some(mv) => match get_message(mv) {
            Some(m) => m,
            None => {
                return None;
            },
        },
        None => {
            return None;
        },
    };
    let finish_reason = match get_opt_text(v, "finish_reason") {
        Ok(o) => o,
        Err(()) => {
            return None;
        },
    };
    Some(Choice { index, message, finish_reason })
}

proof fn lemma_choices_elem_none(s: Seq<JsonSpec>, i: int)
    requires
        0 <= i < s.len(),
        choice_of_json(s[i]) is None,
    ensures
        choices_of_json(s) is None,
    decreases s.len(),
{
    if i < s.len() - 1 {
        assert(s.drop_last()[i] == s[i]);
        lemma_choices_elem_none(s.drop_last(), i);
    }
}

fn get_choices(vec: &Vec<serde_json::Value>) -> (r: Option<Vec<Choice>>)
    ensures
        ({
            let models = vec@.map_values(|e: serde_json::Value| value_model(e));
            match choices_of_json(models) {
                Some(cs) => r is Some && r->Some_0@.map_values(|c: Choice| c@) == cs,
                None => r is None,
            }
        }),
{
    let ghost models = vec@.map_values(|e: serde_json::Value| value_model(e));
    let mut out: Vec<Choice> = Vec::new();
    let mut i: usize = 0;
    while i < vec.len()
        invariant
            i <= vec.len(),
            models == vec@.map_values(|e: serde_json::Value| value_model(e)),
            choices_of_json(models.take(i as int)) == Some(
                out@.map_values(|c: Choice| c@),
            ),
        decreases vec.len() - i,
    {
        let ghost pre = out@;
        match get_choice(&vec[i]) {
            Some(c) => {
                out.push(c);
            },
            None => {
                proof {
                    lemma_choices_elem_none(models, i as int);
                }
                return None;
            },
        }
        i += 1;
        proof {
            assert(models.take(i as int).drop_last() =~= models.take(i - 1));
            assert(models.take(i as int).last() == models[i - 1]);
            assert(out@.map_values(|c: Choice| c@) =~= pre.map_values(|c: Choice| c@).push(
                out@.last()@,
            ));
        }
    }
    proof {
        assert(models.take(vec@.len() as int) =~= models);
    }
    Some(out)
}

fn get_usage(v: &serde_json::Value) -> (r: Option<Usage>)
    ensures
        match usage_of_json(value_model(*v)) {
            Some(u) => r == Some(u),
            None => r is None,
        },
{
    let prompt_tokens = match get_u64(v, "prompt_tokens") {
        Some(n) => n,
        None => {
            return None;
        },
    };
    let completion_tokens = match get_u64(v, "completion_tokens") {
        Some(n) => n,
        None => {
            return None;
        },
    };
    let total_tokens = match get_u64(v, "total_tokens") {
        Some(n) => n,
        None => {
            return None;
        },
    };
    Some(Usage { prompt_tokens, completion_tokens, total_tokens })
}

fn schema_error() -> (r: ApiError)
    ensures
        r is ResponseParseFailed,
{
    ApiError::ResponseParseFailed(
        String::from_str("response body does not match the expected schema"),
    )
}

/// Decodes one complete response body. Succeeds exactly on well-formed JSON
/// matching the response schema; any other body is a parse failure.
pub fn decode_response(body: &str) -> (r: Result<ApiResponse, ApiError>)
    ensures
        r is Ok <==> (json_of(body@) is Some && response_of_json(json_of(body@)->Some_0)
            is Some),
        r is Ok ==> r->Ok_0@ == response_of_json(json_of(body@)->Some_0)->Some_0,
        r is Err ==> r->Err_0 is ResponseParseFailed,
{
    let v = match parse_json(body) {
        Ok(v) => v,
        Err(e) => {
            return Err(ApiError::ResponseParseFailed(json_error_text(&e)));
        },
    };
    let id = match get_text(&v, "id") {
        Some(s) => s,
        None => {
            return Err(schema_error());
        },
    };
    let model = match get_text(&v, "model") {
        Some(s) => s,
        None => {
            return Err(schema_error());
        },
    };
    let object = match get_text(&v, "object") {
        Some(s) => s,
        None => {
            return Err(schema_error());
        },
    };
    let created = match get_u64(&v, "created") {
        Some(n) => n,
        None => {
            return Err(schema_error());
        },
    };
    let choices = match value_get(&v, "choices") {
        Some(cv) => match value_as_array(cv) {
            Some(arr) => match get_choices(arr) {
                Some(cs) => cs,
                None => {
                    return Err(schema_error());
                },
            },
            None => {
                return Err(schema_error());
            },
        },
        None => {
            return Err(schema_error());
        },
    };
    let usage = match value_get(&v, "usage") {
        Some(uv) => match get_usage(uv) {
            Some(u) => u,
            None => {
                return Err(schema_error());
            },
        },
        None => {
            return Err(schema_error());
        },
    };
    let system_fingerprint = match get_opt_text(&v, "system_fingerprint") {
        Ok(o) => o,
        Err(()) => {
            return Err(schema_error());
        },
    };
    Ok(ApiResponse { id, model, object, created, choices, system_fingerprint, usage })
}

/// The text a response yields: the content of the first choice, or empty text
/// when the server returned no choice at all.
pub open spec fn content_of_response(r: RespModel) -> Seq<char> {
    if r.choices.len() > 0 {
        r.choices[0].message.content
    } else {
        Seq::<char>::empty()
    }
}

/// Extracts the text of the first choice; an absent choice yields empty text,
/// never an error.
pub fn extract_content(resp: &ApiResponse) -> (r: String)
    ensures
        r@ == content_of_response(resp@),
{
    if resp.choices.len() > 0 {
        resp.choices[0].message.content.clone()
    } else {
        String::new()
    }
}

/// Encoding of a message into the response schema, used to state the
/// round-trip law.
pub open spec fn message_to_json(m: MsgModel) -> JsonSpec {
    JsonSpec::Obj(
        map!["role"@ => JsonSpec::Text(m.role), "content"@ => JsonSpec::Text(m.content)],
    )
}

pub open spec fn choice_to_json(c: ChoiceModel) -> JsonSpec {
    let base = map![
        "index"@ => JsonSpec::UInt(c.index),
        "message"@ => message_to_json(c.message),
    ];
    match c.finish_reason {
        Some(s) => JsonSpec::Obj(base.insert("finish_reason"@, JsonSpec::Text(s))),
        None => JsonSpec::Obj(base),
    }
}

pub open spec fn usage_to_json(u: Usage) -> JsonSpec {
    JsonSpec::Obj(
        map![
            "prompt_tokens"@ => JsonSpec::UInt(u.prompt_tokens),
            "completion_tokens"@ => JsonSpec::UInt(u.completion_tokens),
            "total_tokens"@ => JsonSpec::UInt(u.total_tokens),
        ],
    )
}

pub open spec fn response_to_json(r: RespModel) -> JsonSpec {
    let base = map![
        "id"@ => JsonSpec::Text(r.id),
        "model"@ => JsonSpec::Text(r.model),
        "object"@ => JsonSpec::Text(r.object),
        "created"@ => JsonSpec::UInt(r.created),
        "choices"@ => JsonSpec::Arr(r.choices.map_values(|c: ChoiceModel| choice_to_json(c))),
        "usage"@ => usage_to_json(r.usage),
    ];
    match r.system_fingerprint {
        Some(s) => JsonSpec::Obj(base.insert("system_fingerprint"@, JsonSpec::Text(s))),
        None => JsonSpec::Obj(base),
    }
}

proof fn lemma_message_keys()
    ensures
        "role"@ != "content"@,
{
    reveal_strlit("role");
    reveal_strlit("content");
    assert("role"@.len() == 4);
    assert("content"@.len() == 7);
}

proof fn lemma_message_round_trip(m: MsgModel)
    ensures
        message_of_json(message_to_json(m)) == Some(m),
{
    lemma_message_keys();
}

proof fn lemma_choice_round_trip(c: ChoiceModel)
    ensures
        choice_of_json(choice_to_json(c)) == Some(c),
{
    reveal_strlit("index");
    reveal_strlit("message");
    reveal_strlit("finish_reason");
    assert("index"@.len() == 5);
    assert("message"@.len() == 7);
    assert("finish_reason"@.len() == 13);
    lemma_message_round_trip(c.message);
}

proof fn lemma_choices_round_trip(cs: Seq<ChoiceModel>)
    ensures
        choices_of_json(cs.map_values(|c: ChoiceModel| choice_to_json(c))) == Some(cs),
    decreases cs.len(),
{
    let mapped = cs.map_values(|c: ChoiceModel| choice_to_json(c));
    if cs.len() == 0 {
        assert(cs =~= Seq::<ChoiceModel>::empty());
    } else {
        lemma_choices_round_trip(cs.drop_last());
        lemma_choice_round_trip(cs.last());
        assert(mapped.drop_last() =~= cs.drop_last().map_values(
            |c: ChoiceModel| choice_to_json(c),
        ));
        assert(mapped.last() == choice_to_json(cs.last()));
        assert(cs.drop_last().push(cs.last()) =~= cs);
    }
}

proof fn lemma_usage_round_trip(u: Usage)
    ensures
        usage_of_json(usage_to_json(u)) == Some(u),
{
    reveal_strlit("prompt_tokens");
    reveal_strlit("completion_tokens");
    reveal_strlit("total_tokens");
    assert("prompt_tokens"@.len() == 13);
    assert("completion_tokens"@.len() == 17);
    assert("total_tokens"@.len() == 12);
}

/// Law: decoding the schema-level encoding of any response recovers that
/// response exactly; in particular the content placed in the first choice is
/// the content extracted after the round trip.
pub proof fn lemma_response_round_trip(r: RespModel)
    ensures
        response_of_json(response_to_json(r)) == Some(r),
{
    reveal_strlit("id");
    reveal_strlit("model");
    reveal_strlit("object");
    reveal_strlit("created");
    reveal_strlit("choices");
    reveal_strlit("usage");
    reveal_strlit("system_fingerprint");
    assert("id"@.len() == 2);
    assert("model"@.len() == 5);
    assert("object"@.len() == 6);
    assert("created"@.len() == 7);
    assert("choices"@.len() == 7);
    assert("usage"@.len() == 5);
    assert("system_fingerprint"@.len() == 18);
    assert(("created"@)[1] == 'r');
    assert(("choices"@)[1] == 'h');
    assert("created"@ != "choices"@);
    assert(("model"@)[0] == 'm');
    assert(("usage"@)[0] == 'u');
    assert("model"@ != "usage"@);
    lemma_choices_round_trip(r.choices);
    lemma_usage_round_trip(r.usage);
}

/// Law: after a round trip through the response schema, the text extracted
/// from the first choice is the text that was placed there.
pub proof fn lemma_round_trip_content(r: RespModel)
    requires
        r.choices.len() > 0,
    ensures
        response_of_json(response_to_json(r)) == Some(r),
        content_of_response(response_of_json(response_to_json(r))->Some_0) == r.choices[
            0
        ].message.content,
{
    lemma_response_round_trip(r);
}

} // verus!
