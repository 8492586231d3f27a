//! The completion response document, its decoding from JSON bytes, and the
//! streamed variant.
//!
//! The irregular part of the document is the per-token log-probability
//! detail: the service emits `top_logprobs` as an array of objects, and the
//! decoder flattens them into one mapping in array order, a later occurrence
//! of a key overwriting an earlier one.

use vstd::prelude::*;

use crate::error::{
    classify_failure, is_success_status, spec_is_client_error, spec_is_success, OpenAIError,
};
use crate::json::{
    elements_field, get_elements, get_int32, get_string, find_member, int32_field, json_elements,
    json_integer, json_is_null, json_members, json_number_text, json_of, json_string,
    member_lookup, parse_json, string_field, text_of_bytes, value_elements, value_integer,
    value_is_null, value_members, value_number_text, value_string,
};
use crate::stream::{drain, drain_buffer, drain_rest, StreamEvent};

verus! {

/// The response returned from a completion request.
#[derive(Debug, PartialEq)]
pub struct CompletionResponse {
    /// Request ID
    pub id: String,
    /// Response type
    pub object: String,
    /// Timestamp of when the completion was created
    pub created: i32,
    /// The model the response was created with
    pub model: String,
    /// The list of generated completions
    pub choices: Vec<CompletionChoice>,
    /// The tokens used by this response and associated request
    pub usage: CompletionUsage,
}

/// The tokens consumed by the completion.
#[derive(Debug, PartialEq, Eq, Clone, Copy)]
pub struct CompletionUsage {
    pub prompt_tokens: i32,
    pub completion_tokens: i32,
    pub total_tokens: i32,
}

/// A generated completion.
#[derive(Debug, PartialEq)]
pub struct CompletionChoice {
    pub text: String,
    pub index: i32,
    pub logprobs: Option<Logprobs>,
    pub finish_reason: String,
}

/// Per-token log-probability detail. Numeric values are carried as the
/// decimal text of the JSON numbers they came from.
#[derive(Debug, PartialEq)]
pub struct Logprobs {
    pub tokens: Vec<String>,
    pub token_logprobs: Vec<String>,
    /// The flattened mapping from candidate token to log-probability text;
    /// keys are unique, in order of first appearance.
    pub top_logprobs: Vec<(String, String)>,
    pub text_offset: Vec<i32>,
}

pub struct LogprobsV {
    pub tokens: Seq<String>,
    pub token_logprobs: Seq<String>,
    pub top_logprobs: Seq<(String, String)>,
    pub text_offset: Seq<i32>,
}

pub struct CompletionChoiceV {
    pub text: String,
    pub index: i32,
    pub logprobs: Option<LogprobsV>,
    pub finish_reason: String,
}

pub struct CompletionResponseV {
    pub id: String,
    pub object: String,
    pub created: i32,
    pub model: String,
    pub choices: Seq<CompletionChoiceV>,
    pub usage: CompletionUsage,
}

impl View for Logprobs {
    type V = LogprobsV;

    open spec fn view(&self) -> LogprobsV {
        LogprobsV {
            tokens: self.tokens@,
            token_logprobs: self.token_logprobs@,
            top_logprobs: self.top_logprobs@,
            text_offset: self.text_offset@,
        }
    }
}

impl View for CompletionChoice {
    type V = CompletionChoiceV;

    open spec fn view(&self) -> CompletionChoiceV {
        CompletionChoiceV {
            text: self.text,
            index: self.index,
            logprobs: match self.logprobs {
                None => None,
                Some(lp) => Some(lp@),
            },
            finish_reason: self.finish_reason,
        }
    }
}

impl View for CompletionResponse {
    type V = CompletionResponseV;

    open spec fn view(&self) -> CompletionResponseV {
        CompletionResponseV {
            id: self.id,
            object: self.object,
            created: self.created,
            model: self.model,
            choices: self.choices@.map_values(|c: CompletionChoice| c@),
            usage: self.usage,
        }
    }
}

// ---------------------------------------------------------------------------
// Flattening of the log-probability mapping
// ---------------------------------------------------------------------------
/// The position of the first entry with the given key, or -1.
pub open spec fn key_index(entries: Seq<(String, String)>, key: Seq<char>) -> int
    decreases entries.len(),
{
    if entries.len() == 0 {
        -1
    } else if entries[0].0@ == key {
        0
    } else {
        let r = key_index(entries.drop_first(), key);
        if r < 0 {
            -1
        } else {
            r + 1
        }
    }
}

/// The value the mapping associates with the key, if any.
pub open spec fn entry_value(entries: Seq<(String, String)>, key: Seq<char>) -> Option<String> {
    let i = key_index(entries, key);
    if i < 0 {
        None
    } else {
        Some(entries[i].1)
    }
}

/// Insert one key/value pair into the mapping: overwrite the entry holding
/// the key, or append a new one.
pub open spec fn upsert(entries: Seq<(String, String)>, key: String, value: String) -> Seq<
    (String, String),
> {
    let i = key_index(entries, key@);
    if i < 0 {
        entries.push((key, value))
    } else {
        entries.update(i, (key, value))
    }
}

/// Insert one object's entries into the mapping, in order.
pub open spec fn insert_group(entries: Seq<(String, String)>, group: Seq<(String, String)>) -> Seq<
    (String, String),
>
    decreases group.len(),
{
    if group.len() == 0 {
        entries
    } else {
        upsert(insert_group(entries, group.drop_last()), group.last().0, group.last().1)
    }
}

/// The value of the latest entry holding the key within one object's
/// entries, the order being the entries' own.
pub open spec fn group_value(group: Seq<(String, String)>, key: Seq<char>) -> Option<String>
    decreases group.len(),
{
    if group.len() == 0 {
        None
    } else if group.last().0@ == key {
        Some(group.last().1)
    } else {
        group_value(group.drop_last(), key)
    }
}

/// The key/value entries of one object of the `top_logprobs` array, each
/// value the decimal text of a JSON number; `None` when the element is not
/// such an object.
pub open spec fn number_entries_of_members(members: Seq<(String, serde_json::Value)>) -> Option<
    Seq<(String, String)>,
>
    decreases members.len(),
{
    if members.len() == 0 {
        Some(Seq::<(String, String)>::empty())
    } else {
        match json_number_text(members[0].1) {
            None => None,
            Some(t) => match number_entries_of_members(members.drop_first()) {
                None => None,
                Some(rest) => Some(seq![(members[0].0, t)] + rest),
            },
        }
    }
}

/// The entries of one element of the `top_logprobs` array.
pub open spec fn item_entries(v: serde_json::Value) -> Option<Seq<(String, String)>> {
    match json_members(v) {
        None => None,
        Some(ms) => number_entries_of_members(ms),
    }
}

/// Flatten the remaining array elements into the mapping accumulated so far.
pub open spec fn flatten_from(
    entries: Seq<(String, String)>,
    items: Seq<serde_json::Value>,
) -> Option<Seq<(String, String)>>
    decreases items.len(),
{
    if items.len() == 0 {
        Some(entries)
    } else {
        match item_entries(items[0]) {
            None => None,
            Some(g) => flatten_from(insert_group(entries, g), items.drop_first()),
        }
    }
}

/// The flattened mapping read from a `top_logprobs` value: an array of
/// objects of numbers, folded left to right, later keys overwriting earlier
/// ones.
pub open spec fn top_logprobs_of_json(v: serde_json::Value) -> Option<Seq<(String, String)>> {
    match json_elements(v) {
        None => None,
        Some(items) => flatten_from(Seq::<(String, String)>::empty(), items),
    }
}

/// The value of the latest occurrence of the key over the array elements:
/// the latest element holding the key decides, and within it the latest
/// entry.
pub open spec fn items_value(items: Seq<serde_json::Value>, key: Seq<char>) -> Option<String>
    decreases items.len(),
{
    if items.len() == 0 {
        None
    } else {
        let gv = match item_entries(items.last()) {
            None => None,
            Some(g) => group_value(g, key),
        };
        match gv {
            Some(v) => Some(v),
            None => items_value(items.drop_last(), key),
        }
    }
}

/// `key_index` looks only at the keys: two mappings with pointwise equal
/// keys index every key alike.
proof fn lemma_key_index_same_keys(a: Seq<(String, String)>, b: Seq<(String, String)>, key: Seq<char>)
    requires
        a.len() == b.len(),
        forall|t: int| 0 <= t < a.len() ==> (#[trigger] a[t]).0@ == b[t].0@,
    ensures
        key_index(a, key) == key_index(b, key),
    decreases a.len(),
{
    if a.len() > 0 {
        assert(a[0].0@ == b[0].0@);
        assert(forall|t: int|
            0 <= t < a.drop_first().len() ==> #[trigger] a.drop_first()[t] == a[t + 1]);
        assert(forall|t: int|
            0 <= t < b.drop_first().len() ==> #[trigger] b.drop_first()[t] == b[t + 1]);
        lemma_key_index_same_keys(a.drop_first(), b.drop_first(), key);
    }
}

/// Upserting a pair decides exactly that key's value and leaves every other
/// key's value alone.
proof fn lemma_entry_value_upsert(
    entries: Seq<(String, String)>,
    k: String,
    v: String,
    key: Seq<char>,
)
    ensures
        entry_value(upsert(entries, k, v), key) == (if k@ == key {
            Some(v)
        } else {
            entry_value(entries, key)
        }),
{
    lemma_key_index(entries, k@);
    lemma_key_index(entries, key);
    let i = key_index(entries, k@);
    let j = key_index(entries, key);
    let u = upsert(entries, k, v);
    lemma_key_index(u, key);
    let ju = key_index(u, key);
    if i < 0 {
        // appended at the end
        assert(u == entries.push((k, v)));
        assert(u[entries.len() as int] == (k, v));
        assert(forall|t: int| 0 <= t < entries.len() ==> #[trigger] u[t] == entries[t]);
        if k@ == key {
            assert(ju >= 0);
            assert(ju == entries.len());
        } else {
            if j >= 0 {
                assert(u[j].0@ == key);
                assert(ju == j) by {
                    if ju < j {
                        assert(entries[ju].0@ != key);
                    }
                    if ju > j || ju == -1 {
                        assert(u[j].0@ == key);
                    }
                }
            } else {
                assert(ju == -1) by {
                    if ju >= 0 {
                        assert(u[ju].0@ == key);
                        if ju < entries.len() {
                            assert(entries[ju].0@ == key);
                        }
                    }
                }
            }
        }
    } else {
        // overwritten in place; the keys are unchanged pointwise
        assert(entries[i].0@ == k@);
        assert(u == entries.update(i, (k, v)));
        assert(u.len() == entries.len());
        assert(forall|t: int| 0 <= t < entries.len() ==> (#[trigger] entries[t]).0@ == u[t].0@);
        lemma_key_index_same_keys(entries, u, key);
        assert(ju == j);
        if k@ == key {
            assert(j == i) by {
                if j < i {
                    assert(entries[j].0@ != k@);
                }
                if j > i || j == -1 {
                    assert(entries[i].0@ == key);
                }
            }
        } else {
            if j >= 0 {
                assert(entries[j].0@ == key);
                assert(j != i);
                assert(u[j] == entries[j]);
            }
        }
    }
}

/// Inserting a group decides the keys the group holds — each by its latest
/// entry — and leaves every other key's value alone.
proof fn lemma_entry_value_insert_group(
    entries: Seq<(String, String)>,
    group: Seq<(String, String)>,
    key: Seq<char>,
)
    ensures
        entry_value(insert_group(entries, group), key) == (match group_value(group, key) {
            Some(v) => Some(v),
            None => entry_value(entries, key),
        }),
    decreases group.len(),
{
    if group.len() > 0 {
        lemma_entry_value_insert_group(entries, group.drop_last(), key);
        lemma_entry_value_upsert(
            insert_group(entries, group.drop_last()),
            group.last().0,
            group.last().1,
            key,
        );
    }
}

/// Flattening can also be read from the right: fold the front elements,
/// then insert the last element's entries.
proof fn lemma_flatten_from_snoc(entries: Seq<(String, String)>, items: Seq<serde_json::Value>)
    requires
        items.len() > 0,
    ensures
        flatten_from(entries, items) == (match flatten_from(entries, items.drop_last()) {
            None => None::<Seq<(String, String)>>,
            Some(mid) => match item_entries(items.last()) {
                None => None::<Seq<(String, String)>>,
                Some(g) => Some(insert_group(mid, g)),
            },
        }),
    decreases items.len(),
{
    if items.len() == 1 {
        assert(items.drop_last() =~= Seq::<serde_json::Value>::empty());
        assert(items.drop_first() =~= Seq::<serde_json::Value>::empty());
        assert(items[0] == items.last());
    } else {
        assert(items.drop_last()[0] == items[0]);
        assert(items.drop_last().len() > 0);
        match item_entries(items[0]) {
            None => {
                assert(flatten_from(entries, items) is None);
                assert(flatten_from(entries, items.drop_last()) is None);
            },
            Some(g0) => {
                let mid = insert_group(entries, g0);
                assert(flatten_from(entries, items) == flatten_from(mid, items.drop_first()));
                assert(flatten_from(entries, items.drop_last()) == flatten_from(
                    mid,
                    items.drop_last().drop_first(),
                ));
                lemma_flatten_from_snoc(mid, items.drop_first());
                assert(items.drop_first().drop_last() =~= items.drop_last().drop_first());
                assert(items.drop_first().last() == items.last());
            },
        }
    }
}

proof fn lemma_flatten_from_value(
    entries: Seq<(String, String)>,
    items: Seq<serde_json::Value>,
    key: Seq<char>,
)
    requires
        flatten_from(entries, items) is Some,
    ensures
        entry_value(flatten_from(entries, items)->0, key) == (match items_value(items, key) {
            Some(v) => Some(v),
            None => entry_value(entries, key),
        }),
    decreases items.len(),
{
    if items.len() > 0 {
        lemma_flatten_from_snoc(entries, items);
        lemma_flatten_from_value(entries, items.drop_last(), key);
        lemma_entry_value_insert_group(
            flatten_from(entries, items.drop_last())->0,
            item_entries(items.last())->0,
            key,
        );
    }
}

/// The flattened log-probability mapping is last-write-wins: a key's value
/// is the value of its latest occurrence over the array — the latest
/// element holding the key decides, and within that element its latest
/// entry. A key that no element holds is absent from the mapping.
pub proof fn lemma_flatten_last_write_wins(items: Seq<serde_json::Value>, key: Seq<char>)
    requires
        flatten_from(Seq::<(String, String)>::empty(), items) is Some,
    ensures
        entry_value(flatten_from(Seq::<(String, String)>::empty(), items)->0, key) == items_value(
            items,
            key,
        ),
{
    lemma_flatten_from_value(Seq::<(String, String)>::empty(), items, key);
}

// ---------------------------------------------------------------------------
// Field-level decoding specifications
// ---------------------------------------------------------------------------
/// The strings of an array of JSON strings.
pub open spec fn strings_of_elements(items: Seq<serde_json::Value>) -> Option<Seq<String>>
    decreases items.len(),
{
    if items.len() == 0 {
        Some(Seq::<String>::empty())
    } else {
        match json_string(items[0]) {
            None => None,
            Some(s) => match strings_of_elements(items.drop_first()) {
                None => None,
                Some(rest) => Some(seq![s] + rest),
            },
        }
    }
}

/// The decimal texts of an array of JSON numbers.
pub open spec fn numbers_of_elements(items: Seq<serde_json::Value>) -> Option<Seq<String>>
    decreases items.len(),
{
    if items.len() == 0 {
        Some(Seq::<String>::empty())
    } else {
        match json_number_text(items[0]) {
            None => None,
            Some(t) => match numbers_of_elements(items.drop_first()) {
                None => None,
                Some(rest) => Some(seq![t] + rest),
            },
        }
    }
}

/// The values of an array of JSON integers that fit in `i32`.
pub open spec fn int32s_of_elements(items: Seq<serde_json::Value>) -> Option<Seq<i32>>
    decreases items.len(),
{
    if items.len() == 0 {
        Some(Seq::<i32>::empty())
    } else {
        match json_integer(items[0]) {
            None => None,
            Some(x) => if !(-2147483648 <= x <= 2147483647) {
                None
            } else {
                match int32s_of_elements(items.drop_first()) {
                    None => None,
                    Some(rest) => Some(seq![x as i32] + rest),
                }
            },
        }
    }
}

pub open spec fn strings_list_field(
    members: Seq<(String, serde_json::Value)>,
    key: Seq<char>,
) -> Option<Seq<String>> {
    match elements_field(members, key) {
        None => None,
        Some(items) => strings_of_elements(items),
    }
}

pub open spec fn numbers_list_field(
    members: Seq<(String, serde_json::Value)>,
    key: Seq<char>,
) -> Option<Seq<String>> {
    match elements_field(members, key) {
        None => None,
        Some(items) => numbers_of_elements(items),
    }
}

pub open spec fn int32s_list_field(
    members: Seq<(String, serde_json::Value)>,
    key: Seq<char>,
) -> Option<Seq<i32>> {
    match elements_field(members, key) {
        None => None,
        Some(items) => int32s_of_elements(items),
    }
}

pub open spec fn top_logprobs_field(members: Seq<(String, serde_json::Value)>) -> Option<
    Seq<(String, String)>,
> {
    match member_lookup(members, "top_logprobs"@) {
        None => None,
        Some(v) => top_logprobs_of_json(v),
    }
}

// ---------------------------------------------------------------------------
// Document-level decoding specifications
// ---------------------------------------------------------------------------
/// What decoding a `logprobs` object yields.
pub open spec fn logprobs_of_members(members: Seq<(String, serde_json::Value)>) -> Result<
    LogprobsV,
    Seq<char>,
> {
    if strings_list_field(members, "tokens"@) is None {
        Err("missing or invalid field: tokens"@)
    } else if numbers_list_field(members, "token_logprobs"@) is None {
        Err("missing or invalid field: token_logprobs"@)
    } else if top_logprobs_field(members) is None {
        Err("missing or invalid field: top_logprobs"@)
    } else if int32s_list_field(members, "text_offset"@) is None {
        Err("missing or invalid field: text_offset"@)
    } else {
        Ok(
            LogprobsV {
                tokens: strings_list_field(members, "tokens"@)->0,
                token_logprobs: numbers_list_field(members, "token_logprobs"@)->0,
                top_logprobs: top_logprobs_field(members)->0,
                text_offset: int32s_list_field(members, "text_offset"@)->0,
            },
        )
    }
}

pub open spec fn logprobs_of_json(v: serde_json::Value) -> Result<LogprobsV, Seq<char>> {
    match json_members(v) {
        None => Err("logprobs is not a JSON object"@),
        Some(ms) => logprobs_of_members(ms),
    }
}

/// What the optional `logprobs` member of a choice yields: absent or null is
/// no detail at all, anything else must decode.
pub open spec fn logprobs_field(members: Seq<(String, serde_json::Value)>) -> Result<
    Option<LogprobsV>,
    Seq<char>,
> {
    match member_lookup(members, "logprobs"@) {
        None => Ok(None),
        Some(v) => if json_is_null(v) {
            Ok(None)
        } else {
            match logprobs_of_json(v) {
                Err(m) => Err(m),
                Ok(lp) => Ok(Some(lp)),
            }
        },
    }
}

/// What decoding one element of `choices` yields.
pub open spec fn choice_of_json(v: serde_json::Value) -> Result<CompletionChoiceV, Seq<char>> {
    match json_members(v) {
        None => Err("choice is not a JSON object"@),
        Some(ms) => if string_field(ms, "text"@) is None {
            Err("missing or invalid field: text"@)
        } else if int32_field(ms, "index"@) is None {
            Err("missing or invalid field: index"@)
        } else if string_field(ms, "finish_reason"@) is None {
            Err("missing or invalid field: finish_reason"@)
        } else {
            match logprobs_field(ms) {
                Err(m) => Err(m),
                Ok(lp) => Ok(
                    CompletionChoiceV {
                        text: string_field(ms, "text"@)->0,
                        index: int32_field(ms, "index"@)->0,
                        logprobs: lp,
                        finish_reason: string_field(ms, "finish_reason"@)->0,
                    },
                ),
            }
        },
    }
}

/// What decoding the `choices` array yields: every element in order, or the
/// first element's fault.
pub open spec fn choices_of_elements(items: Seq<serde_json::Value>) -> Result<
    Seq<CompletionChoiceV>,
    Seq<char>,
>
    decreases items.len(),
{
    if items.len() == 0 {
        Ok(Seq::<CompletionChoiceV>::empty())
    } else {
        match choice_of_json(items[0]) {
            Err(m) => Err(m),
            Ok(c) => match choices_of_elements(items.drop_first()) {
                Err(m) => Err(m),
                Ok(rest) => Ok(seq![c] + rest),
            },
        }
    }
}

/// What decoding the `usage` object yields.
pub open spec fn usage_of_json(v: serde_json::Value) -> Result<CompletionUsage, Seq<char>> {
    match json_members(v) {
        None => Err("missing or invalid field: usage"@),
        Some(ms) => if int32_field(ms, "prompt_tokens"@) is None {
            Err("missing or invalid field: prompt_tokens"@)
        } else if int32_field(ms, "completion_tokens"@) is None {
            Err("missing or invalid field: completion_tokens"@)
        } else if int32_field(ms, "total_tokens"@) is None {
            Err("missing or invalid field: total_tokens"@)
        } else {
            Ok(
                CompletionUsage {
                    prompt_tokens: int32_field(ms, "prompt_tokens"@)->0,
                    completion_tokens: int32_field(ms, "completion_tokens"@)->0,
                    total_tokens: int32_field(ms, "total_tokens"@)->0,
                },
            )
        },
    }
}

/// What decoding the whole response document yields.
pub open spec fn completion_of_members(members: Seq<(String, serde_json::Value)>) -> Result<
    CompletionResponseV,
    Seq<char>,
> {
    if string_field(members, "id"@) is None {
        Err("missing or invalid field: id"@)
    } else if string_field(members, "object"@) is None {
        Err("missing or invalid field: object"@)
    } else if int32_field(members, "created"@) is None {
        Err("missing or invalid field: created"@)
    } else if string_field(members, "model"@) is None {
        Err("missing or invalid field: model"@)
    } else {
        match elements_field(members, "choices"@) {
            None => Err("missing or invalid field: choices"@),
            Some(items) => match choices_of_elements(items) {
                Err(m) => Err(m),
                Ok(choices) => match member_lookup(members, "usage"@) {
                    None => Err("missing or invalid field: usage"@),
                    Some(uv) => match usage_of_json(uv) {
                        Err(m) => Err(m),
                        Ok(usage) => Ok(
                            CompletionResponseV {
                                id: string_field(members, "id"@)->0,
                                object: string_field(members, "object"@)->0,
                                created: int32_field(members, "created"@)->0,
                                model: string_field(members, "model"@)->0,
                                choices,
                                usage,
                            },
                        ),
                    },
                },
            },
        }
    }
}

pub open spec fn completion_of_json(v: serde_json::Value) -> Result<CompletionResponseV, Seq<char>> {
    match json_members(v) {
        None => Err("response body is not a JSON object"@),
        Some(ms) => completion_of_members(ms),
    }
}

/// What decoding assembled body bytes yields: the parser's fault, the shape
/// fault, or the document.
pub open spec fn completion_body_outcome(bytes: Seq<u8>) -> Result<CompletionResponseV, Seq<char>> {
    match json_of(bytes) {
        Err(s) => Err(s@),
        Ok(v) => completion_of_json(v),
    }
}

// ---------------------------------------------------------------------------
// Executable decoding
// ---------------------------------------------------------------------------
fn decode_strings(items: &Vec<serde_json::Value>) -> (r: Option<Vec<String>>)
    ensures
        r matches Some(out) ==> strings_of_elements(items@) == Some(out@),
        r is None ==> strings_of_elements(items@) is None,
{
    let mut out: Vec<String> = Vec::new();
    let mut i: usize = 0;
    proof {
        assert(items@.skip(0) =~= items@);
    }
    while i < items.len()
        invariant
            0 <= i <= items@.len(),
            strings_of_elements(items@.skip(i as int)) matches Some(rest)
                ==> strings_of_elements(items@) == Some(out@ + rest),
            strings_of_elements(items@.skip(i as int)) is None ==> strings_of_elements(items@)
                is None,
        decreases items@.len() - i,
    {
        proof {
            assert(items@.skip(i as int).drop_first() =~= items@.skip(i as int + 1));
            assert(items@.skip(i as int)[0] == items@[i as int]);
        }
        match value_string(&items[i]) {
            None => {
                return None;
            },
            Some(s) => {
                out.push(s);
            },
        }
        i += 1;
        proof {
            if strings_of_elements(items@.skip(i as int)) is Some {
                let rest = strings_of_elements(items@.skip(i as int))->0;
                assert(out@ + rest =~= out@.drop_last() + (seq![out@.last()] + rest));
            }
        }
    }
    proof {
        assert(items@.skip(i as int) =~= Seq::<serde_json::Value>::empty());
        assert(out@ + Seq::<String>::empty() =~= out@);
    }
    Some(out)
}

fn decode_number_texts(items: &Vec<serde_json::Value>) -> (r: Option<Vec<String>>)
    ensures
        r matches Some(out) ==> numbers_of_elements(items@) == Some(out@),
        r is None ==> numbers_of_elements(items@) is None,
{
    let mut out: Vec<String> = Vec::new();
    let mut i: usize = 0;
    proof {
        assert(items@.skip(0) =~= items@);
    }
    while i < items.len()
        invariant
            0 <= i <= items@.len(),
            numbers_of_elements(items@.skip(i as int)) matches Some(rest)
                ==> numbers_of_elements(items@) == Some(out@ + rest),
            numbers_of_elements(items@.skip(i as int)) is None ==> numbers_of_elements(items@)
                is None,
        decreases items@.len() - i,
    {
        proof {
            assert(items@.skip(i as int).drop_first() =~= items@.skip(i as int + 1));
            assert(items@.skip(i as int)[0] == items@[i as int]);
        }
        match value_number_text(&items[i]) {
            None => {
                return None;
            },
            Some(t) => {
                out.push(t);
            },
        }
        i += 1;
        proof {
            if numbers_of_elements(items@.skip(i as int)) is Some {
                let rest = numbers_of_elements(items@.skip(i as int))->0;
                assert(out@ + rest =~= out@.drop_last() + (seq![out@.last()] + rest));
            }
        }
    }
    proof {
        assert(items@.skip(i as int) =~= Seq::<serde_json::Value>::empty());
        assert(out@ + Seq::<String>::empty() =~= out@);
    }
    Some(out)
}

fn decode_int32s(items: &Vec<serde_json::Value>) -> (r: Option<Vec<i32>>)
    ensures
        r matches Some(out) ==> int32s_of_elements(items@) == Some(out@),
        r is None ==> int32s_of_elements(items@) is None,
{
    let mut out: Vec<i32> = Vec::new();
    let mut i: usize = 0;
    proof {
        assert(items@.skip(0) =~= items@);
    }
    while i < items.len()
        invariant
            0 <= i <= items@.len(),
            int32s_of_elements(items@.skip(i as int)) matches Some(rest) ==> int32s_of_elements(
                items@,
            ) == Some(out@ + rest),
            int32s_of_elements(items@.skip(i as int)) is None ==> int32s_of_elements(items@)
                is None,
        decreases items@.len() - i,
    {
        proof {
            assert(items@.skip(i as int).drop_first() =~= items@.skip(i as int + 1));
            assert(items@.skip(i as int)[0] == items@[i as int]);
        }
        match value_integer(&items[i]) {
            None => {
                return None;
            },
            Some(x) => {
                if x < -2147483648i64 || x > 2147483647i64 {
                    return None;
                }
                out.push(x as i32);
            },
        }
        i += 1;
        proof {
            if int32s_of_elements(items@.skip(i as int)) is Some {
                let rest = int32s_of_elements(items@.skip(i as int))->0;
                assert(out@ + rest =~= out@.drop_last() + (seq![out@.last()] + rest));
            }
        }
    }
    proof {
        assert(items@.skip(i as int) =~= Seq::<serde_json::Value>::empty());
        assert(out@ + Seq::<i32>::empty() =~= out@);
    }
    Some(out)
}

fn decode_number_entries(members: &Vec<(String, serde_json::Value)>) -> (r: Option<
    Vec<(String, String)>,
>)
    ensures
        r matches Some(out) ==> number_entries_of_members(members@) == Some(out@),
        r is None ==> number_entries_of_members(members@) is None,
{
    let mut out: Vec<(String, String)> = Vec::new();
    let mut i: usize = 0;
    proof {
        assert(members@.skip(0) =~= members@);
    }
    while i < members.len()
        invariant
            0 <= i <= members@.len(),
            number_entries_of_members(members@.skip(i as int)) matches Some(rest)
                ==> number_entries_of_members(members@) == Some(out@ + rest),
            number_entries_of_members(members@.skip(i as int)) is None
                ==> number_entries_of_members(members@) is None,
        decreases members@.len() - i,
    {
        proof {
            assert(members@.skip(i as int).drop_first() =~= members@.skip(i as int + 1));
            assert(members@.skip(i as int)[0] == members@[i as int]);
        }
        match value_number_text(&members[i].1) {
            None => {
                return None;
            },
            Some(t) => {
                out.push((members[i].0.clone(), t));
            },
        }
        i += 1;
        proof {
            if number_entries_of_members(members@.skip(i as int)) is Some {
                let rest = number_entries_of_members(members@.skip(i as int))->0;
                assert(out@ + rest =~= out@.drop_last() + (seq![out@.last()] + rest));
            }
        }
    }
    proof {
        assert(members@.skip(i as int) =~= Seq::<(String, serde_json::Value)>::empty());
        assert(out@ + Seq::<(String, String)>::empty() =~= out@);
    }
    Some(out)
}

/// The characterization of `key_index`: it is the first position holding
/// the key, and -1 exactly when no position holds it.
proof fn lemma_key_index(entries: Seq<(String, String)>, key: Seq<char>)
    ensures
        -1 <= key_index(entries, key) < entries.len(),
        key_index(entries, key) >= 0 ==> (#[trigger] entries[key_index(entries, key)]).0@ == key
            && (forall|t: int| 0 <= t < key_index(entries, key) ==> (#[trigger] entries[t]).0@
            != key),
        key_index(entries, key) == -1 ==> (forall|t: int|
            0 <= t < entries.len() ==> (#[trigger] entries[t]).0@ != key),
    decreases entries.len(),
{
    if entries.len() > 0 && entries[0].0@ != key {
        lemma_key_index(entries.drop_first(), key);
        let rd = key_index(entries.drop_first(), key);
        assert(forall|t: int|
            0 <= t < entries.drop_first().len() ==> #[trigger] entries.drop_first()[t] == entries[t
                + 1]);
        if rd >= 0 {
            assert(entries.drop_first()[rd] == entries[rd + 1]);
            assert forall|t: int| 0 <= t < rd + 1 implies (#[trigger] entries[t]).0@ != key by {
                if t > 0 {
                    assert(entries.drop_first()[t - 1] == entries[t]);
                }
            }
        } else {
            assert forall|t: int| 0 <= t < entries.len() implies (#[trigger] entries[t]).0@
                != key by {
                if t > 0 {
                    assert(entries.drop_first()[t - 1] == entries[t]);
                }
            }
        }
    }
}

fn upsert_entry(entries: &mut Vec<(String, String)>, key: String, value: String)
    ensures
        final(entries)@ == upsert(old(entries)@, key, value),
{
    proof {
        lemma_key_index(old(entries)@, key@);
    }
    let mut i: usize = 0;
    while i < entries.len()
        invariant
            0 <= i <= entries@.len(),
            entries@ == old(entries)@,
            forall|t: int| 0 <= t < i ==> (#[trigger] entries@[t]).0@ != key@,
        decreases entries@.len() - i,
    {
        if entries[i].0 == key {
            proof {
                lemma_key_index(entries@, key@);
                assert(key_index(entries@, key@) == i);
            }
            let ghost pre = entries@;
            entries.remove(i);
            entries.insert(i, (key, value));
            proof {
                assert(final(entries)@ =~= pre.update(i as int, (key, value)));
            }
            return ;
        }
        i += 1;
    }
    proof {
        lemma_key_index(entries@, key@);
        assert(key_index(entries@, key@) == -1);
    }
    entries.push((key, value));
}

fn decode_top_logprobs(v: &serde_json::Value) -> (r: Option<Vec<(String, String)>>)
    ensures
        r matches Some(out) ==> top_logprobs_of_json(*v) == Some(out@),
        r is None ==> top_logprobs_of_json(*v) is None,
{
    let items = match value_elements(v) {
        None => {
            return None;
        },
        Some(es) => es,
    };
    let mut out: Vec<(String, String)> = Vec::new();
    let mut g: usize = 0;
    proof {
        assert(items@.skip(0) =~= items@);
    }
    while g < items.len()
        invariant
            0 <= g <= items@.len(),
            json_elements(*v) matches Some(ss) && ss == items@,
            flatten_from(Seq::<(String, String)>::empty(), items@) == flatten_from(
                out@,
                items@.skip(g as int),
            ),
        decreases items@.len() - g,
    {
        proof {
            assert(items@.skip(g as int).drop_first() =~= items@.skip(g as int + 1));
            assert(items@.skip(g as int)[0] == items@[g as int]);
        }
        let ms = match value_members(&items[g]) {
            None => {
                return None;
            },
            Some(m) => m,
        };
        let entries = match decode_number_entries(&ms) {
            None => {
                return None;
            },
            Some(e) => e,
        };
        let ghost pre = out@;
        let mut t: usize = 0;
        proof {
            assert(entries@.take(0) =~= Seq::<(String, String)>::empty());
        }
        while t < entries.len()
            invariant
                0 <= t <= entries@.len(),
                out@ == insert_group(pre, entries@.take(t as int)),
            decreases entries@.len() - t,
        {
            upsert_entry(&mut out, entries[t].0.clone(), entries[t].1.clone());
            proof {
                assert(entries@.take(t as int + 1).drop_last() =~= entries@.take(t as int));
                assert(entries@.take(t as int + 1).last() == entries@[t as int]);
            }
            t += 1;
        }
        proof {
            assert(entries@.take(entries@.len() as int) =~= entries@);
        }
        g += 1;
    }
    proof {
        assert(items@.skip(g as int) =~= Seq::<serde_json::Value>::empty());
    }
    Some(out)
}

fn decode_logprobs(v: &serde_json::Value) -> (r: Result<Logprobs, String>)
    ensures
        r matches Ok(lp) ==> logprobs_of_json(*v) == Ok::<LogprobsV, Seq<char>>(lp@),
        r matches Err(m) ==> logprobs_of_json(*v) matches Err(t) && m@ == t,
{
    let members = match value_members(v) {
        None => {
            return Err("logprobs is not a JSON object".to_owned());
        },
        Some(m) => m,
    };
    let tokens = match get_elements(&members, "tokens") {
        None => {
            return Err("missing or invalid field: tokens".to_owned());
        },
        Some(items) => match decode_strings(&items) {
            None => {
                return Err("missing or invalid field: tokens".to_owned());
            },
            Some(s) => s,
        },
    };
    let token_logprobs = match get_elements(&members, "token_logprobs") {
        None => {
            return Err("missing or invalid field: token_logprobs".to_owned());
        },
        Some(items) => match decode_number_texts(&items) {
            None => {
                return Err("missing or invalid field: token_logprobs".to_owned());
            },
            Some(s) => s,
        },
    };
    let top_logprobs = match find_member(&members, "top_logprobs") {
        None => {
            return Err("missing or invalid field: top_logprobs".to_owned());
        },
        Some(tv) => match decode_top_logprobs(tv) {
            None => {
                return Err("missing or invalid field: top_logprobs".to_owned());
            },
            Some(m) => m,
        },
    };
    let text_offset = match get_elements(&members, "text_offset") {
        None => {
            return Err("missing or invalid field: text_offset".to_owned());
        },
        Some(items) => match decode_int32s(&items) {
            None => {
                return Err("missing or invalid field: text_offset".to_owned());
            },
            Some(s) => s,
        },
    };
    Ok(Logprobs { tokens, token_logprobs, top_logprobs, text_offset })
}

fn decode_choice(v: &serde_json::Value) -> (r: Result<CompletionChoice, String>)
    ensures
        r matches Ok(c) ==> choice_of_json(*v) == Ok::<CompletionChoiceV, Seq<char>>(c@),
        r matches Err(m) ==> choice_of_json(*v) matches Err(t) && m@ == t,
{
    let members = match value_members(v) {
        None => {
            return Err("choice is not a JSON object".to_owned());
        },
        Some(m) => m,
    };
    let text = match get_string(&members, "text") {
        None => {
            return Err("missing or invalid field: text".to_owned());
        },
        Some(s) => s,
    };
    let index = match get_int32(&members, "index") {
        None => {
            return Err("missing or invalid field: index".to_owned());
        },
        Some(x) => x,
    };
    let finish_reason = match get_string(&members, "finish_reason") {
        None => {
            return Err("missing or invalid field: finish_reason".to_owned());
        },
        Some(s) => s,
    };
    let logprobs = match find_member(&members, "logprobs") {
        None => None,
        Some(lv) => {
            if value_is_null(lv) {
                None
            } else {
                match decode_logprobs(lv) {
                    Err(m) => {
                        return Err(m);
                    },
                    Ok(lp) => Some(lp),
                }
            }
        },
    };
    Ok(CompletionChoice { text, index, logprobs, finish_reason })
}

fn decode_choices(items: &Vec<serde_json::Value>) -> (r: Result<Vec<CompletionChoice>, String>)
    ensures
        r matches Ok(out) ==> choices_of_elements(items@) == Ok::<_, Seq<char>>(
            out@.map_values(|c: CompletionChoice| c@),
        ),
        r matches Err(m) ==> choices_of_elements(items@) matches Err(t) && m@ == t,
{
    let mut out: Vec<CompletionChoice> = Vec::new();
    let mut i: usize = 0;
    proof {
        assert(items@.skip(0) =~= items@);
        assert(out@.map_values(|c: CompletionChoice| c@) =~= Seq::<CompletionChoiceV>::empty());
    }
    while i < items.len()
        invariant
            0 <= i <= items@.len(),
            choices_of_elements(items@.skip(i as int)) matches Ok(rest) ==> choices_of_elements(
                items@,
            ) == Ok::<_, Seq<char>>(out@.map_values(|c: CompletionChoice| c@) + rest),
            choices_of_elements(items@.skip(i as int)) matches Err(m) ==> choices_of_elements(
                items@,
            ) == Err::<Seq<CompletionChoiceV>, _>(m),
        decreases items@.len() - i,
    {
        proof {
            assert(items@.skip(i as int).drop_first() =~= items@.skip(i as int + 1));
            assert(items@.skip(i as int)[0] == items@[i as int]);
        }
        match decode_choice(&items[i]) {
            Err(m) => {
                return Err(m);
            },
            Ok(c) => {
                out.push(c);
            },
        }
        i += 1;
        proof {
            if choices_of_elements(items@.skip(i as int)) is Ok {
                let rest = choices_of_elements(items@.skip(i as int))->Ok_0;
                assert(choices_of_elements(items@) is Ok);
                assert(out@.map_values(|c: CompletionChoice| c@) + rest =~= choices_of_elements(
                    items@,
                )->Ok_0);
            }
        }
    }
    proof {
        assert(items@.skip(i as int) =~= Seq::<serde_json::Value>::empty());
        assert(out@.map_values(|c: CompletionChoice| c@) + Seq::<CompletionChoiceV>::empty()
            =~= out@.map_values(|c: CompletionChoice| c@));
    }
    Ok(out)
}

fn decode_usage(v: &serde_json::Value) -> (r: Result<CompletionUsage, String>)
    ensures
        r matches Ok(u) ==> usage_of_json(*v) == Ok::<CompletionUsage, Seq<char>>(u),
        r matches Err(m) ==> usage_of_json(*v) matches Err(t) && m@ == t,
{
    let members = match value_members(v) {
        None => {
            return Err("missing or invalid field: usage".to_owned());
        },
        Some(m) => m,
    };
    let prompt_tokens = match get_int32(&members, "prompt_tokens") {
        None => {
            return Err("missing or invalid field: prompt_tokens".to_owned());
        },
        Some(x) => x,
    };
    let completion_tokens = match get_int32(&members, "completion_tokens") {
        None => {
            return Err("missing or invalid field: completion_tokens".to_owned());
        },
        Some(x) => x,
    };
    let total_tokens = match get_int32(&members, "total_tokens") {
        None => {
            return Err("missing or invalid field: total_tokens".to_owned());
        },
        Some(x) => x,
    };
    Ok(CompletionUsage { prompt_tokens, completion_tokens, total_tokens })
}

fn decode_completion_value(v: &serde_json::Value) -> (r: Result<CompletionResponse, String>)
    ensures
        r matches Ok(resp) ==> completion_of_json(*v) == Ok::<CompletionResponseV, Seq<char>>(
            resp@,
        ),
        r matches Err(m) ==> completion_of_json(*v) matches Err(t) && m@ == t,
{
    let members = match value_members(v) {
        None => {
            return Err("response body is not a JSON object".to_owned());
        },
        Some(m) => m,
    };
    let id = match get_string(&members, "id") {
        None => {
            return Err("missing or invalid field: id".to_owned());
        },
        Some(s) => s,
    };
    let object = match get_string(&members, "object") {
        None => {
            return Err("missing or invalid field: object".to_owned());
        },
        Some(s) => s,
    };
    let created = match get_int32(&members, "created") {
        None => {
            return Err("missing or invalid field: created".to_owned());
        },
        Some(x) => x,
    };
    let model = match get_string(&members, "model") {
        None => {
            return Err("missing or invalid field: model".to_owned());
        },
        Some(s) => s,
    };
    let choices = match get_elements(&members, "choices") {
        None => {
            return Err("missing or invalid field: choices".to_owned());
        },
        Some(items) => match decode_choices(&items) {
            Err(m) => {
                return Err(m);
            },
            Ok(cs) => cs,
        },
    };
    let usage = match find_member(&members, "usage") {
        None => {
            return Err("missing or invalid field: usage".to_owned());
        },
        Some(uv) => match decode_usage(uv) {
            Err(m) => {
                return Err(m);
            },
            Ok(u) => u,
        },
    };
    Ok(CompletionResponse { id, object, created, model, choices, usage })
}

/// Decode assembled body bytes into the response document: the parser's
/// fault and the shape fault are both reported as the message text.
pub(crate) fn decode_completion_body(bytes: &Vec<u8>) -> (r: Result<CompletionResponse, String>)
    ensures
        r matches Ok(resp) ==> completion_body_outcome(bytes@) == Ok::<
            CompletionResponseV,
            Seq<char>,
        >(resp@),
        r matches Err(m) ==> completion_body_outcome(bytes@) matches Err(t) && m@ == t,
{
    match parse_json(bytes.as_slice()) {
        Err(m) => Err(m),
        Ok(v) => decode_completion_value(&v),
    }
}

impl CompletionResponse {
    /// Interpret the transport's outcome of a non-streaming submit — the
    /// complete branch table over the status and the body.
    ///
    /// On a 2xx status the body must decode as the response document, a
    /// fault surfacing as `InvalidState`; a 4xx status is `InvalidArgument`
    /// carrying the body text; any other status is `Internal` carrying the
    /// body text; and a body that could not be read is `InvalidState`
    /// carrying the transport's message.
    pub fn from_submit_outcome(status: u16, body: Result<Vec<u8>, String>) -> (r: Result<
        CompletionResponse,
        OpenAIError,
    >)
        ensures
            spec_is_success(status) ==> (match body {
                Ok(bytes) => match completion_body_outcome(bytes@) {
                    Ok(vv) => r matches Ok(resp) && resp@ == vv,
                    Err(t) => r matches Err(e) && (e matches OpenAIError::InvalidState { message }
                        && message@ == t),
                },
                Err(m) => r matches Err(e) && (e matches OpenAIError::InvalidState { message }
                    && message == m),
            }),
            !spec_is_success(status) ==> (match body {
                Ok(bytes) => (if spec_is_client_error(status) {
                    r matches Err(e) && (e matches OpenAIError::InvalidArgument { key, message }
                        && key@ == "request"@ && message == text_of_bytes(bytes@))
                } else {
                    r matches Err(e) && (e matches OpenAIError::Internal { message } && message
                        == text_of_bytes(bytes@))
                }),
                Err(m) => r matches Err(e) && (e matches OpenAIError::InvalidState { message }
                    && message == m),
            }),
            !spec_is_success(status) ==> (body matches Ok(bytes) ==> ((forall|i: int|
                0 <= i < bytes@.len() ==> bytes@[i] < 128) ==> (r matches Err(e)
                && e.message_view() == Seq::new(bytes@.len(), |i: int| bytes@[i] as char)))),
    {
        if is_success_status(status) {
            match body {
                Err(m) => Err(OpenAIError::InvalidState { message: m }),
                Ok(bytes) => match decode_completion_body(&bytes) {
                    Ok(resp) => Ok(resp),
                    Err(m) => Err(OpenAIError::InvalidState { message: m }),
                },
            }
        } else {
            Err(classify_failure(status, body))
        }
    }
}

/// The response that carries a streamed completion exchange: the events the
/// transport observed, and how far they have been consumed.
pub struct CompletionResponseStream {
    pub events: Vec<StreamEvent>,
    pub cursor: usize,
}

impl CompletionResponseStream {
    pub open spec fn wf(&self) -> bool {
        self.cursor <= self.events@.len()
    }

    /// The events not yet consumed.
    pub open spec fn remaining(&self) -> Seq<StreamEvent> {
        self.events@.skip(self.cursor as int)
    }

    pub fn new(events: Vec<StreamEvent>) -> (s: Self)
        ensures
            s.wf(),
            s.remaining() == events@,
    {
        let s = CompletionResponseStream { events, cursor: 0 };
        proof {
            assert(s.events@.skip(0) =~= s.events@);
        }
        s
    }

    /// Drain the stream to completion and decode what was gathered.
    ///
    /// Every non-sentinel chunk is appended to one buffer; a transport
    /// failure aborts at once as `Internal`, discarding the buffer. An empty
    /// buffer — an empty, sentinel-only, or already-drained stream — is the
    /// normal "no response" outcome, not an error; anything else must parse
    /// as the response document, a fault surfacing as `InvalidState` with
    /// the parser's or decoder's message.
    pub fn next(&mut self) -> (r: Result<Option<CompletionResponse>, OpenAIError>)
        requires
            old(self).wf(),
        ensures
            final(self).wf(),
            final(self).remaining() == drain_rest(old(self).remaining()),
            drain_buffer(old(self).remaining()) matches Err(m) ==> r matches Err(e) && (e
                matches OpenAIError::Internal { message } && message@ == m),
            drain_buffer(old(self).remaining()) matches Ok(buf) ==> (if buf.len() == 0 {
                r == Ok::<Option<CompletionResponse>, OpenAIError>(None)
            } else {
                match completion_body_outcome(buf) {
                    Ok(vv) => r matches Ok(s) && s matches Some(resp) && resp@ == vv,
                    Err(t) => r matches Err(e) && (e matches OpenAIError::InvalidState { message }
                        && message@ == t),
                }
            }),
    {
        let (res, nc) = drain(&self.events, self.cursor);
        self.cursor = nc;
        match res {
            Err(m) => Err(OpenAIError::Internal { message: m }),
            Ok(buf) => {
                if buf.len() == 0 {
                    Ok(None)
                } else {
                    match decode_completion_body(&buf) {
                        Ok(resp) => Ok(Some(resp)),
                        Err(m) => Err(OpenAIError::InvalidState { message: m }),
                    }
                }
            },
        }
    }
}

} // verus!
