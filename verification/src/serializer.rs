//! From JSON to steps: a record is read out of a JSON value field by field,
//! and a batch of steps out of a JSON text.

use vstd::prelude::*;
use crate::errors::DefinitionError;
use crate::json::{json_parse, json_view, parse_value, value_member, Json};
use crate::models::{Step, StepView};
use crate::validate::{
    outcome_view, step_of, Raw, RawConvert, RawConvertView, RawHttp, RawHttpView, RawParse,
    RawParseView, RawStep, RawStepView, RawView,
};

verus! {

/// Why a text is not a batch of steps.
#[derive(Debug)]
pub enum ParseError {
    /// The text is not JSON; the value says where and why.
    Syntax(serde_json::Error),
    /// The text is JSON, and a rule refuses what it holds.
    Definition(DefinitionError),
}

/// What the member of a JSON value under a key is, as a field of a record.
pub open spec fn raw_of(member: Option<Json>) -> RawView {
    match member {
        None => RawView::Absent,
        Some(Json::Null) => RawView::Null,
        Some(Json::Text(text)) => RawView::Text(text),
        Some(other) => match other.small_integer() {
            Some(number) => RawView::Integer(number),
            None => RawView::Other,
        },
    }
}

/// The `convert` part of the record that a JSON value holds: the members
/// of its member of that name, where that member is an object.
pub open spec fn raw_convert_of(doc: Json) -> Option<RawConvertView> {
    match doc.object_member("convert"@) {
        None => None,
        Some(part) => Some(
            RawConvertView {
                from: raw_of(part.member("from"@)),
                to: raw_of(part.member("to"@)),
                source: raw_of(part.member("source"@)),
            },
        ),
    }
}

/// The `http` part of the record that a JSON value holds.
pub open spec fn raw_http_of(doc: Json) -> Option<RawHttpView> {
    match doc.object_member("http"@) {
        None => None,
        Some(part) => Some(
            RawHttpView {
                url: raw_of(part.member("url"@)),
                typ: raw_of(part.member("type"@)),
                body: raw_of(part.member("body"@)),
            },
        ),
    }
}

/// The `parse` part of the record that a JSON value holds.
pub open spec fn raw_parse_of(doc: Json) -> Option<RawParseView> {
    match doc.object_member("parse"@) {
        None => None,
        Some(part) => Some(
            RawParseView {
                typ: raw_of(part.member("type"@)),
                content: raw_of(part.member("content"@)),
            },
        ),
    }
}

/// The record that a JSON value holds: each field is the member of that
/// name, and each part the members of the object of that name. A part
/// whose name stands for anything but an object, such as `null`, is not
/// there.
pub open spec fn raw_step_of(doc: Json) -> RawStepView {
    RawStepView {
        typ: raw_of(doc.member("type"@)),
        uuid: raw_of(doc.member("uuid"@)),
        name: raw_of(doc.member("name"@)),
        error_on_fail: raw_of(doc.member("errorOnFail"@)),
        next: raw_of(doc.member("next"@)),
        created_at: raw_of(doc.member("createdAt"@)),
        convert: raw_convert_of(doc),
        http: raw_http_of(doc),
        parse: raw_parse_of(doc),
    }
}

/// The steps that a list of JSON records describes, in order, or the reason
/// to refuse the first record that is refused.
pub open spec fn steps_of_items(items: Seq<Json>) -> Result<Seq<StepView>, DefinitionError>
    decreases items.len(),
{
    if items.len() == 0 {
        Ok(Seq::empty())
    } else {
        match steps_of_items(items.drop_last()) {
            Err(e) => Err(e),
            Ok(steps) => match step_of(raw_step_of(items.last())) {
                Err(e) => Err(e),
                Ok(step) => Ok(steps.push(step)),
            },
        }
    }
}

/// The batch of steps that a JSON document describes.
pub open spec fn steps_of(doc: Json) -> Result<Seq<StepView>, DefinitionError> {
    match doc {
        Json::List(items) => steps_of_items(items),
        _ => Err(DefinitionError::NotAList),
    }
}

/// The mathematical values of a sequence of steps.
pub open spec fn step_views(steps: Seq<Step>) -> Seq<StepView> {
    steps.map_values(|step: Step| step@)
}

/// Reads one field out of a JSON value.
pub fn read_field<'a>(value: &'a serde_json::Value, key: &str) -> (r: Raw<'a>)
    ensures
        r@ == raw_of(json_view(*value).member(key@)),
{
    match value_member(value, key) {
        None => Raw::Absent,
        Some(member) => match member.as_str() {
            Some(text) => Raw::Text(text),
            None => match member.as_i64() {
                Some(number) => Raw::Integer(number),
                None => if member.is_null() {
                    Raw::Null
                } else {
                    Raw::Other
                },
            },
        },
    }
}

/// Reads the member of a JSON value under a key, where it is an object.
pub fn object_member<'a>(value: &'a serde_json::Value, key: &str) -> (r: Option<
    &'a serde_json::Value,
>)
    ensures
        match r {
            Some(part) => json_view(*value).object_member(key@) == Some(json_view(*part)),
            None => json_view(*value).object_member(key@) is None,
        },
{
    match value_member(value, key) {
        Some(part) => if part.is_object() {
            Some(part)
        } else {
            None
        },
        None => None,
    }
}

impl<'a> RawStep<'a> {
    /// Reads a record out of a JSON value.
    pub fn read(value: &'a serde_json::Value) -> (r: RawStep<'a>)
        ensures
            r@ == raw_step_of(json_view(*value)),
    {
        let convert = match object_member(value, "convert") {
            None => None,
            Some(part) => Some(
                RawConvert {
                    from: read_field(part, "from"),
                    to: read_field(part, "to"),
                    source: read_field(part, "source"),
                },
            ),
        };
        let http = match object_member(value, "http") {
            None => None,
            Some(part) => Some(
                RawHttp {
                    url: read_field(part, "url"),
                    typ: read_field(part, "type"),
                    body: read_field(part, "body"),
                },
            ),
        };
        let parse = match object_member(value, "parse") {
            None => None,
            Some(part) => Some(
                RawParse { typ: read_field(part, "type"), content: read_field(part, "content") },
            ),
        };
        RawStep {
            typ: read_field(value, "type"),
            uuid: read_field(value, "uuid"),
            name: read_field(value, "name"),
            error_on_fail: read_field(value, "errorOnFail"),
            next: read_field(value, "next"),
            created_at: read_field(value, "createdAt"),
            convert,
            http,
            parse,
        }
    }
}

impl Step {
    /// Validates the record that a JSON value holds.
    pub fn deserialize(value: &serde_json::Value) -> (r: Result<Step, DefinitionError>)
        ensures
            outcome_view(r) == step_of(raw_step_of(json_view(*value))),
    {
        let raw = RawStep::read(value);
        Step::from_raw(&raw)
    }
}

proof fn lemma_refusal_stays(items: Seq<Json>, k: int, e: DefinitionError)
    requires
        0 <= k <= items.len(),
        steps_of_items(items.take(k)) == Err::<Seq<StepView>, DefinitionError>(e),
    ensures
        steps_of_items(items) == Err::<Seq<StepView>, DefinitionError>(e),
    decreases items.len() - k,
{
    if k == items.len() {
        assert(items.take(k) =~= items);
    } else {
        assert(items.take(k + 1).drop_last() =~= items.take(k));
        lemma_refusal_stays(items, k + 1, e);
    }
}

/// Validates every record of a JSON list, in order, and stops at the first
/// one that is refused.
pub fn steps_from_json(doc: &serde_json::Value) -> (r: Result<Vec<Step>, DefinitionError>)
    ensures
        match r {
            Ok(steps) => steps_of(json_view(*doc)) == Ok::<Seq<StepView>, DefinitionError>(
                step_views(steps@),
            ),
            Err(e) => steps_of(json_view(*doc)) == Err::<Seq<StepView>, DefinitionError>(e),
        },
{
    let items = match doc.as_array() {
        Some(items) => items,
        None => { return Err(DefinitionError::NotAList); },
    };
    let ghost list = json_view(*doc)->List_0;
    let mut steps: Vec<Step> = Vec::new();
    let mut i: usize = 0;
    assert(list.take(0) =~= Seq::<Json>::empty());
    assert(step_views(steps@) =~= Seq::<StepView>::empty());
    while i < items.len()
        invariant
            i <= items.len(),
            json_view(*doc) == Json::List(list),
            list.len() == items@.len(),
            forall|j: int| 0 <= j < list.len() ==> #[trigger] list[j] == json_view(items@[j]),
            steps_of_items(list.take(i as int)) == Ok::<Seq<StepView>, DefinitionError>(
                step_views(steps@),
            ),
        decreases items.len() - i,
    {
        proof {
            assert(list.take(i + 1).drop_last() =~= list.take(i as int));
            assert(list.take(i + 1).last() == list[i as int]);
        }
        let ghost before = steps@;
        match Step::deserialize(&items[i]) {
            Ok(step) => {
                steps.push(step);
                assert(step_views(steps@) =~= step_views(before).push(step@));
            },
            Err(e) => {
                proof {
                    lemma_refusal_stays(list, i + 1, e);
                }
                return Err(e);
            },
        }
        i += 1;
    }
    assert(list.take(i as int) =~= list);
    Ok(steps)
}

/// Reads a batch of steps from a JSON text: a list of records, each of which
/// must be a valid step.
pub fn run_parse(steps_str: &str) -> (r: Result<Vec<Step>, ParseError>)
    ensures
        match r {
            Ok(steps) => json_parse(steps_str@) matches Some(doc) && steps_of(doc) == Ok::<
                Seq<StepView>,
                DefinitionError,
            >(step_views(steps@)),
            Err(ParseError::Syntax(_)) => json_parse(steps_str@) is None,
            Err(ParseError::Definition(e)) => json_parse(steps_str@) matches Some(doc) && steps_of(
                doc,
            ) == Err::<Seq<StepView>, DefinitionError>(e),
        },
{
    match parse_value(steps_str) {
        Err(e) => Err(ParseError::Syntax(e)),
        Ok(doc) => match steps_from_json(&doc) {
            Ok(steps) => Ok(steps),
            Err(e) => Err(ParseError::Definition(e)),
        },
    }
}

} // verus!
