//! From records of a key-value store to step records in the canonical shape.
//!
//! A stored record is a map from attribute names to tagged values. This
//! module only reshapes: it picks the attributes that a step record has,
//! falls back to the empty text for what is missing or of another tag, and
//! leaves all judgement to validation.

use vstd::prelude::*;
use vstd::hash_map::StringHashMap;
use crate::models::{
    ConvertStrType, ConvertStrView, HttpStrType, HttpStrView, ParseStrType, ParseStrView, StrOrNum,
    StrOrNumView, StrStep, StrStepView,
};
use crate::text::{decimal_i32, eq_ignore_ascii_case, parse_i32, same_ignoring_ascii_case};

verus! {

/// A tagged value inside a nested map of a stored record.
#[derive(Debug, Clone, PartialEq)]
pub enum Scalar {
    /// A text.
    S(String),
    /// A number, in the decimal text in which the store keeps it.
    N(String),
    Null,
    /// A value of any other tag.
    Other,
}

/// A nested map of a stored record, from names to tagged values.
pub type Part = StringHashMap<Scalar>;

/// A tagged value of a stored record.
pub enum Attribute {
    /// A text.
    S(String),
    /// A nested map.
    M(Part),
    /// A value of any other tag.
    Other,
}

/// A stored record, from attribute names to tagged values.
pub type Record = StringHashMap<Attribute>;

/// The entry of a map under a key, if there is one.
pub open spec fn entry<V>(map: Map<Seq<char>, V>, key: Seq<char>) -> Option<V> {
    if map.contains_key(key) {
        Some(map[key])
    } else {
        None
    }
}

/// The text of a nested value, or the empty text where there is no value
/// or it is no text.
pub open spec fn text_or_empty(value: Option<Scalar>) -> Seq<char> {
    match value {
        Some(Scalar::S(text)) => text@,
        _ => Seq::empty(),
    }
}

/// The text of an attribute of the record, or the empty text.
pub open spec fn attribute_text(item: Map<Seq<char>, Attribute>, key: Seq<char>) -> Seq<char> {
    match entry(item, key) {
        Some(Attribute::S(text)) => text@,
        _ => Seq::empty(),
    }
}

/// The nested map under an attribute of the record, if the attribute is one.
pub open spec fn attribute_map(item: Map<Seq<char>, Attribute>, key: Seq<char>) -> Option<
    Map<Seq<char>, Scalar>,
> {
    match entry(item, key) {
        Some(Attribute::M(part)) => Some(part@),
        _ => None,
    }
}

/// The `next` of the record: a text that is not empty, or nothing.
pub open spec fn normalized_next(item: Map<Seq<char>, Attribute>) -> Option<Seq<char>> {
    let name = attribute_text(item, "next"@);
    if name.len() == 0 {
        None
    } else {
        Some(name)
    }
}

/// The `http` part: there for any nested map, with its type and its url as
/// they are. It has a body only where the type reads `post` in any case of
/// letters; what the type is worth is for validation to say.
pub open spec fn normalized_http(item: Map<Seq<char>, Attribute>) -> Option<HttpStrView> {
    match attribute_map(item, "http"@) {
        None => None,
        Some(part) => {
            let typ = text_or_empty(entry(part, "type"@));
            let url = text_or_empty(entry(part, "url"@));
            let body = text_or_empty(entry(part, "body"@));
            if same_ignoring_ascii_case(typ, "post"@) {
                Some(HttpStrView { typ, url, body: Some(body) })
            } else {
                Some(HttpStrView { typ, url, body: None })
            }
        },
    }
}

/// The `parse` part: there for any nested map.
pub open spec fn normalized_parse(item: Map<Seq<char>, Attribute>) -> Option<ParseStrView> {
    match attribute_map(item, "parse"@) {
        None => None,
        Some(part) => Some(
            ParseStrView {
                typ: text_or_empty(entry(part, "type"@)),
                content: text_or_empty(entry(part, "content"@)),
            },
        ),
    }
}

/// The source of a conversion, which keeps its tag: a number stays a
/// number and a text a text. There is none for any other tag.
pub open spec fn normalized_source(source: Option<Scalar>) -> Option<StrOrNumView> {
    match source {
        Some(Scalar::N(number)) => match decimal_i32(number@) {
            Some(value) => Some(StrOrNumView::Num(value)),
            None => None,
        },
        Some(Scalar::S(text)) => Some(StrOrNumView::Str(text@)),
        _ => None,
    }
}

/// The `convert` part: there for a nested map whose source is a number or a text.
pub open spec fn normalized_convert(item: Map<Seq<char>, Attribute>) -> Option<ConvertStrView> {
    match attribute_map(item, "convert"@) {
        None => None,
        Some(part) => match normalized_source(entry(part, "source"@)) {
            None => None,
            Some(source) => Some(
                ConvertStrView {
                    typ: text_or_empty(entry(part, "type"@)),
                    from: text_or_empty(entry(part, "from"@)),
                    to: text_or_empty(entry(part, "to"@)),
                    source,
                },
            ),
        },
    }
}

/// The step record that a stored record holds.
pub open spec fn normalized(item: Map<Seq<char>, Attribute>) -> StrStepView {
    StrStepView {
        typ: attribute_text(item, "type"@),
        uuid: attribute_text(item, "uuid"@),
        name: attribute_text(item, "name"@),
        error_on_fail: attribute_text(item, "error_on_fail"@),
        created_at: attribute_text(item, "created_at"@),
        next: normalized_next(item),
        http: normalized_http(item),
        parse: normalized_parse(item),
        convert: normalized_convert(item),
    }
}

/// Whether the source of the record's conversion can be read: where it is a
/// number, its text writes a 32-bit signed integer in decimal.
pub open spec fn source_is_readable(item: Map<Seq<char>, Attribute>) -> bool {
    match attribute_map(item, "convert"@) {
        Some(part) => match entry(part, "source"@) {
            Some(Scalar::N(number)) => decimal_i32(number@) is Some,
            _ => true,
        },
        None => true,
    }
}

/// The text of a nested value, or the empty text.
pub fn extract_s_or_default(s: Option<&Scalar>) -> (r: String)
    ensures
        r@ == text_or_empty(option_scalar(s)),
{
    match s {
        Some(Scalar::S(text)) => text.clone(),
        _ => String::new(),
    }
}

/// The value that an optional reference points to.
pub open spec fn option_scalar(s: Option<&Scalar>) -> Option<Scalar> {
    match s {
        Some(value) => Some(*value),
        None => None,
    }
}

fn text_attribute(item: &Record, key: &str) -> (r: String)
    ensures
        r@ == attribute_text(item@, key@),
{
    match item.get(key) {
        Some(Attribute::S(text)) => text.clone(),
        _ => String::new(),
    }
}

fn map_attribute<'a>(item: &'a Record, key: &str) -> (r: Option<&'a Part>)
    ensures
        match r {
            Some(part) => attribute_map(item@, key@) == Some(part@),
            None => attribute_map(item@, key@) is None,
        },
{
    match item.get(key) {
        Some(Attribute::M(part)) => Some(part),
        _ => None,
    }
}

fn http_part(item: &Record) -> (r: Option<HttpStrType>)
    ensures
        match r {
            Some(http) => normalized_http(item@) == Some(http@),
            None => normalized_http(item@) is None,
        },
{
    match map_attribute(item, "http") {
        None => None,
        Some(part) => {
            let typ = extract_s_or_default(part.get("type"));
            let url = extract_s_or_default(part.get("url"));
            let body = extract_s_or_default(part.get("body"));
            if eq_ignore_ascii_case(typ.as_str(), "post") {
                Some(HttpStrType { typ, url, body: Some(body) })
            } else {
                Some(HttpStrType { typ, url, body: None })
            }
        },
    }
}

fn parse_part(item: &Record) -> (r: Option<ParseStrType>)
    ensures
        match r {
            Some(parse) => normalized_parse(item@) == Some(parse@),
            None => normalized_parse(item@) is None,
        },
{
    match map_attribute(item, "parse") {
        None => None,
        Some(part) => {
            let typ = extract_s_or_default(part.get("type"));
            let content = extract_s_or_default(part.get("content"));
            Some(ParseStrType { typ, content })
        },
    }
}

fn convert_part(item: &Record) -> (r: Option<ConvertStrType>)
    requires
        source_is_readable(item@),
    ensures
        match r {
            Some(convert) => normalized_convert(item@) == Some(convert@),
            None => normalized_convert(item@) is None,
        },
{
    match map_attribute(item, "convert") {
        None => None,
        Some(part) => {
            let typ = extract_s_or_default(part.get("type"));
            let from = extract_s_or_default(part.get("from"));
            let to = extract_s_or_default(part.get("to"));
            match part.get("source") {
                Some(Scalar::N(number)) => {
                    let value = parse_i32(number.as_str()).unwrap();
                    Some(ConvertStrType { typ, from, to, source: StrOrNum::Num(value) })
                },
                Some(Scalar::S(text)) => Some(
                    ConvertStrType { typ, from, to, source: StrOrNum::Str(text.clone()) },
                ),
                _ => None,
            }
        },
    }
}

/// Tells whether [`value_to_item`] can read the source of the record's conversion.
pub fn check_source(item: &Record) -> (r: bool)
    ensures
        r == source_is_readable(item@),
{
    match map_attribute(item, "convert") {
        None => true,
        Some(part) => match part.get("source") {
            Some(Scalar::N(number)) => parse_i32(number.as_str()).is_some(),
            _ => true,
        },
    }
}

/// Reshapes a stored record into a step record. Attributes that a step
/// record does not have are ignored.
pub fn value_to_item(item: &Record) -> (r: StrStep)
    requires
        source_is_readable(item@),
    ensures
        r@ == normalized(item@),
{
    let name = text_attribute(item, "next");
    let next = if name.as_str().is_empty() {
        None
    } else {
        Some(name)
    };
    StrStep {
        typ: text_attribute(item, "type"),
        uuid: text_attribute(item, "uuid"),
        name: text_attribute(item, "name"),
        error_on_fail: text_attribute(item, "error_on_fail"),
        created_at: text_attribute(item, "created_at"),
        next,
        http: http_part(item),
        parse: parse_part(item),
        convert: convert_part(item),
    }
}

} // verus!
