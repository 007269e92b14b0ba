//! From raw step records to validated steps.
//!
//! A record is first read into plain values, one [`Raw`] per field that the
//! rules look at. The rules themselves are functions on those plain values.

use vstd::prelude::*;
use crate::errors::{DefinitionError, Field};
use crate::models::{
    ConvertDefinition, ConvertOption, DefinitionView, HttpDefinition, HttpType, ParseDefinition,
    ParseType, Step, StepDefinition, StepView,
};
use crate::text::{eq_ignore_ascii_case, same_ignoring_ascii_case, same_text};

verus! {

/// What a record holds in the place of one field.
#[derive(Debug, Clone, Copy, PartialEq)]
pub enum Raw<'a> {
    /// The record has no such field.
    Absent,
    /// The field is JSON's `null`.
    Null,
    Text(&'a str),
    /// A number that is an integer and fits in 64 bits, signed.
    Integer(i64),
    /// Any other value: a boolean, another number, a list or an object.
    Other,
}

/// The mathematical value of a [`Raw`].
pub enum RawView {
    Absent,
    Null,
    Text(Seq<char>),
    Integer(i64),
    Other,
}

impl<'a> View for Raw<'a> {
    type V = RawView;

    open spec fn view(&self) -> RawView {
        match *self {
            Raw::Absent => RawView::Absent,
            Raw::Null => RawView::Null,
            Raw::Text(text) => RawView::Text(text@),
            Raw::Integer(number) => RawView::Integer(number),
            Raw::Other => RawView::Other,
        }
    }
}

/// The fields of a record's `convert` part.
#[derive(Debug, Clone, Copy, PartialEq)]
pub struct RawConvert<'a> {
    pub from: Raw<'a>,
    pub to: Raw<'a>,
    pub source: Raw<'a>,
}

/// The fields of a record's `http` part.
#[derive(Debug, Clone, Copy, PartialEq)]
pub struct RawHttp<'a> {
    pub url: Raw<'a>,
    pub typ: Raw<'a>,
    pub body: Raw<'a>,
}

/// The fields of a record's `parse` part.
#[derive(Debug, Clone, Copy, PartialEq)]
pub struct RawParse<'a> {
    pub typ: Raw<'a>,
    pub content: Raw<'a>,
}

/// A step record as it was read, before any rule is applied. Each of the
/// three parts is `None` where the record has no object under that name.
#[derive(Debug, Clone, Copy, PartialEq)]
pub struct RawStep<'a> {
    pub typ: Raw<'a>,
    pub uuid: Raw<'a>,
    pub name: Raw<'a>,
    pub error_on_fail: Raw<'a>,
    pub next: Raw<'a>,
    pub created_at: Raw<'a>,
    pub convert: Option<RawConvert<'a>>,
    pub http: Option<RawHttp<'a>>,
    pub parse: Option<RawParse<'a>>,
}

/// The mathematical value of a [`RawConvert`].
pub struct RawConvertView {
    pub from: RawView,
    pub to: RawView,
    pub source: RawView,
}

/// The mathematical value of a [`RawHttp`].
pub struct RawHttpView {
    pub url: RawView,
    pub typ: RawView,
    pub body: RawView,
}

/// The mathematical value of a [`RawParse`].
pub struct RawParseView {
    pub typ: RawView,
    pub content: RawView,
}

/// The mathematical value of a [`RawStep`].
pub struct RawStepView {
    pub typ: RawView,
    pub uuid: RawView,
    pub name: RawView,
    pub error_on_fail: RawView,
    pub next: RawView,
    pub created_at: RawView,
    pub convert: Option<RawConvertView>,
    pub http: Option<RawHttpView>,
    pub parse: Option<RawParseView>,
}

impl<'a> View for RawConvert<'a> {
    type V = RawConvertView;

    open spec fn view(&self) -> RawConvertView {
        RawConvertView { from: self.from@, to: self.to@, source: self.source@ }
    }
}

impl<'a> View for RawHttp<'a> {
    type V = RawHttpView;

    open spec fn view(&self) -> RawHttpView {
        RawHttpView { url: self.url@, typ: self.typ@, body: self.body@ }
    }
}

impl<'a> View for RawParse<'a> {
    type V = RawParseView;

    open spec fn view(&self) -> RawParseView {
        RawParseView { typ: self.typ@, content: self.content@ }
    }
}

/// The value of a part that is there or not.
pub open spec fn option_convert_view(convert: Option<RawConvert<'_>>) -> Option<RawConvertView> {
    match convert {
        Some(part) => Some(part@),
        None => None,
    }
}

/// The value of a part that is there or not.
pub open spec fn option_http_view(http: Option<RawHttp<'_>>) -> Option<RawHttpView> {
    match http {
        Some(part) => Some(part@),
        None => None,
    }
}

/// The value of a part that is there or not.
pub open spec fn option_parse_view(parse: Option<RawParse<'_>>) -> Option<RawParseView> {
    match parse {
        Some(part) => Some(part@),
        None => None,
    }
}

impl<'a> View for RawStep<'a> {
    type V = RawStepView;

    open spec fn view(&self) -> RawStepView {
        RawStepView {
            typ: self.typ@,
            uuid: self.uuid@,
            name: self.name@,
            error_on_fail: self.error_on_fail@,
            next: self.next@,
            created_at: self.created_at@,
            convert: option_convert_view(self.convert),
            http: option_http_view(self.http),
            parse: option_parse_view(self.parse),
        }
    }
}

// ---------------------------------------------------------------------------
// The rules, as mathematics.
// ---------------------------------------------------------------------------

/// A field that must be a text: its characters, or why it is refused.
pub open spec fn text_of(raw: RawView, field: Field) -> Result<Seq<char>, DefinitionError> {
    match raw {
        RawView::Text(text) => Ok(text),
        RawView::Absent => Err(DefinitionError::Missing(field)),
        _ => Err(DefinitionError::NotString(field)),
    }
}

/// The `next` field: no name where the field is absent or `null`, the name
/// where it is a text, and a refusal for anything else.
pub open spec fn next_name_of(raw: RawView) -> Result<Option<Seq<char>>, DefinitionError> {
    match raw {
        RawView::Absent => Ok(None),
        RawView::Null => Ok(None),
        RawView::Text(name) => Ok(Some(name)),
        _ => Err(DefinitionError::NotString(Field::Next)),
    }
}

/// The conversion that `from`, `to` and the source describe. A conversion
/// from an integer keeps its source as it is, so the source must be an
/// integer of 32 bits; a wider one is refused like any other source that is
/// no such integer.
pub open spec fn conversion_of(from: Seq<char>, to: Seq<char>, source: RawView) -> Result<
    DefinitionView,
    DefinitionError,
> {
    if from == "string"@ && to == "string"@ {
        Err(DefinitionError::StringToString)
    } else if from == "string"@ && to == "int"@ {
        match text_of(source, Field::ConvertSource) {
            Ok(text) => Ok(DefinitionView::StringToInt(text)),
            Err(e) => Err(e),
        }
    } else if from == "int"@ && to == "string"@ {
        match source {
            RawView::Absent => Err(DefinitionError::Missing(Field::ConvertSource)),
            RawView::Integer(number) => if i32::MIN <= number <= i32::MAX {
                Ok(DefinitionView::IntToString(number as i32))
            } else {
                Err(DefinitionError::SourceNotInteger)
            },
            _ => Err(DefinitionError::SourceNotInteger),
        }
    } else if from == "int"@ && to == "int"@ {
        Err(DefinitionError::IntegerToInteger)
    } else {
        Err(DefinitionError::UnknownConvertOptions)
    }
}

/// The definition of a step of type `convert`.
pub open spec fn convert_of(convert: Option<RawConvertView>) -> Result<
    DefinitionView,
    DefinitionError,
> {
    match convert {
        None => Err(DefinitionError::MissingConvertObject),
        Some(part) => match text_of(part.from, Field::ConvertFrom) {
            Err(e) => Err(e),
            Ok(from) => match text_of(part.to, Field::ConvertTo) {
                Err(e) => Err(e),
                Ok(to) => conversion_of(from, to, part.source),
            },
        },
    }
}

/// The request that a method, a url and the body describe. The method is
/// read without regard to the case of its letters.
pub open spec fn request_of(method: Seq<char>, url: Seq<char>, body: RawView) -> Result<
    DefinitionView,
    DefinitionError,
> {
    if same_ignoring_ascii_case(method, "get"@) {
        Ok(DefinitionView::Get(url))
    } else if same_ignoring_ascii_case(method, "post"@) {
        match body {
            RawView::Absent => Err(DefinitionError::MissingPostBody),
            RawView::Text(text) => Ok(DefinitionView::Post(url, text)),
            _ => Err(DefinitionError::NotString(Field::HttpBody)),
        }
    } else {
        Err(DefinitionError::UnknownHttpType)
    }
}

/// The definition of a step of type `http`.
pub open spec fn http_of(http: Option<RawHttpView>) -> Result<DefinitionView, DefinitionError> {
    match http {
        None => Err(DefinitionError::MissingHttpObject),
        Some(part) => match text_of(part.url, Field::HttpUrl) {
            Err(e) => Err(e),
            Ok(url) => match text_of(part.typ, Field::HttpType) {
                Err(e) => Err(e),
                Ok(method) => request_of(method, url, part.body),
            },
        },
    }
}

/// What a `parse` part with this type and this content describes.
pub open spec fn document_of(typ: RawView, content: RawView) -> Result<
    DefinitionView,
    DefinitionError,
> {
    match (typ, content) {
        (RawView::Absent, RawView::Absent) => Err(DefinitionError::EmptyParseObject),
        (RawView::Absent, _) => Err(DefinitionError::Missing(Field::ParseType)),
        (_, RawView::Absent) => Err(DefinitionError::Missing(Field::ParseContent)),
        (RawView::Text(kind), RawView::Text(text)) => if kind == "document"@ {
            Ok(DefinitionView::Document(text))
        } else {
            Err(DefinitionError::InvalidParseType)
        },
        (RawView::Text(_), _) => Err(DefinitionError::NotString(Field::ParseContent)),
        (_, RawView::Text(_)) => Err(DefinitionError::NotString(Field::ParseType)),
        (_, _) => Err(DefinitionError::ParseFieldsNotStrings),
    }
}

/// The definition of a step of type `parse`.
pub open spec fn parse_of(parse: Option<RawParseView>) -> Result<DefinitionView, DefinitionError> {
    match parse {
        None => Err(DefinitionError::MissingParseObject),
        Some(part) => document_of(part.typ, part.content),
    }
}

/// The definition of a step of the given type, from the part of that name.
pub open spec fn definition_of(typ: Seq<char>, raw: RawStepView) -> Result<
    DefinitionView,
    DefinitionError,
> {
    if typ == "convert"@ {
        convert_of(raw.convert)
    } else if typ == "http"@ {
        http_of(raw.http)
    } else if typ == "parse"@ {
        parse_of(raw.parse)
    } else {
        Err(DefinitionError::UnknownStepType)
    }
}

/// The step that a record describes, or the first reason to refuse it. The
/// fields are looked at in this order: type, uuid, name, errorOnFail, next,
/// createdAt, and then the part that the type asks for.
pub open spec fn step_of(raw: RawStepView) -> Result<StepView, DefinitionError> {
    match text_of(raw.typ, Field::Type) {
        Err(e) => Err(e),
        Ok(typ) => match text_of(raw.uuid, Field::Uuid) {
            Err(e) => Err(e),
            Ok(uuid) => match text_of(raw.name, Field::Name) {
                Err(e) => Err(e),
                Ok(name) => match text_of(raw.error_on_fail, Field::ErrorOnFail) {
                    Err(e) => Err(e),
                    Ok(error_on_fail) => match next_name_of(raw.next) {
                        Err(e) => Err(e),
                        Ok(next) => match text_of(raw.created_at, Field::CreatedAt) {
                            Err(e) => Err(e),
                            Ok(created_at) => match definition_of(typ, raw) {
                                Err(e) => Err(e),
                                Ok(definition) => Ok(
                                    StepView {
                                        uuid,
                                        name,
                                        error_on_fail,
                                        created_at,
                                        definition,
                                        next,
                                    },
                                ),
                            },
                        },
                    },
                },
            },
        },
    }
}

/// An outcome of validation, as the value it stands for.
pub open spec fn outcome_view<T: View>(r: Result<T, DefinitionError>) -> Result<
    T::V,
    DefinitionError,
> {
    match r {
        Ok(value) => Ok(value@),
        Err(e) => Err(e),
    }
}

// ---------------------------------------------------------------------------
// The rules, executable.
// ---------------------------------------------------------------------------

/// Reads a field that must be a text.
pub fn required_text<'a>(raw: Raw<'a>, field: Field) -> (r: Result<&'a str, DefinitionError>)
    ensures
        match r {
            Ok(text) => text_of(raw@, field) == Ok::<Seq<char>, DefinitionError>(text@),
            Err(e) => text_of(raw@, field) == Err::<Seq<char>, DefinitionError>(e),
        },
{
    match raw {
        Raw::Text(text) => Ok(text),
        Raw::Absent => Err(DefinitionError::Missing(field)),
        _ => Err(DefinitionError::NotString(field)),
    }
}

/// Reads the `next` field.
pub fn optional_next(raw: Raw<'_>) -> (r: Result<Option<String>, DefinitionError>)
    ensures
        match r {
            Ok(Some(name)) => next_name_of(raw@) == Ok::<Option<Seq<char>>, DefinitionError>(
                Some(name@),
            ),
            Ok(None) => next_name_of(raw@) == Ok::<Option<Seq<char>>, DefinitionError>(None),
            Err(e) => next_name_of(raw@) == Err::<Option<Seq<char>>, DefinitionError>(e),
        },
{
    match raw {
        Raw::Absent => Ok(None),
        Raw::Null => Ok(None),
        Raw::Text(name) => Ok(Some(name.to_owned())),
        _ => Err(DefinitionError::NotString(Field::Next)),
    }
}

/// Decides which conversion `from`, `to` and the source describe.
pub fn conversion(from: &str, to: &str, source: Raw<'_>) -> (r: Result<
    ConvertOption,
    DefinitionError,
>)
    ensures
        outcome_view(r) == conversion_of(from@, to@, source@),
{
    let from_string = same_text(from, "string");
    let from_int = same_text(from, "int");
    let to_string = same_text(to, "string");
    let to_int = same_text(to, "int");
    if from_string && to_string {
        Err(DefinitionError::StringToString)
    } else if from_string && to_int {
        match required_text(source, Field::ConvertSource) {
            Ok(text) => Ok(ConvertOption::FromStringToInt(text.to_owned())),
            Err(e) => Err(e),
        }
    } else if from_int && to_string {
        match source {
            Raw::Absent => Err(DefinitionError::Missing(Field::ConvertSource)),
            Raw::Integer(number) => {
                if -2147483648 <= number && number <= 2147483647 {
                    Ok(ConvertOption::FromIntToString(number as i32))
                } else {
                    Err(DefinitionError::SourceNotInteger)
                }
            },
            _ => Err(DefinitionError::SourceNotInteger),
        }
    } else if from_int && to_int {
        Err(DefinitionError::IntegerToInteger)
    } else {
        Err(DefinitionError::UnknownConvertOptions)
    }
}

/// Validates the `convert` part of a record.
pub fn convert_definition(convert: Option<RawConvert<'_>>) -> (r: Result<
    ConvertDefinition,
    DefinitionError,
>)
    ensures
        outcome_view(r) == convert_of(option_convert_view(convert)),
{
    match convert {
        None => Err(DefinitionError::MissingConvertObject),
        Some(part) => {
            let from = match required_text(part.from, Field::ConvertFrom) {
                Ok(text) => text,
                Err(e) => { return Err(e); },
            };
            let to = match required_text(part.to, Field::ConvertTo) {
                Ok(text) => text,
                Err(e) => { return Err(e); },
            };
            match conversion(from, to, part.source) {
                Ok(source) => Ok(ConvertDefinition { source }),
                Err(e) => Err(e),
            }
        },
    }
}

/// Decides which request a method, a url and the body describe.
pub fn request(method: &str, url: &str, body: Raw<'_>) -> (r: Result<HttpType, DefinitionError>)
    ensures
        outcome_view(r) == request_of(method@, url@, body@),
{
    if eq_ignore_ascii_case(method, "get") {
        Ok(HttpType::Get(url.to_owned()))
    } else if eq_ignore_ascii_case(method, "post") {
        match body {
            Raw::Absent => Err(DefinitionError::MissingPostBody),
            Raw::Text(text) => Ok(HttpType::Post(url.to_owned(), text.to_owned())),
            _ => Err(DefinitionError::NotString(Field::HttpBody)),
        }
    } else {
        Err(DefinitionError::UnknownHttpType)
    }
}

/// Validates the `http` part of a record.
pub fn http_definition(http: Option<RawHttp<'_>>) -> (r: Result<HttpDefinition, DefinitionError>)
    ensures
        outcome_view(r) == http_of(option_http_view(http)),
{
    match http {
        None => Err(DefinitionError::MissingHttpObject),
        Some(part) => {
            let url = match required_text(part.url, Field::HttpUrl) {
                Ok(text) => text,
                Err(e) => { return Err(e); },
            };
            let method = match required_text(part.typ, Field::HttpType) {
                Ok(text) => text,
                Err(e) => { return Err(e); },
            };
            match request(method, url, part.body) {
                Ok(http_type) => Ok(HttpDefinition { http_type }),
                Err(e) => Err(e),
            }
        },
    }
}

/// Decides what a `parse` part with this type and this content describes.
pub fn document(typ: Raw<'_>, content: Raw<'_>) -> (r: Result<ParseType, DefinitionError>)
    ensures
        outcome_view(r) == document_of(typ@, content@),
{
    match (typ, content) {
        (Raw::Absent, Raw::Absent) => Err(DefinitionError::EmptyParseObject),
        (Raw::Absent, _) => Err(DefinitionError::Missing(Field::ParseType)),
        (_, Raw::Absent) => Err(DefinitionError::Missing(Field::ParseContent)),
        (Raw::Text(kind), Raw::Text(text)) => {
            if same_text(kind, "document") {
                Ok(ParseType::Document(text.to_owned()))
            } else {
                Err(DefinitionError::InvalidParseType)
            }
        },
        (Raw::Text(_), _) => Err(DefinitionError::NotString(Field::ParseContent)),
        (_, Raw::Text(_)) => Err(DefinitionError::NotString(Field::ParseType)),
        (_, _) => Err(DefinitionError::ParseFieldsNotStrings),
    }
}

/// Validates the `parse` part of a record.
pub fn parse_definition(parse: Option<RawParse<'_>>) -> (r: Result<
    ParseDefinition,
    DefinitionError,
>)
    ensures
        outcome_view(r) == parse_of(option_parse_view(parse)),
{
    match parse {
        None => Err(DefinitionError::MissingParseObject),
        Some(part) => match document(part.typ, part.content) {
            Ok(parse_type) => Ok(ParseDefinition { parse_type }),
            Err(e) => Err(e),
        },
    }
}

/// Validates the part of a record that its type asks for.
pub fn definition(typ: &str, raw: &RawStep<'_>) -> (r: Result<StepDefinition, DefinitionError>)
    ensures
        outcome_view(r) == definition_of(typ@, raw@),
{
    if same_text(typ, "convert") {
        match convert_definition(raw.convert) {
            Ok(convert) => Ok(StepDefinition::Convert(convert)),
            Err(e) => Err(e),
        }
    } else if same_text(typ, "http") {
        match http_definition(raw.http) {
            Ok(http) => Ok(StepDefinition::Http(http)),
            Err(e) => Err(e),
        }
    } else if same_text(typ, "parse") {
        match parse_definition(raw.parse) {
            Ok(parse) => Ok(StepDefinition::Parse(parse)),
            Err(e) => Err(e),
        }
    } else {
        Err(DefinitionError::UnknownStepType)
    }
}

impl Step {
    /// Validates a record that was read into plain values.
    pub fn from_raw(raw: &RawStep<'_>) -> (r: Result<Step, DefinitionError>)
        ensures
            outcome_view(r) == step_of(raw@),
    {
        let typ = match required_text(raw.typ, Field::Type) {
            Ok(text) => text,
            Err(e) => { return Err(e); },
        };
        let uuid = match required_text(raw.uuid, Field::Uuid) {
            Ok(text) => text,
            Err(e) => { return Err(e); },
        };
        let name = match required_text(raw.name, Field::Name) {
            Ok(text) => text,
            Err(e) => { return Err(e); },
        };
        let error_on_fail = match required_text(raw.error_on_fail, Field::ErrorOnFail) {
            Ok(text) => text,
            Err(e) => { return Err(e); },
        };
        let next = match optional_next(raw.next) {
            Ok(next) => next,
            Err(e) => { return Err(e); },
        };
        let created_at = match required_text(raw.created_at, Field::CreatedAt) {
            Ok(text) => text,
            Err(e) => { return Err(e); },
        };
        let definition = match definition(typ, raw) {
            Ok(definition) => definition,
            Err(e) => { return Err(e); },
        };
        Ok(
            Step {
                uuid: uuid.to_owned(),
                name: name.to_owned(),
                error_on_fail: error_on_fail.to_owned(),
                created_at: created_at.to_owned(),
                definition,
                next,
            },
        )
    }
}

// ---------------------------------------------------------------------------
// What the rules imply.
// ---------------------------------------------------------------------------

/// Whether the fields that every record has are in order: all but `next`
/// are texts, and `next` is a text, `null` or absent.
pub open spec fn header_is_valid(raw: RawStepView) -> bool {
    &&& raw.typ is Text
    &&& raw.uuid is Text
    &&& raw.name is Text
    &&& raw.error_on_fail is Text
    &&& raw.created_at is Text
    &&& next_name_of(raw.next) is Ok
}

/// A record of type `convert` with a valid header is accepted where it
/// converts a text to an integer and its source is a text, and where it
/// converts an integer to a text and its source is an integer of 32 bits.
/// The step then holds the very source that the record holds.
pub proof fn lemma_conversion_keeps_source(raw: RawStepView)
    requires
        header_is_valid(raw),
        raw.typ == RawView::Text("convert"@),
        raw.convert matches Some(part) && ({
            ||| part.from == RawView::Text("string"@) && part.to == RawView::Text("int"@)
                && part.source is Text
            ||| part.from == RawView::Text("int"@) && part.to == RawView::Text("string"@)
                && (part.source matches RawView::Integer(number) && i32::MIN <= number
                <= i32::MAX)
        }),
    ensures
        step_of(raw) matches Ok(step) && match raw.convert->0.source {
            RawView::Text(text) => step.definition == DefinitionView::StringToInt(text),
            RawView::Integer(number) => step.definition == DefinitionView::IntToString(
                number as i32,
            ) && number as i32 == number,
            _ => false,
        },
{
    reveal_strlit("string");
    reveal_strlit("int");
    assert("string"@.len() != "int"@.len());
}

/// A conversion from an integer to a text whose source is an integer that
/// does not fit in 32 bits is refused: no step holds a source other than
/// the one that its record holds.
pub proof fn lemma_wide_source_refused(raw: RawStepView, number: i64)
    requires
        header_is_valid(raw),
        raw.typ == RawView::Text("convert"@),
        raw.convert matches Some(part) && part.from == RawView::Text("int"@) && part.to
            == RawView::Text("string"@) && part.source == RawView::Integer(number),
        number < i32::MIN || number > i32::MAX,
    ensures
        conversion_of("int"@, "string"@, RawView::Integer(number)) == Err::<
            DefinitionView,
            DefinitionError,
        >(DefinitionError::SourceNotInteger),
        step_of(raw) == Err::<StepView, DefinitionError>(DefinitionError::SourceNotInteger),
{
    reveal_strlit("string");
    reveal_strlit("int");
    assert("string"@.len() != "int"@.len());
}

/// A conversion from a text to a text, from an integer to an integer, or
/// between any other two kinds but a text and an integer, is refused
/// whatever its source is.
pub proof fn lemma_conversion_refused(from: Seq<char>, to: Seq<char>, source: RawView)
    requires
        !(from == "string"@ && to == "int"@),
        !(from == "int"@ && to == "string"@),
    ensures
        conversion_of(from, to, source) == Err::<DefinitionView, DefinitionError>(
            if from == "string"@ && to == "string"@ {
                DefinitionError::StringToString
            } else if from == "int"@ && to == "int"@ {
                DefinitionError::IntegerToInteger
            } else {
                DefinitionError::UnknownConvertOptions
            },
        ),
{
}

/// A record of type `convert` whose conversion is one of those is refused,
/// whatever else it holds.
pub proof fn lemma_convert_record_refused(raw: RawStepView, from: Seq<char>, to: Seq<char>)
    requires
        raw.typ == RawView::Text("convert"@),
        raw.convert matches Some(part) && part.from == RawView::Text(from) && part.to
            == RawView::Text(to),
        !(from == "string"@ && to == "int"@),
        !(from == "int"@ && to == "string"@),
    ensures
        step_of(raw) is Err,
{
    lemma_conversion_refused(from, to, raw.convert->0.source);
}

/// A `post` request without a body is refused, and a `get` request is
/// accepted whatever stands in the place of its body.
pub proof fn lemma_body_is_for_post(method: Seq<char>, url: Seq<char>, body: RawView)
    ensures
        same_ignoring_ascii_case(method, "post"@) ==> request_of(method, url, RawView::Absent)
            == Err::<DefinitionView, DefinitionError>(DefinitionError::MissingPostBody),
        same_ignoring_ascii_case(method, "get"@) ==> request_of(method, url, body) == Ok::<
            DefinitionView,
            DefinitionError,
        >(DefinitionView::Get(url)),
{
    reveal_strlit("get");
    reveal_strlit("post");
    assert("get"@.len() != "post"@.len());
}

/// A record of type `http` whose method reads `post` and which has no body
/// is refused, whatever else it holds; one with a valid header whose method
/// reads `get` and whose url is a text is accepted, body or not.
pub proof fn lemma_http_record_and_body(raw: RawStepView, method: Seq<char>)
    requires
        raw.typ == RawView::Text("http"@),
        raw.http matches Some(part) && part.typ == RawView::Text(method),
    ensures
        same_ignoring_ascii_case(method, "post"@) && raw.http->0.body is Absent ==> step_of(raw)
            is Err,
        same_ignoring_ascii_case(method, "get"@) && header_is_valid(raw) && raw.http->0.url
            is Text ==> (step_of(raw) matches Ok(step) && step.definition == DefinitionView::Get(
            raw.http->0.url->Text_0,
        )),
{
    reveal_strlit("http");
    reveal_strlit("convert");
    assert("http"@.len() != "convert"@.len());
    if raw.http->0.url is Text {
        lemma_body_is_for_post(method, raw.http->0.url->Text_0, raw.http->0.body);
    }
}

} // verus!
