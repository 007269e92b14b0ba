//! The step model: a validated step with its typed definition, and the
//! loosely typed record from which steps are written out before validation.

use vstd::prelude::*;

verus! {

/// What a conversion step converts, with the value it starts from.
#[derive(Debug, PartialEq, Clone)]
pub enum ConvertOption {
    FromIntToString(i32),
    FromStringToInt(String),
}

/// The definition of a conversion step.
#[derive(Debug, PartialEq, Clone)]
pub struct ConvertDefinition {
    pub source: ConvertOption,
}

/// What a parse step parses, with the raw text to be parsed.
#[derive(Debug, PartialEq, Clone)]
pub enum ParseType {
    Document(String),
}

/// The definition of a parse step.
#[derive(Debug, PartialEq, Clone)]
pub struct ParseDefinition {
    pub parse_type: ParseType,
}

/// The request of an http step: `Get` holds the url, `Post` the url and the body.
#[derive(Debug, PartialEq, Clone)]
pub enum HttpType {
    Get(String),
    Post(String, String),
}

/// The definition of an http step.
#[derive(Debug, PartialEq, Clone)]
pub struct HttpDefinition {
    pub http_type: HttpType,
}

/// A parse definition equals a parse type where it holds that type.
impl PartialEq<ParseType> for ParseDefinition {
    fn eq(&self, other: &ParseType) -> (r: bool) {
        match (&self.parse_type, other) {
            (ParseType::Document(mine), ParseType::Document(theirs)) => *mine == *theirs,
        }
    }
}

impl vstd::std_specs::cmp::PartialEqSpecImpl<ParseType> for ParseDefinition {
    open spec fn obeys_eq_spec() -> bool {
        true
    }

    open spec fn eq_spec(&self, other: &ParseType) -> bool {
        self.parse_type@ == other@
    }
}

/// A parse type equals a parse definition where the definition holds it.
impl PartialEq<ParseDefinition> for ParseType {
    fn eq(&self, other: &ParseDefinition) -> (r: bool) {
        match (self, &other.parse_type) {
            (ParseType::Document(mine), ParseType::Document(theirs)) => *mine == *theirs,
        }
    }
}

impl vstd::std_specs::cmp::PartialEqSpecImpl<ParseDefinition> for ParseType {
    open spec fn obeys_eq_spec() -> bool {
        true
    }

    open spec fn eq_spec(&self, other: &ParseDefinition) -> bool {
        self@ == other.parse_type@
    }
}

/// The payload of a step: exactly one of the three kinds.
#[derive(Debug, PartialEq, Clone)]
pub enum StepDefinition {
    Convert(ConvertDefinition),
    Parse(ParseDefinition),
    Http(HttpDefinition),
}

/// One unit of the pipeline. `name` is the step's address in the graph and
/// `next`, where present, names the step that follows.
#[derive(Debug, PartialEq, Clone)]
pub struct Step {
    pub uuid: String,
    pub name: String,
    pub error_on_fail: String,
    pub created_at: String,
    pub definition: StepDefinition,
    pub next: Option<String>,
}

/// The mathematical value of a step definition.
pub enum DefinitionView {
    IntToString(i32),
    StringToInt(Seq<char>),
    Document(Seq<char>),
    Get(Seq<char>),
    Post(Seq<char>, Seq<char>),
}

/// The mathematical value of a step.
pub struct StepView {
    pub uuid: Seq<char>,
    pub name: Seq<char>,
    pub error_on_fail: Seq<char>,
    pub created_at: Seq<char>,
    pub definition: DefinitionView,
    pub next: Option<Seq<char>>,
}

/// The characters of an optional text.
pub open spec fn option_text(s: Option<String>) -> Option<Seq<char>> {
    match s {
        Some(text) => Some(text@),
        None => None,
    }
}

impl View for ConvertOption {
    type V = DefinitionView;

    open spec fn view(&self) -> DefinitionView {
        match *self {
            ConvertOption::FromIntToString(number) => DefinitionView::IntToString(number),
            ConvertOption::FromStringToInt(text) => DefinitionView::StringToInt(text@),
        }
    }
}

impl View for ParseType {
    type V = DefinitionView;

    open spec fn view(&self) -> DefinitionView {
        match *self {
            ParseType::Document(content) => DefinitionView::Document(content@),
        }
    }
}

impl View for HttpType {
    type V = DefinitionView;

    open spec fn view(&self) -> DefinitionView {
        match *self {
            HttpType::Get(url) => DefinitionView::Get(url@),
            HttpType::Post(url, body) => DefinitionView::Post(url@, body@),
        }
    }
}

impl View for ConvertDefinition {
    type V = DefinitionView;

    open spec fn view(&self) -> DefinitionView {
        self.source@
    }
}

impl View for ParseDefinition {
    type V = DefinitionView;

    open spec fn view(&self) -> DefinitionView {
        self.parse_type@
    }
}

impl View for HttpDefinition {
    type V = DefinitionView;

    open spec fn view(&self) -> DefinitionView {
        self.http_type@
    }
}

impl View for StepDefinition {
    type V = DefinitionView;

    open spec fn view(&self) -> DefinitionView {
        match *self {
            StepDefinition::Convert(convert) => convert@,
            StepDefinition::Parse(parse) => parse@,
            StepDefinition::Http(http) => http@,
        }
    }
}

impl View for Step {
    type V = StepView;

    open spec fn view(&self) -> StepView {
        StepView {
            uuid: self.uuid@,
            name: self.name@,
            error_on_fail: self.error_on_fail@,
            created_at: self.created_at@,
            definition: self.definition@,
            next: option_text(self.next),
        }
    }
}

/// The `http` part of a record as it is written out.
#[derive(Debug, PartialEq, Clone)]
pub struct HttpStrType {
    pub typ: String,
    pub url: String,
    pub body: Option<String>,
}

/// The `parse` part of a record as it is written out.
#[derive(Debug, PartialEq, Clone)]
pub struct ParseStrType {
    pub typ: String,
    pub content: String,
}

/// The source of a conversion as it is written out: a text or a number.
#[derive(Debug, PartialEq, Clone)]
pub enum StrOrNum {
    Str(String),
    Num(i32),
}

/// The `convert` part of a record as it is written out.
#[derive(Debug, PartialEq, Clone)]
pub struct ConvertStrType {
    pub typ: String,
    pub from: String,
    pub to: String,
    pub source: StrOrNum,
}

/// A step record in the canonical shape, before validation: every scalar is
/// a text, and each of the three parts is there or not.
#[derive(Debug, PartialEq, Clone)]
pub struct StrStep {
    pub typ: String,
    pub uuid: String,
    pub name: String,
    pub error_on_fail: String,
    pub created_at: String,
    pub next: Option<String>,
    pub http: Option<HttpStrType>,
    pub parse: Option<ParseStrType>,
    pub convert: Option<ConvertStrType>,
}

/// The mathematical value of an [`HttpStrType`].
pub struct HttpStrView {
    pub typ: Seq<char>,
    pub url: Seq<char>,
    pub body: Option<Seq<char>>,
}

/// The mathematical value of a [`ParseStrType`].
pub struct ParseStrView {
    pub typ: Seq<char>,
    pub content: Seq<char>,
}

/// The mathematical value of a [`StrOrNum`].
pub enum StrOrNumView {
    Str(Seq<char>),
    Num(i32),
}

/// The mathematical value of a [`ConvertStrType`].
pub struct ConvertStrView {
    pub typ: Seq<char>,
    pub from: Seq<char>,
    pub to: Seq<char>,
    pub source: StrOrNumView,
}

/// The mathematical value of a [`StrStep`].
pub struct StrStepView {
    pub typ: Seq<char>,
    pub uuid: Seq<char>,
    pub name: Seq<char>,
    pub error_on_fail: Seq<char>,
    pub created_at: Seq<char>,
    pub next: Option<Seq<char>>,
    pub http: Option<HttpStrView>,
    pub parse: Option<ParseStrView>,
    pub convert: Option<ConvertStrView>,
}

impl View for HttpStrType {
    type V = HttpStrView;

    open spec fn view(&self) -> HttpStrView {
        HttpStrView { typ: self.typ@, url: self.url@, body: option_text(self.body) }
    }
}

impl View for ParseStrType {
    type V = ParseStrView;

    open spec fn view(&self) -> ParseStrView {
        ParseStrView { typ: self.typ@, content: self.content@ }
    }
}

impl View for StrOrNum {
    type V = StrOrNumView;

    open spec fn view(&self) -> StrOrNumView {
        match *self {
            StrOrNum::Str(text) => StrOrNumView::Str(text@),
            StrOrNum::Num(number) => StrOrNumView::Num(number),
        }
    }
}

impl View for ConvertStrType {
    type V = ConvertStrView;

    open spec fn view(&self) -> ConvertStrView {
        ConvertStrView { typ: self.typ@, from: self.from@, to: self.to@, source: self.source@ }
    }
}

impl View for StrStep {
    type V = StrStepView;

    open spec fn view(&self) -> StrStepView {
        StrStepView {
            typ: self.typ@,
            uuid: self.uuid@,
            name: self.name@,
            error_on_fail: self.error_on_fail@,
            created_at: self.created_at@,
            next: option_text(self.next),
            http: match self.http {
                Some(http) => Some(http@),
                None => None,
            },
            parse: match self.parse {
                Some(parse) => Some(parse@),
                None => None,
            },
            convert: match self.convert {
                Some(convert) => Some(convert@),
                None => None,
            },
        }
    }
}

} // verus!
