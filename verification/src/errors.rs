//! Why a step record is refused.

use vstd::prelude::*;
use vstd::string::*;

verus! {

/// A field of a step record, named by where it stands in the record.
#[derive(Debug, Clone, Copy, PartialEq, Eq)]
pub enum Field {
    Type,
    Uuid,
    Name,
    ErrorOnFail,
    CreatedAt,
    Next,
    ConvertFrom,
    ConvertTo,
    ConvertSource,
    HttpUrl,
    HttpType,
    HttpBody,
    ParseType,
    ParseContent,
}

/// The one failure that ends the validation of a batch of step records.
#[derive(Debug, Clone, Copy, PartialEq, Eq)]
pub enum DefinitionError {
    /// The document is not a list of records.
    NotAList,
    /// A field that must be there is not.
    Missing(Field),
    /// A field that must be a text is something else.
    NotString(Field),
    MissingConvertObject,
    StringToString,
    IntegerToInteger,
    UnknownConvertOptions,
    /// A conversion from an integer whose source is no integer of 32 bits.
    SourceNotInteger,
    MissingHttpObject,
    MissingPostBody,
    UnknownHttpType,
    MissingParseObject,
    /// A `parse` part with neither a type nor a content.
    EmptyParseObject,
    /// A `parse` part whose type and content are both no texts.
    ParseFieldsNotStrings,
    InvalidParseType,
    UnknownStepType,
}

impl Field {
    /// The field's place in the record, as it is shown in messages.
    pub open spec fn path(self) -> Seq<char> {
        match self {
            Field::Type => "type"@,
            Field::Uuid => "uuid"@,
            Field::Name => "name"@,
            Field::ErrorOnFail => "errorOnFail"@,
            Field::CreatedAt => "createdAt"@,
            Field::Next => "next"@,
            Field::ConvertFrom => "convert –» from"@,
            Field::ConvertTo => "convert –» to"@,
            Field::ConvertSource => "convert –» source"@,
            Field::HttpUrl => "http –» url"@,
            Field::HttpType => "http –» type"@,
            Field::HttpBody => "http –» body"@,
            Field::ParseType => "parse –» type"@,
            Field::ParseContent => "parse –» content"@,
        }
    }

    /// The field's place in the record, as a text.
    pub fn path_text(self) -> (r: &'static str)
        ensures
            r@ == self.path(),
    {
        match self {
            Field::Type => "type",
            Field::Uuid => "uuid",
            Field::Name => "name",
            Field::ErrorOnFail => "errorOnFail",
            Field::CreatedAt => "createdAt",
            Field::Next => "next",
            Field::ConvertFrom => "convert –» from",
            Field::ConvertTo => "convert –» to",
            Field::ConvertSource => "convert –» source",
            Field::HttpUrl => "http –» url",
            Field::HttpType => "http –» type",
            Field::HttpBody => "http –» body",
            Field::ParseType => "parse –» type",
            Field::ParseContent => "parse –» content",
        }
    }
}

impl DefinitionError {
    /// The text that describes the failure.
    pub open spec fn message_text(self) -> Seq<char> {
        match self {
            DefinitionError::NotAList => "steps are not a list"@,
            DefinitionError::Missing(field) => "missing "@ + field.path(),
            DefinitionError::NotString(field) => field.path() + " is not a string"@,
            DefinitionError::MissingConvertObject => "missing convert object"@,
            DefinitionError::StringToString => "cannot convert from string to string"@,
            DefinitionError::IntegerToInteger => "cannot convert from integer to integer"@,
            DefinitionError::UnknownConvertOptions => "unknown convert options"@,
            DefinitionError::SourceNotInteger =>
                "Couldn't parse [convert –» source] to integer. Maybe you wanted to parse from string to integer?"@,
            DefinitionError::MissingHttpObject => "http missing"@,
            DefinitionError::MissingPostBody => "Missing body for post request step."@,
            DefinitionError::UnknownHttpType =>
                "Unknown http type. Supported types are GET and POST."@,
            DefinitionError::MissingParseObject => "invalid parse step"@,
            DefinitionError::EmptyParseObject => "empty parse object"@,
            DefinitionError::ParseFieldsNotStrings =>
                "parse –» type is not a string and parse –» content is not a string"@,
            DefinitionError::InvalidParseType => "invalid parse type"@,
            DefinitionError::UnknownStepType => "Unknown step type"@,
        }
    }

    /// Writes out the text that describes the failure.
    pub fn message(&self) -> (r: String)
        ensures
            r@ == self.message_text(),
    {
        match *self {
            DefinitionError::NotAList => "steps are not a list".to_owned(),
            DefinitionError::Missing(field) => "missing ".to_owned().concat(field.path_text()),
            DefinitionError::NotString(field) => field.path_text().to_owned().concat(
                " is not a string",
            ),
            DefinitionError::MissingConvertObject => "missing convert object".to_owned(),
            DefinitionError::StringToString => "cannot convert from string to string".to_owned(),
            DefinitionError::IntegerToInteger => "cannot convert from integer to integer".to_owned(),
            DefinitionError::UnknownConvertOptions => "unknown convert options".to_owned(),
            DefinitionError::SourceNotInteger =>
                "Couldn't parse [convert –» source] to integer. Maybe you wanted to parse from string to integer?".to_owned(),
            DefinitionError::MissingHttpObject => "http missing".to_owned(),
            DefinitionError::MissingPostBody => "Missing body for post request step.".to_owned(),
            DefinitionError::UnknownHttpType =>
                "Unknown http type. Supported types are GET and POST.".to_owned(),
            DefinitionError::MissingParseObject => "invalid parse step".to_owned(),
            DefinitionError::EmptyParseObject => "empty parse object".to_owned(),
            DefinitionError::ParseFieldsNotStrings =>
                "parse –» type is not a string and parse –» content is not a string".to_owned(),
            DefinitionError::InvalidParseType => "invalid parse type".to_owned(),
            DefinitionError::UnknownStepType => "Unknown step type".to_owned(),
        }
    }
}

} // verus!
