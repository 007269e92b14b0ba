use serde_json::{Number, Value};
use step_graph::errors::DefinitionError;
use step_graph::machine::{Ending, StateMachine};
use step_graph::models::{HttpDefinition, HttpType, Step, StepDefinition, StrOrNum, StrStep};
use step_graph::normalize::{check_source, value_to_item, Attribute, Part, Record, Scalar};
use step_graph::serializer::{run_parse, ParseError};

fn text(value: &str) -> Scalar {
    Scalar::S(value.to_string())
}

fn part(entries: Vec<(&str, Scalar)>) -> Attribute {
    let mut part = Part::new();
    for (key, value) in entries {
        part.insert(key.to_string(), value);
    }
    Attribute::M(part)
}

fn stored(name: &str, typ: &str, next: &str, definition: (&str, Attribute)) -> Record {
    let mut item = Record::new();
    item.insert("type".to_string(), Attribute::S(typ.to_string()));
    item.insert("uuid".to_string(), Attribute::S(format!("uuid-{}", name)));
    item.insert("name".to_string(), Attribute::S(name.to_string()));
    item.insert("error_on_fail".to_string(), Attribute::S(format!("{} failed", name)));
    item.insert("created_at".to_string(), Attribute::S("2022-05-01".to_string()));
    item.insert("next".to_string(), Attribute::S(next.to_string()));
    item.insert(definition.0.to_string(), definition.1);
    item
}

fn optional(value: Option<String>) -> Value {
    match value {
        Some(text) => Value::String(text),
        None => Value::Null,
    }
}

/// Writes a record out in the JSON shape: every field is there, and what is
/// missing is `null`.
fn written(step: StrStep) -> Value {
    let mut record = serde_json::Map::new();
    record.insert("type".to_string(), Value::String(step.typ));
    record.insert("uuid".to_string(), Value::String(step.uuid));
    record.insert("name".to_string(), Value::String(step.name));
    record.insert("errorOnFail".to_string(), Value::String(step.error_on_fail));
    record.insert("createdAt".to_string(), Value::String(step.created_at));
    record.insert("next".to_string(), optional(step.next));
    record.insert(
        "http".to_string(),
        match step.http {
            None => Value::Null,
            Some(http) => {
                let mut part = serde_json::Map::new();
                part.insert("type".to_string(), Value::String(http.typ));
                part.insert("url".to_string(), Value::String(http.url));
                part.insert("body".to_string(), optional(http.body));
                Value::Object(part)
            }
        },
    );
    record.insert(
        "parse".to_string(),
        match step.parse {
            None => Value::Null,
            Some(parse) => {
                let mut part = serde_json::Map::new();
                part.insert("type".to_string(), Value::String(parse.typ));
                part.insert("content".to_string(), Value::String(parse.content));
                Value::Object(part)
            }
        },
    );
    record.insert(
        "convert".to_string(),
        match step.convert {
            None => Value::Null,
            Some(convert) => {
                let mut part = serde_json::Map::new();
                part.insert("type".to_string(), Value::String(convert.typ));
                part.insert("from".to_string(), Value::String(convert.from));
                part.insert("to".to_string(), Value::String(convert.to));
                part.insert(
                    "source".to_string(),
                    match convert.source {
                        StrOrNum::Str(text) => Value::String(text),
                        StrOrNum::Num(number) => Value::Number(Number::from(number)),
                    },
                );
                Value::Object(part)
            }
        },
    );
    Value::Object(record)
}

fn batch(items: Vec<Record>) -> String {
    let mut records = Vec::new();
    for item in &items {
        assert!(check_source(item));
        records.push(written(value_to_item(item)));
    }
    serde_json::to_string_pretty(&Value::Array(records)).unwrap()
}

#[test]
fn stored_records_become_a_graph_that_is_walked() {
    let text_of_batch = batch(vec![
        stored(
            "fetch",
            "http",
            "read",
            ("http", part(vec![("type", text("GET")), ("url", text("https://example.org"))])),
        ),
        stored(
            "read",
            "parse",
            "count",
            ("parse", part(vec![("type", text("document")), ("content", text("<p>41</p>"))])),
        ),
        stored(
            "count",
            "convert",
            "",
            (
                "convert",
                part(vec![
                    ("type", text("convert")),
                    ("from", text("int")),
                    ("to", text("string")),
                    ("source", Scalar::N("41".to_string())),
                ]),
            ),
        ),
    ]);
    let steps = run_parse(&text_of_batch).unwrap();
    assert_eq!(steps.len(), 3);
    assert_eq!(
        steps[0].definition,
        StepDefinition::Http(HttpDefinition {
            http_type: HttpType::Get("https://example.org".to_string())
        })
    );
    assert_eq!(steps[2].next, None);

    let first = steps.first().unwrap().to_owned();
    let machine = StateMachine::new(first).insert_batch(steps);
    let report = machine.run(|_step: &Step| true, usize::MAX);
    let names: Vec<&str> = report.visited.iter().map(|step| step.name.as_str()).collect();
    assert_eq!(names, vec!["fetch", "read", "count"]);
    assert_eq!(report.ending, Ending::Completed);

    let report = machine.run(|step: &Step| step.name != "read", usize::MAX);
    let names: Vec<&str> = report.visited.iter().map(|step| step.name.as_str()).collect();
    assert_eq!(names, vec!["fetch", "read"]);
    assert_eq!(report.ending, Ending::Failed("read failed".to_string()));
}

#[test]
fn stored_record_with_a_lenient_default_is_refused_by_validation() {
    // An http part of an unknown method is reshaped like any other, and the
    // record is then refused for its method.
    let text_of_batch = batch(vec![stored(
        "fetch",
        "http",
        "",
        ("http", part(vec![("type", text("PUT")), ("url", text("u"))])),
    )]);
    match run_parse(&text_of_batch) {
        Err(ParseError::Definition(e)) => {
            assert_eq!(e, DefinitionError::UnknownHttpType)
        }
        other => panic!("unexpected outcome: {:?}", other),
    }
    // A conversion whose source is a text, where it should be an integer.
    let text_of_batch = batch(vec![stored(
        "count",
        "convert",
        "",
        (
            "convert",
            part(vec![("from", text("int")), ("to", text("string")), ("source", text("41"))]),
        ),
    )]);
    match run_parse(&text_of_batch) {
        Err(ParseError::Definition(e)) => assert_eq!(e, DefinitionError::SourceNotInteger),
        other => panic!("unexpected outcome: {:?}", other),
    }
    // A record of type http that has no http map.
    let mut item = Record::new();
    item.insert("type".to_string(), Attribute::S("http".to_string()));
    item.insert("uuid".to_string(), Attribute::S("u".to_string()));
    item.insert("name".to_string(), Attribute::S("n".to_string()));
    item.insert("error_on_fail".to_string(), Attribute::S("e".to_string()));
    item.insert("created_at".to_string(), Attribute::S("t".to_string()));
    match run_parse(&batch(vec![item])) {
        Err(ParseError::Definition(e)) => assert_eq!(e, DefinitionError::MissingHttpObject),
        other => panic!("unexpected outcome: {:?}", other),
    }
    // A record of a type that the store does not know.
    let mut item = Record::new();
    item.insert("type".to_string(), Attribute::S("sleep".to_string()));
    match run_parse(&batch(vec![item])) {
        Err(ParseError::Definition(e)) => assert_eq!(e, DefinitionError::UnknownStepType),
        other => panic!("unexpected outcome: {:?}", other),
    }
}
