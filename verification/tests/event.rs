use cargo_service_message::event::{classify, Category};
use cargo_service_message::json::{decode, Parsed};

fn category(line: &str) -> Category {
    match decode(line).into_iter().next() {
        Some(Parsed::Event(event)) => classify(&event),
        _ => panic!("an object was expected"),
    }
}

#[test]
fn events_of_the_compiler_are_told_apart_by_their_reason() {
    assert_eq!(category(r#"{"reason":"timing-info"}"#), Category::TimingInfo);
    assert_eq!(category(r#"{"reason":"build-script-executed"}"#), Category::BuildScriptExecuted);
    assert_eq!(category(r#"{"reason":"compiler-artifact"}"#), Category::CompilerArtifact);
    assert_eq!(category(r#"{"reason":"compiler-message"}"#), Category::CompilerMessage);
    assert_eq!(category(r#"{"reason":"build-finished"}"#), Category::BuildFinished);
    assert_eq!(category(r#"{"reason":"Build-Finished"}"#), Category::UnknownCompiler);
    assert_eq!(category(r#"{"reason":""}"#), Category::UnknownCompiler);
}

#[test]
fn events_of_the_harness_are_told_apart_by_their_type() {
    assert_eq!(category(r#"{"type":"suite"}"#), Category::Suite);
    assert_eq!(category(r#"{"type":"bench"}"#), Category::Bench);
    assert_eq!(category(r#"{"type":"test"}"#), Category::Test);
    assert_eq!(category(r#"{"type":"tests"}"#), Category::UnknownTest);
}

#[test]
fn the_reason_goes_before_the_type() {
    assert_eq!(category(r#"{"type":"test","reason":"timing-info"}"#), Category::TimingInfo);
    assert_eq!(category(r#"{"type":"test","reason":"x"}"#), Category::UnknownCompiler);
    assert_eq!(category(r#"{"type":"test","reason":null}"#), Category::Test);
}

#[test]
fn an_event_without_either_is_not_recognized() {
    assert_eq!(category(r#"{}"#), Category::Unrecognized);
    assert_eq!(category(r#"{"reason":1,"type":["test"]}"#), Category::Unrecognized);
}
