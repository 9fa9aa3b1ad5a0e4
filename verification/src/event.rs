//! Classification of events by their discriminating fields.

use crate::json::Object;
use crate::text::same_text;
use vstd::prelude::*;

verus! {

/// What an event is about.
///
/// Cargo and the compiler mark their events with a string field `reason`, the
/// test harness marks its events with a string field `type`. Where an event
/// has both, `reason` decides.
#[derive(Clone, Copy, Debug, PartialEq, Eq, Structural)]
pub enum Category {
    /// `reason` is `timing-info`.
    TimingInfo,
    /// `reason` is `build-script-executed`.
    BuildScriptExecuted,
    /// `reason` is `compiler-artifact`.
    CompilerArtifact,
    /// `reason` is `compiler-message`.
    CompilerMessage,
    /// `reason` is `build-finished`.
    BuildFinished,
    /// `reason` is any other string.
    UnknownCompiler,
    /// `type` is `suite`.
    Suite,
    /// `type` is `bench`.
    Bench,
    /// `type` is `test`.
    Test,
    /// `type` is any other string.
    UnknownTest,
    /// Neither `reason` nor `type` is a string.
    Unrecognized,
}

/// Category of an event of cargo or the compiler, by its `reason`.
pub open spec fn compiler_category(reason: Seq<char>) -> Category {
    if reason == "timing-info"@ {
        Category::TimingInfo
    } else if reason == "build-script-executed"@ {
        Category::BuildScriptExecuted
    } else if reason == "compiler-artifact"@ {
        Category::CompilerArtifact
    } else if reason == "compiler-message"@ {
        Category::CompilerMessage
    } else if reason == "build-finished"@ {
        Category::BuildFinished
    } else {
        Category::UnknownCompiler
    }
}

/// Category of an event of the test harness, by its `type`.
pub open spec fn harness_category(kind: Seq<char>) -> Category {
    if kind == "suite"@ {
        Category::Suite
    } else if kind == "bench"@ {
        Category::Bench
    } else if kind == "test"@ {
        Category::Test
    } else {
        Category::UnknownTest
    }
}

/// Category of an event.
pub open spec fn category(event: Object) -> Category {
    match event.text("reason"@) {
        Some(reason) => compiler_category(reason),
        None => match event.text("type"@) {
            Some(kind) => harness_category(kind),
            None => Category::Unrecognized,
        },
    }
}

/// Classifies an event.
pub fn classify(event: &Object) -> (c: Category)
    ensures
        c == category(*event),
{
    match event.get_text("reason") {
        Some(reason) => {
            let reason = reason.as_str();
            if same_text(reason, "timing-info") {
                Category::TimingInfo
            } else if same_text(reason, "build-script-executed") {
                Category::BuildScriptExecuted
            } else if same_text(reason, "compiler-artifact") {
                Category::CompilerArtifact
            } else if same_text(reason, "compiler-message") {
                Category::CompilerMessage
            } else if same_text(reason, "build-finished") {
                Category::BuildFinished
            } else {
                Category::UnknownCompiler
            }
        },
        None => match event.get_text("type") {
            Some(kind) => {
                let kind = kind.as_str();
                if same_text(kind, "suite") {
                    Category::Suite
                } else if same_text(kind, "bench") {
                    Category::Bench
                } else if same_text(kind, "test") {
                    Category::Test
                } else {
                    Category::UnknownTest
                }
            },
            None => Category::Unrecognized,
        },
    }
}

/// Each known `reason` has its own category, whatever else the event holds.
pub proof fn lemma_compiler_categories(event: Object)
    ensures
        event.text("reason"@) == Some("timing-info"@) ==> category(event) == Category::TimingInfo,
        event.text("reason"@) == Some("build-script-executed"@) ==> category(event)
            == Category::BuildScriptExecuted,
        event.text("reason"@) == Some("compiler-artifact"@) ==> category(event)
            == Category::CompilerArtifact,
        event.text("reason"@) == Some("compiler-message"@) ==> category(event)
            == Category::CompilerMessage,
        event.text("reason"@) == Some("build-finished"@) ==> category(event)
            == Category::BuildFinished,
{
    reveal_strlit("timing-info");
    reveal_strlit("build-script-executed");
    reveal_strlit("compiler-artifact");
    reveal_strlit("compiler-message");
    reveal_strlit("build-finished");
    assert("timing-info"@.len() == 11);
    assert("build-script-executed"@.len() == 21);
    assert("compiler-artifact"@.len() == 17);
    assert("compiler-message"@.len() == 16);
    assert("build-finished"@.len() == 14);
}

/// Each known `type` has its own category in an event that has no string
/// `reason`.
pub proof fn lemma_harness_categories(event: Object)
    requires
        event.text("reason"@) is None,
    ensures
        event.text("type"@) == Some("suite"@) ==> category(event) == Category::Suite,
        event.text("type"@) == Some("bench"@) ==> category(event) == Category::Bench,
        event.text("type"@) == Some("test"@) ==> category(event) == Category::Test,
{
    reveal_strlit("suite");
    reveal_strlit("bench");
    reveal_strlit("test");
    assert("suite"@.len() == 5 && "bench"@.len() == 5 && "test"@.len() == 4);
    assert("suite"@[0] == 's' && "bench"@[0] == 'b');
}

/// An event that has a string `reason` is never taken for an event of the
/// test harness.
pub proof fn lemma_reason_decides(event: Object)
    requires
        event.text("reason"@) is Some,
    ensures
        category(event) != Category::Suite,
        category(event) != Category::Bench,
        category(event) != Category::Test,
        category(event) != Category::UnknownTest,
        category(event) != Category::Unrecognized,
{
}

} // verus!
