//! How a failed exchange with the presence service is put to the caller.
//!
//! Every failure reaches the caller as one line of text: a fixed prefix that
//! names the stage at which the service refused, followed by the service's own
//! words.

use vstd::prelude::*;
use vstd::string::*;

verus! {

/// The stage of a session operation at which the presence service refused.
#[derive(Clone, Copy, Debug, PartialEq, Eq, Structural)]
pub enum FailureStage {
    /// The client object could not be built.
    Construction,
    /// The socket could not be opened or the handshake was not answered.
    Handshake,
    /// An activity could not be set.
    ActivitySet,
    /// The activity could not be cleared.
    ActivityClear,
}

impl FailureStage {
    /// The text that opens every message of this stage.
    pub open spec fn prefix_text(self) -> Seq<char> {
        match self {
            FailureStage::Construction => "Failed to create Discord client: "@,
            FailureStage::Handshake => "Failed to connect to Discord: "@,
            FailureStage::ActivitySet => "Failed to set activity: "@,
            FailureStage::ActivityClear => "Failed to clear activity: "@,
        }
    }

    /// Whether this stage concerns the activity shown, as opposed to the
    /// connection itself.
    pub open spec fn concerns_activity(self) -> bool {
        self is ActivitySet || self is ActivityClear
    }

    /// The text that opens every message of this stage.
    pub fn prefix(self) -> (p: &'static str)
        ensures
            p@ == self.prefix_text(),
    {
        match self {
            FailureStage::Construction => "Failed to create Discord client: ",
            FailureStage::Handshake => "Failed to connect to Discord: ",
            FailureStage::ActivitySet => "Failed to set activity: ",
            FailureStage::ActivityClear => "Failed to clear activity: ",
        }
    }
}

/// The message for a failure at `stage` whose cause reads `detail`.
pub open spec fn failure_text(stage: FailureStage, detail: Seq<char>) -> Seq<char> {
    stage.prefix_text() + detail
}

/// Whether `text` is a message of `stage`, whatever the cause.
pub open spec fn is_failure_of(text: Seq<char>, stage: FailureStage) -> bool {
    exists|detail: Seq<char>| text == #[trigger] failure_text(stage, detail)
}

/// What the caller sees for an exchange at `stage` that ended in `outcome`.
pub open spec fn explained<T>(stage: FailureStage, outcome: Result<T, Seq<char>>) -> Result<
    T,
    Seq<char>,
> {
    match outcome {
        Ok(value) => Ok(value),
        Err(detail) => Err(failure_text(stage, detail)),
    }
}

/// A result whose error is a line of text, with the line as plain values.
pub open spec fn result_text<T>(r: Result<T, String>) -> Result<T, Seq<char>> {
    match r {
        Ok(value) => Ok(value),
        Err(line) => Err(line@),
    }
}

/// Writes the message for a failure at `stage` whose cause reads `detail`.
pub fn failure_message(stage: FailureStage, detail: &str) -> (m: String)
    ensures
        m@ == failure_text(stage, detail@),
{
    String::from_str(stage.prefix()).concat(detail)
}

/// Turns the outcome of one exchange into the caller's result: success stays
/// success, and a failure gets the prefix of its stage. Nothing is retried.
pub fn explain<T>(stage: FailureStage, outcome: Result<T, String>) -> (r: Result<T, String>)
    ensures
        result_text(r) == explained(stage, result_text(outcome)),
{
    match outcome {
        Ok(value) => Ok(value),
        Err(detail) => Err(failure_message(stage, detail.as_str())),
    }
}

/// Whether `word` stands in `text` from position `at` on.
pub open spec fn occurs_at(text: Seq<char>, word: Seq<char>, at: int) -> bool {
    &&& 0 <= at
    &&& at + word.len() <= text.len()
    &&& text.subrange(at, at + word.len()) == word
}

/// Whether `word` stands somewhere in `text`.
pub open spec fn mentions(text: Seq<char>, word: Seq<char>) -> bool {
    exists|at: int| occurs_at(text, word, at)
}

/// A failure to set or to clear the activity always says "activity",
/// whatever the service gave as the cause.
pub proof fn lemma_activity_failure_mentions_activity(stage: FailureStage, detail: Seq<char>)
    requires
        stage.concerns_activity(),
    ensures
        mentions(failure_text(stage, detail), "activity"@),
{
    reveal_strlit("activity");
    reveal_strlit("Failed to set activity: ");
    reveal_strlit("Failed to clear activity: ");
    let text = failure_text(stage, detail);
    let at: int = if stage is ActivitySet { 14 } else { 16 };
    assert(text.subrange(at, at + 8) =~= "activity"@);
    assert(occurs_at(text, "activity"@, at));
}

} // verus!
