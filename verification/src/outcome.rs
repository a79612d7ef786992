//! What became of the helper process, and the answer the caller gets for it.

use crate::whitespace::{
    is_whitespace, lemma_trim_drops_final_line_feed, lemma_trim_keeps_bare_text, trim, trimmed,
};
use vstd::prelude::*;
use vstd::string::StringExecFns;
use vstd::utf8::{
    decode_utf8, encode_utf8, encode_utf8_decode_utf8, encode_utf8_valid_utf8, valid_utf8,
};

verus! {

/// How the attempt to run the helper script ended.
#[derive(Debug, Clone, PartialEq, Eq)]
pub enum ProcessOutcome {
    /// The interpreter could not be started; `reason` says why.
    NotStarted { reason: String },
    /// The process ran and ended. `exit_code` is its exit status, or `None`
    /// where it ended without one; the two streams hold all that it wrote.
    Finished { exit_code: Option<i32>, stdout: Vec<u8>, stderr: Vec<u8> },
}

/// An outcome as plain values.
pub enum ProcessOutcomeView {
    NotStarted { reason: Seq<char> },
    Finished { exit_code: Option<int>, stdout: Seq<u8>, stderr: Seq<u8> },
}

impl View for ProcessOutcome {
    type V = ProcessOutcomeView;

    open spec fn view(&self) -> ProcessOutcomeView {
        match *self {
            ProcessOutcome::NotStarted { reason } => ProcessOutcomeView::NotStarted {
                reason: reason@,
            },
            ProcessOutcome::Finished { exit_code, stdout, stderr } => ProcessOutcomeView::Finished {
                exit_code: match exit_code {
                    Some(code) => Some(code as int),
                    None => None,
                },
                stdout: stdout@,
                stderr: stderr@,
            },
        }
    }
}

/// An answer as plain values.
pub open spec fn answer_view(answer: Result<String, String>) -> Result<Seq<char>, Seq<char>> {
    match answer {
        Ok(text) => Ok(text@),
        Err(message) => Err(message@),
    }
}

/// The text that `String::from_utf8_lossy` makes of bytes that are not valid
/// UTF-8: the valid stretches decoded, each invalid one replaced by U+FFFD.
pub uninterp spec fn lossy_text(bytes: Seq<u8>) -> Seq<char>;

/// The text that a stream of bytes is read as.
pub open spec fn stream_text(bytes: Seq<u8>) -> Seq<char> {
    if valid_utf8(bytes) {
        decode_utf8(bytes)
    } else {
        lossy_text(bytes)
    }
}

/// What opens the message for a process that could not be started.
pub open spec fn not_started_prefix() -> Seq<char> {
    "Failed to execute Python script: "@
}

/// What opens the message for a process that reported failure.
pub open spec fn failed_prefix() -> Seq<char> {
    "Upscale failed: "@
}

/// A process succeeded if and only if it ended with exit status zero.
pub open spec fn succeeded(exit_code: Option<int>) -> bool {
    exit_code == Some(0int)
}

/// The answer for a finished process, given the text of the stream that
/// counts: standard output where it succeeded, standard error where not.
pub open spec fn report_of(success: bool, text: Seq<char>) -> Result<Seq<char>, Seq<char>> {
    if success {
        Ok(trimmed(text))
    } else {
        Err(failed_prefix() + trimmed(text))
    }
}

/// The answer for an outcome.
pub open spec fn answer_of(outcome: ProcessOutcomeView) -> Result<Seq<char>, Seq<char>> {
    match outcome {
        ProcessOutcomeView::NotStarted { reason } => Err(not_started_prefix() + reason),
        ProcessOutcomeView::Finished { exit_code, stdout, stderr } => if succeeded(exit_code) {
            report_of(true, stream_text(stdout))
        } else {
            report_of(false, stream_text(stderr))
        },
    }
}

/// A process that ends with exit status zero answers with what it wrote to
/// standard output, read as UTF-8 and trimmed, whatever it wrote to standard
/// error. A line feed after the text changes nothing, and a text that neither
/// begins nor ends with whitespace comes back as it is.
pub proof fn lemma_success_relays_stdout(text: Seq<char>, stderr: Seq<u8>)
    ensures
        answer_of(
            ProcessOutcomeView::Finished {
                exit_code: Some(0int),
                stdout: encode_utf8(text),
                stderr,
            },
        ) == Ok::<Seq<char>, Seq<char>>(trimmed(text)),
        answer_of(
            ProcessOutcomeView::Finished {
                exit_code: Some(0int),
                stdout: encode_utf8(text.push('\n')),
                stderr,
            },
        ) == Ok::<Seq<char>, Seq<char>>(trimmed(text)),
        (text.len() > 0 ==> !is_whitespace(text.first()) && !is_whitespace(text.last()))
            ==> trimmed(text) == text,
{
    encode_utf8_valid_utf8(text);
    encode_utf8_decode_utf8(text);
    encode_utf8_valid_utf8(text.push('\n'));
    encode_utf8_decode_utf8(text.push('\n'));
    lemma_trim_drops_final_line_feed(text);
    if text.len() > 0 ==> !is_whitespace(text.first()) && !is_whitespace(text.last()) {
        lemma_trim_keeps_bare_text(text);
    }
}

/// A process that ends otherwise answers with an error: the prefix, then
/// what it wrote to standard error, read as UTF-8 and trimmed, whatever it
/// wrote to standard output. A line feed after the text changes nothing.
pub proof fn lemma_failure_relays_stderr(exit_code: Option<int>, stdout: Seq<u8>, text: Seq<char>)
    requires
        exit_code != Some(0int),
    ensures
        answer_of(ProcessOutcomeView::Finished { exit_code, stdout, stderr: encode_utf8(text) })
            == Err::<Seq<char>, Seq<char>>(failed_prefix() + trimmed(text)),
        answer_of(
            ProcessOutcomeView::Finished { exit_code, stdout, stderr: encode_utf8(text.push('\n')) },
        ) == Err::<Seq<char>, Seq<char>>(failed_prefix() + trimmed(text)),
        failed_prefix().is_prefix_of(failed_prefix() + trimmed(text)),
        (text.len() > 0 ==> !is_whitespace(text.first()) && !is_whitespace(text.last()))
            ==> trimmed(text) == text,
{
    encode_utf8_valid_utf8(text);
    encode_utf8_decode_utf8(text);
    encode_utf8_valid_utf8(text.push('\n'));
    encode_utf8_decode_utf8(text.push('\n'));
    lemma_trim_drops_final_line_feed(text);
    if text.len() > 0 ==> !is_whitespace(text.first()) && !is_whitespace(text.last()) {
        lemma_trim_keeps_bare_text(text);
    }
}

/// A process that could not be started answers with an error that begins
/// with the prefix and goes on with the reason, unchanged.
pub proof fn lemma_not_started_is_an_error(reason: Seq<char>)
    ensures
        answer_of(ProcessOutcomeView::NotStarted { reason }) == Err::<Seq<char>, Seq<char>>(
            not_started_prefix() + reason,
        ),
        not_started_prefix().is_prefix_of(not_started_prefix() + reason),
        (not_started_prefix() + reason).skip(not_started_prefix().len() as int) == reason,
{
    let message = not_started_prefix() + reason;
    assert(message.skip(not_started_prefix().len() as int) =~= reason);
}

/// The answer is an error exactly where the process was not started or did
/// not end with exit status zero.
pub proof fn lemma_answer_is_ok_iff_succeeded(outcome: ProcessOutcomeView)
    ensures
        answer_of(outcome) is Ok <==> (outcome matches ProcessOutcomeView::Finished {
            exit_code,
            ..
        } && succeeded(exit_code)),
{
}

/// Calls `String::from_utf8_lossy`. Trusted: bytes that are valid UTF-8 give
/// the text they encode; for any others the result depends on the bytes alone.
#[verifier::external_body]
fn decode_lossy(bytes: &[u8]) -> (text: String)
    ensures
        valid_utf8(bytes@) ==> text@ == decode_utf8(bytes@),
        !valid_utf8(bytes@) ==> text@ == lossy_text(bytes@),
{
    String::from_utf8_lossy(bytes).into_owned()
}

/// The message for a process that could not be started.
pub fn not_started_message(reason: &str) -> (message: String)
    ensures
        message@ == not_started_prefix() + reason@,
{
    String::from_str("Failed to execute Python script: ").concat(reason)
}

/// The answer for a finished process whose decisive stream reads `text`.
pub fn report(success: bool, text: &str) -> (answer: Result<String, String>)
    ensures
        answer_view(answer) == report_of(success, text@),
{
    let kept = trim(text);
    if success {
        Ok(kept)
    } else {
        Err(String::from_str("Upscale failed: ").concat(kept.as_str()))
    }
}

/// Turns the outcome of the helper process into the caller's answer.
pub fn relay(outcome: &ProcessOutcome) -> (answer: Result<String, String>)
    ensures
        answer_view(answer) == answer_of(outcome@),
{
    match outcome {
        ProcessOutcome::NotStarted { reason } => Err(not_started_message(reason.as_str())),
        ProcessOutcome::Finished { exit_code, stdout, stderr } => {
            let success = match exit_code {
                Some(code) => *code == 0,
                None => false,
            };
            if success {
                report(true, decode_lossy(stdout.as_slice()).as_str())
            } else {
                report(false, decode_lossy(stderr.as_slice()).as_str())
            }
        },
    }
}

} // verus!
