//! The verified core of a plain-text PDF extractor.
//!
//! The host boundary makes the raw call into the `pdf_extract` crate,
//! guarded against unwinding, and hands this library the plain outcome:
//! the extracted text, or the rendering of the extractor's failure. The
//! raw call cannot stand here: `pdf_extract` does not return normally on
//! every byte buffer (a page without a MediaBox makes it panic, for one),
//! no contract can name the buffers on which it does, and Verus refuses
//! `std::panic`, so no wrapper in verified code can guard it truthfully.
//! What is left to decide is verified: how an outcome becomes the
//! caller's result, with the guarantee that every failure carries a
//! non-empty, human-readable description.

use vstd::prelude::*;

verus! {

/// Why extraction failed, as human-readable text.
#[derive(Debug)]
pub struct ExtractError {
    pub message: String,
}

/// The description a failure carries: the one given, or, where the given
/// one is empty, a fixed note that extraction failed.
pub open spec fn failure_message(given: Seq<char>) -> Seq<char> {
    if given.len() > 0 {
        given
    } else {
        "extraction failed"@
    }
}

/// Turns the outcome of the host's extraction call into the library's
/// result type: extracted text passes through unchanged; a failure
/// description is wrapped in an [`ExtractError`] whose message is never
/// empty.
pub fn package_result(outcome: Result<String, String>) -> (result: Result<
    String,
    ExtractError,
>)
    ensures
        result is Ok <==> outcome is Ok,
        outcome matches Ok(text) ==> result matches Ok(t) && t == text,
        outcome matches Err(msg) ==> result matches Err(e) && e.message@ == failure_message(
            msg@,
        ),
        result matches Err(e) ==> e.message@.len() > 0,
{
    match outcome {
        Ok(text) => Ok(text),
        Err(msg) => {
            let message = if msg.as_str().is_empty() {
                proof {
                    reveal_strlit("extraction failed");
                }
                String::from_str("extraction failed")
            } else {
                msg
            };
            Err(ExtractError { message })
        },
    }
}

} // verus!
