//! Reading a number out of a file's text, with errors reported through
//! `anyhow`: a failed read carries the context "failed to read input file".
//!
//! Reading the file is left to the caller, which hands over the outcome of
//! the read.

use vstd::prelude::*;
use crate::exercises::parsing::{
    i32_parse_error, parse_error_display, parse_trimmed, parsed_i32, trimmed,
};

verus! {

#[verifier::external_type_specification]
#[verifier::external_body]
pub struct ExAnyhowError(anyhow::Error);

/// The text that an `anyhow::Error` displays (its outermost message).
pub uninterp spec fn anyhow_display(e: anyhow::Error) -> Seq<char>;

/// The read error that an `anyhow::Error` built by `context` wraps as its cause.
pub uninterp spec fn anyhow_context_cause(e: anyhow::Error) -> std::io::Error;

/// The parse error that an `anyhow::Error` built by `From` was made of, which
/// is the first and only error in its chain.
pub uninterp spec fn anyhow_parse_error(e: anyhow::Error) -> std::num::ParseIntError;

/// `anyhow::Context::context` on the outcome of a read: in the source of
/// `anyhow` it hands an `Ok` value back unchanged and turns an error into an
/// `anyhow::Error` that displays `message` and keeps the read error as its
/// cause (its `source`, shown under "Caused by:").
#[verifier::external_body]
fn with_context(content: Result<String, std::io::Error>, message: &'static str) -> (r: Result<
    String,
    anyhow::Error,
>)
    ensures
        r is Ok <==> content is Ok,
        r matches Ok(u) ==> content matches Ok(t) && u == t,
        r matches Err(e) ==> anyhow_display(e) == message@,
        r matches Err(e) ==> (content matches Err(io) && anyhow_context_cause(e) == io),
{
    anyhow::Context::context(content, message)
}

/// `anyhow::Error::from` on a parse error (what `?` does): in the source of
/// `anyhow` the error it builds is the parse error itself, with no context
/// added, and displays like it.
#[verifier::external_body]
fn error_from_parse(e: std::num::ParseIntError) -> (r: anyhow::Error)
    ensures
        anyhow_parse_error(r) == e,
        anyhow_display(r) == parse_error_display(e),
{
    anyhow::Error::from(e)
}

/// The number written in a file, given the outcome of reading it: a failed
/// read is an error that displays "failed to read input file" and keeps the
/// read error as its cause, and text that is not a number (once trimmed) is
/// the error of parsing it, with no context added.
pub fn read_and_parse(content: Result<String, std::io::Error>) -> (r: Result<i32, anyhow::Error>)
    ensures
        content is Err ==> (r matches Err(e) && anyhow_display(e) == "failed to read input file"@),
        content matches Err(io) ==> (r matches Err(e) && anyhow_context_cause(e) == io),
        content matches Ok(text) ==> match parsed_i32(trimmed(text@)) {
            Some(v) => r matches Ok(n) && n == v,
            None => r matches Err(e) && {
                &&& anyhow_parse_error(e) == i32_parse_error(trimmed(text@))
                &&& anyhow_display(e) == parse_error_display(i32_parse_error(trimmed(text@)))
            },
        },
{
    let text = match with_context(content, "failed to read input file") {
        Ok(t) => t,
        Err(e) => {
            return Err(e);
        },
    };
    match parse_trimmed(text.as_str()) {
        Ok(n) => Ok(n),
        Err(e) => Err(error_from_parse(e.source)),
    }
}

} // verus!
