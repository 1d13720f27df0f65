use vstd::prelude::*;
use crate::error::FpscrError;
use crate::fpscr::Fpscr;
use crate::layout::report_lines;
use crate::parse::{parse_value, register_value};

verus! {

/// What decoding the text `text` gives: the report on the register value that
/// the text denotes, or the reason why there is none.
pub open spec fn decoded(text: Seq<char>) -> Result<Seq<Seq<char>>, FpscrError> {
    match register_value(text) {
        Some(value) => Ok(report_lines(value)),
        None => Err(FpscrError::MalformedValue),
    }
}

/// What a command line gives. Its first entry is the program's name and its
/// second one the register value; further entries play no part.
pub open spec fn decoded_arguments(args: Seq<Seq<char>>) -> Result<Seq<Seq<char>>, FpscrError> {
    if args.len() < 2 {
        Err(FpscrError::MissingValue)
    } else {
        decoded(args[1])
    }
}

/// Decodes a register value written in hexadecimal into the lines of its
/// report. Malformed text gives an error and no line at all.
pub fn decode(text: &str) -> (outcome: Result<Vec<String>, FpscrError>)
    ensures
        outcome matches Ok(lines) ==> decoded(text@) == Ok::<Seq<Seq<char>>, FpscrError>(
            lines.deep_view(),
        ),
        outcome matches Err(error) ==> decoded(text@) == Err::<Seq<Seq<char>>, FpscrError>(error),
{
    match parse_value(text) {
        Ok(value) => Ok(Fpscr::new(value).report()),
        Err(error) => Err(error),
    }
}

/// Decodes the register value that a command line names into the lines of
/// its report. A command line without a register value, or with a malformed
/// one, gives an error and no line at all.
pub fn decode_arguments(args: &[String]) -> (outcome: Result<Vec<String>, FpscrError>)
    ensures
        outcome matches Ok(lines) ==> decoded_arguments(args.deep_view()) == Ok::<
            Seq<Seq<char>>,
            FpscrError,
        >(lines.deep_view()),
        outcome matches Err(error) ==> decoded_arguments(args.deep_view()) == Err::<
            Seq<Seq<char>>,
            FpscrError,
        >(error),
{
    if args.len() < 2 {
        return Err(FpscrError::MissingValue);
    }
    decode(args[1].as_str())
}

} // verus!
