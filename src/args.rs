use vstd::prelude::*;

verus! {

/// An untyped positional argument, as far as this library reads it.
///
/// A host value is text, a non-negative integer that fits in 64 bits, or
/// anything else (nil, a boolean, a negative integer, a float, binary data,
/// an array, a map, text that is not valid UTF-8).
#[derive(Debug, Clone, PartialEq, Eq)]
pub enum Arg {
    Text(String),
    UInt(u64),
    Other,
}

/// The mathematical value of an [`Arg`].
pub enum ArgView {
    Text(Seq<char>),
    UInt(u64),
    Other,
}

impl View for Arg {
    type V = ArgView;

    open spec fn view(&self) -> ArgView {
        match self {
            Arg::Text(s) => ArgView::Text(s@),
            Arg::UInt(n) => ArgView::UInt(*n),
            Arg::Other => ArgView::Other,
        }
    }
}

/// Why a scalar could not be read out of an argument.
#[derive(Debug, Clone, Copy, PartialEq, Eq, Structural)]
pub enum ParseError {
    NotAString,
    NotAnUnsignedInt,
}

/// Reads text out of an argument.
pub fn parse_string(value: &Arg) -> (r: Result<String, ParseError>)
    ensures
        match value@ {
            ArgView::Text(s) => r matches Ok(t) && t@ == s,
            _ => r == Err::<String, ParseError>(ParseError::NotAString),
        },
{
    match value {
        Arg::Text(s) => Ok(s.clone()),
        _ => Err(ParseError::NotAString),
    }
}

/// Reads an unsigned integer that fits in `usize` out of an argument.
pub fn parse_usize(value: &Arg) -> (r: Result<usize, ParseError>)
    ensures
        match value@ {
            ArgView::UInt(n) => if n <= usize::MAX {
                r == Ok::<usize, ParseError>(n as usize)
            } else {
                r == Err::<usize, ParseError>(ParseError::NotAnUnsignedInt)
            },
            _ => r == Err::<usize, ParseError>(ParseError::NotAnUnsignedInt),
        },
{
    match value {
        Arg::UInt(n) => {
            if *n as u128 <= usize::MAX as u128 {
                Ok(*n as usize)
            } else {
                Err(ParseError::NotAnUnsignedInt)
            }
        },
        _ => Err(ParseError::NotAnUnsignedInt),
    }
}

} // verus!
