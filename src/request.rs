use vstd::prelude::*;
use crate::args::{parse_string, Arg, ArgView, ParseError};

verus! {

/// Why one unit of work ended without an event.
#[derive(Debug, Clone, Copy, PartialEq, Eq, Structural)]
pub enum HandlerError {
    /// A content push did not carry exactly three arguments; `count` is how many it carried.
    Arity { count: usize },
    /// The argument at `position` was present but not of the scalar type asked for.
    FieldType { position: usize, cause: ParseError },
    /// The content could not be staged for the tokenizer.
    Staging,
    /// The tokenizer failed.
    Tokenize,
    /// The consumer of the outbound channel is gone.
    Send,
}

/// A content push: which file, of which type, with what content.
#[derive(Debug, Clone, PartialEq, Eq)]
pub struct PushRequest {
    pub filename: String,
    pub filetype: String,
    pub content: String,
}

/// The mathematical value of a [`PushRequest`].
pub struct PushRequestView {
    pub filename: Seq<char>,
    pub filetype: Seq<char>,
    pub content: Seq<char>,
}

impl View for PushRequest {
    type V = PushRequestView;

    open spec fn view(&self) -> PushRequestView {
        PushRequestView {
            filename: self.filename@,
            filetype: self.filetype@,
            content: self.content@,
        }
    }
}

/// The value of an argument list, argument by argument.
pub open spec fn args_view(args: Seq<Arg>) -> Seq<ArgView> {
    args.map_values(|a: Arg| a@)
}

/// The error for an argument that is not text, if it is not.
pub open spec fn text_error(args: Seq<ArgView>, position: int) -> Option<HandlerError> {
    if args[position] is Text {
        None
    } else {
        Some(HandlerError::FieldType { position: position as usize, cause: ParseError::NotAString })
    }
}

/// The text of an argument that is known to be text.
pub open spec fn text_of(arg: ArgView) -> Seq<char> {
    match arg {
        ArgView::Text(s) => s,
        _ => Seq::empty(),
    }
}

/// What a content push with arguments `args` amounts to: exactly three text
/// arguments (filename, filetype, content), checked by count first and then
/// left to right.
pub open spec fn push_request_of(args: Seq<ArgView>) -> Result<PushRequestView, HandlerError> {
    if args.len() != 3 {
        Err(HandlerError::Arity { count: args.len() as usize })
    } else if text_error(args, 0) is Some {
        Err(text_error(args, 0)->0)
    } else if text_error(args, 1) is Some {
        Err(text_error(args, 1)->0)
    } else if text_error(args, 2) is Some {
        Err(text_error(args, 2)->0)
    } else {
        Ok(
            PushRequestView {
                filename: text_of(args[0]),
                filetype: text_of(args[1]),
                content: text_of(args[2]),
            },
        )
    }
}

/// Reads the text argument at `position`, or says which error it gives.
fn text_arg(args: &Vec<Arg>, position: usize) -> (r: Result<String, HandlerError>)
    requires
        position < args.len(),
    ensures
        match text_error(args_view(args@), position as int) {
            Some(e) => r == Err::<String, HandlerError>(e),
            None => r matches Ok(s) && s@ == text_of(args_view(args@)[position as int]),
        },
{
    match parse_string(&args[position]) {
        Ok(s) => Ok(s),
        Err(cause) => Err(HandlerError::FieldType { position, cause }),
    }
}

/// Assembles a content push out of its arguments.
pub fn push_request(args: &Vec<Arg>) -> (r: Result<PushRequest, HandlerError>)
    ensures
        match push_request_of(args_view(args@)) {
            Ok(v) => r matches Ok(q) && q@ == v,
            Err(e) => r == Err::<PushRequest, HandlerError>(e),
        },
{
    if args.len() != 3 {
        return Err(HandlerError::Arity { count: args.len() });
    }
    let filename = match text_arg(args, 0) {
        Ok(s) => s,
        Err(e) => return Err(e),
    };
    let filetype = match text_arg(args, 1) {
        Ok(s) => s,
        Err(e) => return Err(e),
    };
    let content = match text_arg(args, 2) {
        Ok(s) => s,
        Err(e) => return Err(e),
    };
    Ok(PushRequest { filename, filetype, content })
}

} // verus!
