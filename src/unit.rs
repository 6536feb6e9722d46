use vstd::prelude::*;
use crate::args::{Arg, ArgView};
use crate::event::{tokens_view, Buffer, BufferView, Event, EventView, Group, Token, TokenView};
use crate::request::{args_view, push_request, push_request_of, HandlerError, PushRequest, PushRequestView};
use crate::router::Route;

verus! {

/// What came of staging a push's content and tokenizing it.
#[derive(Debug, Clone, PartialEq, Eq)]
pub enum TokenizeOutcome {
    Tokens(Vec<Token>),
    StagingFailed,
    TokenizerFailed,
}

/// The mathematical value of a [`TokenizeOutcome`].
pub enum TokenizeOutcomeView {
    Tokens(Seq<TokenView>),
    StagingFailed,
    TokenizerFailed,
}

impl View for TokenizeOutcome {
    type V = TokenizeOutcomeView;

    open spec fn view(&self) -> TokenizeOutcomeView {
        match self {
            TokenizeOutcome::Tokens(t) => TokenizeOutcomeView::Tokens(tokens_view(t@)),
            TokenizeOutcome::StagingFailed => TokenizeOutcomeView::StagingFailed,
            TokenizeOutcome::TokenizerFailed => TokenizeOutcomeView::TokenizerFailed,
        }
    }
}

/// The next thing that one unit of work asks its caller to do.
#[derive(Debug, Clone, PartialEq, Eq)]
pub enum Action {
    /// Stage the request's content and tokenize it; then call [`after_tokenize`].
    Tokenize(PushRequest),
    /// Send the event on the outbound channel; then call [`after_send`].
    Send(Event),
    /// Report the error; the unit is over.
    Report(HandlerError),
    /// The unit is over.
    Finish,
}

/// The mathematical value of an [`Action`].
pub enum ActionView {
    Tokenize(PushRequestView),
    Send(EventView),
    Report(HandlerError),
    Finish,
}

impl View for Action {
    type V = ActionView;

    open spec fn view(&self) -> ActionView {
        match self {
            Action::Tokenize(q) => ActionView::Tokenize(q@),
            Action::Send(e) => ActionView::Send(e@),
            Action::Report(e) => ActionView::Report(*e),
            Action::Finish => ActionView::Finish,
        }
    }
}

/// The first step of a unit of work for a notification of route `route`.
pub open spec fn start_of(route: Route, args: Seq<ArgView>) -> ActionView {
    match route {
        Route::Push => match push_request_of(args) {
            Ok(q) => ActionView::Tokenize(q),
            Err(e) => ActionView::Report(e),
        },
        Route::OpenLog => ActionView::Send(EventView::OpenLog),
        Route::Ignore => ActionView::Finish,
    }
}

/// The event that applies a push's highlighting, derived from `tokens`.
pub open spec fn apply_of(request: PushRequestView, tokens: Seq<TokenView>) -> EventView {
    EventView::Apply { buffer: BufferView { filename: request.filename, group: tokens } }
}

/// The step after tokenization of `request` came out as `outcome`.
pub open spec fn after_tokenize_of(
    request: PushRequestView,
    outcome: TokenizeOutcomeView,
) -> ActionView {
    match outcome {
        TokenizeOutcomeView::Tokens(t) => ActionView::Send(apply_of(request, t)),
        TokenizeOutcomeView::StagingFailed => ActionView::Report(HandlerError::Staging),
        TokenizeOutcomeView::TokenizerFailed => ActionView::Report(HandlerError::Tokenize),
    }
}

/// The step after a send, which the consumer took or not.
pub open spec fn after_send_of(delivered: bool) -> ActionView {
    if delivered {
        ActionView::Finish
    } else {
        ActionView::Report(HandlerError::Send)
    }
}

/// Begins the unit of work for a notification of route `route` with arguments `args`.
pub fn start(route: Route, args: &Vec<Arg>) -> (r: Action)
    ensures
        r@ == start_of(route, args_view(args@)),
{
    match route {
        Route::Push => match push_request(args) {
            Ok(q) => Action::Tokenize(q),
            Err(e) => Action::Report(e),
        },
        Route::OpenLog => Action::Send(Event::OpenLog),
        Route::Ignore => Action::Finish,
    }
}

/// Goes on once the content of `request` was staged and tokenized, or was not.
pub fn after_tokenize(request: PushRequest, outcome: TokenizeOutcome) -> (r: Action)
    ensures
        r@ == after_tokenize_of(request@, outcome@),
{
    match outcome {
        TokenizeOutcome::Tokens(t) => {
            let buffer = Buffer::new(request.filename.as_str(), Group::new(t));
            Action::Send(Event::Apply { buffer })
        },
        TokenizeOutcome::StagingFailed => Action::Report(HandlerError::Staging),
        TokenizeOutcome::TokenizerFailed => Action::Report(HandlerError::Tokenize),
    }
}

/// Goes on once an event was sent; `delivered` says whether the consumer took it.
pub fn after_send(delivered: bool) -> (r: Action)
    ensures
        r@ == after_send_of(delivered),
{
    if delivered {
        Action::Finish
    } else {
        Action::Report(HandlerError::Send)
    }
}

} // verus!
