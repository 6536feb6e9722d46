use vstd::prelude::*;

verus! {

/// The lexical class of a syntax token.
#[derive(Debug, Clone, Copy, PartialEq, Eq, Structural)]
pub enum TokenKind {
    Comment,
    Identifier,
    Keyword,
    Literal,
    Punctuation,
}

/// One syntax token, as the tokenizer hands it out.
#[derive(Debug, Clone, PartialEq, Eq)]
pub struct Token {
    pub kind: TokenKind,
    pub spelling: String,
}

/// The mathematical value of a [`Token`].
pub struct TokenView {
    pub kind: TokenKind,
    pub spelling: Seq<char>,
}

impl View for Token {
    type V = TokenView;

    open spec fn view(&self) -> TokenView {
        TokenView { kind: self.kind, spelling: self.spelling@ }
    }
}

/// The value of a list of tokens, token by token.
pub open spec fn tokens_view(tokens: Seq<Token>) -> Seq<TokenView> {
    tokens.map_values(|t: Token| t@)
}

/// The highlighting payload of a buffer, derived from one token list.
#[derive(Debug, Clone, PartialEq, Eq)]
pub struct Group {
    tokens: Vec<Token>,
}

impl View for Group {
    type V = Seq<TokenView>;

    closed spec fn view(&self) -> Seq<TokenView> {
        tokens_view(self.tokens@)
    }
}

impl Group {
    /// Derives the highlighting payload of a token list.
    pub fn new(tokens: Vec<Token>) -> (r: Group)
        ensures
            r@ == tokens_view(tokens@),
    {
        Group { tokens }
    }

    /// The tokens that the payload was derived from, in order.
    pub fn tokens(&self) -> (r: &Vec<Token>)
        ensures
            tokens_view(r@) == self@,
    {
        &self.tokens
    }
}

/// One editor buffer's current highlighting payload.
#[derive(Debug, Clone, PartialEq, Eq)]
pub struct Buffer {
    pub filename: String,
    pub group: Group,
}

/// The mathematical value of a [`Buffer`].
pub struct BufferView {
    pub filename: Seq<char>,
    pub group: Seq<TokenView>,
}

impl View for Buffer {
    type V = BufferView;

    open spec fn view(&self) -> BufferView {
        BufferView { filename: self.filename@, group: self.group@ }
    }
}

impl Buffer {
    /// A buffer named `filename` that carries `group`.
    pub fn new(filename: &str, group: Group) -> (r: Buffer)
        ensures
            r@ == (BufferView { filename: filename@, group: group@ }),
    {
        Buffer { filename: filename.to_owned(), group }
    }
}

/// What crosses from this library to the consumer of the outbound channel.
#[derive(Debug, Clone, PartialEq, Eq)]
pub enum Event {
    Apply { buffer: Buffer },
    OpenLog,
}

/// The mathematical value of an [`Event`].
pub enum EventView {
    Apply { buffer: BufferView },
    OpenLog,
}

impl View for Event {
    type V = EventView;

    open spec fn view(&self) -> EventView {
        match self {
            Event::Apply { buffer } => EventView::Apply { buffer: buffer@ },
            Event::OpenLog => EventView::OpenLog,
        }
    }
}

} // verus!
