use vim_handler::{
    after_send, after_tokenize, parse_string, parse_usize, push_request, request_reply, route, start,
    Action, Arg, Buffer, Event, Group, HandlerError, ParseError, PushRequest, Route, Token,
    TokenKind, TokenizeOutcome,
};

fn text(s: &str) -> Arg {
    Arg::Text(s.to_string())
}

fn token(kind: TokenKind, spelling: &str) -> Token {
    Token { kind, spelling: spelling.to_string() }
}

fn main_rs_tokens() -> Vec<Token> {
    vec![
        token(TokenKind::Keyword, "fn"),
        token(TokenKind::Identifier, "main"),
        token(TokenKind::Punctuation, "("),
        token(TokenKind::Punctuation, ")"),
        token(TokenKind::Punctuation, "{"),
        token(TokenKind::Punctuation, "}"),
    ]
}

/// Runs one unit to its end, answering tokenization with `outcome` and each
/// send with `delivered`; returns what was delivered and what was reported.
fn run(name: &str, args: &Vec<Arg>, outcome: TokenizeOutcome, delivered: bool) -> (Vec<Event>, Option<HandlerError>, Option<PushRequest>) {
    let mut events = Vec::new();
    let mut asked = None;
    let mut outcome = Some(outcome);
    let mut action = start(route(name), args);
    loop {
        match action {
            Action::Tokenize(request) => {
                asked = Some(request.clone());
                action = after_tokenize(request, outcome.take().expect("tokenized once"));
            }
            Action::Send(event) => {
                if delivered {
                    events.push(event);
                }
                action = after_send(delivered);
            }
            Action::Report(e) => return (events, Some(e), asked),
            Action::Finish => return (events, None, asked),
        }
    }
}

#[test]
fn parse_string_reads_text() {
    assert_eq!(parse_string(&text("main.rs")), Ok("main.rs".to_string()));
    assert_eq!(parse_string(&text("")), Ok(String::new()));
}

#[test]
fn parse_string_rejects_other_values() {
    assert_eq!(parse_string(&Arg::UInt(3)), Err(ParseError::NotAString));
    assert_eq!(parse_string(&Arg::Other), Err(ParseError::NotAString));
}

#[test]
fn parse_usize_reads_unsigned_integers() {
    assert_eq!(parse_usize(&Arg::UInt(0)), Ok(0));
    assert_eq!(parse_usize(&Arg::UInt(42)), Ok(42));
    if usize::BITS == 64 {
        assert_eq!(parse_usize(&Arg::UInt(u64::MAX)), Ok(usize::MAX));
    } else {
        assert_eq!(parse_usize(&Arg::UInt(u64::MAX)), Err(ParseError::NotAnUnsignedInt));
    }
}

#[test]
fn parse_usize_rejects_other_values() {
    assert_eq!(parse_usize(&text("7")), Err(ParseError::NotAnUnsignedInt));
    assert_eq!(parse_usize(&Arg::Other), Err(ParseError::NotAnUnsignedInt));
}

#[test]
fn route_by_name() {
    assert_eq!(route("push"), Route::Push);
    assert_eq!(route("enter_buffer"), Route::Push);
    assert_eq!(route("open_log"), Route::OpenLog);
    assert_eq!(route("Push"), Route::Ignore);
    assert_eq!(route("pus"), Route::Ignore);
    assert_eq!(route(""), Route::Ignore);
    assert_eq!(route("open_log "), Route::Ignore);
}

#[test]
fn push_request_of_three_texts() {
    let args = vec![text("a.c"), text("c"), text("int x;")];
    let expected = PushRequest {
        filename: "a.c".to_string(),
        filetype: "c".to_string(),
        content: "int x;".to_string(),
    };
    assert_eq!(push_request(&args), Ok(expected));
}

#[test]
fn push_request_errors() {
    assert_eq!(push_request(&vec![]), Err(HandlerError::Arity { count: 0 }));
    assert_eq!(
        push_request(&vec![text("a"), text("b"), text("c"), text("d")]),
        Err(HandlerError::Arity { count: 4 })
    );
    assert_eq!(
        push_request(&vec![Arg::Other, Arg::UInt(1), text("c")]),
        Err(HandlerError::FieldType { position: 0, cause: ParseError::NotAString })
    );
    assert_eq!(
        push_request(&vec![text("a"), text("b"), Arg::UInt(1)]),
        Err(HandlerError::FieldType { position: 2, cause: ParseError::NotAString })
    );
}

#[test]
fn push_main_rs_delivers_apply() {
    let args = vec![text("main.rs"), text("rust"), text("fn main() {}")];
    let (events, error, asked) = run("push", &args, TokenizeOutcome::Tokens(main_rs_tokens()), true);
    assert_eq!(error, None);
    assert_eq!(asked.expect("tokenization asked").content, "fn main() {}");
    assert_eq!(events.len(), 1);
    match &events[0] {
        Event::Apply { buffer } => {
            assert_eq!(buffer.filename, "main.rs");
            assert_eq!(buffer.group.tokens(), &main_rs_tokens());
        }
        Event::OpenLog => panic!("expected Apply"),
    }
}

#[test]
fn enter_buffer_delivers_apply() {
    let args = vec![text("b.py"), text("python"), text("x = 1")];
    let tokens = vec![token(TokenKind::Identifier, "x"), token(TokenKind::Punctuation, "="), token(TokenKind::Literal, "1")];
    let (events, error, _) = run("enter_buffer", &args, TokenizeOutcome::Tokens(tokens.clone()), true);
    assert_eq!(error, None);
    assert_eq!(events, vec![Event::Apply { buffer: Buffer::new("b.py", Group::new(tokens)) }]);
}

#[test]
fn push_with_two_args_reports_arity() {
    let args = vec![text("a.c"), text("c")];
    let (events, error, asked) = run("push", &args, TokenizeOutcome::Tokens(vec![]), true);
    assert!(events.is_empty());
    assert_eq!(error, Some(HandlerError::Arity { count: 2 }));
    assert!(asked.is_none());
}

#[test]
fn push_with_four_args_reports_arity() {
    let args = vec![text("a"), text("b"), text("c"), text("d")];
    let (events, error, _) = run("enter_buffer", &args, TokenizeOutcome::Tokens(vec![]), true);
    assert!(events.is_empty());
    assert_eq!(error, Some(HandlerError::Arity { count: 4 }));
}

#[test]
fn push_with_non_text_reports_field_type() {
    let args = vec![text("a.c"), Arg::UInt(5), Arg::Other];
    let (events, error, asked) = run("push", &args, TokenizeOutcome::Tokens(vec![]), true);
    assert!(events.is_empty());
    assert_eq!(error, Some(HandlerError::FieldType { position: 1, cause: ParseError::NotAString }));
    assert!(asked.is_none());
}

#[test]
fn open_log_sends_open_log() {
    let (events, error, _) = run("open_log", &vec![], TokenizeOutcome::TokenizerFailed, true);
    assert_eq!(events, vec![Event::OpenLog]);
    assert_eq!(error, None);
}

#[test]
fn open_log_ignores_its_arguments() {
    let args = vec![Arg::Other, text("x"), Arg::UInt(9)];
    let (events, error, asked) = run("open_log", &args, TokenizeOutcome::StagingFailed, true);
    assert_eq!(events, vec![Event::OpenLog]);
    assert_eq!(error, None);
    assert!(asked.is_none());
}

#[test]
fn unknown_name_does_nothing() {
    let args = vec![text("main.rs"), text("rust"), text("fn main() {}")];
    let (events, error, asked) = run("save", &args, TokenizeOutcome::Tokens(main_rs_tokens()), true);
    assert!(events.is_empty());
    assert_eq!(error, None);
    assert!(asked.is_none());
}

#[test]
fn tokenize_failures_are_reported() {
    let args = vec![text("a.c"), text("c"), text("int x;")];
    let (events, error, _) = run("push", &args, TokenizeOutcome::StagingFailed, true);
    assert!(events.is_empty());
    assert_eq!(error, Some(HandlerError::Staging));
    let (events, error, _) = run("push", &args, TokenizeOutcome::TokenizerFailed, true);
    assert!(events.is_empty());
    assert_eq!(error, Some(HandlerError::Tokenize));
}

#[test]
fn send_to_gone_consumer_is_reported() {
    let args = vec![text("a.c"), text("c"), text("int x;")];
    let (events, error, _) = run("push", &args, TokenizeOutcome::Tokens(vec![]), false);
    assert!(events.is_empty());
    assert_eq!(error, Some(HandlerError::Send));
    assert_eq!(after_send(true), Action::Finish);
    assert_eq!(after_send(false), Action::Report(HandlerError::Send));
}

#[test]
fn many_pushes_deliver_one_apply_each() {
    let n = 5;
    let mut channel = Vec::new();
    // complete in an order other than arrival
    for i in (0..n).rev() {
        let name = format!("f{}.c", i);
        let args = vec![text(&name), text("c"), text("int x;")];
        let tokens = vec![token(TokenKind::Identifier, &name)];
        let (events, error, _) = run("push", &args, TokenizeOutcome::Tokens(tokens), true);
        assert_eq!(error, None);
        channel.extend(events);
    }
    assert_eq!(channel.len(), n);
    for i in 0..n {
        let name = format!("f{}.c", i);
        let count = channel
            .iter()
            .filter(|e| matches!(e, Event::Apply { buffer } if buffer.filename == name))
            .count();
        assert_eq!(count, 1);
    }
}

#[test]
fn same_content_twice_gives_equal_groups() {
    let args = vec![text("main.rs"), text("rust"), text("fn main() {}")];
    let (first, _, _) = run("push", &args, TokenizeOutcome::Tokens(main_rs_tokens()), true);
    let (second, _, _) = run("enter_buffer", &args, TokenizeOutcome::Tokens(main_rs_tokens()), true);
    assert_eq!(first.len(), 1);
    assert_eq!(first, second);
}

#[test]
fn after_tokenize_builds_apply_from_request() {
    let request = PushRequest {
        filename: "x.h".to_string(),
        filetype: "c".to_string(),
        content: "// hi".to_string(),
    };
    let tokens = vec![token(TokenKind::Comment, "// hi")];
    let action = after_tokenize(request, TokenizeOutcome::Tokens(tokens.clone()));
    assert_eq!(action, Action::Send(Event::Apply { buffer: Buffer::new("x.h", Group::new(tokens)) }));
}

#[test]
fn requests_are_not_implemented() {
    assert_eq!(request_reply(), Err(text("not implemented")));
}
