use vstd::prelude::*;
use crate::args::{ArgView, ParseError};
use crate::event::{BufferView, EventView, TokenView};
use crate::request::{push_request_of, text_of, HandlerError, PushRequestView};
use crate::router::{route_of, Route};
use crate::unit::{
    after_send_of, after_tokenize_of, apply_of, start_of, ActionView, TokenizeOutcomeView,
};

verus! {

/// What one unit of work leaves behind: the events the consumer received
/// from it, and the error it reported, if any.
pub struct UnitRun {
    pub delivered: Seq<EventView>,
    pub error: Option<HandlerError>,
}

/// The error that an action reports, if it reports one.
pub open spec fn reported(action: ActionView) -> Option<HandlerError> {
    match action {
        ActionView::Report(e) => Some(e),
        _ => None,
    }
}

/// How a unit ends from `action` on, when a send is `delivered` or not.
pub open spec fn settle(action: ActionView, delivered: bool) -> UnitRun {
    match action {
        ActionView::Send(e) => UnitRun {
            delivered: if delivered {
                seq![e]
            } else {
                Seq::empty()
            },
            error: reported(after_send_of(delivered)),
        },
        ActionView::Report(e) => UnitRun { delivered: Seq::empty(), error: Some(e) },
        _ => UnitRun { delivered: Seq::empty(), error: None },
    }
}

/// The whole run of the unit for a notification named `name` with arguments
/// `args`, where tokenization (if asked for) comes out as `outcome` and a
/// send (if made) is `delivered` or not.
pub open spec fn run_of(
    name: Seq<char>,
    args: Seq<ArgView>,
    outcome: TokenizeOutcomeView,
    delivered: bool,
) -> UnitRun {
    match start_of(route_of(name), args) {
        ActionView::Tokenize(q) => settle(after_tokenize_of(q, outcome), delivered),
        a => settle(a, delivered),
    }
}

/// What the outbound channel holds after units complete in the order of `runs`.
pub open spec fn channel_of(runs: Seq<UnitRun>) -> Seq<EventView>
    decreases runs.len(),
{
    if runs.len() == 0 {
        Seq::empty()
    } else {
        channel_of(runs.drop_last()) + runs.last().delivered
    }
}

/// Whether `name` names a content push.
pub open spec fn is_push_name(name: Seq<char>) -> bool {
    name == "push"@ || name == "enter_buffer"@
}

/// Whether `args` are exactly three text arguments.
pub open spec fn is_well_formed_push(args: Seq<ArgView>) -> bool {
    &&& args.len() == 3
    &&& args[0] is Text
    &&& args[1] is Text
    &&& args[2] is Text
}

/// The request that well-formed push arguments amount to.
pub open spec fn request_of(args: Seq<ArgView>) -> PushRequestView {
    PushRequestView { filename: text_of(args[0]), filetype: text_of(args[1]), content: text_of(args[2]) }
}

/// Whether `i` stands somewhere in `order`.
pub open spec fn occurs(order: Seq<int>, i: int) -> bool {
    exists|k: int| 0 <= k < order.len() && order[k] == i
}

/// Whether `order` lists each of `0..n` exactly once.
pub open spec fn is_permutation(order: Seq<int>, n: int) -> bool {
    &&& order.len() == n
    &&& forall|k: int| 0 <= k < n ==> 0 <= #[trigger] order[k] < n
    &&& forall|k1: int, k2: int| 0 <= k1 < n && 0 <= k2 < n && k1 != k2 ==> order[k1] != order[k2]
    &&& forall|i: int| 0 <= i < n ==> #[trigger] occurs(order, i)
}

/// A push of three text arguments `[f, t, c]` hands the tokenizer exactly
/// that request (so content `c`); when the tokenizer returns `tokens` and the
/// consumer is there, the unit delivers exactly one `Apply` event, for file
/// `f`, derived from `tokens`, and reports nothing.
pub proof fn lemma_push_delivers_one_apply(
    name: Seq<char>,
    f: Seq<char>,
    t: Seq<char>,
    c: Seq<char>,
    tokens: Seq<TokenView>,
)
    requires
        is_push_name(name),
    ensures
        ({
            let args = seq![ArgView::Text(f), ArgView::Text(t), ArgView::Text(c)];
            let request = PushRequestView { filename: f, filetype: t, content: c };
            &&& start_of(route_of(name), args) == ActionView::Tokenize(request)
            &&& run_of(name, args, TokenizeOutcomeView::Tokens(tokens), true) == (UnitRun {
                delivered: seq![EventView::Apply { buffer: BufferView { filename: f, group: tokens } }],
                error: None,
            })
        }),
{
}

/// A push of well-formed arguments, tokenized into `tokens`, with the
/// consumer there, delivers the one `Apply` event of its request.
proof fn lemma_well_formed_push_run(name: Seq<char>, args: Seq<ArgView>, tokens: Seq<TokenView>)
    requires
        is_push_name(name),
        is_well_formed_push(args),
    ensures
        run_of(name, args, TokenizeOutcomeView::Tokens(tokens), true) == (UnitRun {
            delivered: seq![apply_of(request_of(args), tokens)],
            error: None,
        }),
{
}

/// A push whose argument count is not three delivers nothing and reports an
/// arity error with that count, whatever tokenization and the consumer would do.
pub proof fn lemma_push_wrong_arity(
    name: Seq<char>,
    args: Seq<ArgView>,
    outcome: TokenizeOutcomeView,
    delivered: bool,
)
    requires
        is_push_name(name),
        args.len() != 3,
    ensures
        run_of(name, args, outcome, delivered) == (UnitRun {
            delivered: Seq::empty(),
            error: Some(HandlerError::Arity { count: args.len() as usize }),
        }),
{
}

/// A push of three arguments of which one is not text delivers nothing and
/// reports a field type error for the first argument that is not text.
pub proof fn lemma_push_non_text(
    name: Seq<char>,
    args: Seq<ArgView>,
    outcome: TokenizeOutcomeView,
    delivered: bool,
)
    requires
        is_push_name(name),
        args.len() == 3,
        !(args[0] is Text) || !(args[1] is Text) || !(args[2] is Text),
    ensures
        ({
            let r = run_of(name, args, outcome, delivered);
            &&& r.delivered.len() == 0
            &&& r.error matches Some(HandlerError::FieldType { position, cause })
            &&& cause == ParseError::NotAString
            &&& position < 3
            &&& !(args[position as int] is Text)
            &&& forall|j: int| 0 <= j < position ==> #[trigger] args[j] is Text
        }),
{
}

/// `"open_log"` starts by sending `OpenLog`, whatever its arguments; with the
/// consumer there, exactly that one event is delivered and nothing is reported.
pub proof fn lemma_open_log(args: Seq<ArgView>, outcome: TokenizeOutcomeView)
    ensures
        start_of(route_of("open_log"@), args) == ActionView::Send(EventView::OpenLog),
        run_of("open_log"@, args, outcome, true) == (UnitRun {
            delivered: seq![EventView::OpenLog],
            error: None,
        }),
{
    reveal_strlit("open_log");
    reveal_strlit("push");
    reveal_strlit("enter_buffer");
    assert("open_log"@.len() != "push"@.len());
    assert("open_log"@.len() != "enter_buffer"@.len());
}

/// A notification of any other name delivers nothing and reports nothing.
pub proof fn lemma_unknown_name(
    name: Seq<char>,
    args: Seq<ArgView>,
    outcome: TokenizeOutcomeView,
    delivered: bool,
)
    requires
        !is_push_name(name),
        name != "open_log"@,
    ensures
        route_of(name) == Route::Ignore,
        run_of(name, args, outcome, delivered) == (UnitRun { delivered: Seq::empty(), error: None }),
{
}

/// Whether the channel holds `e` at the place of the unit `i`, as `order` completed them.
pub open spec fn carries(channel: Seq<EventView>, order: Seq<int>, i: int, e: EventView) -> bool {
    exists|k: int| 0 <= k < order.len() && k < channel.len() && order[k] == i && channel[k] == e
}

/// Units that each deliver exactly one event fill the channel with those
/// events, one per unit, in the order the units completed.
proof fn lemma_channel_of_single_events(runs: Seq<UnitRun>)
    requires
        forall|k: int| 0 <= k < runs.len() ==> (#[trigger] runs[k]).delivered.len() == 1,
    ensures
        channel_of(runs).len() == runs.len(),
        forall|k: int| 0 <= k < runs.len() ==> channel_of(runs)[k] == (#[trigger] runs[k]).delivered[0],
    decreases runs.len(),
{
    if runs.len() > 0 {
        let prefix = runs.drop_last();
        assert forall|k: int| 0 <= k < prefix.len() implies (#[trigger] prefix[k]).delivered.len() == 1 by {
            assert(prefix[k] == runs[k]);
        }
        lemma_channel_of_single_events(prefix);
        assert forall|k: int| 0 <= k < runs.len() implies channel_of(runs)[k] == (#[trigger] runs[k]).delivered[0] by {
            if k < prefix.len() {
                assert(prefix[k] == runs[k]);
            }
        }
    }
}

/// `n` well-formed pushes, each tokenized successfully, that complete in any
/// order (`order[k]` is the push that completed `k`-th) leave exactly `n`
/// `Apply` events on the channel: the `k`-th is the one of push `order[k]`,
/// so every push has its event and none has two.
pub proof fn lemma_concurrent_pushes(
    names: Seq<Seq<char>>,
    args: Seq<Seq<ArgView>>,
    tokens: Seq<Seq<TokenView>>,
    order: Seq<int>,
)
    requires
        args.len() == names.len(),
        tokens.len() == names.len(),
        forall|i: int| 0 <= i < names.len() ==> #[trigger] is_push_name(names[i]),
        forall|i: int| 0 <= i < names.len() ==> #[trigger] is_well_formed_push(args[i]),
        is_permutation(order, names.len() as int),
    ensures
        ({
            let n = names.len() as int;
            let runs = order.map_values(
                |i: int| run_of(names[i], args[i], TokenizeOutcomeView::Tokens(tokens[i]), true),
            );
            let channel = channel_of(runs);
            &&& channel.len() == n
            &&& forall|k: int|
                0 <= k < n ==> #[trigger] channel[k] == apply_of(
                    request_of(args[order[k]]),
                    tokens[order[k]],
                )
            &&& forall|i: int|
                0 <= i < n ==> #[trigger] carries(
                    channel,
                    order,
                    i,
                    apply_of(request_of(args[i]), tokens[i]),
                )
        }),
{
    let n = names.len() as int;
    let runs = order.map_values(
        |i: int| run_of(names[i], args[i], TokenizeOutcomeView::Tokens(tokens[i]), true),
    );
    assert forall|k: int| 0 <= k < runs.len() implies (#[trigger] runs[k]).delivered.len() == 1
        && runs[k].delivered[0] == apply_of(request_of(args[order[k]]), tokens[order[k]]) by {
        let i = order[k];
        assert(is_push_name(names[i]));
        assert(is_well_formed_push(args[i]));
        lemma_well_formed_push_run(names[i], args[i], tokens[i]);
    }
    lemma_channel_of_single_events(runs);
    let channel = channel_of(runs);
    assert forall|k: int| 0 <= k < n implies #[trigger] channel[k] == apply_of(
        request_of(args[order[k]]),
        tokens[order[k]],
    ) by {
        assert(runs[k].delivered.len() == 1);
    }
    assert forall|i: int| 0 <= i < n implies #[trigger] carries(
        channel,
        order,
        i,
        apply_of(request_of(args[i]), tokens[i]),
    ) by {
        assert(occurs(order, i));
        let k = choose|k: int| 0 <= k < order.len() && order[k] == i;
        assert(channel[k] == apply_of(request_of(args[order[k]]), tokens[order[k]]));
    }
}

/// Two pushes of the same filetype and content, where the tokenizer, being
/// deterministic, returns the same tokens both times, each deliver one
/// `Apply` event, and the two carry equal highlighting payloads.
pub proof fn lemma_same_content_same_group(
    name1: Seq<char>,
    args1: Seq<ArgView>,
    name2: Seq<char>,
    args2: Seq<ArgView>,
    tokens: Seq<TokenView>,
)
    requires
        is_push_name(name1),
        is_push_name(name2),
        is_well_formed_push(args1),
        is_well_formed_push(args2),
        text_of(args1[1]) == text_of(args2[1]),
        text_of(args1[2]) == text_of(args2[2]),
    ensures
        ({
            let r1 = run_of(name1, args1, TokenizeOutcomeView::Tokens(tokens), true);
            let r2 = run_of(name2, args2, TokenizeOutcomeView::Tokens(tokens), true);
            &&& r1.delivered.len() == 1
            &&& r2.delivered.len() == 1
            &&& r1.delivered[0] matches EventView::Apply { buffer: b1 }
            &&& r2.delivered[0] matches EventView::Apply { buffer: b2 }
            &&& b1.group == b2.group
            &&& b1.group == tokens
        }),
{
    lemma_well_formed_push_run(name1, args1, tokens);
    lemma_well_formed_push_run(name2, args2, tokens);
}

} // verus!
