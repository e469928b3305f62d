//! What holds of every expansion, stated over the functions by which the
//! contracts of the stages speak.

use crate::config::{
    error_modifier, first_unknown, is_known, lemma_all_known, lemma_first_unknown_at,
    lemma_last_selector, lemma_no_selector, resolved, selected_kind, selector_kind, ConfigFault,
    HandlerConfig, HandlerKind,
};
use crate::error::config_diagnostic;
use crate::syntax::{function_name, listed_identifiers};
use crate::{outcome, Outcome};
use proc_macro2::TokenStream;
use crate::wrapper::{
    error_arm, error_policy, fetch_body, log_statement, terminal_action, wrapper_body,
    wrapper_name, wrapper_output, wrapper_params, ErrorPolicy,
};
use vstd::prelude::*;

verus! {

/// A list of known identifiers with exactly one selector among them
/// resolves. The configuration has the kind of that selector, the modifier
/// is set exactly when the list holds it, and the adapter is published under
/// the selector's own name.
pub proof fn law_single_selector_resolves(tokens: Seq<Seq<char>>, at: int)
    requires
        forall|j: int| 0 <= j < tokens.len() ==> is_known(#[trigger] tokens[j]),
        0 <= at < tokens.len(),
        selector_kind(tokens[at]) is Some,
        forall|j: int|
            0 <= j < tokens.len() && j != at ==> selector_kind(#[trigger] tokens[j]) is None,
    ensures
        resolved(tokens) == Ok::<HandlerConfig, ConfigFault>(
            HandlerConfig {
                kind: selector_kind(tokens[at])->Some_0,
                respond_with_errors: tokens.contains(error_modifier()),
            },
        ),
        wrapper_name(selector_kind(tokens[at])->Some_0) == tokens[at],
{
    lemma_all_known(tokens);
    lemma_last_selector(tokens, at);
}

/// The order of the arguments does not matter: two lists of known
/// identifiers, each with exactly one selector, that hold the same
/// identifiers resolve to the same configuration.
pub proof fn law_order_insignificant(
    first: Seq<Seq<char>>,
    second: Seq<Seq<char>>,
    at_first: int,
    at_second: int,
)
    requires
        forall|token: Seq<char>| first.contains(token) <==> second.contains(token),
        forall|j: int| 0 <= j < first.len() ==> is_known(#[trigger] first[j]),
        forall|j: int| 0 <= j < second.len() ==> is_known(#[trigger] second[j]),
        0 <= at_first < first.len(),
        0 <= at_second < second.len(),
        selector_kind(first[at_first]) is Some,
        selector_kind(second[at_second]) is Some,
        forall|j: int|
            0 <= j < first.len() && j != at_first ==> selector_kind(#[trigger] first[j]) is None,
        forall|j: int|
            0 <= j < second.len() && j != at_second ==> selector_kind(
                #[trigger] second[j],
            ) is None,
    ensures
        resolved(first) is Ok,
        resolved(first) == resolved(second),
{
    law_single_selector_resolves(first, at_first);
    law_single_selector_resolves(second, at_second);
    assert(first.contains(first[at_first]));
    let j = choose|j: int| 0 <= j < second.len() && second[j] == first[at_first];
    assert(j == at_second);
}

/// A list that names neither selector never resolves.
pub proof fn law_no_selector_never_resolves(tokens: Seq<Seq<char>>)
    requires
        forall|j: int| 0 <= j < tokens.len() ==> selector_kind(#[trigger] tokens[j]) is None,
    ensures
        resolved(tokens) is Err,
{
    lemma_no_selector(tokens);
}

/// A list of known identifiers that names neither selector fails for want of
/// a selector, with the diagnostic that asks for one.
pub proof fn law_missing_selector(tokens: Seq<Seq<char>>)
    requires
        forall|j: int| 0 <= j < tokens.len() ==> is_known(#[trigger] tokens[j]),
        forall|j: int| 0 <= j < tokens.len() ==> selector_kind(#[trigger] tokens[j]) is None,
    ensures
        resolved(tokens) == Err::<HandlerConfig, ConfigFault>(ConfigFault::MissingSelector),
        config_diagnostic(ConfigFault::MissingSelector)
            == "must have either 'fetch' or 'scheduled' attribute, e.g. #[event(fetch)]"@,
{
    lemma_all_known(tokens);
    lemma_no_selector(tokens);
}

/// The first unknown identifier of a list fails the resolution and is the
/// one that the diagnostic names, whatever else the list holds.
pub proof fn law_unknown_token_named(tokens: Seq<Seq<char>>, at: int)
    requires
        0 <= at < tokens.len(),
        !is_known(tokens[at]),
        forall|j: int| 0 <= j < at ==> is_known(#[trigger] tokens[j]),
    ensures
        resolved(tokens) == Err::<HandlerConfig, ConfigFault>(
            ConfigFault::UnknownToken(tokens[at]),
        ),
        config_diagnostic(ConfigFault::UnknownToken(tokens[at])) == "Invalid attribute: "@
            + tokens[at],
{
    lemma_first_unknown_at(tokens, at);
}

/// A list with an unknown identifier anywhere in it fails, and the
/// identifier reported is an unknown one of the list.
pub proof fn law_unknown_token_fails(tokens: Seq<Seq<char>>, at: int)
    requires
        0 <= at < tokens.len(),
        !is_known(tokens[at]),
    ensures
        resolved(tokens) matches Err(ConfigFault::UnknownToken(token)) && tokens.contains(token)
            && !is_known(token),
{
    lemma_all_known(tokens);
    assert(first_unknown(tokens) is Some);
}

/// A resolved configuration comes from a list in which every identifier is
/// known and a selector of its kind stands.
pub proof fn law_resolution_sound(tokens: Seq<Seq<char>>)
    requires
        resolved(tokens) is Ok,
    ensures
        forall|j: int| 0 <= j < tokens.len() ==> is_known(#[trigger] tokens[j]),
        exists|j: int|
            0 <= j < tokens.len() && selector_kind(#[trigger] tokens[j]) == Some(
                resolved(tokens)->Ok_0.kind,
            ),
        resolved(tokens)->Ok_0.respond_with_errors == tokens.contains(error_modifier()),
{
    lemma_all_known(tokens);
    lemma_selected_stands(tokens);
}

/// The selected kind is the kind of a selector of the list.
proof fn lemma_selected_stands(tokens: Seq<Seq<char>>)
    requires
        selected_kind(tokens) is Some,
    ensures
        exists|j: int|
            0 <= j < tokens.len() && selector_kind(#[trigger] tokens[j]) == selected_kind(tokens),
    decreases tokens.len(),
{
    if selector_kind(tokens.last()) is Some {
        assert(selector_kind(tokens[tokens.len() - 1]) == selected_kind(tokens));
    } else {
        let rest = tokens.drop_last();
        lemma_selected_stands(rest);
        let j = choose|j: int|
            0 <= j < rest.len() && selector_kind(#[trigger] rest[j]) == selected_kind(rest);
        assert(tokens[j] == rest[j]);
    }
}

/// An attribute whose arguments are known identifiers with exactly one
/// selector among them expands on every item that is a function, and the
/// adapter is published under the selector's own name.
pub proof fn law_valid_attribute_expands(
    attr: TokenStream,
    item: TokenStream,
    tokens: Seq<Seq<char>>,
    at: int,
)
    requires
        listed_identifiers(attr) == Some(tokens),
        function_name(item) is Some,
        forall|j: int| 0 <= j < tokens.len() ==> is_known(#[trigger] tokens[j]),
        0 <= at < tokens.len(),
        selector_kind(tokens[at]) is Some,
        forall|j: int|
            0 <= j < tokens.len() && j != at ==> selector_kind(#[trigger] tokens[j]) is None,
    ensures
        outcome(attr, item) == (Outcome::Expanded {
            config: HandlerConfig {
                kind: selector_kind(tokens[at])->Some_0,
                respond_with_errors: tokens.contains(error_modifier()),
            },
            original: function_name(item)->Some_0,
        }),
        wrapper_name(selector_kind(tokens[at])->Some_0) == tokens[at],
{
    law_single_selector_resolves(tokens, at);
}

/// An attribute whose arguments are known identifiers without a selector
/// fails for want of a selector, whatever it stands on.
pub proof fn law_attribute_without_selector_fails(
    attr: TokenStream,
    item: TokenStream,
    tokens: Seq<Seq<char>>,
)
    requires
        listed_identifiers(attr) == Some(tokens),
        forall|j: int| 0 <= j < tokens.len() ==> is_known(#[trigger] tokens[j]),
        forall|j: int| 0 <= j < tokens.len() ==> selector_kind(#[trigger] tokens[j]) is None,
    ensures
        outcome(attr, item) == Outcome::Misconfigured(ConfigFault::MissingSelector),
{
    law_missing_selector(tokens);
}

/// An attribute with an unknown identifier among its arguments fails,
/// whatever it stands on, and reports the first unknown identifier.
pub proof fn law_attribute_with_unknown_token_fails(
    attr: TokenStream,
    item: TokenStream,
    tokens: Seq<Seq<char>>,
    at: int,
)
    requires
        listed_identifiers(attr) == Some(tokens),
        0 <= at < tokens.len(),
        !is_known(tokens[at]),
        forall|j: int| 0 <= j < at ==> is_known(#[trigger] tokens[j]),
    ensures
        outcome(attr, item) == Outcome::Misconfigured(ConfigFault::UnknownToken(tokens[at])),
{
    law_unknown_token_named(tokens, at);
}

/// The adapter's name, parameters and return clause depend on the kind
/// alone: the modifier and the handler's name leave them as they are.
pub proof fn law_signature_fixed_by_kind(first: HandlerConfig, second: HandlerConfig)
    requires
        first.kind == second.kind,
    ensures
        wrapper_name(first.kind) == wrapper_name(second.kind),
        wrapper_params(first.kind) == wrapper_params(second.kind),
        wrapper_output(first.kind) == wrapper_output(second.kind),
        wrapper_name(HandlerKind::Fetch) != wrapper_name(HandlerKind::Scheduled),
{
    reveal_strlit("fetch");
    reveal_strlit("scheduled");
    assert(wrapper_name(HandlerKind::Fetch).len() == 5);
    assert(wrapper_name(HandlerKind::Scheduled).len() == 9);
}

/// A scheduled adapter has no error policy, and its body is the same with
/// and without the modifier: a failure of the handler is handed on as it is.
pub proof fn law_scheduled_ignores_modifier(relocated: Seq<char>)
    ensures
        error_policy(
            HandlerConfig { kind: HandlerKind::Scheduled, respond_with_errors: true },
        ) is None,
        error_policy(
            HandlerConfig { kind: HandlerKind::Scheduled, respond_with_errors: false },
        ) is None,
        wrapper_body(
            HandlerConfig { kind: HandlerKind::Scheduled, respond_with_errors: true },
            relocated,
        ) == wrapper_body(
            HandlerConfig { kind: HandlerKind::Scheduled, respond_with_errors: false },
            relocated,
        ),
{
}

/// The part of a fetch adapter's body that stands before the terminal
/// action of its error arm. It ends with the logging of the failure.
pub open spec fn fetch_prologue(relocated: Seq<char>) -> Seq<char> {
    "let ctx = worker::Context::new(ctx); match "@ + relocated
        + "(::worker::Request::from(req), env, ctx).await.map(::worker::worker_sys::Response::from) { Ok(res) => res, Err(e) => { "@
        + log_statement() + " "@
}

/// In a fetch adapter the modifier chooses the policy, the failure is logged
/// under both policies before anything else is done with it, and the two
/// bodies differ in the terminal action alone.
pub proof fn law_fetch_logs_then_acts(relocated: Seq<char>, policy: ErrorPolicy)
    ensures
        error_policy(HandlerConfig { kind: HandlerKind::Fetch, respond_with_errors: true })
            == Some(ErrorPolicy::Respond),
        error_policy(HandlerConfig { kind: HandlerKind::Fetch, respond_with_errors: false })
            == Some(ErrorPolicy::Abort),
        error_arm(policy) == log_statement() + " "@ + terminal_action(policy),
        fetch_body(relocated, policy) == fetch_prologue(relocated) + terminal_action(policy)
            + " } }"@,
        terminal_action(ErrorPolicy::Respond) != terminal_action(ErrorPolicy::Abort),
{
    reveal_strlit("Response::error(e.to_string(), 500).unwrap().into()");
    reveal_strlit("panic!(\"{}\", e)");
    assert(terminal_action(ErrorPolicy::Respond).len() == 51);
    assert(terminal_action(ErrorPolicy::Abort).len() == 15);
    assert(fetch_body(relocated, policy) =~= fetch_prologue(relocated) + terminal_action(policy)
        + " } }"@);
}

/// Text between equal surroundings is equal.
proof fn lemma_middle_cancels(head: Seq<char>, first: Seq<char>, second: Seq<char>, tail: Seq<char>)
    requires
        head + first + tail == head + second + tail,
    ensures
        first == second,
{
    let left = head + first + tail;
    let right = head + second + tail;
    assert(left.len() == head.len() + first.len() + tail.len());
    assert(right.len() == head.len() + second.len() + tail.len());
    assert(first =~= left.subrange(head.len() as int, (head.len() + first.len()) as int));
    assert(second =~= right.subrange(head.len() as int, (head.len() + second.len()) as int));
}

/// The adapter calls the handler under the very identifier it was
/// synthesized for: adapters of one configuration for two identifiers have
/// different bodies.
pub proof fn law_wrapper_names_its_handler(
    config: HandlerConfig,
    first: Seq<char>,
    second: Seq<char>,
)
    requires
        wrapper_body(config, first) == wrapper_body(config, second),
    ensures
        first == second,
{
    match error_policy(config) {
        Some(policy) => {
            let head = "let ctx = worker::Context::new(ctx); match "@;
            let tail =
                "(::worker::Request::from(req), env, ctx).await.map(::worker::worker_sys::Response::from) { Ok(res) => res, Err(e) => { "@
                + error_arm(policy) + " } }"@;
            assert(fetch_body(first, policy) =~= head + first + tail);
            assert(fetch_body(second, policy) =~= head + second + tail);
            lemma_middle_cancels(head, first, second, tail);
        },
        None => {
            let tail =
                "(::worker::ScheduledEvent::from(event), env, ::worker::ScheduleContext::from(ctx)).await"@;
            assert(Seq::<char>::empty() + first + tail =~= first + tail);
            assert(Seq::<char>::empty() + second + tail =~= second + tail);
            lemma_middle_cancels(Seq::empty(), first, second, tail);
        },
    }
}

} // verus!
