//! Attribute resolution: from the identifiers written inside `#[event(..)]`
//! to a validated handler configuration.

use crate::error::{ExpandError, ExpandFault};
use vstd::prelude::*;
use vstd::string::*;

verus! {

/// The category of event a generated adapter is specialised for.
#[derive(Clone, Copy, Debug, PartialEq, Eq, Structural)]
pub enum HandlerKind {
    /// A request/response cycle.
    Fetch,
    /// A timer-driven invocation.
    Scheduled,
}

/// The resolved configuration of one expansion.
///
/// `respond_with_errors` only shapes a `Fetch` adapter. It is accepted next
/// to `scheduled` and has no effect there.
#[derive(Clone, Copy, Debug, PartialEq, Eq, Structural)]
pub struct HandlerConfig {
    pub kind: HandlerKind,
    pub respond_with_errors: bool,
}

/// Why an attribute argument list resolves to no configuration.
pub enum ConfigFault {
    /// The list holds this identifier, which the attribute does not know.
    UnknownToken(Seq<char>),
    /// The list names neither `fetch` nor `scheduled`.
    MissingSelector,
}

pub open spec fn fetch_selector() -> Seq<char> {
    "fetch"@
}

pub open spec fn scheduled_selector() -> Seq<char> {
    "scheduled"@
}

pub open spec fn error_modifier() -> Seq<char> {
    "respond_with_errors"@
}

/// The kind that `token` selects, if it is one of the two selectors.
pub open spec fn selector_kind(token: Seq<char>) -> Option<HandlerKind> {
    if token == fetch_selector() {
        Some(HandlerKind::Fetch)
    } else if token == scheduled_selector() {
        Some(HandlerKind::Scheduled)
    } else {
        None
    }
}

/// Whether `token` is one of the three identifiers the attribute accepts.
pub open spec fn is_known(token: Seq<char>) -> bool {
    selector_kind(token) is Some || token == error_modifier()
}

/// The first identifier of `tokens` that the attribute does not know.
pub open spec fn first_unknown(tokens: Seq<Seq<char>>) -> Option<Seq<char>>
    decreases tokens.len(),
{
    if tokens.len() == 0 {
        None
    } else if !is_known(tokens.first()) {
        Some(tokens.first())
    } else {
        first_unknown(tokens.drop_first())
    }
}

/// The kind named by the last selector of `tokens`.
pub open spec fn selected_kind(tokens: Seq<Seq<char>>) -> Option<HandlerKind>
    decreases tokens.len(),
{
    if tokens.len() == 0 {
        None
    } else {
        match selector_kind(tokens.last()) {
            Some(kind) => Some(kind),
            None => selected_kind(tokens.drop_last()),
        }
    }
}

/// What an attribute argument list resolves to.
///
/// An unknown identifier is fatal wherever it stands, and the first one is
/// reported. Otherwise a selector must be present; the last one wins, and the
/// modifier counts wherever it stands.
pub open spec fn resolved(tokens: Seq<Seq<char>>) -> Result<HandlerConfig, ConfigFault> {
    match first_unknown(tokens) {
        Some(token) => Err(ConfigFault::UnknownToken(token)),
        None => match selected_kind(tokens) {
            None => Err(ConfigFault::MissingSelector),
            Some(kind) => Ok(
                HandlerConfig { kind, respond_with_errors: tokens.contains(error_modifier()) },
            ),
        },
    }
}

/// The texts of a list of identifiers.
pub open spec fn texts(tokens: Seq<String>) -> Seq<Seq<char>> {
    Seq::new(tokens.len(), |i: int| tokens[i]@)
}

/// Once every identifier before position `at` is known, an unknown one at
/// `at` is the first unknown identifier of the list.
pub proof fn lemma_first_unknown_at(tokens: Seq<Seq<char>>, at: int)
    requires
        0 <= at < tokens.len(),
        forall|j: int| 0 <= j < at ==> is_known(#[trigger] tokens[j]),
        !is_known(tokens[at]),
    ensures
        first_unknown(tokens) == Some(tokens[at]),
    decreases tokens.len(),
{
    if at > 0 {
        let rest = tokens.drop_first();
        assert forall|j: int| 0 <= j < at - 1 implies is_known(#[trigger] rest[j]) by {
            assert(rest[j] == tokens[j + 1]);
        }
        lemma_first_unknown_at(rest, at - 1);
    }
}

/// A list has no first unknown identifier exactly when all of it is known.
pub proof fn lemma_all_known(tokens: Seq<Seq<char>>)
    ensures
        first_unknown(tokens) is None <==> forall|j: int|
            0 <= j < tokens.len() ==> is_known(#[trigger] tokens[j]),
        first_unknown(tokens) matches Some(token) ==> tokens.contains(token) && !is_known(token),
    decreases tokens.len(),
{
    if tokens.len() > 0 {
        let rest = tokens.drop_first();
        lemma_all_known(rest);
        if is_known(tokens.first()) {
            if first_unknown(rest) is None {
                assert forall|j: int| 0 <= j < tokens.len() implies is_known(
                    #[trigger] tokens[j],
                ) by {
                    if j > 0 {
                        assert(tokens[j] == rest[j - 1]);
                    }
                }
            } else {
                let token = first_unknown(rest)->Some_0;
                let k = choose|k: int| 0 <= k < rest.len() && rest[k] == token;
                assert(tokens[k + 1] == token);
            }
        } else {
            assert(tokens[0] == tokens.first());
        }
    }
}

/// A list without a selector selects no kind.
pub proof fn lemma_no_selector(tokens: Seq<Seq<char>>)
    requires
        forall|j: int| 0 <= j < tokens.len() ==> selector_kind(#[trigger] tokens[j]) is None,
    ensures
        selected_kind(tokens) is None,
    decreases tokens.len(),
{
    if tokens.len() > 0 {
        let rest = tokens.drop_last();
        assert forall|j: int| 0 <= j < rest.len() implies selector_kind(
            #[trigger] rest[j],
        ) is None by {
            assert(rest[j] == tokens[j]);
        }
        lemma_no_selector(rest);
    }
}

/// The selector at `at` decides the kind when no selector follows it.
pub proof fn lemma_last_selector(tokens: Seq<Seq<char>>, at: int)
    requires
        0 <= at < tokens.len(),
        selector_kind(tokens[at]) is Some,
        forall|j: int| at < j < tokens.len() ==> selector_kind(#[trigger] tokens[j]) is None,
    ensures
        selected_kind(tokens) == selector_kind(tokens[at]),
    decreases tokens.len(),
{
    if at < tokens.len() - 1 {
        let rest = tokens.drop_last();
        assert(rest[at] == tokens[at]);
        assert forall|j: int| at < j < rest.len() implies selector_kind(
            #[trigger] rest[j],
        ) is None by {
            assert(rest[j] == tokens[j]);
        }
        lemma_last_selector(rest, at);
    }
}

impl HandlerKind {
    /// The kind that an attribute identifier selects.
    pub fn from_selector(token: &str) -> (kind: Option<HandlerKind>)
        ensures
            kind == selector_kind(token@),
    {
        if str_equal(token, "fetch") {
            Some(HandlerKind::Fetch)
        } else if str_equal(token, "scheduled") {
            Some(HandlerKind::Scheduled)
        } else {
            None
        }
    }
}

/// Resolves the identifiers of an attribute argument list, in the order in
/// which they were written, into a configuration.
///
/// `fetch` and `scheduled` select the kind, `respond_with_errors` sets the
/// modifier. The first identifier that is none of the three fails the
/// resolution, as does a list without a selector.
pub fn resolve_attributes(tokens: &Vec<String>) -> (res: Result<HandlerConfig, ExpandError>)
    ensures
        match res {
            Ok(config) => resolved(texts(tokens@)) == Ok::<HandlerConfig, ConfigFault>(config),
            Err(error) => error@ matches ExpandFault::Config(fault) && resolved(texts(tokens@))
                == Err::<HandlerConfig, ConfigFault>(fault),
        },
{
    let ghost all = texts(tokens@);
    let mut kind: Option<HandlerKind> = None;
    let mut respond_with_errors = false;
    let mut at: usize = 0;
    while at < tokens.len()
        invariant
            at <= tokens.len(),
            all == texts(tokens@),
            forall|j: int| 0 <= j < at ==> is_known(#[trigger] all[j]),
            kind == selected_kind(all.take(at as int)),
            respond_with_errors == all.take(at as int).contains(error_modifier()),
        decreases tokens.len() - at,
    {
        let token = tokens[at].as_str();
        let ghost seen = all.take(at as int);
        let ghost next = all.take(at + 1);
        proof {
            assert(token@ == all[at as int]);
            assert(next.last() == token@);
            assert(next.drop_last() == seen);
            assert(next == seen.push(token@));
            lemma_push_contains(seen, token@, error_modifier());
        }
        match HandlerKind::from_selector(token) {
            Some(selected) => {
                proof {
                    lemma_tokens_differ();
                }
                kind = Some(selected);
            },
            None => {
                if str_equal(token, "respond_with_errors") {
                    respond_with_errors = true;
                } else {
                    proof {
                        lemma_first_unknown_at(all, at as int);
                    }
                    return Err(ExpandError::InvalidAttribute(tokens[at].clone()));
                }
            },
        }
        at += 1;
    }
    proof {
        assert(all.take(at as int) == all);
        lemma_all_known(all);
    }
    match kind {
        Some(kind) => Ok(HandlerConfig { kind, respond_with_errors }),
        None => Err(ExpandError::MissingHandlerKind),
    }
}

/// The three identifiers of the attribute are pairwise different.
pub proof fn lemma_tokens_differ()
    ensures
        fetch_selector() != scheduled_selector(),
        fetch_selector() != error_modifier(),
        scheduled_selector() != error_modifier(),
{
    reveal_strlit("fetch");
    reveal_strlit("scheduled");
    reveal_strlit("respond_with_errors");
    assert(fetch_selector().len() == 5);
    assert(scheduled_selector().len() == 9);
    assert(error_modifier().len() == 19);
}

/// A list with one more element holds what it held before, and that element.
proof fn lemma_push_contains(list: Seq<Seq<char>>, last: Seq<char>, wanted: Seq<char>)
    ensures
        list.push(last).contains(wanted) <==> list.contains(wanted) || last == wanted,
{
    let longer = list.push(last);
    if list.contains(wanted) {
        let k = choose|k: int| 0 <= k < list.len() && list[k] == wanted;
        assert(longer[k] == wanted);
    }
    if last == wanted {
        assert(longer[list.len() as int] == wanted);
    }
    if longer.contains(wanted) {
        let k = choose|k: int| 0 <= k < longer.len() && longer[k] == wanted;
        if k < list.len() {
            assert(list[k] == wanted);
        }
    }
}

/// Whether two strings hold the same characters.
fn str_equal(left: &str, right: &str) -> (same: bool)
    ensures
        same == (left@ == right@),
{
    let left_owned = String::from_str(left);
    let right_owned = String::from_str(right);
    left_owned == right_owned
}

} // verus!
