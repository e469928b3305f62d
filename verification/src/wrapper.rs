//! Wrapper synthesis: the adapter that takes the handler's public place and
//! bridges the runtime's low-level types to the handler's high-level ones.

use crate::config::{HandlerConfig, HandlerKind};
use vstd::prelude::*;
use vstd::string::*;

verus! {

/// What a fetch adapter does, after logging, with a handler's failure.
#[derive(Clone, Copy, Debug, PartialEq, Eq, Structural)]
pub enum ErrorPolicy {
    /// Answer with status 500 and the error's text as the body.
    Respond,
    /// Abort the invocation with a fault that carries the error's text.
    Abort,
}

/// The name under which the runtime looks the adapter up. It depends on the
/// kind and on nothing else.
pub open spec fn wrapper_name(kind: HandlerKind) -> Seq<char> {
    match kind {
        HandlerKind::Fetch => "fetch"@,
        HandlerKind::Scheduled => "scheduled"@,
    }
}

/// The three low-level parameters that the runtime passes.
pub open spec fn wrapper_params(kind: HandlerKind) -> Seq<char> {
    match kind {
        HandlerKind::Fetch =>
            "req: ::worker::worker_sys::Request, env: ::worker::Env, ctx: ::worker::worker_sys::Context"@,
        HandlerKind::Scheduled =>
            "event: ::worker::worker_sys::ScheduledEvent, env: ::worker::Env, ctx: ::worker::worker_sys::ScheduleContext"@,
    }
}

/// The type that the adapter returns, empty where it returns nothing: a
/// scheduled adapter has no value to hand back.
pub open spec fn wrapper_output(kind: HandlerKind) -> Seq<char> {
    match kind {
        HandlerKind::Fetch => "::worker::worker_sys::Response"@,
        HandlerKind::Scheduled => ""@,
    }
}

/// The return clause for the return type `output`: none for an empty one.
pub open spec fn return_clause(output: Seq<char>) -> Seq<char> {
    if output.len() == 0 {
        output
    } else {
        " -> "@ + output
    }
}

/// The error policy of a configuration. Only a fetch adapter has one, and
/// the modifier chooses it; a scheduled adapter has none whatever the
/// modifier says.
pub open spec fn error_policy(config: HandlerConfig) -> Option<ErrorPolicy> {
    match config.kind {
        HandlerKind::Fetch => Some(
            if config.respond_with_errors {
                ErrorPolicy::Respond
            } else {
                ErrorPolicy::Abort
            },
        ),
        HandlerKind::Scheduled => None,
    }
}

/// The statement that logs a handler's failure `e`.
pub open spec fn log_statement() -> Seq<char> {
    "::worker::console_log!(\"{}\", &e);"@
}

/// What follows the logging: the one place where the two policies differ.
pub open spec fn terminal_action(policy: ErrorPolicy) -> Seq<char> {
    match policy {
        ErrorPolicy::Respond => "Response::error(e.to_string(), 500).unwrap().into()"@,
        ErrorPolicy::Abort => "panic!(\"{}\", e)"@,
    }
}

/// What a fetch adapter does with a failure `e`: log it, then act on it.
pub open spec fn error_arm(policy: ErrorPolicy) -> Seq<char> {
    log_statement() + " "@ + terminal_action(policy)
}

/// The body of a fetch adapter around the handler `relocated`.
pub open spec fn fetch_body(relocated: Seq<char>, policy: ErrorPolicy) -> Seq<char> {
    "let ctx = worker::Context::new(ctx); match "@ + relocated
        + "(::worker::Request::from(req), env, ctx).await.map(::worker::worker_sys::Response::from) { Ok(res) => res, Err(e) => { "@
        + error_arm(policy) + " } }"@
}

/// The body of a scheduled adapter around the handler `relocated`.
pub open spec fn scheduled_body(relocated: Seq<char>) -> Seq<char> {
    relocated
        + "(::worker::ScheduledEvent::from(event), env, ::worker::ScheduleContext::from(ctx)).await"@
}

/// The body of the adapter for `config` around the handler `relocated`.
pub open spec fn wrapper_body(config: HandlerConfig, relocated: Seq<char>) -> Seq<char> {
    match error_policy(config) {
        Some(policy) => fetch_body(relocated, policy),
        None => scheduled_body(relocated),
    }
}

/// The adapter function, part by part, as source text.
#[derive(Clone, Debug)]
pub struct GeneratedWrapper {
    /// The public identifier: `fetch` or `scheduled`.
    pub name: String,
    /// The parameter list, without its parentheses.
    pub params: String,
    /// The return type, empty where the adapter returns nothing.
    pub output: String,
    /// The statements of the body, without its braces.
    pub body: String,
}

impl GeneratedWrapper {
    /// Whether this is the adapter for `config` around the handler
    /// `relocated`.
    pub open spec fn is_for(&self, config: HandlerConfig, relocated: Seq<char>) -> bool {
        &&& self.name@ == wrapper_name(config.kind)
        &&& self.params@ == wrapper_params(config.kind)
        &&& self.output@ == wrapper_output(config.kind)
        &&& self.body@ == wrapper_body(config, relocated)
    }

    /// The text of the definition that [`GeneratedWrapper::source`] writes.
    pub open spec fn source_text(&self) -> Seq<char> {
        "pub async fn "@ + self.name@ + "("@ + self.params@ + ")"@ + return_clause(self.output@)
            + " { "@ + self.body@ + " }"@
    }

    /// The adapter as one function definition.
    pub fn source(&self) -> (text: String)
        ensures
            text@ == self.source_text(),
    {
        let mut text = String::from_str("pub async fn ");
        text.append(self.name.as_str());
        text.append("(");
        text.append(self.params.as_str());
        text.append(")");
        if !self.output.as_str().is_empty() {
            text.append(" -> ");
            text.append(self.output.as_str());
        }
        text.append(" { ");
        text.append(self.body.as_str());
        text.append(" }");
        text
    }
}

impl HandlerKind {
    /// The public identifier of the adapter for this kind.
    pub fn wrapper_ident(self) -> (text: &'static str)
        ensures
            text@ == wrapper_name(self),
    {
        match self {
            HandlerKind::Fetch => "fetch",
            HandlerKind::Scheduled => "scheduled",
        }
    }
}

impl HandlerConfig {
    /// The error policy of the adapter, if its kind has one.
    pub fn error_policy(&self) -> (policy: Option<ErrorPolicy>)
        ensures
            policy == error_policy(*self),
    {
        match self.kind {
            HandlerKind::Fetch => {
                if self.respond_with_errors {
                    Some(ErrorPolicy::Respond)
                } else {
                    Some(ErrorPolicy::Abort)
                }
            },
            HandlerKind::Scheduled => None,
        }
    }
}

impl ErrorPolicy {
    /// The expression that ends the error arm under this policy.
    pub fn action(self) -> (text: &'static str)
        ensures
            text@ == terminal_action(self),
    {
        match self {
            ErrorPolicy::Respond => "Response::error(e.to_string(), 500).unwrap().into()",
            ErrorPolicy::Abort => "panic!(\"{}\", e)",
        }
    }
}

/// Synthesizes the adapter for `config` that calls the handler under its
/// internal identifier `relocated`.
pub fn synthesize(config: HandlerConfig, relocated: &str) -> (wrapper: GeneratedWrapper)
    ensures
        wrapper.is_for(config, relocated@),
{
    let (params, output) = match config.kind {
        HandlerKind::Fetch => (
            "req: ::worker::worker_sys::Request, env: ::worker::Env, ctx: ::worker::worker_sys::Context",
            "::worker::worker_sys::Response",
        ),
        HandlerKind::Scheduled => (
            "event: ::worker::worker_sys::ScheduledEvent, env: ::worker::Env, ctx: ::worker::worker_sys::ScheduleContext",
            "",
        ),
    };
    let body = match config.error_policy() {
        Some(policy) => {
            let mut arm = String::from_str("::worker::console_log!(\"{}\", &e);");
            arm.append(" ");
            arm.append(policy.action());
            let mut body = String::from_str("let ctx = worker::Context::new(ctx); match ");
            body.append(relocated);
            body.append(
                "(::worker::Request::from(req), env, ctx).await.map(::worker::worker_sys::Response::from) { Ok(res) => res, Err(e) => { ",
            );
            body.append(arm.as_str());
            body.append(" } }");
            body
        },
        None => {
            let mut body = String::from_str(relocated);
            body.append(
                "(::worker::ScheduledEvent::from(event), env, ::worker::ScheduleContext::from(ctx)).await",
            );
            body
        },
    };
    GeneratedWrapper {
        name: String::from_str(config.kind.wrapper_ident()),
        params: String::from_str(params),
        output: String::from_str(output),
        body,
    }
}

} // verus!
