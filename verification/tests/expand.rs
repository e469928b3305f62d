use proc_macro2::TokenStream;
use worker_macros::config::{HandlerConfig, HandlerKind};
use worker_macros::error::ExpandError;
use worker_macros::expand_macro;

const HANDLER: &str =
    "pub async fn main(req: Request, env: Env, _ctx: Context) -> Result<Response> { Response::ok(\"hello\") }";

const JOB: &str = "pub async fn tick(event: ScheduledEvent, env: Env, _ctx: ScheduleContext) { run(event, env).await }";

fn tokens(text: &str) -> TokenStream {
    text.parse().unwrap()
}

#[test]
fn fetch_attribute_on_a_handler() {
    let expansion = match expand_macro(tokens("fetch"), tokens(HANDLER)) {
        Ok(expansion) => expansion,
        Err(error) => panic!("{}", error.message()),
    };
    assert_eq!(
        expansion.config,
        HandlerConfig { kind: HandlerKind::Fetch, respond_with_errors: false }
    );
    assert_eq!(expansion.original, "main");
    assert_eq!(expansion.function.ident, "main_fetch_glue");
    assert_eq!(expansion.wrapper.name, "fetch");
    assert!(expansion.wrapper.body.contains("match main_fetch_glue("));
    assert!(expansion.wrapper.body.contains("panic!(\"{}\", e)"));
}

#[test]
fn fetch_attribute_with_the_modifier() {
    let expansion = expand_macro(tokens("fetch, respond_with_errors"), tokens(HANDLER))
        .ok()
        .unwrap();
    assert!(expansion.config.respond_with_errors);
    assert_eq!(expansion.wrapper.name, "fetch");
    assert!(expansion
        .wrapper
        .body
        .contains("Response::error(e.to_string(), 500).unwrap().into()"));
}

#[test]
fn scheduled_attribute_on_a_job() {
    let expansion = expand_macro(tokens("scheduled"), tokens(JOB)).ok().unwrap();
    assert_eq!(expansion.config.kind, HandlerKind::Scheduled);
    assert_eq!(expansion.original, "tick");
    assert_eq!(expansion.function.ident, "tick_scheduled_glue");
    assert_eq!(expansion.wrapper.name, "scheduled");
    assert!(expansion.wrapper.body.starts_with("tick_scheduled_glue("));
}

#[test]
fn trailing_comma_is_accepted() {
    let expansion = expand_macro(tokens("respond_with_errors, fetch,"), tokens(HANDLER))
        .ok()
        .unwrap();
    assert_eq!(
        expansion.config,
        HandlerConfig { kind: HandlerKind::Fetch, respond_with_errors: true }
    );
}

#[test]
fn definition_is_carried_through_as_parsed() {
    let expansion = expand_macro(tokens("fetch"), tokens(HANDLER)).ok().unwrap();
    let expected = syn::parse_str::<syn::ItemFn>(HANDLER).unwrap();
    assert_eq!(expansion.function.definition.sig.inputs.len(), expected.sig.inputs.len());
    assert_eq!(expansion.function.definition.sig.ident.to_string(), "main");
    assert_eq!(expansion.function.definition.block.stmts.len(), expected.block.stmts.len());
}

#[test]
fn empty_attribute_misses_the_selector() {
    assert!(matches!(
        expand_macro(tokens(""), tokens(HANDLER)),
        Err(ExpandError::MissingHandlerKind)
    ));
    assert!(matches!(
        expand_macro(tokens("respond_with_errors"), tokens(HANDLER)),
        Err(ExpandError::MissingHandlerKind)
    ));
}

#[test]
fn unknown_argument_is_named() {
    match expand_macro(tokens("fetch, cron"), tokens(HANDLER)) {
        Err(error) => {
            assert!(matches!(&error, ExpandError::InvalidAttribute(token) if token == "cron"));
            assert_eq!(error.message(), "Invalid attribute: cron");
        }
        Ok(_) => panic!("an unknown argument was accepted"),
    }
}

#[test]
fn arguments_that_are_no_identifier_list_are_a_syntax_error() {
    for attr in ["fetch scheduled", "fetch = true", "\"fetch\"", "fetch(500)", ", fetch", "fetch,,"] {
        assert!(
            matches!(expand_macro(tokens(attr), tokens(HANDLER)), Err(ExpandError::Syntax(_))),
            "{}",
            attr
        );
    }
}

#[test]
fn item_that_is_no_function_is_a_syntax_error() {
    for item in ["struct Handler;", "", "pub async fn main(req: Request)", "fn a() {} fn b() {}"] {
        assert!(
            matches!(expand_macro(tokens("fetch"), tokens(item)), Err(ExpandError::Syntax(_))),
            "{}",
            item
        );
    }
}

#[test]
fn syntax_error_speaks_in_the_words_of_the_parser() {
    match expand_macro(tokens("fetch"), tokens("struct Handler;")) {
        Err(error) => assert!(!error.message().is_empty()),
        Ok(_) => panic!("a struct was accepted"),
    }
}

#[test]
fn attribute_is_judged_before_the_item() {
    assert!(matches!(
        expand_macro(tokens("cron"), tokens("struct Handler;")),
        Err(ExpandError::InvalidAttribute(_))
    ));
    assert!(matches!(
        expand_macro(tokens(""), tokens("struct Handler;")),
        Err(ExpandError::MissingHandlerKind)
    ));
    assert!(matches!(
        expand_macro(tokens("fetch fetch"), tokens("struct Handler;")),
        Err(ExpandError::Syntax(_))
    ));
}

#[test]
fn only_the_name_matters_of_the_handler() {
    let expansion = expand_macro(tokens("scheduled"), tokens("fn f() {}")).ok().unwrap();
    assert_eq!(expansion.function.ident, "f_scheduled_glue");
    let expansion = expand_macro(
        tokens("fetch"),
        tokens("#[inline] pub(crate) unsafe fn serve<T: Clone>(x: T) -> T where T: Send { x }"),
    )
    .ok()
    .unwrap();
    assert_eq!(expansion.original, "serve");
    assert_eq!(expansion.function.ident, "serve_fetch_glue");
}

#[test]
fn adapter_of_a_parsed_handler_parses_and_calls_it() {
    let expansion = expand_macro(tokens("fetch, respond_with_errors"), tokens(HANDLER))
        .ok()
        .unwrap();
    let adapter = syn::parse_str::<syn::ItemFn>(&expansion.wrapper.source()).unwrap();
    assert_eq!(adapter.sig.ident.to_string(), "fetch");
    let text = expansion.wrapper.source();
    assert_eq!(text.matches("main_fetch_glue").count(), 1);
}

#[test]
fn emission_keeps_the_parsed_handler_and_the_export() {
    let expansion = expand_macro(tokens("fetch"), tokens(HANDLER)).ok().unwrap();
    let export = tokens("pub extern \"C\" fn __wasm_bindgen_generated_fetch() {}");
    let output = match expansion.emit(Ok::<TokenStream, String>(export.clone())) {
        Ok(output) => output,
        Err(error) => panic!("{}", error.message()),
    };
    assert_eq!(output.function.ident, "main_fetch_glue");
    assert_eq!(output.function.definition.sig.ident.to_string(), "main");
    assert_eq!(output.module.name, "_worker_fetch");
    assert_eq!(output.module.export.to_string(), export.to_string());
}

#[test]
fn raw_identifiers_keep_their_prefix() {
    match expand_macro(tokens("r#fetch"), tokens(HANDLER)) {
        Err(ExpandError::InvalidAttribute(token)) => assert_eq!(token, "r#fetch"),
        _ => panic!("a raw identifier was taken for a selector"),
    }
    let expansion = expand_macro(tokens("fetch"), tokens("fn r#try() {}")).ok().unwrap();
    assert_eq!(expansion.original, "r#try");
    assert_eq!(expansion.function.ident, "r#try_fetch_glue");
}

#[test]
fn keyword_is_no_argument() {
    assert!(matches!(
        expand_macro(tokens("fn"), tokens(HANDLER)),
        Err(ExpandError::Syntax(_))
    ));
}

#[test]
fn both_selectors_let_the_last_one_win() {
    let expansion = expand_macro(tokens("fetch, scheduled"), tokens(JOB)).ok().unwrap();
    assert_eq!(expansion.config.kind, HandlerKind::Scheduled);
    assert_eq!(expansion.function.ident, "tick_scheduled_glue");
    assert_eq!(expansion.wrapper.name, "scheduled");
}

#[test]
fn scheduled_with_the_modifier_has_no_error_branch() {
    let plain = expand_macro(tokens("scheduled"), tokens(JOB)).ok().unwrap();
    let modified =
        expand_macro(tokens("scheduled, respond_with_errors"), tokens(JOB)).ok().unwrap();
    assert!(modified.config.respond_with_errors);
    assert_eq!(plain.wrapper.source(), modified.wrapper.source());
    assert!(!modified.wrapper.source().contains("500"));
}
