use worker_macros::config::HandlerKind;
use worker_macros::relocate::{relocated_ident, SourceFunction};

#[test]
fn fetch_handler_gets_the_fetch_suffix() {
    assert_eq!(relocated_ident("main", HandlerKind::Fetch), "main_fetch_glue");
}

#[test]
fn scheduled_handler_gets_the_scheduled_suffix() {
    assert_eq!(relocated_ident("tick", HandlerKind::Scheduled), "tick_scheduled_glue");
}

#[test]
fn suffixes_are_fixed_by_the_kind() {
    assert_eq!(HandlerKind::Fetch.suffix(), "_fetch_glue");
    assert_eq!(HandlerKind::Scheduled.suffix(), "_scheduled_glue");
}

#[test]
fn suffix_is_appended_to_any_name() {
    assert_eq!(relocated_ident("", HandlerKind::Fetch), "_fetch_glue");
    assert_eq!(relocated_ident("fetch", HandlerKind::Fetch), "fetch_fetch_glue");
    assert_eq!(relocated_ident("r#try", HandlerKind::Scheduled), "r#try_scheduled_glue");
    assert_eq!(relocated_ident("gr\u{fc}\u{df}e", HandlerKind::Fetch), "gr\u{fc}\u{df}e_fetch_glue");
}

#[test]
fn relocation_renames_in_place_and_keeps_the_definition() {
    let mut function =
        SourceFunction { ident: "main".to_string(), definition: vec![1u8, 2, 3] };
    function.relocate(HandlerKind::Fetch);
    assert_eq!(function.ident, "main_fetch_glue");
    assert_eq!(function.definition, vec![1u8, 2, 3]);
}

#[test]
fn relocating_twice_appends_twice() {
    let mut function = SourceFunction { ident: "job".to_string(), definition: () };
    function.relocate(HandlerKind::Scheduled);
    function.relocate(HandlerKind::Scheduled);
    assert_eq!(function.ident, "job_scheduled_glue_scheduled_glue");
}

#[test]
fn different_names_stay_different() {
    let names = ["a", "b", "main", "main_", "main_fetch_glue"];
    for kind in [HandlerKind::Fetch, HandlerKind::Scheduled] {
        for first in names {
            for second in names {
                assert_eq!(
                    relocated_ident(first, kind) == relocated_ident(second, kind),
                    first == second
                );
            }
        }
    }
}

#[test]
fn original_name_reads_back_off_the_relocated_one() {
    let relocated = relocated_ident("handle_request", HandlerKind::Fetch);
    assert_eq!(relocated.strip_suffix(HandlerKind::Fetch.suffix()), Some("handle_request"));
}
