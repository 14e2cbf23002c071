use gl_generator_profiling_struct::slot::{do_metaloadfn, FnPtr};
use gl_generator_profiling_struct::status::{
    decode_status, INVALID_ENUM, INVALID_FRAMEBUFFER_OPERATION, INVALID_OPERATION, INVALID_VALUE,
    NO_ERROR, OUT_OF_MEMORY,
};
use gl_generator_profiling_struct::table::{DispatchTable, EntryPoint};

const STUB: usize = 0xdead;

fn third_fallback_only(s: &'static str) -> usize {
    if s == "glDrawC" {
        0x3000
    } else {
        0
    }
}

fn surface() -> Vec<EntryPoint> {
    vec![
        EntryPoint { ident: "Clear", symbol: "glClear", fallbacks: vec![] },
        EntryPoint {
            ident: "Draw",
            symbol: "glDraw",
            fallbacks: vec!["glDrawA", "glDrawB", "glDrawC"],
        },
        EntryPoint { ident: "Missing", symbol: "glMissing", fallbacks: vec!["glMissingEXT"] },
        EntryPoint { ident: "GetError", symbol: "glGetError", fallbacks: vec![] },
    ]
}

fn resolver(s: &'static str) -> usize {
    match s {
        "glClear" => 0x1000,
        "glDrawC" => 0x3000,
        "glGetError" => 0x4000,
        _ => 0,
    }
}

#[test]
fn third_fallback_resolves() {
    let r = do_metaloadfn(&third_fallback_only, "glDraw", &vec!["glDrawA", "glDrawB", "glDrawC"]);
    assert_eq!(r, 0x3000);
}

#[test]
fn primary_name_wins_over_fallbacks() {
    let f = |s: &'static str| if s == "glDraw" { 0x10 } else { 0x20 };
    assert_eq!(do_metaloadfn(&f, "glDraw", &vec!["glDrawA"]), 0x10);
}

#[test]
fn first_resolving_fallback_wins() {
    let f = |s: &'static str| match s {
        "glDrawB" => 0x22,
        "glDrawC" => 0x33,
        _ => 0,
    };
    assert_eq!(do_metaloadfn(&f, "glDraw", &vec!["glDrawA", "glDrawB", "glDrawC"]), 0x22);
}

#[test]
fn nothing_resolves_to_null() {
    let f = |_s: &'static str| 0usize;
    assert_eq!(do_metaloadfn(&f, "glDraw", &vec!["glDrawA", "glDrawB"]), 0);
}

#[test]
fn fnptr_new_null_becomes_stub() {
    let p = FnPtr::new(0, STUB);
    assert!(!p.is_loaded());
    assert_eq!(p.f, STUB);
    let q = FnPtr::new(0x42, STUB);
    assert!(q.is_loaded());
    assert_eq!(q.f, 0x42);
}

#[test]
fn load_with_binds_each_slot() {
    let t = DispatchTable::load_with(&resolver, &surface(), Some(3), STUB);
    assert_eq!(t.len(), 4);
    assert_eq!(t.slot(0), FnPtr { f: 0x1000, is_loaded: true });
    assert_eq!(t.slot(1), FnPtr { f: 0x3000, is_loaded: true });
    assert_eq!(t.slot(3), FnPtr { f: 0x4000, is_loaded: true });
    assert_eq!(t.profiler_call_count(), 0);
    assert_eq!(t.profiler_err_count(), 0);
}

#[test]
fn unresolved_slot_holds_stub() {
    let t = DispatchTable::load_with(&resolver, &surface(), Some(3), STUB);
    let s = t.slot(2);
    assert!(!s.is_loaded());
    assert_eq!(s.f, STUB);
}

#[test]
fn reset_then_read_is_zero() {
    let mut t = DispatchTable::load_with(&resolver, &surface(), Some(3), STUB);
    t.record_status(0, NO_ERROR);
    t.record_status(1, INVALID_VALUE);
    t.record_status(0, NO_ERROR);
    assert_eq!(t.profiler_call_count(), 2);
    assert_eq!(t.profiler_err_count(), 1);
    t.profiler_reset();
    assert_eq!(t.profiler_call_count(), 0);
    assert_eq!(t.profiler_err_count(), 0);
}

#[test]
fn successful_call_counts_once() {
    let mut t = DispatchTable::load_with(&resolver, &surface(), Some(3), STUB);
    assert!(t.is_audited(0));
    let r = t.record_status(0, NO_ERROR);
    assert!(r.is_none());
    assert_eq!(t.profiler_call_count(), 1);
    assert_eq!(t.profiler_err_count(), 0);
}

#[test]
fn failed_call_counts_error_and_decodes() {
    let mut t = DispatchTable::load_with(&resolver, &surface(), Some(3), STUB);
    let r = t.record_status(1, INVALID_ENUM).expect("an error is reported");
    assert!(r.name.contains("INVALID_ENUM"));
    assert!(r.explanation.contains("enumerated argument"));
    assert_eq!(t.profiler_call_count(), 0);
    assert_eq!(t.profiler_err_count(), 1);
}

#[test]
fn error_query_itself_is_not_counted() {
    let mut t = DispatchTable::load_with(&resolver, &surface(), Some(3), STUB);
    assert!(!t.is_audited(3));
    assert!(t.record_status(3, NO_ERROR).is_none());
    assert!(t.record_status(3, OUT_OF_MEMORY).is_none());
    assert_eq!(t.profiler_call_count(), 0);
    assert_eq!(t.profiler_err_count(), 0);
}

#[test]
fn no_error_query_means_no_auditing() {
    let mut t = DispatchTable::load_with(&resolver, &surface(), None, STUB);
    assert_eq!(t.error_query_entry(), None);
    assert!(!t.is_audited(0));
    assert!(t.record_status(0, INVALID_OPERATION).is_none());
    t.record_status(1, NO_ERROR);
    assert_eq!(t.profiler_call_count(), 0);
    assert_eq!(t.profiler_err_count(), 0);
}

#[test]
fn many_callers_lose_no_update() {
    let shared = std::sync::Mutex::new(DispatchTable::load_with(&resolver, &surface(), Some(3), STUB));
    let callers: usize = 8;
    let calls: usize = 250;
    for _ in 0..calls {
        for entry in 0..callers {
            shared.lock().unwrap().record_status(entry % 3, NO_ERROR);
        }
    }
    let t = shared.lock().unwrap();
    assert_eq!(t.profiler_call_count(), callers * calls);
    assert_eq!(t.profiler_err_count(), 0);
}

#[test]
fn declared_codes_decode_to_their_names() {
    assert_eq!(decode_status(NO_ERROR).name, "NO_ERROR");
    assert_eq!(decode_status(INVALID_ENUM).name, "INVALID_ENUM");
    assert_eq!(decode_status(0x0500).name, "INVALID_ENUM");
    assert_eq!(decode_status(INVALID_VALUE).name, "INVALID_VALUE");
    assert_eq!(decode_status(INVALID_OPERATION).name, "INVALID_OPERATION");
    assert_eq!(decode_status(INVALID_FRAMEBUFFER_OPERATION).name, "INVALID_FRAMEBUFFER_OPERATION");
    assert_eq!(decode_status(OUT_OF_MEMORY).name, "OUT_OF_MEMORY");
    assert!(decode_status(OUT_OF_MEMORY).explanation.contains("undefined"));
    assert!(decode_status(INVALID_VALUE).explanation.contains("ignored"));
}

#[test]
fn undeclared_code_decodes_to_unknown() {
    let d = decode_status(0xFFFF_FFFF);
    assert_eq!(d.name, "Unknown error");
    assert_eq!(d.explanation, "");
    assert_eq!(decode_status(0x0503).name, "Unknown error");
}
