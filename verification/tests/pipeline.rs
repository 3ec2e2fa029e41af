use pallet_verifier::CallKind;
use pallet_verifier::augment::build_augmented;
use pallet_verifier::classify::{
    CandidateFunction, ReceiverShape, SkipReason, classify, classify_all, skip_reason,
};
use pallet_verifier::orchestrate::{
    AnalysisConfig, AnalysisOutcome, ParseOutcome, Phase, Pipeline, RawFinding, RunError,
    ValidationOutcome,
};
use pallet_verifier::overlay::SourceOverlay;
use pallet_verifier::synth::{build_contracts_mod, build_entry_mod, build_stub, build_wrapper};

fn segs(parts: &[&str]) -> Vec<String> {
    parts.iter().map(|s| s.to_string()).collect()
}

fn default_allowed() -> Vec<ReceiverShape> {
    vec![ReceiverShape::NoReceiver, ReceiverShape::SharedRef]
}

fn transfer() -> CandidateFunction {
    CandidateFunction {
        path: segs(&["pallet", "transfer"]),
        self_ty: String::new(),
        is_public: false,
        via_dispatch: true,
        receiver: ReceiverShape::NoReceiver,
        param_tys: segs(&["Origin", "u64"]),
        span_start: 100,
        span_end: 200,
    }
}

fn balance() -> CandidateFunction {
    CandidateFunction {
        path: segs(&["pallet", "balance"]),
        self_ty: "Pallet".to_string(),
        is_public: true,
        via_dispatch: false,
        receiver: ReceiverShape::SharedRef,
        param_tys: Vec::new(),
        span_start: 300,
        span_end: 400,
    }
}

fn by_value_helper() -> CandidateFunction {
    CandidateFunction {
        path: segs(&["pallet", "consume"]),
        self_ty: "Pallet".to_string(),
        is_public: true,
        via_dispatch: false,
        receiver: ReceiverShape::ByValue,
        param_tys: Vec::new(),
        span_start: 500,
        span_end: 600,
    }
}

#[test]
fn classify_dispatchable_and_pub_assoc() {
    let allowed = default_allowed();
    assert_eq!(classify(&transfer(), &allowed), Some(CallKind::Dispatchable));
    assert_eq!(classify(&balance(), &allowed), Some(CallKind::PubAssocFn));
}

#[test]
fn classify_rejects_private_non_dispatchable() {
    let allowed = default_allowed();
    let mut c = balance();
    c.is_public = false;
    assert_eq!(classify(&c, &allowed), None);
    assert_eq!(skip_reason(&c, &allowed), Some(SkipReason::NotEligible));
}

#[test]
fn unsupported_receiver_is_skipped_not_fatal() {
    let allowed = default_allowed();
    let c = by_value_helper();
    assert_eq!(classify(&c, &allowed), None);
    assert_eq!(skip_reason(&c, &allowed), Some(SkipReason::UnsupportedReceiver));
    // the run goes on: the other candidates still classify
    let eps = classify_all(&vec![transfer(), c, balance()], &allowed);
    assert_eq!(eps.len(), 2);
    assert_eq!(eps[0].kind, CallKind::Dispatchable);
    assert_eq!(eps[1].kind, CallKind::PubAssocFn);
}

#[test]
fn two_candidates_two_wrappers() {
    let allowed = default_allowed();
    let eps = classify_all(&vec![transfer(), balance()], &allowed);
    assert_eq!(eps.len(), 2);
    assert_eq!(eps[0].name, "__pallet_verifier_entry_point__d_6_pallet8_transfer");
    assert_eq!(eps[1].name, "__pallet_verifier_entry_point__p_6_pallet7_balance");
    let text = build_entry_mod(&eps);
    assert_eq!(text.matches("pub fn ").count(), 2);
    assert!(text.starts_with("\nmod __pallet_verifier_entry_points {\n"));
    assert!(text.ends_with("}\n"));
}

#[test]
fn wrapper_mirrors_parameters_and_forwards_once() {
    let allowed = default_allowed();
    let eps = classify_all(&vec![transfer()], &allowed);
    let w = build_wrapper(&eps[0]);
    assert_eq!(
        w,
        "    pub fn __pallet_verifier_entry_point__d_6_pallet8_transfer(p0: Origin, p1: u64) {\n        crate::pallet::transfer(p0, p1);\n    }\n"
    );
}

#[test]
fn wrapper_receiver_becomes_leading_parameter() {
    let allowed = default_allowed();
    let eps = classify_all(&vec![balance()], &allowed);
    let w = build_wrapper(&eps[0]);
    assert_eq!(
        w,
        "    pub fn __pallet_verifier_entry_point__p_6_pallet7_balance(st: &Pallet) {\n        crate::pallet::balance(st);\n    }\n"
    );
}

#[test]
fn one_stub_per_external_symbol() {
    let stub = build_stub(&segs(&["alloc", "handle_alloc_error"]));
    assert_eq!(stub, "    pub fn contract__alloc__handle_alloc_error() {\n    }\n");
    let m = build_contracts_mod(&vec![segs(&["alloc", "handle_alloc_error"])]);
    assert_eq!(m.matches("pub fn ").count(), 1);
    // removing the symbol leaves a contracts module with zero stubs
    let empty = build_contracts_mod(&Vec::new());
    assert_eq!(empty, "\nmod foreign_contracts {\n}\n");
    assert_eq!(empty.matches("pub fn ").count(), 0);
}

#[test]
fn augmentation_preserves_original_verbatim() {
    let original = "pub fn transfer(origin: Origin, amount: u64) {}\n";
    let allowed = default_allowed();
    let eps = classify_all(&vec![transfer()], &allowed);
    let augmented = build_augmented(original, &eps, &vec![segs(&["ext", "sym"])]);
    assert!(augmented.starts_with(original));
    assert!(augmented.len() > original.len());
}

#[test]
fn synthesis_is_idempotent() {
    let original = "pub fn transfer(origin: Origin, amount: u64) {}\n";
    let allowed = default_allowed();
    let run = || {
        let eps = classify_all(&vec![transfer(), balance()], &allowed);
        build_augmented(original, &eps, &vec![segs(&["ext", "sym"])])
    };
    let first = run();
    let second = run();
    assert_eq!(first, second);
}

#[test]
fn overlay_serves_override_and_passes_through() {
    let mut overlay = SourceOverlay::new();
    overlay.register("src/lib.rs".to_string(), "augmented".to_string());
    assert_eq!(overlay.resolve("src/lib.rs").map(String::as_str), Some("augmented"));
    assert_eq!(overlay.resolve("src/other.rs"), None);
    // registered path: the override wins
    let r = overlay.read_through("src/lib.rs", "disk text".to_string());
    assert_eq!(r, "augmented");
    // unregistered path: pass-through identity
    let r = overlay.read_through("src/other.rs", "disk text".to_string());
    assert_eq!(r, "disk text");
}

#[test]
fn overlay_later_registration_wins() {
    let mut overlay = SourceOverlay::new();
    overlay.register("a.rs".to_string(), "first".to_string());
    overlay.register("a.rs".to_string(), "second".to_string());
    assert_eq!(overlay.resolve("a.rs").map(String::as_str), Some("second"));
}

fn test_config() -> AnalysisConfig {
    AnalysisConfig {
        allowed: default_allowed(),
        pointer_width: pallet_verifier::config::PointerWidth::W64,
        stub_symbols: vec![segs(&["ext", "sym"])],
    }
}

#[test]
fn pipeline_collect_then_verify() {
    let original = "pub struct Pallet;\n";
    let mut overlay = SourceOverlay::new();
    let mut pipeline = Pipeline::new();
    assert_eq!(pipeline.phase, Phase::Collect);
    let outcome = ParseOutcome::Items(vec![transfer(), balance()]);
    let r = pipeline.collect(&test_config(), original, outcome, "src/lib.rs".to_string(), &mut overlay);
    assert!(r.is_ok());
    assert_eq!(pipeline.phase, Phase::Validate);
    assert_eq!(pipeline.plan.len(), 2);
    pipeline.confirm(ValidationOutcome::Confirmed).expect("augmented unit re-parses");
    assert_eq!(pipeline.phase, Phase::Verify);
    // the overlay now serves the augmented text for the registered path
    let served = overlay.read_through("src/lib.rs", original.to_string());
    assert!(served.starts_with(original));
    assert!(served.contains("__pallet_verifier_entry_points"));
    assert!(served.contains("foreign_contracts"));

    // findings come back against generated names and are remapped
    let raws = vec![
        RawFinding {
            entry_name: pipeline.plan[0].name.clone(),
            message: "possible overflow".to_string(),
        },
        RawFinding { entry_name: "unrelated".to_string(), message: "noise".to_string() },
        RawFinding {
            entry_name: pipeline.plan[1].name.clone(),
            message: "unchecked arithmetic".to_string(),
        },
    ];
    let findings = pipeline.verify(AnalysisOutcome::Findings(raws)).expect("findings expected");
    assert_eq!(pipeline.phase, Phase::Done);
    assert_eq!(findings.len(), 2);
    assert_eq!(findings[0].kind, CallKind::Dispatchable);
    assert_eq!(findings[0].path, segs(&["pallet", "transfer"]));
    assert_eq!(findings[0].message, "possible overflow");
    assert_eq!(findings[1].kind, CallKind::PubAssocFn);
    assert_eq!(findings[1].path, segs(&["pallet", "balance"]));
    assert_eq!(findings[1].message, "unchecked arithmetic");
}

#[test]
fn pipeline_host_failure_aborts() {
    let mut overlay = SourceOverlay::new();
    let mut pipeline = Pipeline::new();
    let r = pipeline.collect(
        &test_config(),
        "",
        ParseOutcome::CompileFailed,
        "src/lib.rs".to_string(),
        &mut overlay,
    );
    assert_eq!(r, Err(RunError::HostCompileError));
    assert_eq!(pipeline.phase, Phase::Done);
    assert_eq!(overlay.resolve("src/lib.rs"), None);
}

#[test]
fn width_does_not_change_entry_set() {
    let items = vec![transfer(), balance(), by_value_helper()];
    let mut cfg16 = test_config();
    cfg16.pointer_width = pallet_verifier::config::PointerWidth::W16;
    let mut cfg64 = test_config();
    cfg64.pointer_width = pallet_verifier::config::PointerWidth::W64;
    let mut overlay16 = SourceOverlay::new();
    let mut overlay64 = SourceOverlay::new();
    let mut p16 = Pipeline::new();
    let mut p64 = Pipeline::new();
    p16.collect(&cfg16, "", ParseOutcome::Items(items.clone()), "l".to_string(), &mut overlay16)
        .unwrap();
    p64.collect(&cfg64, "", ParseOutcome::Items(items), "l".to_string(), &mut overlay64).unwrap();

    let names16: Vec<&str> = p16.plan.iter().map(|e| e.name.as_str()).collect();
    let names64: Vec<&str> = p64.plan.iter().map(|e| e.name.as_str()).collect();
    assert_eq!(names16, names64);
}

#[test]
fn synthesis_failure_is_an_internal_error() {
    let mut overlay = SourceOverlay::new();
    let mut pipeline = Pipeline::new();
    let outcome = ParseOutcome::Items(vec![transfer()]);
    pipeline.collect(&test_config(), "", outcome, "l".to_string(), &mut overlay).unwrap();
    let r = pipeline.confirm(ValidationOutcome::Rejected);
    assert_eq!(r, Err(RunError::SynthesisError));
    assert_eq!(pipeline.phase, Phase::Done);
}
