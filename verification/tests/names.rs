use pallet_verifier::CallKind;
use pallet_verifier::digits::{scan_dec_run, usize_to_dec};
use pallet_verifier::names::{
    contracts_mod_name_str, decode_name, encode_name, entry_point_fn_prefix_str,
    entry_points_mod_name_str,
};

fn segs(parts: &[&str]) -> Vec<String> {
    parts.iter().map(|s| s.to_string()).collect()
}

#[test]
fn decimal_rendering() {
    assert_eq!(usize_to_dec(0), "0");
    assert_eq!(usize_to_dec(7), "7");
    assert_eq!(usize_to_dec(10), "10");
    assert_eq!(usize_to_dec(409), "409");
    assert_eq!(usize_to_dec(100000), "100000");
}

#[test]
fn decimal_scan_reads_run() {
    // "12_x": the run "12" ends at the underscore
    let (n, j) = scan_dec_run("12_x", 0, 100);
    assert_eq!((n, j), (12, 2));
    // no digit at the start: empty run
    let (n, j) = scan_dec_run("_12", 0, 3);
    assert_eq!((n, j), (0, 0));
    // a run larger than the cap comes back clamped at the cap
    let (n, _) = scan_dec_run("99999", 0, 5);
    assert_eq!(n, 5);
}

#[test]
fn constants_match_convention() {
    assert_eq!(entry_point_fn_prefix_str(), "__pallet_verifier_entry_point__");
    assert_eq!(entry_points_mod_name_str(), "__pallet_verifier_entry_points");
    assert_eq!(contracts_mod_name_str(), "foreign_contracts");
}

#[test]
fn encode_is_prefix_plus_identity() {
    let name = encode_name(CallKind::Dispatchable, &segs(&["pallet", "transfer"]));
    assert_eq!(name, "__pallet_verifier_entry_point__d_6_pallet8_transfer");
    let name = encode_name(CallKind::PubAssocFn, &segs(&["pallet", "balance"]));
    assert_eq!(name, "__pallet_verifier_entry_point__p_6_pallet7_balance");
}

#[test]
fn round_trip_dispatchable() {
    let path = segs(&["my_pallet", "calls", "transfer"]);
    let name = encode_name(CallKind::Dispatchable, &path);
    let (kind, decoded) = decode_name(&name).expect("generated name must decode");
    assert_eq!(kind, CallKind::Dispatchable);
    assert_eq!(decoded, path);
}

#[test]
fn round_trip_pub_assoc_fn() {
    let path = segs(&["my_pallet", "Pallet", "balance"]);
    let name = encode_name(CallKind::PubAssocFn, &path);
    let (kind, decoded) = decode_name(&name).expect("generated name must decode");
    assert_eq!(kind, CallKind::PubAssocFn);
    assert_eq!(decoded, path);
}

#[test]
fn round_trip_empty_path() {
    let path: Vec<String> = Vec::new();
    let name = encode_name(CallKind::Dispatchable, &path);
    assert_eq!(name, "__pallet_verifier_entry_point__d_");
    let (kind, decoded) = decode_name(&name).expect("generated name must decode");
    assert_eq!(kind, CallKind::Dispatchable);
    assert_eq!(decoded, path);
}

#[test]
fn decode_refuses_foreign_text() {
    assert!(decode_name("transfer").is_none());
    assert!(decode_name("").is_none());
    // right prefix, unknown kind code
    assert!(decode_name("__pallet_verifier_entry_point__x_8_transfer").is_none());
    // truncated segment
    assert!(decode_name("__pallet_verifier_entry_point__d_9_transfer").is_none());
    // length runs past the end
    assert!(decode_name("__pallet_verifier_entry_point__d_99_transfer").is_none());
    // missing underscore after the length
    assert!(decode_name("__pallet_verifier_entry_point__d_8transfer").is_none());
}

#[test]
fn distinct_identities_get_distinct_names() {
    let a = encode_name(CallKind::Dispatchable, &segs(&["p", "f"]));
    let b = encode_name(CallKind::PubAssocFn, &segs(&["p", "f"]));
    let c = encode_name(CallKind::Dispatchable, &segs(&["p", "g"]));
    let d = encode_name(CallKind::Dispatchable, &segs(&["p_f"]));
    assert_ne!(a, b);
    assert_ne!(a, c);
    assert_ne!(a, d);
    assert_ne!(b, c);
}

#[test]
fn call_kind_description() {
    assert_eq!(CallKind::Dispatchable.as_str(), "dispatchable");
    assert_eq!(CallKind::PubAssocFn.as_str(), "pub assoc fn");
}
