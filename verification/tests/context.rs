use mazie::mode::MazieMode;
use mazie::num::m_mode;
use mazie::runtime::MazieRuntime;

fn pat(x: f64) -> u64 {
    x.to_bits()
}

#[test]
fn mazie_runtime_is_identity_preserving() {
    let rt = MazieRuntime::mazie();
    assert!(rt.mode.div0_identity);
    assert_eq!(rt.name, "identity-preserving");
}

#[test]
fn strict_runtime_rejects_zero_division() {
    let rt = MazieRuntime::strict();
    assert!(!rt.mode.div0_identity);
    assert_eq!(rt.name, "strict");
}

#[test]
fn n_wraps_under_the_runtime_policy() {
    let rt = MazieRuntime::strict();
    let a = rt.n(pat(5.0));
    assert_eq!(a.bits, pat(5.0));
    assert!(!a.mode.div0_identity);
}

#[test]
fn bind_is_idempotent() {
    let rt = MazieRuntime::mazie();
    let strict = MazieMode { div0_identity: false };
    let foreign = m_mode(pat(9.0), strict);
    let once = rt.bind(foreign);
    let twice = rt.bind(once);
    assert!(once == twice);
}

#[test]
fn bind_overrides_foreign_policy() {
    let rt = MazieRuntime::strict();
    let foreign = m_mode(pat(9.0), MazieMode { div0_identity: true });
    let bound = rt.bind(foreign);
    assert!(!bound.mode.div0_identity);
    assert_eq!(bound.bits, pat(9.0));
}

#[test]
fn strict_context_divide_by_zero_aborts_with_strict_in_message() {
    // strict context: divide(wrap(5.0), wrap(0.0)) => abort, message references "strict"
    let rt = MazieRuntime::strict();
    let a = rt.n(pat(5.0));
    let z = rt.n(pat(0.0));
    let e = rt.div(a, z, pat(5.0 / 0.0)).unwrap_err();
    let msg = e.message();
    assert!(msg.contains("strict"));
    assert_eq!(msg, "division by zero (strict; div0_identity=false)");
}

#[test]
fn identity_context_divide_then_add() {
    // identity context: add(divide(wrap(10.0), wrap(2.0)), wrap(7.0)) => 12.0
    let rt = MazieRuntime::mazie();
    let ten = rt.n(pat(10.0));
    let two = rt.n(pat(2.0));
    let q = rt.div(ten, two, pat(10.0 / 2.0)).unwrap();
    let sum = f64::from_bits(q.unwrap()) + 7.0;
    let out = rt.add(q, rt.n(pat(7.0)), sum.to_bits());
    assert_eq!(out.unwrap(), pat(12.0));
}

#[test]
fn identity_context_divide_by_zero_returns_dividend() {
    let rt = MazieRuntime::mazie();
    let a = rt.n(pat(5.0));
    let z = rt.n(pat(0.0));
    let r = rt.div(a, z, pat(5.0 / 0.0)).unwrap();
    assert_eq!(r.unwrap(), pat(5.0));
    assert!(r.mode.div0_identity);
}

#[test]
fn context_divide_rebinds_a_foreign_dividend() {
    // the dividend was created strict, but the identity context is the authority
    let rt = MazieRuntime::mazie();
    let foreign = m_mode(pat(8.0), MazieMode { div0_identity: false });
    let z = rt.n(pat(0.0));
    let r = rt.div(foreign, z, 0).unwrap();
    assert_eq!(r.unwrap(), pat(8.0));
    assert!(r.mode.div0_identity);
}

#[test]
fn context_results_carry_the_context_policy() {
    let rt = MazieRuntime::strict();
    let foreign = m_mode(pat(1.0), MazieMode { div0_identity: true });
    let other = m_mode(pat(2.0), MazieMode { div0_identity: true });
    let r = rt.add(foreign, other, pat(1.0 + 2.0));
    assert!(!r.mode.div0_identity);
    assert_eq!(r.unwrap(), pat(3.0));
}

#[test]
fn custom_runtime_name_appears_in_the_error() {
    let rt = MazieRuntime { mode: MazieMode { div0_identity: false }, name: "ledger" };
    let a = rt.n(pat(1.0));
    let z = rt.n(pat(0.0));
    let e = rt.div(a, z, 0).unwrap_err();
    assert_eq!(e.runtime_name, "ledger");
    assert_eq!(e.message(), "division by zero (ledger; div0_identity=false)");
}

#[test]
fn context_neg_flips_sign_and_rebinds() {
    let rt = MazieRuntime::strict();
    let foreign = m_mode(pat(5.0), MazieMode { div0_identity: true });
    let r = rt.neg(foreign);
    assert_eq!(r.unwrap(), pat(-5.0));
    assert!(!r.mode.div0_identity);
}

#[test]
fn raw_operand_forms_match_the_two_scalar_forms() {
    let rt = MazieRuntime::mazie();
    let a = rt.n(pat(10.0));
    assert_eq!(rt.addf(a, pat(2.0), pat(10.0 + 2.0)).unwrap(), pat(12.0));
    assert_eq!(rt.subf(a, pat(2.0), pat(10.0 - 2.0)).unwrap(), pat(8.0));
    assert_eq!(rt.mulf(a, pat(2.0), pat(10.0 * 2.0)).unwrap(), pat(20.0));
    let q = rt.divf(a, pat(2.0), pat(10.0 / 2.0)).unwrap();
    assert_eq!(q.unwrap(), pat(5.0));
}

#[test]
fn divf_by_zero_follows_the_runtime_policy() {
    let rt = MazieRuntime::mazie();
    let a = rt.n(pat(6.0));
    let r = rt.divf(a, pat(0.0), pat(6.0 / 0.0)).unwrap();
    assert_eq!(r.unwrap(), pat(6.0));

    let strict = MazieRuntime::strict();
    let b = strict.n(pat(6.0));
    assert!(strict.divf(b, pat(-0.0), pat(6.0 / -0.0)).is_err());
}
