use apxinf_cuda::fp8::dual::{
    fp8_dual_geglu_mode, fp8_dual_geglu_weight_route, parse_fp8_dual_geglu_mode,
    validate_bf16_dual_geglu_record, validate_fp8_dual_geglu_record, EnvironmentValue,
    Fp8DualGeGluMode, Fp8DualGeGluWeightRoute,
};
use apxinf_cuda::fp8::tuning::GemmOp;

#[test]
fn mode_parser_is_tri_state_and_defaults_auto() {
    assert_eq!(parse_fp8_dual_geglu_mode(None).unwrap(), Fp8DualGeGluMode::Auto);
    assert_eq!(parse_fp8_dual_geglu_mode(Some("auto")).unwrap(), Fp8DualGeGluMode::Auto);
    assert_eq!(parse_fp8_dual_geglu_mode(Some("0")).unwrap(), Fp8DualGeGluMode::Off);
    assert_eq!(parse_fp8_dual_geglu_mode(Some("off")).unwrap(), Fp8DualGeGluMode::Off);
    assert_eq!(parse_fp8_dual_geglu_mode(Some("1")).unwrap(), Fp8DualGeGluMode::On);
    assert_eq!(parse_fp8_dual_geglu_mode(Some("on")).unwrap(), Fp8DualGeGluMode::On);
    assert!(parse_fp8_dual_geglu_mode(Some("invalid")).is_err());
}

#[test]
fn auto_routes_dual_to_copy_and_other_backends_to_plain() {
    assert_eq!(
        fp8_dual_geglu_weight_route(Fp8DualGeGluMode::Auto, true, false, true).unwrap(),
        Fp8DualGeGluWeightRoute::InterleavedAuto
    );
    assert_eq!(
        fp8_dual_geglu_weight_route(Fp8DualGeGluMode::Auto, false, false, true).unwrap(),
        Fp8DualGeGluWeightRoute::Plain
    );
    assert_eq!(
        fp8_dual_geglu_weight_route(Fp8DualGeGluMode::Auto, false, false, false).unwrap(),
        Fp8DualGeGluWeightRoute::Plain
    );
    assert_eq!(
        fp8_dual_geglu_weight_route(Fp8DualGeGluMode::Off, false, false, false).unwrap(),
        Fp8DualGeGluWeightRoute::Plain
    );
    assert_eq!(
        fp8_dual_geglu_weight_route(Fp8DualGeGluMode::On, true, true, false).unwrap(),
        Fp8DualGeGluWeightRoute::InterleavedPrimary
    );
    assert!(fp8_dual_geglu_weight_route(Fp8DualGeGluMode::Off, true, false, false).is_err());
    assert!(fp8_dual_geglu_weight_route(Fp8DualGeGluMode::On, false, true, false).is_err());
    assert!(fp8_dual_geglu_weight_route(Fp8DualGeGluMode::Auto, true, false, false).is_err());
}

#[test]
fn dual_backend_accepts_only_validated_m_values_and_tactic_zero() {
    for m in [522, 533] {
        assert!(validate_fp8_dual_geglu_record(GemmOp::Fp8F16, m, 32768, 2048, 0).is_ok());
    }

    for (op, m, n, k, tactic) in [
        (GemmOp::Bf16, 533, 32768, 2048, 0),
        (GemmOp::Fp8F16, 521, 32768, 2048, 0),
        (GemmOp::Fp8F16, 534, 32768, 2048, 0),
        (GemmOp::Fp8F16, 533, 16384, 2048, 0),
        (GemmOp::Fp8F16, 533, 32768, 1024, 0),
        (GemmOp::Fp8F16, 533, 32768, 2048, 1),
    ] {
        assert!(validate_fp8_dual_geglu_record(op, m, n, k, tactic).is_err());
    }
}

#[test]
fn bf16_dual_geglu_backend_is_exact_m533_tactic_zero() {
    let validate = |op, m, n, k, tactic, expected_m| {
        validate_bf16_dual_geglu_record(op, m, n, k, tactic, expected_m, "BF16 dual GeGLU")
    };
    assert!(validate(GemmOp::Bf16, 522, 32768, 2048, 0, 522).is_ok());
    assert!(validate(GemmOp::Bf16, 533, 32768, 2048, 0, 533).is_ok());
    assert!(validate(GemmOp::Bf16, 533, 32768, 2048, 0, 522).is_err());

    for (op, m, n, k, tactic) in [
        (GemmOp::Fp8F16, 533, 32768, 2048, 0),
        (GemmOp::Bf16, 522, 32768, 2048, 0),
        (GemmOp::Bf16, 534, 32768, 2048, 0),
        (GemmOp::Bf16, 533, 16384, 2048, 0),
        (GemmOp::Bf16, 533, 32768, 1024, 0),
        (GemmOp::Bf16, 533, 32768, 2048, 1),
    ] {
        assert!(validate(op, m, n, k, tactic, 533).is_err());
    }
}

#[test]
fn environment_switch_is_read_like_a_parsed_text() {
    assert_eq!(fp8_dual_geglu_mode(EnvironmentValue::NotPresent).unwrap(), Fp8DualGeGluMode::Auto);
    let present = |text: &str| fp8_dual_geglu_mode(EnvironmentValue::Present(text.to_string()));
    assert_eq!(present("on").unwrap(), Fp8DualGeGluMode::On);
    assert_eq!(
        present("yes").unwrap_err().message(),
        "APXINF_PI05_FP8_DUAL_GEGLU must be auto, 0/off, or 1/on; got yes"
    );
    assert_eq!(
        fp8_dual_geglu_mode(EnvironmentValue::NotUnicode).unwrap_err().message(),
        "APXINF_PI05_FP8_DUAL_GEGLU must be valid Unicode"
    );
}

#[test]
fn refusals_name_what_was_given() {
    let layout = fp8_dual_geglu_weight_route(Fp8DualGeGluMode::Off, true, false, true).unwrap_err();
    assert_eq!(
        layout.message(),
        "FP8 dual GeGLU config/layout mismatch: mode=Off, backend_dual=true, \
         primary_interleaved=false, auto_interleaved=true"
    );
    let fp8 = validate_fp8_dual_geglu_record(GemmOp::Fp8F16, 521, 32768, 2048, -1).unwrap_err();
    assert_eq!(
        fp8.message(),
        "FP8 dual GeGLU backend requires M522 or M533, N32768/K2048, tactic 0; \
         got M521/N32768/K2048 tactic -1"
    );
    let bf16 =
        validate_bf16_dual_geglu_record(GemmOp::Bf16, 533, 1, 2048, 0, 533, "BF16 dual GeGLU").unwrap_err();
    assert_eq!(
        bf16.message(),
        "BF16 dual GeGLU backend requires exact BF16 M533/N32768/K2048 tactic 0"
    );
}
