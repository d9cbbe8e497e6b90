use egobox_moe::surrogates::{
    all_variants, check_input_dim, check_training_shapes, load_variant, resolve_variant,
    variant_from_key, CorrelationKind, MeanModelKind, SurrogateError, SurrogateVariant,
};

fn variant(mean: MeanModelKind, corr: CorrelationKind) -> SurrogateVariant {
    SurrogateVariant { mean, corr }
}

#[test]
fn key_joins_mean_and_corr() {
    let v = variant(MeanModelKind::Constant, CorrelationKind::SquaredExponential);
    assert_eq!(v.key(), "Constant_SquaredExponential");
    let v = variant(MeanModelKind::Quadratic, CorrelationKind::Matern52);
    assert_eq!(v.key(), "Quadratic_Matern52");
}

#[test]
fn label_without_pls() {
    let v = variant(MeanModelKind::Linear, CorrelationKind::AbsoluteExponential);
    assert_eq!(v.label(None), "Linear_AbsoluteExponential");
}

#[test]
fn label_with_pls() {
    let v = variant(MeanModelKind::Linear, CorrelationKind::Matern32);
    assert_eq!(v.label(Some(3)), "Linear_Matern32_PLS(3)");
    assert_eq!(v.label(Some(0)), "Linear_Matern32_PLS(0)");
    assert_eq!(v.label(Some(12)), "Linear_Matern32_PLS(12)");
    assert_eq!(v.label(Some(10450)), "Linear_Matern32_PLS(10450)");
}

#[test]
fn registry_has_twelve_distinct_keys() {
    let table = all_variants();
    assert_eq!(table.len(), 12);
    for i in 0..12 {
        for j in 0..12 {
            if i != j {
                assert_ne!(table[i], table[j]);
                assert_ne!(table[i].key(), table[j].key());
            }
        }
    }
}

#[test]
fn key_round_trip_for_every_variant() {
    for v in all_variants() {
        assert_eq!(variant_from_key(&v.key()), Some(v));
        assert_eq!(resolve_variant(v.mean.name(), v.corr.name()).unwrap(), v);
    }
}

#[test]
fn unknown_key_is_not_found() {
    assert_eq!(variant_from_key("Cubic_Matern32"), None);
    assert_eq!(variant_from_key("Constant_Matern32 "), None);
    assert_eq!(variant_from_key(""), None);
}

#[test]
fn resolve_known_pair() {
    let v = resolve_variant("Linear", "Matern52").unwrap();
    assert_eq!(v, variant(MeanModelKind::Linear, CorrelationKind::Matern52));
}

#[test]
fn resolve_unknown_pair_names_key() {
    match resolve_variant("Cubic", "Matern32") {
        Err(e) => {
            assert!(matches!(&e, SurrogateError::UnknownVariant(k) if k == "Cubic_Matern32"));
            assert_eq!(e.message(), "Bad mean or kernel values: Cubic_Matern32");
        }
        Ok(_) => panic!("unknown pair accepted"),
    }
}

#[test]
fn load_variant_reads_tags() {
    let text = r#"{"mean": "Quadratic", "corr": "AbsoluteExponential", "theta": [0.5]}"#;
    let v = load_variant(text).unwrap();
    assert_eq!(v, variant(MeanModelKind::Quadratic, CorrelationKind::AbsoluteExponential));
}

#[test]
fn load_variant_refuses_malformed_text() {
    let r = load_variant("{\"mean\": ");
    assert!(matches!(r, Err(SurrogateError::MalformedDocument)));
}

#[test]
fn load_variant_refuses_missing_field() {
    let r = load_variant(r#"{"mean": "Constant"}"#);
    assert!(matches!(&r, Err(SurrogateError::MissingField(f)) if f == "corr"));
    let r = load_variant(r#"{"mean": 3, "corr": "Matern32"}"#);
    assert!(matches!(&r, Err(SurrogateError::MissingField(f)) if f == "mean"));
}

#[test]
fn load_variant_refuses_unknown_tags() {
    let r = load_variant(r#"{"mean": "Constant", "corr": "Gaussian"}"#);
    match r {
        Err(e) => assert_eq!(e.message(), "Bad mean or kernel values: Constant_Gaussian"),
        Ok(_) => panic!("unknown tags accepted"),
    }
}

#[test]
fn training_shapes() {
    assert!(check_training_shapes(10, 10).is_ok());
    assert!(check_training_shapes(2, 2).is_ok());
    let e = check_training_shapes(10, 9).unwrap_err();
    assert!(matches!(e, SurrogateError::RowCountMismatch { x_rows: 10, y_rows: 9 }));
    assert_eq!(e.message(), "Training inputs have 10 rows but outputs have 9");
    let e = check_training_shapes(1, 1).unwrap_err();
    assert!(matches!(e, SurrogateError::TooFewSamples(1)));
    assert_eq!(e.message(), "At least 2 training samples are needed, got 1");
}

#[test]
fn input_dimension() {
    assert!(check_input_dim(3, 3).is_ok());
    let e = check_input_dim(3, 2).unwrap_err();
    assert!(matches!(e, SurrogateError::DimensionMismatch { expected: 3, found: 2 }));
    assert_eq!(e.message(), "Input dimension 2 does not match training dimension 3");
}

#[test]
fn load_variant_refuses_non_object_and_non_text_fields() {
    let r = load_variant("[1, 2]");
    assert!(matches!(&r, Err(SurrogateError::MissingField(f)) if f == "mean"));
    let r = load_variant(r#"{"mean": "Linear", "corr": null}"#);
    assert!(matches!(&r, Err(SurrogateError::MissingField(f)) if f == "corr"));
    let r = load_variant(r#"{"corr": "Matern32"}"#);
    assert!(matches!(&r, Err(SurrogateError::MissingField(f)) if f == "mean"));
}
