use bert_encoder::store::{numbered_sub_path, push_dec, sub_path, Init, ParameterStore};

#[test]
fn sub_path_composes_with_dots() {
    assert_eq!(sub_path("", "weight"), "weight".to_string());
    assert_eq!(sub_path("encoder", "weight"), "encoder.weight".to_string());
    assert_eq!(sub_path("encoder.layer_3", "bias"), "encoder.layer_3.bias".to_string());
}

#[test]
fn decimal_notation_is_exact() {
    let mut s = String::new();
    push_dec(&mut s, 0);
    assert_eq!(s, "0".to_string());

    let mut s = String::new();
    push_dec(&mut s, 9);
    assert_eq!(s, "9".to_string());

    let mut s = String::new();
    push_dec(&mut s, 10);
    assert_eq!(s, "10".to_string());

    let mut s = String::new();
    push_dec(&mut s, 1029);
    assert_eq!(s, "1029".to_string());
}

#[test]
fn numbered_sub_path_builds_layer_names() {
    assert_eq!(numbered_sub_path("", "layer_", 0), "layer_0".to_string());
    assert_eq!(numbered_sub_path("encoder", "layer_", 11), "encoder.layer_11".to_string());
    assert_eq!(numbered_sub_path("m", "group_", 123), "m.group_123".to_string());
}

#[test]
fn store_records_variables_in_creation_order() {
    let mut store = ParameterStore::new();
    assert_eq!(store.len(), 0);
    store.var(sub_path("a", "weight"), vec![3, 2], Init::RandomNormal { mean: 0, stdev: 7 });
    store.var(sub_path("a", "bias"), vec![3], Init::Constant { value: 0 });
    assert_eq!(store.len(), 2);
    assert_eq!(store.vars[0].path, "a.weight".to_string());
    assert_eq!(store.vars[0].dims, vec![3, 2]);
    assert_eq!(store.vars[1].path, "a.bias".to_string());
    assert_eq!(store.vars[1].init, Init::Constant { value: 0 });
}
