use std::collections::BTreeSet;

use bert_encoder::config::{Activation, SqueezeBertConfig};
use bert_encoder::embeddings::BertEmbeddings;
use bert_encoder::layer_output::LayerOutput;
use bert_encoder::squeeze_bert::SqueezeBertEncoder;
use bert_encoder::store::ParameterStore;
use bert_encoder::tensor::{BoolMask, TokenIds};

fn squeezebert_uncased_config() -> SqueezeBertConfig {
    SqueezeBertConfig {
        attention_probs_dropout_prob: 100_000_000_000, // 0.1
        embedding_size: 768,
        hidden_act: Activation::Gelu,
        hidden_dropout_prob: 100_000_000_000, // 0.1
        hidden_size: 768,
        initializer_range: 20_000_000_000, // 0.02
        intermediate_size: 3072,
        layer_norm_eps: 1, // 1e-12
        max_position_embeddings: 512,
        num_attention_heads: 12,
        num_hidden_layers: 12,
        type_vocab_size: 2,
        vocab_size: 30528,
        q_groups: 4,
        k_groups: 4,
        v_groups: 4,
        post_attention_groups: 1,
        intermediate_groups: 4,
        output_groups: 4,
    }
}

fn layer_variables() -> BTreeSet<String> {
    let mut set = BTreeSet::new();
    for name in [
        "post_attention.conv1d.bias",
        "post_attention.conv1d.weight",
        "post_attention.layer_norm.bias",
        "post_attention.layer_norm.weight",
        "attention.key.bias",
        "attention.key.weight",
        "attention.query.bias",
        "attention.query.weight",
        "attention.value.bias",
        "attention.value.weight",
        "intermediate.conv1d.bias",
        "intermediate.conv1d.weight",
        "output.conv1d.bias",
        "output.conv1d.weight",
        "output.layer_norm.bias",
        "output.layer_norm.weight",
    ] {
        set.insert(name.to_string());
    }
    set
}

fn store_variables(store: &ParameterStore) -> BTreeSet<String> {
    store.vars.iter().map(|v| v.path.clone()).collect()
}

#[test]
fn squeeze_bert_encoder_names_and_shapes() {
    // Verify that the encoders's names and shapes are correct.
    let config = squeezebert_uncased_config();

    let mut store = ParameterStore::new();
    let _encoder = SqueezeBertEncoder::new(&mut store, "", &config).unwrap();

    let variables = store_variables(&store);

    let mut encoder_variables = BTreeSet::new();
    let layer_variables = layer_variables();
    for idx in 0..config.num_hidden_layers {
        for layer_variable in &layer_variables {
            encoder_variables.insert(format!("layer_{}.{}", idx, layer_variable));
        }
    }

    assert_eq!(variables, encoder_variables);
}

#[test]
fn squeeze_bert_layer_records_configured_hyperparameters() {
    let config = squeezebert_uncased_config();
    let mut store = ParameterStore::new();
    let encoder = SqueezeBertEncoder::new(&mut store, "", &config).unwrap();

    let layer = &encoder.layers[0];
    assert_eq!(layer.attention.dropout.p, 100_000_000_000);
    assert_eq!(layer.attention.query.groups, 4);
    assert_eq!(layer.attention.key.groups, 4);
    assert_eq!(layer.attention.value.groups, 4);
    assert_eq!(layer.post_attention.conv1d.groups, 1);
    assert_eq!(layer.post_attention.layer_norm.eps, 1);
    assert_eq!(layer.post_attention.dropout.p, 100_000_000_000);
    assert_eq!(layer.intermediate.conv1d.groups, 4);
    assert_eq!(layer.output.conv1d.groups, 4);
    assert_eq!(layer.output.layer_norm.eps, 1);
}

#[test]
fn squeeze_bert_encoder_parameter_shapes() {
    let config = squeezebert_uncased_config();
    let mut store = ParameterStore::new();
    let _encoder = SqueezeBertEncoder::new(&mut store, "", &config).unwrap();

    for v in &store.vars {
        if v.path.ends_with("attention.query.weight") {
            // Grouped pointwise convolution: [out, in / groups, 1].
            assert_eq!(v.dims, vec![768, 192, 1]);
        } else if v.path.ends_with("intermediate.conv1d.weight") {
            assert_eq!(v.dims, vec![3072, 192, 1]);
        } else if v.path.ends_with("output.conv1d.weight") {
            assert_eq!(v.dims, vec![768, 768, 1]);
        } else if v.path.ends_with("layer_norm.weight") || v.path.ends_with("layer_norm.bias") {
            assert_eq!(v.dims.len(), 1);
        }
    }
}

// Word pieces of: Did the AWO embezzle donations ?
fn nine_pieces() -> Vec<i64> {
    vec![2106, 1996, 22091, 2080, 7861, 4783, 17644, 11440, 1029]
}

#[test]
fn squeeze_bert_encoder_trace_structure() {
    let config = squeezebert_uncased_config();
    let bert_config = config.to_bert();

    let mut store = ParameterStore::new();
    let embeddings = BertEmbeddings::new(&mut store, "embeddings", &bert_config).unwrap();
    let encoder = SqueezeBertEncoder::new(&mut store, "encoder", &config).unwrap();

    let pieces = TokenIds { rows: vec![nine_pieces()] };
    let embedded = embeddings.forward_t(&pieces, false).unwrap();
    assert_eq!(embedded.dims, vec![1, 9, 768]);

    let all_hidden_states = encoder.encode(&embedded, None, false).unwrap();

    assert_eq!(all_hidden_states.len(), 13);
    assert!(matches!(all_hidden_states[0], LayerOutput::Embedding(_)));
    for (idx, layer_output) in all_hidden_states.iter().enumerate() {
        assert_eq!(layer_output.output().dims, vec![1, 9, 768]);
        if idx > 0 {
            match layer_output {
                LayerOutput::EncoderWithAttention(h) => {
                    assert_eq!(h.attention.dims, vec![1, 12, 9, 9]);
                }
                LayerOutput::Embedding(_) => panic!("embedding entry after index 0"),
            }
        }
    }
    assert_eq!(encoder.n_layers(), 13);
}

#[test]
fn squeeze_bert_encoder_attention_mask_shapes() {
    let config = squeezebert_uncased_config();
    let bert_config = config.to_bert();

    let mut store = ParameterStore::new();
    let embeddings = BertEmbeddings::new(&mut store, "embeddings", &bert_config).unwrap();
    let encoder = SqueezeBertEncoder::new(&mut store, "encoder", &config).unwrap();

    // Add some padding to simulate inactive time steps; the mask marks
    // only the first 9 of 14 positions active.
    let mut padded = nine_pieces();
    padded.extend([0, 0, 0, 0, 0]);
    let pieces = TokenIds { rows: vec![padded] };
    let mask = BoolMask { rows: vec![(0..14).map(|i| i < 9).collect()] };

    let embedded = embeddings.forward_t(&pieces, false).unwrap();
    let all_hidden_states = encoder.encode(&embedded, Some(&mask), false).unwrap();

    assert_eq!(all_hidden_states.len(), 13);
    for layer_output in &all_hidden_states {
        assert_eq!(layer_output.output().dims, vec![1, 14, 768]);
    }
}

#[test]
fn squeeze_bert_encoder_rejects_mismatched_mask() {
    let config = squeezebert_uncased_config();
    let bert_config = config.to_bert();

    let mut store = ParameterStore::new();
    let embeddings = BertEmbeddings::new(&mut store, "embeddings", &bert_config).unwrap();
    let encoder = SqueezeBertEncoder::new(&mut store, "encoder", &config).unwrap();

    let pieces = TokenIds { rows: vec![nine_pieces()] };
    // A 14-position mask against a 9-position input.
    let mask = BoolMask { rows: vec![(0..14).map(|i| i < 9).collect()] };

    let embedded = embeddings.forward_t(&pieces, false).unwrap();
    let r = encoder.encode(&embedded, Some(&mask), false);
    assert!(r.is_err());
    assert!(r.err().unwrap().is_shape());
}
