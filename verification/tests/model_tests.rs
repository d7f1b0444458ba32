use bert_encoder::config::{
    Activation, AlbertConfig, BertConfig, PositionEmbeddings, PretrainConfig,
};
use bert_encoder::error::TransformerError;
use bert_encoder::layer_output::LayerOutput;
use bert_encoder::model::{BertEmbeddingLayer, BertModel, Encoder, FreezeLayers};
use bert_encoder::store::ParameterStore;
use bert_encoder::tensor::{BoolMask, TokenIds};

fn bert_base_config() -> BertConfig {
    BertConfig {
        attention_probs_dropout_prob: 100_000_000_000, // 0.1
        hidden_act: Activation::Gelu,
        hidden_dropout_prob: 100_000_000_000, // 0.1
        hidden_size: 768,
        initializer_range: 20_000_000_000, // 0.02
        intermediate_size: 3072,
        layer_norm_eps: 1, // 1e-12
        max_position_embeddings: 512,
        num_attention_heads: 12,
        num_hidden_layers: 12,
        type_vocab_size: 2,
        vocab_size: 30528,
    }
}

fn no_freeze() -> FreezeLayers {
    FreezeLayers { embeddings: false, encoder: false, classifiers: false }
}

fn nine_ids() -> TokenIds {
    TokenIds { rows: vec![vec![2106, 1996, 22091, 2080, 7861, 4783, 17644, 11440, 1029]] }
}

fn full_mask(batch: usize, seq_len: usize) -> BoolMask {
    BoolMask { rows: vec![vec![true; seq_len]; batch] }
}

fn bert_model() -> BertModel {
    let mut store = ParameterStore::new();
    BertModel::new(
        &mut store,
        "",
        &PretrainConfig::Bert(bert_base_config()),
        100_000_000_000,
        PositionEmbeddings::Model,
    )
    .unwrap()
}

#[test]
fn twelve_layer_encoder_trace() {
    // A batch of 1 sequence of 9 token ids through a 12-layer encoder with
    // hidden size 768 and 12 heads yields 13 entries, each [1, 9, 768].
    let model = bert_model();
    let trace = model.encode(&nine_ids(), &full_mask(1, 9), false, no_freeze()).unwrap();

    assert_eq!(trace.len(), 13);
    assert!(matches!(trace[0], LayerOutput::Embedding(_)));
    for (idx, entry) in trace.iter().enumerate() {
        assert_eq!(entry.output().dims, vec![1, 9, 768]);
        if idx > 0 {
            assert!(matches!(entry, LayerOutput::EncoderWithAttention(_)));
            let attention = entry.attention().unwrap();
            assert_eq!(attention.dims, vec![1, 12, 9, 9]);
        } else {
            assert!(entry.attention().is_none());
        }
    }
}

#[test]
fn freezing_changes_gradient_marks_only() {
    let model = bert_model();
    let ids = nine_ids();
    let mask = full_mask(1, 9);

    let unfrozen = model.encode(&ids, &mask, false, no_freeze()).unwrap();
    let frozen = model
        .encode(
            &ids,
            &mask,
            false,
            FreezeLayers { embeddings: true, encoder: false, classifiers: false },
        )
        .unwrap();
    let all_frozen = model
        .encode(
            &ids,
            &mask,
            false,
            FreezeLayers { embeddings: true, encoder: true, classifiers: true },
        )
        .unwrap();

    assert_eq!(unfrozen.len(), frozen.len());
    assert_eq!(unfrozen.len(), all_frozen.len());
    for idx in 0..unfrozen.len() {
        // Shapes and tags are identical however the stages were frozen.
        assert_eq!(unfrozen[idx].output().dims, frozen[idx].output().dims);
        assert_eq!(unfrozen[idx].output().dims, all_frozen[idx].output().dims);
    }
    // Only gradient tracking differs.
    assert!(unfrozen[0].output().requires_grad);
    assert!(!frozen[0].output().requires_grad);
    assert!(unfrozen[5].output().requires_grad);
    assert!(frozen[5].output().requires_grad);
    for entry in &all_frozen {
        assert!(!entry.output().requires_grad);
    }
}

#[test]
fn mismatched_mask_is_a_shape_error() {
    let model = bert_model();
    let r = model.encode(&nine_ids(), &full_mask(1, 14), false, no_freeze());
    assert!(r.is_err());
    let e = r.err().unwrap();
    assert!(e.is_shape());
    assert_eq!(e.op_name(), "attention_mask");
    match e {
        TransformerError::Shape { expected, actual, .. } => {
            assert_eq!(expected, vec![1, 9]);
            assert_eq!(actual, vec![1, 14]);
        }
        _ => panic!("expected a shape error"),
    }
}

#[test]
fn constructors_record_configured_hyperparameters() {
    let model = bert_model();
    match &model.embeddings {
        BertEmbeddingLayer::Bert(e) => assert_eq!(e.dropout.p, 100_000_000_000),
        _ => panic!("expected the generic embedding variant"),
    }
    match &model.encoder {
        Encoder::Bert(e) => {
            let layer = &e.layers[0];
            assert_eq!(layer.attention.dropout.p, 100_000_000_000);
            assert_eq!(layer.post_attention.layer_norm.eps, 1);
            assert!(layer.post_attention.layer_norm.elementwise_affine);
            assert_eq!(layer.post_attention.dropout.p, 100_000_000_000);
            assert_eq!(layer.intermediate.activation, Activation::Gelu);
            assert_eq!(layer.output.layer_norm.eps, 1);
            assert_eq!(layer.output.dropout.p, 100_000_000_000);
        }
        _ => panic!("expected the generic encoder family"),
    }
    assert_eq!(model.layers_dropout.p, 100_000_000_000);
}

#[test]
fn sinusoidal_embeddings_record_normalization() {
    for normalize in [false, true] {
        let mut store = ParameterStore::new();
        let layer = BertEmbeddingLayer::new(
            &mut store,
            "",
            &PretrainConfig::Bert(bert_base_config()),
            PositionEmbeddings::Sinusoidal { normalize },
        )
        .unwrap();
        match layer {
            BertEmbeddingLayer::Sinusoidal(s) => {
                assert_eq!(s.normalize, normalize);
                assert_eq!(s.dropout.p, 100_000_000_000);
            }
            _ => panic!("expected the sinusoidal embedding variant"),
        }
    }
}

#[test]
fn out_of_vocabulary_id_is_a_computation_error() {
    let model = bert_model();
    let ids = TokenIds { rows: vec![vec![2106, 30528, 1029]] }; // 30528 == vocab_size
    let r = model.encode(&ids, &full_mask(1, 3), false, no_freeze());
    assert!(r.is_err());
    assert!(r.err().unwrap().is_computation());
}

#[test]
fn over_long_sequence_is_a_shape_error() {
    let model = bert_model();
    let ids = TokenIds { rows: vec![vec![7; 513]] }; // max_position_embeddings == 512
    let r = model.encode(&ids, &full_mask(1, 513), false, no_freeze());
    assert!(r.is_err());
    assert!(r.err().unwrap().is_shape());
}

#[test]
fn sinusoidal_xlm_roberta_fails_fast() {
    let mut store = ParameterStore::new();
    let r = BertModel::new(
        &mut store,
        "",
        &PretrainConfig::XlmRoberta(bert_base_config()),
        100_000_000_000,
        PositionEmbeddings::Sinusoidal { normalize: true },
    );
    assert!(r.is_err());
    assert!(r.err().unwrap().is_configuration());
    // Fail fast at construction: nothing was created.
    assert_eq!(store.len(), 0);
}

#[test]
fn model_parameter_namespace_is_scoped() {
    let mut store = ParameterStore::new();
    let _model = BertModel::new(
        &mut store,
        "",
        &PretrainConfig::Bert(bert_base_config()),
        100_000_000_000,
        PositionEmbeddings::Model,
    )
    .unwrap();
    assert!(store.len() > 0);
    for v in &store.vars {
        assert!(
            v.path.starts_with("embeddings.") || v.path.starts_with("encoder."),
            "unexpected path {}",
            v.path
        );
    }
    assert!(store.vars.iter().any(|v| v.path == "embeddings.word_embeddings.weight"));
    assert!(store.vars.iter().any(|v| v.path == "encoder.layer_11.attention.self.query.weight"));
}

#[test]
fn top_k_runs_inference_mode_fully_frozen() {
    let model = bert_model();
    let heads_input = model.top_k(&nine_ids(), &full_mask(1, 9)).unwrap();
    assert!(!heads_input.train);
    assert!(!heads_input.no_grad);
    assert_eq!(heads_input.layer_outputs.len(), 13);
    for entry in &heads_input.layer_outputs {
        assert!(!entry.output().requires_grad);
    }
}

#[test]
fn loss_freezes_heads_with_classifiers() {
    let model = bert_model();
    let heads_input = model
        .loss(
            &nine_ids(),
            &full_mask(1, 9),
            true,
            FreezeLayers { embeddings: false, encoder: false, classifiers: true },
        )
        .unwrap();
    assert!(heads_input.train);
    assert!(heads_input.no_grad);
}

fn albert_config() -> AlbertConfig {
    let bert = bert_base_config();
    AlbertConfig {
        attention_probs_dropout_prob: bert.attention_probs_dropout_prob,
        hidden_act: bert.hidden_act,
        hidden_dropout_prob: bert.hidden_dropout_prob,
        hidden_size: 768,
        initializer_range: bert.initializer_range,
        intermediate_size: 3072,
        layer_norm_eps: bert.layer_norm_eps,
        max_position_embeddings: 512,
        num_attention_heads: 12,
        num_hidden_layers: 12,
        type_vocab_size: 2,
        vocab_size: 30528,
        embedding_size: 128,
        num_hidden_groups: 1,
    }
}

#[test]
fn albert_shares_one_layer_group() {
    let mut store = ParameterStore::new();
    let model = BertModel::new(
        &mut store,
        "",
        &PretrainConfig::Albert(albert_config()),
        100_000_000_000,
        PositionEmbeddings::Model,
    )
    .unwrap();

    // One shared group, an embedding projection, no per-layer namespaces.
    assert!(store.vars.iter().any(|v| v.path == "encoder.embedding_projection.weight"));
    assert!(store.vars.iter().any(|v| v.path.starts_with("encoder.group_0.")));
    assert!(!store.vars.iter().any(|v| v.path.starts_with("encoder.group_1.")));
    assert!(!store.vars.iter().any(|v| v.path.starts_with("encoder.layer_0.")));

    // The trace still has one entry per layer plus the embedding, all in
    // the canonical hidden width.
    let trace = model.encode(&nine_ids(), &full_mask(1, 9), false, no_freeze()).unwrap();
    assert_eq!(trace.len(), 13);
    for entry in &trace {
        assert_eq!(entry.output().dims, vec![1, 9, 768]);
    }
}
