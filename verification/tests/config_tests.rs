use bert_encoder::config::{
    Activation, AlbertConfig, BertConfig, PretrainBertConfig, PretrainConfig, SqueezeBertConfig,
    FIXED_ONE,
};
use bert_encoder::bert::BertSelfAttention;
use bert_encoder::store::ParameterStore;

fn base_bert_config() -> BertConfig {
    BertConfig {
        attention_probs_dropout_prob: 100_000_000_000, // 0.1
        hidden_act: Activation::Gelu,
        hidden_dropout_prob: 100_000_000_000, // 0.1
        hidden_size: 768,
        initializer_range: 20_000_000_000, // 0.02
        intermediate_size: 3072,
        layer_norm_eps: 1, // 1e-12
        max_position_embeddings: 512,
        num_attention_heads: 12,
        num_hidden_layers: 12,
        type_vocab_size: 2,
        vocab_size: 30528,
    }
}

#[test]
fn valid_config_accepted() {
    let config = base_bert_config();
    assert!(config.check());
    assert_eq!(config.attention_head_size(), 64);
    assert_eq!(config.num_attention_heads * config.attention_head_size(), config.hidden_size);
}

#[test]
fn indivisible_head_count_rejected_before_any_parameter() {
    let mut config = base_bert_config();
    config.num_attention_heads = 7; // 768 % 7 != 0
    assert!(!config.check());

    let mut store = ParameterStore::new();
    let r = BertSelfAttention::new(&mut store, "attention", &config);
    assert!(r.is_err());
    assert!(r.err().unwrap().is_configuration());
    // Rejected before any tensor was allocated.
    assert_eq!(store.len(), 0);
}

#[test]
fn zero_hidden_size_rejected() {
    let mut config = base_bert_config();
    config.hidden_size = 0;
    assert!(!config.check());
}

#[test]
fn out_of_range_probability_rejected() {
    let mut config = base_bert_config();
    config.hidden_dropout_prob = FIXED_ONE + 1;
    assert!(!config.check());
}

fn squeeze_config() -> SqueezeBertConfig {
    SqueezeBertConfig {
        attention_probs_dropout_prob: 100_000_000_000,
        embedding_size: 768,
        hidden_act: Activation::Gelu,
        hidden_dropout_prob: 100_000_000_000,
        hidden_size: 768,
        initializer_range: 20_000_000_000,
        intermediate_size: 3072,
        layer_norm_eps: 1,
        max_position_embeddings: 512,
        num_attention_heads: 12,
        num_hidden_layers: 12,
        type_vocab_size: 2,
        vocab_size: 30528,
        q_groups: 4,
        k_groups: 4,
        v_groups: 4,
        post_attention_groups: 1,
        intermediate_groups: 4,
        output_groups: 4,
    }
}

#[test]
fn squeeze_config_group_divisibility() {
    let mut config = squeeze_config();
    assert!(config.check());
    // 768 % 5 != 0: the query convolution cannot be grouped that way.
    config.q_groups = 5;
    assert!(!config.check());
}

#[test]
fn derived_bert_config_copies_fields() {
    let squeeze = squeeze_config();
    let bert = squeeze.to_bert();
    assert_eq!(bert.hidden_size, 768);
    assert_eq!(bert.num_attention_heads, 12);
    assert_eq!(bert.intermediate_size, 3072);
    assert_eq!(bert.num_hidden_layers, 12);

    let pretrain = PretrainConfig::SqueezeBert(squeeze);
    let derived = pretrain.bert_config();
    assert_eq!(derived, bert);
}

#[test]
fn albert_layer_group_partition() {
    let bert = base_bert_config();
    let mut albert = AlbertConfig {
        attention_probs_dropout_prob: bert.attention_probs_dropout_prob,
        hidden_act: bert.hidden_act,
        hidden_dropout_prob: bert.hidden_dropout_prob,
        hidden_size: bert.hidden_size,
        initializer_range: bert.initializer_range,
        intermediate_size: bert.intermediate_size,
        layer_norm_eps: bert.layer_norm_eps,
        max_position_embeddings: bert.max_position_embeddings,
        num_attention_heads: bert.num_attention_heads,
        num_hidden_layers: 12,
        type_vocab_size: bert.type_vocab_size,
        vocab_size: bert.vocab_size,
        embedding_size: 128,
        num_hidden_groups: 3,
    };
    assert!(albert.check());
    // 12 layers cannot be split into 5 equal groups.
    albert.num_hidden_groups = 5;
    assert!(!albert.check());
}
