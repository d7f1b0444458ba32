//! The generic (BERT-style) encoder family: scaled multi-head
//! self-attention, the residual-and-normalize sublayer, the feed-forward
//! expansion, their composition into one encoder layer, and the stack of
//! such layers.
//!
//! The sublayer sequencing — attend, residual-normalize, expand,
//! residual-normalize — is the architecture's correctness contract and is
//! fixed by the bodies below; the contracts pin the shape and the
//! gradient mark of everything each step produces.

use vstd::prelude::*;

use crate::config::{lemma_head_partition, Activation, BertConfig, MAX_DIM};
use crate::error::{configuration_error, shape_error, TransformerError};
use crate::layer_output::{encode_trace_post, HiddenLayer, LayerOutput};
use crate::layers::{bert_linear, layer_norm_vars, linear_vars, Dropout, LayerNorm, Linear};
use crate::store::{dec_str, numbered_sub_path, spec_sub_path, sub_path, ParameterStore, VarView};
use crate::tensor::{
    add_logits_mask, copy_dims, matmul4, merge_heads, permute_0132, softmax_last, split_heads,
    BoolMask, LogitsMask, Tensor,
};

verus! {

/// An optional logits mask is well-formed when the mask it carries is.
pub open spec fn logits_mask_wf(mask: Option<&LogitsMask>) -> bool {
    match mask {
        Some(m) => m.wf(),
        None => true,
    }
}

/// An optional logits mask fits a `[batch, seq_len, _]` input when its
/// own batch and key count agree with it.
pub open spec fn logits_mask_matches(mask: Option<&LogitsMask>, batch: usize, seq_len: usize) -> bool {
    match mask {
        Some(m) => m.spec_batch_size() == batch && m.spec_seq_len() == seq_len,
        None => true,
    }
}

/// An optional boolean mask is well-formed when the mask it carries is.
pub open spec fn bool_mask_wf(mask: Option<&BoolMask>) -> bool {
    match mask {
        Some(m) => m.wf(),
        None => true,
    }
}

/// An optional boolean mask fits a `[batch, seq_len, _]` input when its
/// own batch and position count agree with it.
pub open spec fn bool_mask_matches(mask: Option<&BoolMask>, batch: usize, seq_len: usize) -> bool {
    match mask {
        Some(m) => m.spec_batch_size() == batch && m.spec_seq_len() == seq_len,
        None => true,
    }
}

/// The parameters of the self-attention block: the query, key and value
/// projections, each `hidden_size` to `hidden_size`.
pub open spec fn attention_vars(prefix: Seq<char>, config: BertConfig) -> Seq<VarView> {
    linear_vars(
        spec_sub_path(prefix, "key"@),
        "weight"@,
        "bias"@,
        config.hidden_size,
        config.hidden_size,
        config.initializer_range,
    ) + linear_vars(
        spec_sub_path(prefix, "query"@),
        "weight"@,
        "bias"@,
        config.hidden_size,
        config.hidden_size,
        config.initializer_range,
    ) + linear_vars(
        spec_sub_path(prefix, "value"@),
        "weight"@,
        "bias"@,
        config.hidden_size,
        config.hidden_size,
        config.initializer_range,
    )
}

/// Scaled dot-product multi-head self-attention.
#[derive(Debug)]
pub struct BertSelfAttention {
    pub all_head_size: usize,
    pub attention_head_size: usize,
    pub num_attention_heads: usize,
    pub dropout: Dropout,
    pub key: Linear,
    pub query: Linear,
    pub value: Linear,
}

impl BertSelfAttention {
    /// The head bookkeeping is consistent and the three projections map
    /// the hidden width onto itself.
    pub open spec fn wf(self) -> bool {
        &&& 0 < self.num_attention_heads
        &&& self.num_attention_heads * self.attention_head_size == self.all_head_size
        &&& 0 < self.all_head_size <= MAX_DIM
        &&& self.query.in_features == self.all_head_size
        &&& self.query.out_features == self.all_head_size
        &&& self.key.in_features == self.all_head_size
        &&& self.key.out_features == self.all_head_size
        &&& self.value.in_features == self.all_head_size
        &&& self.value.out_features == self.all_head_size
    }

    /// The block accepts a `[batch, seq_len, hidden]` input and a mask
    /// matching its batch and sequence length.
    pub open spec fn accepts(self, dims: Seq<usize>, mask: Option<&LogitsMask>) -> bool {
        &&& dims.len() == 3
        &&& dims[2] == self.all_head_size
        &&& logits_mask_matches(mask, dims[0], dims[1])
    }

    /// Creates the query, key and value projections.  A configuration
    /// whose hidden size does not split evenly over the heads — or is
    /// otherwise invalid — is rejected before any parameter is created.
    pub fn new(store: &mut ParameterStore, prefix: &str, config: &BertConfig) -> (r: Result<
        BertSelfAttention,
        TransformerError,
    >)
        ensures
            r is Ok <==> config.valid(),
            r matches Ok(a) ==> {
                &&& final(store)@ == old(store)@ + attention_vars(prefix@, *config)
                &&& a.wf()
                &&& a.num_attention_heads == config.num_attention_heads
                &&& a.attention_head_size == config.spec_attention_head_size()
                &&& a.all_head_size == config.hidden_size
                &&& a.dropout.p == config.attention_probs_dropout_prob
            },
            r is Err ==> final(store)@ == old(store)@,
            r matches Err(e) ==> e is Configuration,
    {
        if !config.check() {
            return Err(configuration_error("bert_self_attention"));
        }
        let attention_head_size = config.attention_head_size();
        let all_head_size = config.num_attention_heads * attention_head_size;

        let key_prefix = sub_path(prefix, "key");
        let key = bert_linear(store, key_prefix.as_str(), config, config.hidden_size, all_head_size);
        let query_prefix = sub_path(prefix, "query");
        let query = bert_linear(
            store,
            query_prefix.as_str(),
            config,
            config.hidden_size,
            all_head_size,
        );
        let value_prefix = sub_path(prefix, "value");
        let value = bert_linear(
            store,
            value_prefix.as_str(),
            config,
            config.hidden_size,
            all_head_size,
        );
        proof {
            assert(final(store)@ =~~= old(store)@ + attention_vars(prefix@, *config));
        }
        Ok(
            BertSelfAttention {
                all_head_size,
                attention_head_size,
                num_attention_heads: config.num_attention_heads,
                dropout: Dropout::new(config.attention_probs_dropout_prob),
                key,
                query,
                value,
            },
        )
    }

    /// Splits the projected `[batch, seq_len, hidden]` tensor into
    /// `[batch, heads, seq_len, head_size]`, moving the head axis forward.
    fn transpose_for_scores(&self, x: &Tensor) -> (r: Tensor)
        requires
            self.wf(),
            x.dims@.len() == 3,
            x.dims@[2] == self.all_head_size,
        ensures
            r.dims@ == seq![x.dims@[0], self.num_attention_heads, x.dims@[1], self.attention_head_size],
            r.requires_grad == x.requires_grad,
    {
        split_heads(x, self.num_attention_heads, self.attention_head_size)
    }

    /// Applies self-attention, returning the contextualized
    /// representations (`[batch, seq_len, hidden]`) and the raw attention
    /// scores (`[batch, heads, seq_len, seq_len]`, after scaling and
    /// masking, before normalization), which are retained for attention
    /// inspection.
    pub fn forward_t(
        &self,
        hidden_states: &Tensor,
        attention_mask: Option<&LogitsMask>,
        train: bool,
    ) -> (r: Result<(Tensor, Tensor), TransformerError>)
        requires
            self.wf(),
            logits_mask_wf(attention_mask),
        ensures
            r is Ok <==> self.accepts(hidden_states.dims@, attention_mask),
            r matches Ok(p) ==> {
                &&& p.0.dims@ == seq![hidden_states.dims@[0], hidden_states.dims@[1], self.all_head_size]
                &&& p.0.requires_grad
                &&& p.1.dims@ == seq![
                    hidden_states.dims@[0],
                    self.num_attention_heads,
                    hidden_states.dims@[1],
                    hidden_states.dims@[1],
                ]
                &&& p.1.requires_grad
            },
            r matches Err(e) ==> e is Shape,
    {
        let mixed_query_layer = match self.query.forward(hidden_states) {
            Ok(t) => t,
            Err(e) => {
                return Err(e);
            },
        };
        let batch = hidden_states.dims[0];
        let seq_len = hidden_states.dims[1];
        if let Some(m) = attention_mask {
            if m.batch_size() != batch || m.seq_len() != seq_len {
                return Err(
                    shape_error(
                        "attention_mask",
                        vec![batch, seq_len],
                        vec![m.batch_size(), m.seq_len()],
                    ),
                );
            }
        }
        let mixed_key_layer = match self.key.forward(hidden_states) {
            Ok(t) => t,
            Err(e) => {
                return Err(e);
            },
        };
        let mixed_value_layer = match self.value.forward(hidden_states) {
            Ok(t) => t,
            Err(e) => {
                return Err(e);
            },
        };

        let query_layer = self.transpose_for_scores(&mixed_query_layer);
        let key_layer = self.transpose_for_scores(&mixed_key_layer);
        let value_layer = self.transpose_for_scores(&mixed_value_layer);

        // Raw scores: query times transposed key, scaled by the inverse
        // square root of the head size (the scaling does not change the
        // shape or the tape mark).
        let key_layer_t = permute_0132(&key_layer);
        let mut attention_scores = matmul4(&query_layer, &key_layer_t);

        // Push masked key positions to an unreachable low, for every head
        // and query position alike.
        if let Some(mask) = attention_mask {
            attention_scores = add_logits_mask(&attention_scores, mask);
        }

        // Normalize each score row into a probability distribution.
        let attention_probs = softmax_last(&attention_scores);

        // Drop out entire tokens to attend to, following the original
        // transformer design.
        let attention_probs = match self.dropout.forward_t(&attention_probs, train) {
            Ok(t) => t,
            Err(e) => {
                return Err(e);
            },
        };

        let context_layer = matmul4(&attention_probs, &value_layer);
        let context_layer = merge_heads(&context_layer, self.all_head_size);

        Ok((context_layer, attention_scores))
    }
}

/// The parameters of a residual-and-normalize sublayer: one projection
/// and one layer normalization over the output width.
pub open spec fn residual_norm_vars(
    prefix: Seq<char>,
    in_features: usize,
    out_features: usize,
    stdev: u64,
) -> Seq<VarView> {
    linear_vars(
        spec_sub_path(prefix, "dense"@),
        "weight"@,
        "bias"@,
        in_features,
        out_features,
        stdev,
    ) + layer_norm_vars(spec_sub_path(prefix, "layer_norm"@), out_features)
}

/// Residual-and-normalize sublayer merging the attention context back
/// into the residual stream: `LayerNorm(Dropout(Linear(x)) + residual)`.
#[derive(Debug)]
pub struct BertSelfOutput {
    pub dense: Linear,
    pub dropout: Dropout,
    pub layer_norm: LayerNorm,
}

impl BertSelfOutput {
    /// The projection maps the hidden width onto itself and the
    /// normalization covers it.
    pub open spec fn wf(self) -> bool {
        &&& self.dense.in_features == self.dense.out_features
        &&& self.layer_norm.size == self.dense.out_features
    }

    /// Creates the projection and normalization parameters; an invalid
    /// configuration is rejected before any parameter is created.
    pub fn new(store: &mut ParameterStore, prefix: &str, config: &BertConfig) -> (r: Result<
        BertSelfOutput,
        TransformerError,
    >)
        ensures
            r is Ok <==> config.valid(),
            r matches Ok(o) ==> {
                &&& final(store)@ == old(store)@ + residual_norm_vars(
                    prefix@,
                    config.hidden_size,
                    config.hidden_size,
                    config.initializer_range,
                )
                &&& o.wf()
                &&& o.dense.in_features == config.hidden_size
                &&& o.dense.out_features == config.hidden_size
                &&& o.layer_norm.eps == config.layer_norm_eps
                &&& o.layer_norm.elementwise_affine
                &&& o.dropout.p == config.hidden_dropout_prob
            },
            r is Err ==> final(store)@ == old(store)@,
            r matches Err(e) ==> e is Configuration,
    {
        if !config.check() {
            return Err(configuration_error("bert_self_output"));
        }
        let dense_prefix = sub_path(prefix, "dense");
        let dense = bert_linear(
            store,
            dense_prefix.as_str(),
            config,
            config.hidden_size,
            config.hidden_size,
        );
        let ln_prefix = sub_path(prefix, "layer_norm");
        let layer_norm = LayerNorm::new(
            store,
            ln_prefix.as_str(),
            config.hidden_size,
            config.layer_norm_eps,
            true,
        );
        proof {
            assert(final(store)@ =~~= old(store)@ + residual_norm_vars(
                prefix@,
                config.hidden_size,
                config.hidden_size,
                config.initializer_range,
            ));
        }
        Ok(
            BertSelfOutput {
                dense,
                dropout: Dropout::new(config.hidden_dropout_prob),
                layer_norm,
            },
        )
    }

    /// Projects `hidden_states`, applies dropout, adds the residual
    /// `input`, and normalizes.  The result has the shape of the
    /// residual.
    pub fn forward_t(&self, hidden_states: &Tensor, input: &Tensor, train: bool) -> (r: Result<
        Tensor,
        TransformerError,
    >)
        requires
            self.wf(),
        ensures
            r is Ok <==> {
                &&& hidden_states.dims@.len() == 3
                &&& hidden_states.dims@[2] == self.dense.in_features
                &&& input.dims@ == seq![
                    hidden_states.dims@[0],
                    hidden_states.dims@[1],
                    self.dense.out_features,
                ]
            },
            r matches Ok(t) ==> t.dims@ == input.dims@ && t.requires_grad,
            r matches Err(e) ==> e is Shape,
    {
        residual_norm_forward(&self.dense, &self.dropout, &self.layer_norm, hidden_states, input, train)
    }
}

/// Residual-and-normalize sublayer merging the feed-forward expansion
/// back into the residual stream: `LayerNorm(Dropout(Linear(x)) +
/// residual)`, projecting the expansion width back down.
#[derive(Debug)]
pub struct BertOutput {
    pub dense: Linear,
    pub dropout: Dropout,
    pub layer_norm: LayerNorm,
}

impl BertOutput {
    /// The normalization covers the projection's output width.
    pub open spec fn wf(self) -> bool {
        self.layer_norm.size == self.dense.out_features
    }

    /// Creates the projection (expansion width down to hidden width) and
    /// normalization parameters; an invalid configuration is rejected
    /// before any parameter is created.
    pub fn new(store: &mut ParameterStore, prefix: &str, config: &BertConfig) -> (r: Result<
        BertOutput,
        TransformerError,
    >)
        ensures
            r is Ok <==> config.valid(),
            r matches Ok(o) ==> {
                &&& final(store)@ == old(store)@ + residual_norm_vars(
                    prefix@,
                    config.intermediate_size,
                    config.hidden_size,
                    config.initializer_range,
                )
                &&& o.wf()
                &&& o.dense.in_features == config.intermediate_size
                &&& o.dense.out_features == config.hidden_size
                &&& o.layer_norm.eps == config.layer_norm_eps
                &&& o.layer_norm.elementwise_affine
                &&& o.dropout.p == config.hidden_dropout_prob
            },
            r is Err ==> final(store)@ == old(store)@,
            r matches Err(e) ==> e is Configuration,
    {
        if !config.check() {
            return Err(configuration_error("bert_output"));
        }
        let dense_prefix = sub_path(prefix, "dense");
        let dense = bert_linear(
            store,
            dense_prefix.as_str(),
            config,
            config.intermediate_size,
            config.hidden_size,
        );
        let ln_prefix = sub_path(prefix, "layer_norm");
        let layer_norm = LayerNorm::new(
            store,
            ln_prefix.as_str(),
            config.hidden_size,
            config.layer_norm_eps,
            true,
        );
        proof {
            assert(final(store)@ =~~= old(store)@ + residual_norm_vars(
                prefix@,
                config.intermediate_size,
                config.hidden_size,
                config.initializer_range,
            ));
        }
        Ok(
            BertOutput { dense, dropout: Dropout::new(config.hidden_dropout_prob), layer_norm },
        )
    }

    /// Projects `hidden_states`, applies dropout, adds the residual
    /// `input`, and normalizes.  The result has the shape of the
    /// residual.
    pub fn forward_t(&self, hidden_states: &Tensor, input: &Tensor, train: bool) -> (r: Result<
        Tensor,
        TransformerError,
    >)
        requires
            self.wf(),
        ensures
            r is Ok <==> {
                &&& hidden_states.dims@.len() == 3
                &&& hidden_states.dims@[2] == self.dense.in_features
                &&& input.dims@ == seq![
                    hidden_states.dims@[0],
                    hidden_states.dims@[1],
                    self.dense.out_features,
                ]
            },
            r matches Ok(t) ==> t.dims@ == input.dims@ && t.requires_grad,
            r matches Err(e) ==> e is Shape,
    {
        residual_norm_forward(&self.dense, &self.dropout, &self.layer_norm, hidden_states, input, train)
    }
}

/// Shared body of the two residual-and-normalize sublayers:
/// `LayerNorm(Dropout(Linear(hidden_states)) + input)`.
fn residual_norm_forward(
    dense: &Linear,
    dropout: &Dropout,
    layer_norm: &LayerNorm,
    hidden_states: &Tensor,
    input: &Tensor,
    train: bool,
) -> (r: Result<Tensor, TransformerError>)
    requires
        layer_norm.size == dense.out_features,
    ensures
        r is Ok <==> {
            &&& hidden_states.dims@.len() == 3
            &&& hidden_states.dims@[2] == dense.in_features
            &&& input.dims@ == seq![
                hidden_states.dims@[0],
                hidden_states.dims@[1],
                dense.out_features,
            ]
        },
        r matches Ok(t) ==> t.dims@ == input.dims@ && t.requires_grad,
        r matches Err(e) ==> e is Shape,
{
    let projected = match dense.forward(hidden_states) {
        Ok(t) => t,
        Err(e) => {
            return Err(e);
        },
    };
    let dropped = match dropout.forward_t(&projected, train) {
        Ok(t) => t,
        Err(e) => {
            return Err(e);
        },
    };
    if input.dims.len() != 3 || input.dims[0] != dropped.dims[0] || input.dims[1]
        != dropped.dims[1] || input.dims[2] != dropped.dims[2] {
        return Err(shape_error("residual_add", copy_dims(&dropped.dims), copy_dims(&input.dims)));
    }
    proof {
        assert(input.dims@ =~= dropped.dims@);
    }
    let sum = crate::tensor::residual_add(&dropped, input);
    match layer_norm.forward(&sum) {
        Ok(t) => Ok(t),
        Err(e) => Err(e),
    }
}

/// The parameters of the feed-forward expansion: one projection from the
/// hidden width up to the expansion width.
pub open spec fn intermediate_vars(prefix: Seq<char>, config: BertConfig) -> Seq<VarView> {
    linear_vars(
        spec_sub_path(prefix, "dense"@),
        "weight"@,
        "bias"@,
        config.hidden_size,
        config.intermediate_size,
        config.initializer_range,
    )
}

/// Feed-forward expansion: projection to the expansion width followed by
/// the configured nonlinearity.  No dropout and no residual here; the
/// following output sublayer owns both.
#[derive(Debug)]
pub struct BertIntermediate {
    pub dense: Linear,
    pub activation: Activation,
}

impl BertIntermediate {
    /// Creates the expansion projection; an invalid configuration is
    /// rejected before any parameter is created.
    pub fn new(store: &mut ParameterStore, prefix: &str, config: &BertConfig) -> (r: Result<
        BertIntermediate,
        TransformerError,
    >)
        ensures
            r is Ok <==> config.valid(),
            r matches Ok(o) ==> {
                &&& final(store)@ == old(store)@ + intermediate_vars(prefix@, *config)
                &&& o.dense.in_features == config.hidden_size
                &&& o.dense.out_features == config.intermediate_size
                &&& o.activation == config.hidden_act
            },
            r is Err ==> final(store)@ == old(store)@,
            r matches Err(e) ==> e is Configuration,
    {
        if !config.check() {
            return Err(configuration_error("bert_intermediate"));
        }
        let dense_prefix = sub_path(prefix, "dense");
        let dense = bert_linear(
            store,
            dense_prefix.as_str(),
            config,
            config.hidden_size,
            config.intermediate_size,
        );
        proof {
            assert(final(store)@ =~~= old(store)@ + intermediate_vars(prefix@, *config));
        }
        Ok(BertIntermediate { dense, activation: config.hidden_act })
    }

    /// Projects `[batch, seq_len, hidden]` to
    /// `[batch, seq_len, intermediate]` and applies the nonlinearity
    /// (which changes neither shape nor tape mark).
    pub fn forward(&self, input: &Tensor) -> (r: Result<Tensor, TransformerError>)
        ensures
            r is Ok <==> (input.dims@.len() == 3 && input.dims@[2] == self.dense.in_features),
            r matches Ok(t) ==> {
                &&& t.dims@ == seq![input.dims@[0], input.dims@[1], self.dense.out_features]
                &&& t.requires_grad
            },
            r matches Err(e) ==> e is Shape,
    {
        self.dense.forward(input)
    }
}

/// The parameters of one encoder layer: attention under
/// `attention.self`, its residual-normalize under `attention.output`,
/// the expansion under `intermediate`, and the second residual-normalize
/// under `output`.
pub open spec fn bert_layer_vars(prefix: Seq<char>, config: BertConfig) -> Seq<VarView> {
    attention_vars(spec_sub_path(spec_sub_path(prefix, "attention"@), "self"@), config)
        + residual_norm_vars(
        spec_sub_path(spec_sub_path(prefix, "attention"@), "output"@),
        config.hidden_size,
        config.hidden_size,
        config.initializer_range,
    ) + intermediate_vars(spec_sub_path(prefix, "intermediate"@), config) + residual_norm_vars(
        spec_sub_path(prefix, "output"@),
        config.intermediate_size,
        config.hidden_size,
        config.initializer_range,
    )
}

/// One encoder layer: self-attention, residual-normalize, feed-forward
/// expansion, residual-normalize — in exactly that order.
#[derive(Debug)]
pub struct BertLayer {
    pub attention: BertSelfAttention,
    pub post_attention: BertSelfOutput,
    pub intermediate: BertIntermediate,
    pub output: BertOutput,
}

impl BertLayer {
    /// Hidden width the layer consumes and produces.
    pub open spec fn spec_hidden_size(self) -> usize {
        self.attention.all_head_size
    }

    /// Every real-valued hyperparameter the layer recorded equals the
    /// configured one: the two normalization epsilons, the two
    /// hidden-state dropout probabilities, the attention dropout, and the
    /// expansion nonlinearity.
    pub open spec fn matches_config(self, config: BertConfig) -> bool {
        &&& self.attention.dropout.p == config.attention_probs_dropout_prob
        &&& self.post_attention.layer_norm.eps == config.layer_norm_eps
        &&& self.post_attention.layer_norm.elementwise_affine
        &&& self.post_attention.dropout.p == config.hidden_dropout_prob
        &&& self.intermediate.activation == config.hidden_act
        &&& self.output.layer_norm.eps == config.layer_norm_eps
        &&& self.output.layer_norm.elementwise_affine
        &&& self.output.dropout.p == config.hidden_dropout_prob
    }

    /// All sublayers agree on the hidden and expansion widths.
    pub open spec fn wf(self) -> bool {
        &&& self.attention.wf()
        &&& self.post_attention.wf()
        &&& self.output.wf()
        &&& self.post_attention.dense.in_features == self.spec_hidden_size()
        &&& self.post_attention.dense.out_features == self.spec_hidden_size()
        &&& self.intermediate.dense.in_features == self.spec_hidden_size()
        &&& self.output.dense.in_features == self.intermediate.dense.out_features
        &&& self.output.dense.out_features == self.spec_hidden_size()
    }

    /// Creates all four sublayers; an invalid configuration is rejected
    /// before any parameter is created.
    pub fn new(store: &mut ParameterStore, prefix: &str, config: &BertConfig) -> (r: Result<
        BertLayer,
        TransformerError,
    >)
        ensures
            r is Ok <==> config.valid(),
            r matches Ok(l) ==> {
                &&& final(store)@ == old(store)@ + bert_layer_vars(prefix@, *config)
                &&& l.wf()
                &&& l.spec_hidden_size() == config.hidden_size
                &&& l.attention.num_attention_heads == config.num_attention_heads
                &&& l.matches_config(*config)
            },
            r is Err ==> final(store)@ == old(store)@,
            r matches Err(e) ==> e is Configuration,
    {
        if !config.check() {
            return Err(configuration_error("bert_layer"));
        }
        let attention_prefix = sub_path(prefix, "attention");
        let self_prefix = sub_path(attention_prefix.as_str(), "self");
        let attention = match BertSelfAttention::new(store, self_prefix.as_str(), config) {
            Ok(a) => a,
            Err(e) => {
                return Err(e);
            },
        };
        let post_prefix = sub_path(attention_prefix.as_str(), "output");
        let post_attention = match BertSelfOutput::new(store, post_prefix.as_str(), config) {
            Ok(o) => o,
            Err(e) => {
                return Err(e);
            },
        };
        let intermediate_prefix = sub_path(prefix, "intermediate");
        let intermediate = match BertIntermediate::new(store, intermediate_prefix.as_str(), config) {
            Ok(o) => o,
            Err(e) => {
                return Err(e);
            },
        };
        let output_prefix = sub_path(prefix, "output");
        let output = match BertOutput::new(store, output_prefix.as_str(), config) {
            Ok(o) => o,
            Err(e) => {
                return Err(e);
            },
        };
        proof {
            assert(final(store)@ =~~= old(store)@ + bert_layer_vars(prefix@, *config));
        }
        Ok(BertLayer { attention, post_attention, intermediate, output })
    }

    /// Runs the fixed sublayer sequence over a `[batch, seq_len, hidden]`
    /// input, returning the layer's hidden states and its raw attention
    /// scores.
    pub fn forward_t(
        &self,
        input: &Tensor,
        attention_mask: Option<&LogitsMask>,
        train: bool,
    ) -> (r: Result<LayerOutput, TransformerError>)
        requires
            self.wf(),
            logits_mask_wf(attention_mask),
        ensures
            r is Ok <==> self.attention.accepts(input.dims@, attention_mask),
            r matches Ok(lo) ==> {
                &&& lo is EncoderWithAttention
                &&& lo.spec_output().dims@ == input.dims@
                &&& lo.spec_output().requires_grad
                &&& lo.spec_attention().dims@ == seq![
                    input.dims@[0],
                    self.attention.num_attention_heads,
                    input.dims@[1],
                    input.dims@[1],
                ]
                &&& lo.spec_attention().requires_grad
            },
            r matches Err(e) ==> e is Shape,
    {
        let (attention_output, attention) = match self.attention.forward_t(
            input,
            attention_mask,
            train,
        ) {
            Ok(p) => p,
            Err(e) => {
                return Err(e);
            },
        };
        proof {
            assert(input.dims@ =~= seq![input.dims@[0], input.dims@[1], self.spec_hidden_size()]);
        }
        let post_attention_output = match self.post_attention.forward_t(
            &attention_output,
            input,
            train,
        ) {
            Ok(t) => t,
            Err(e) => {
                return Err(e);
            },
        };
        let intermediate_output = match self.intermediate.forward(&post_attention_output) {
            Ok(t) => t,
            Err(e) => {
                return Err(e);
            },
        };
        proof {
            assert(post_attention_output.dims@ =~= seq![
                input.dims@[0],
                input.dims@[1],
                self.output.dense.out_features,
            ]);
        }
        let output = match self.output.forward_t(&intermediate_output, &post_attention_output, train) {
            Ok(t) => t,
            Err(e) => {
                return Err(e);
            },
        };
        Ok(LayerOutput::EncoderWithAttention(HiddenLayer { output, attention }))
    }
}

/// The parameters of an encoder stack with `n` layers: one
/// [`bert_layer_vars`] namespace per layer, under `layer_0`, `layer_1`,
/// and so on, in layer order.
pub open spec fn bert_encoder_vars(prefix: Seq<char>, config: BertConfig, n: nat) -> Seq<VarView>
    decreases n,
{
    if n == 0 {
        Seq::<VarView>::empty()
    } else {
        bert_encoder_vars(prefix, config, (n - 1) as nat) + bert_layer_vars(
            spec_sub_path(prefix, "layer_"@ + dec_str((n - 1) as nat)),
            config,
        )
    }
}

/// The generic encoder stack: an ordered sequence of encoder layers
/// sharing one configuration, operating directly in the canonical
/// `[batch, seq_len, hidden]` layout.
#[derive(Debug)]
pub struct BertEncoder {
    pub layers: Vec<BertLayer>,
    pub hidden_size: usize,
    pub num_attention_heads: usize,
}

impl BertEncoder {
    /// Every layer is well-formed and agrees with the stack's widths.
    pub open spec fn wf(self) -> bool {
        &&& self.layers@.len() <= MAX_DIM
        &&& forall|i: int|
            0 <= i < self.layers@.len() ==> (#[trigger] self.layers@[i]).wf()
                && self.layers@[i].spec_hidden_size() == self.hidden_size
                && self.layers@[i].attention.num_attention_heads == self.num_attention_heads
    }

    /// Creates `num_hidden_layers` layers under `layer_0`, `layer_1`, …;
    /// an invalid configuration is rejected before any parameter is
    /// created.
    pub fn new(store: &mut ParameterStore, prefix: &str, config: &BertConfig) -> (r: Result<
        BertEncoder,
        TransformerError,
    >)
        ensures
            r is Ok <==> config.valid(),
            r matches Ok(enc) ==> {
                &&& final(store)@ == old(store)@ + bert_encoder_vars(
                    prefix@,
                    *config,
                    config.num_hidden_layers as nat,
                )
                &&& enc.wf()
                &&& enc.layers@.len() == config.num_hidden_layers
                &&& enc.hidden_size == config.hidden_size
                &&& enc.num_attention_heads == config.num_attention_heads
                &&& forall|i: int|
                    0 <= i < enc.layers@.len() ==> (#[trigger] enc.layers@[i]).matches_config(
                        *config,
                    )
            },
            r is Err ==> final(store)@ == old(store)@,
            r matches Err(e) ==> e is Configuration,
    {
        if !config.check() {
            return Err(configuration_error("bert_encoder"));
        }
        let mut layers: Vec<BertLayer> = Vec::new();
        let mut i: usize = 0;
        while i < config.num_hidden_layers
            invariant
                config.valid(),
                i <= config.num_hidden_layers,
                layers@.len() == i,
                forall|j: int|
                    0 <= j < i ==> (#[trigger] layers@[j]).wf() && layers@[j].spec_hidden_size()
                        == config.hidden_size && layers@[j].attention.num_attention_heads
                        == config.num_attention_heads && layers@[j].matches_config(*config),
                store@ == old(store)@ + bert_encoder_vars(prefix@, *config, i as nat),
            decreases config.num_hidden_layers - i,
        {
            let layer_prefix = numbered_sub_path(prefix, "layer_", i as u64);
            let layer = match BertLayer::new(store, layer_prefix.as_str(), config) {
                Ok(l) => l,
                Err(e) => {
                    return Err(e);
                },
            };
            layers.push(layer);
            i = i + 1;
            proof {
                assert(store@ =~~= old(store)@ + bert_encoder_vars(prefix@, *config, i as nat));
            }
        }
        Ok(
            BertEncoder {
                layers,
                hidden_size: config.hidden_size,
                num_attention_heads: config.num_attention_heads,
            },
        )
    }

    /// Runs the stack over a `[batch, seq_len, hidden]` input, converting
    /// a boolean mask into the additive logits mask once, pushing the
    /// input as the embedding trace entry, then running each layer in
    /// order on its predecessor's output.
    pub fn encode(
        &self,
        input: &Tensor,
        attention_mask: Option<&BoolMask>,
        train: bool,
    ) -> (r: Result<Vec<LayerOutput>, TransformerError>)
        requires
            self.wf(),
            bool_mask_wf(attention_mask),
        ensures
            r is Ok <==> {
                &&& input.dims@.len() == 3
                &&& input.dims@[2] == self.hidden_size
                &&& bool_mask_matches(attention_mask, input.dims@[0], input.dims@[1])
            },
            r matches Ok(t) ==> encode_trace_post(
                t@,
                self.layers@.len() as int,
                input.dims@[0],
                input.dims@[1],
                self.hidden_size,
                self.num_attention_heads,
                input.requires_grad,
                true,
                true,
            ),
            r matches Err(e) ==> e is Shape,
    {
        if input.dims.len() != 3 || input.dims[2] != self.hidden_size {
            return Err(shape_error("encode", vec![self.hidden_size], copy_dims(&input.dims)));
        }
        let batch = input.dims[0];
        let seq_len = input.dims[1];
        let logits_mask: Option<LogitsMask> = match attention_mask {
            Some(m) => {
                if m.batch_size() != batch || m.seq_len() != seq_len {
                    return Err(
                        shape_error(
                            "attention_mask",
                            vec![batch, seq_len],
                            vec![m.batch_size(), m.seq_len()],
                        ),
                    );
                }
                Some(LogitsMask::from_bool_mask(m))
            },
            None => None,
        };

        let mut hidden_states = input.shallow_clone();
        let mut all_layer_outputs: Vec<LayerOutput> = Vec::new();
        all_layer_outputs.push(LayerOutput::Embedding(input.shallow_clone()));

        let mut i: usize = 0;
        while i < self.layers.len()
            invariant
                self.wf(),
                i <= self.layers@.len(),
                logits_mask matches Some(m) ==> m.wf() && m.spec_batch_size() == batch
                    && m.spec_seq_len() == seq_len,
                hidden_states.dims@ == seq![batch, seq_len, self.hidden_size],
                all_layer_outputs@.len() == i + 1,
                encode_trace_post(
                    all_layer_outputs@,
                    i as int,
                    batch,
                    seq_len,
                    self.hidden_size,
                    self.num_attention_heads,
                    input.requires_grad,
                    true,
                    true,
                ),
                hidden_states.requires_grad == all_layer_outputs@[i as int].spec_output().requires_grad,
            decreases self.layers@.len() - i,
        {
            let layer_output = match self.layers[i].forward_t(
                &hidden_states,
                logits_mask.as_ref(),
                train,
            ) {
                Ok(lo) => lo,
                Err(e) => {
                    return Err(e);
                },
            };
            hidden_states = layer_output.output().shallow_clone();
            all_layer_outputs.push(layer_output);
            i = i + 1;
        }
        Ok(all_layer_outputs)
    }

    /// Length of the trace [`Self::encode`] returns: the layer count plus
    /// one for the embedding entry.
    pub fn n_layers(&self) -> (r: i64)
        requires
            self.wf(),
        ensures
            r == self.layers@.len() + 1,
    {
        (self.layers.len() as i64) + 1
    }
}

} // verus!
