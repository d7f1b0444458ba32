//! The SqueezeBERT encoder family: the dense projections of the generic
//! layer become grouped pointwise convolutions, and the stack works in the
//! transposed `[batch, hidden_size, seq_len]` layout internally.  The
//! transpose is invisible at the stack boundary: the encoder accepts and
//! returns the canonical `[batch, seq_len, hidden_size]` layout.

use vstd::prelude::*;

use crate::bert::{logits_mask_matches, logits_mask_wf, bool_mask_matches, bool_mask_wf};
use crate::config::{Activation, SqueezeBertConfig, MAX_DIM};
use crate::error::{configuration_error, shape_error, TransformerError};
use crate::layer_output::{encode_trace_post, HiddenLayer, LayerOutput};
use crate::layers::{conv1d_vars, layer_norm_vars, Conv1D, Dropout, LayerNorm};
use crate::store::{dec_str, numbered_sub_path, spec_sub_path, sub_path, ParameterStore, VarView};
use crate::tensor::{
    add_logits_mask, copy_dims, matmul4, permute_021, permute_0132, softmax_last, BoolMask,
    LogitsMask, Tensor,
};

verus! {

/// Splits the channel axis of a `[batch, channels, seq_len]` tensor over
/// the attention heads: `[batch, heads, head_size, seq_len]`.
fn split_channels(t: &Tensor, heads: usize, head_size: usize) -> (r: Tensor)
    requires
        t.dims@.len() == 3,
        t.dims@[1] == heads * head_size,
    ensures
        r.dims@ == seq![t.dims@[0], heads, head_size, t.dims@[2]],
        r.requires_grad == t.requires_grad,
{
    let d0 = t.dims[0];
    let d2 = t.dims[2];
    let r = Tensor { dims: vec![d0, heads, head_size, d2], requires_grad: t.requires_grad };
    proof {
        assert(r.dims@ =~= seq![t.dims@[0], heads, head_size, t.dims@[2]]);
    }
    r
}

/// Fuses the head axes of a `[batch, heads, head_size, seq_len]` tensor
/// back into the channel axis: `[batch, all_head_size, seq_len]`.
fn merge_channels(t: &Tensor, all_head_size: usize) -> (r: Tensor)
    requires
        t.dims@.len() == 4,
        t.dims@[1] * t.dims@[2] == all_head_size,
    ensures
        r.dims@ == seq![t.dims@[0], all_head_size, t.dims@[3]],
        r.requires_grad == t.requires_grad,
{
    let d0 = t.dims[0];
    let d3 = t.dims[3];
    let r = Tensor { dims: vec![d0, all_head_size, d3], requires_grad: t.requires_grad };
    proof {
        assert(r.dims@ =~= seq![t.dims@[0], all_head_size, t.dims@[3]]);
    }
    r
}

/// The parameters of the SqueezeBERT attention block: grouped pointwise
/// convolutions for the query, key and value projections.
pub open spec fn squeeze_attention_vars(prefix: Seq<char>, config: SqueezeBertConfig) -> Seq<
    VarView,
> {
    conv1d_vars(
        spec_sub_path(prefix, "query"@),
        config.hidden_size,
        config.hidden_size,
        config.q_groups,
        config.initializer_range,
    ) + conv1d_vars(
        spec_sub_path(prefix, "key"@),
        config.hidden_size,
        config.hidden_size,
        config.k_groups,
        config.initializer_range,
    ) + conv1d_vars(
        spec_sub_path(prefix, "value"@),
        config.hidden_size,
        config.hidden_size,
        config.v_groups,
        config.initializer_range,
    )
}

/// Scaled dot-product multi-head self-attention over the
/// `[batch, channels, seq_len]` layout.
#[derive(Debug)]
pub struct SqueezeBertSelfAttention {
    pub all_head_size: usize,
    pub attention_head_size: usize,
    pub num_attention_heads: usize,
    pub dropout: Dropout,
    pub query: Conv1D,
    pub key: Conv1D,
    pub value: Conv1D,
}

impl SqueezeBertSelfAttention {
    /// The head bookkeeping is consistent and the three projections map
    /// the channel width onto itself.
    pub open spec fn wf(self) -> bool {
        &&& 0 < self.num_attention_heads
        &&& self.num_attention_heads * self.attention_head_size == self.all_head_size
        &&& 0 < self.all_head_size <= MAX_DIM
        &&& self.query.in_channels == self.all_head_size
        &&& self.query.out_channels == self.all_head_size
        &&& self.key.in_channels == self.all_head_size
        &&& self.key.out_channels == self.all_head_size
        &&& self.value.in_channels == self.all_head_size
        &&& self.value.out_channels == self.all_head_size
    }

    /// The block accepts a `[batch, hidden, seq_len]` input and a mask
    /// matching its batch and sequence length.
    pub open spec fn accepts(self, dims: Seq<usize>, mask: Option<&LogitsMask>) -> bool {
        &&& dims.len() == 3
        &&& dims[1] == self.all_head_size
        &&& logits_mask_matches(mask, dims[0], dims[2])
    }

    /// Creates the query, key and value convolutions; an invalid
    /// configuration is rejected before any parameter is created.
    pub fn new(store: &mut ParameterStore, prefix: &str, config: &SqueezeBertConfig) -> (r: Result<
        SqueezeBertSelfAttention,
        TransformerError,
    >)
        ensures
            r is Ok <==> config.valid(),
            r matches Ok(a) ==> {
                &&& final(store)@ == old(store)@ + squeeze_attention_vars(prefix@, *config)
                &&& a.wf()
                &&& a.num_attention_heads == config.num_attention_heads
                &&& a.all_head_size == config.hidden_size
                &&& a.dropout.p == config.attention_probs_dropout_prob
                &&& a.query.groups == config.q_groups
                &&& a.key.groups == config.k_groups
                &&& a.value.groups == config.v_groups
            },
            r is Err ==> final(store)@ == old(store)@,
            r matches Err(e) ==> e is Configuration,
    {
        if !config.check() {
            return Err(configuration_error("squeeze_bert_self_attention"));
        }
        let bert_config = config.to_bert();
        let attention_head_size = bert_config.attention_head_size();
        let all_head_size = config.num_attention_heads * attention_head_size;

        let query_prefix = sub_path(prefix, "query");
        let query = Conv1D::new(
            store,
            query_prefix.as_str(),
            config.hidden_size,
            config.hidden_size,
            config.q_groups,
            config.initializer_range,
        );
        let key_prefix = sub_path(prefix, "key");
        let key = Conv1D::new(
            store,
            key_prefix.as_str(),
            config.hidden_size,
            config.hidden_size,
            config.k_groups,
            config.initializer_range,
        );
        let value_prefix = sub_path(prefix, "value");
        let value = Conv1D::new(
            store,
            value_prefix.as_str(),
            config.hidden_size,
            config.hidden_size,
            config.v_groups,
            config.initializer_range,
        );
        proof {
            assert(final(store)@ =~~= old(store)@ + squeeze_attention_vars(prefix@, *config));
        }
        Ok(
            SqueezeBertSelfAttention {
                all_head_size,
                attention_head_size,
                num_attention_heads: config.num_attention_heads,
                dropout: Dropout::new(config.attention_probs_dropout_prob),
                query,
                key,
                value,
            },
        )
    }

    /// Applies self-attention in the channel layout, returning the
    /// contextualized representations (`[batch, hidden, seq_len]`) and the
    /// raw attention scores (`[batch, heads, seq_len, seq_len]`).
    pub fn forward_t(
        &self,
        hidden_states: &Tensor,
        attention_mask: Option<&LogitsMask>,
        train: bool,
    ) -> (r: Result<(Tensor, Tensor), TransformerError>)
        requires
            self.wf(),
            logits_mask_wf(attention_mask),
        ensures
            r is Ok <==> self.accepts(hidden_states.dims@, attention_mask),
            r matches Ok(p) ==> {
                &&& p.0.dims@ == seq![hidden_states.dims@[0], self.all_head_size, hidden_states.dims@[2]]
                &&& p.0.requires_grad
                &&& p.1.dims@ == seq![
                    hidden_states.dims@[0],
                    self.num_attention_heads,
                    hidden_states.dims@[2],
                    hidden_states.dims@[2],
                ]
                &&& p.1.requires_grad
            },
            r matches Err(e) ==> e is Shape,
    {
        let mixed_query_layer = match self.query.forward(hidden_states) {
            Ok(t) => t,
            Err(e) => {
                return Err(e);
            },
        };
        let batch = hidden_states.dims[0];
        let seq_len = hidden_states.dims[2];
        if let Some(m) = attention_mask {
            if m.batch_size() != batch || m.seq_len() != seq_len {
                return Err(
                    shape_error(
                        "attention_mask",
                        vec![batch, seq_len],
                        vec![m.batch_size(), m.seq_len()],
                    ),
                );
            }
        }
        let mixed_key_layer = match self.key.forward(hidden_states) {
            Ok(t) => t,
            Err(e) => {
                return Err(e);
            },
        };
        let mixed_value_layer = match self.value.forward(hidden_states) {
            Ok(t) => t,
            Err(e) => {
                return Err(e);
            },
        };

        let query_layer = split_channels(
            &mixed_query_layer,
            self.num_attention_heads,
            self.attention_head_size,
        );
        let key_layer = split_channels(
            &mixed_key_layer,
            self.num_attention_heads,
            self.attention_head_size,
        );
        let value_layer = split_channels(
            &mixed_value_layer,
            self.num_attention_heads,
            self.attention_head_size,
        );

        // Raw scores: transposed query times key, scaled by the inverse
        // square root of the head size.
        let query_layer_t = permute_0132(&query_layer);
        let mut attention_scores = matmul4(&query_layer_t, &key_layer);

        if let Some(mask) = attention_mask {
            attention_scores = add_logits_mask(&attention_scores, mask);
        }

        // Normalize each score row into a probability distribution, then
        // drop out entire tokens to attend to.
        let attention_probs = softmax_last(&attention_scores);
        let attention_probs = match self.dropout.forward_t(&attention_probs, train) {
            Ok(t) => t,
            Err(e) => {
                return Err(e);
            },
        };

        // Context in channel layout: value times transposed probabilities.
        let probs_t = permute_0132(&attention_probs);
        let context_layer = matmul4(&value_layer, &probs_t);
        let context_layer = merge_channels(&context_layer, self.all_head_size);

        Ok((context_layer, attention_scores))
    }
}

/// The parameters of a convolution-dropout-normalize sublayer: the
/// convolution under `conv1d`, the normalization under `layer_norm`.
pub open spec fn cdln_vars(
    prefix: Seq<char>,
    in_channels: usize,
    out_channels: usize,
    groups: usize,
    stdev: u64,
) -> Seq<VarView> {
    conv1d_vars(spec_sub_path(prefix, "conv1d"@), in_channels, out_channels, groups, stdev)
        + layer_norm_vars(spec_sub_path(prefix, "layer_norm"@), out_channels)
}

/// Residual-and-normalize sublayer of the SqueezeBERT family:
/// `LayerNorm(Dropout(Conv1D(x)) + residual)`, normalizing the channel
/// axis.
#[derive(Debug)]
pub struct ConvDropoutLayerNorm {
    pub conv1d: Conv1D,
    pub layer_norm: LayerNorm,
    pub dropout: Dropout,
}

impl ConvDropoutLayerNorm {
    /// The normalization covers the convolution's output channels.
    pub open spec fn wf(self) -> bool {
        self.layer_norm.size == self.conv1d.out_channels
    }

    /// Creates the convolution and normalization parameters.
    pub fn new(
        store: &mut ParameterStore,
        prefix: &str,
        in_channels: usize,
        out_channels: usize,
        groups: usize,
        stdev: u64,
        eps: u64,
        dropout_prob: u64,
    ) -> (r: ConvDropoutLayerNorm)
        requires
            crate::config::groups_divide(in_channels, out_channels, groups),
            dropout_prob <= crate::config::FIXED_ONE,
        ensures
            final(store)@ == old(store)@ + cdln_vars(prefix@, in_channels, out_channels, groups, stdev),
            r.wf(),
            r.conv1d.in_channels == in_channels,
            r.conv1d.out_channels == out_channels,
            r.conv1d.groups == groups,
            r.layer_norm.eps == eps,
            r.layer_norm.elementwise_affine,
            r.dropout.p == dropout_prob,
    {
        let conv_prefix = sub_path(prefix, "conv1d");
        let conv1d = Conv1D::new(store, conv_prefix.as_str(), in_channels, out_channels, groups, stdev);
        let ln_prefix = sub_path(prefix, "layer_norm");
        let layer_norm = LayerNorm::new(store, ln_prefix.as_str(), out_channels, eps, true);
        proof {
            assert(final(store)@ =~~= old(store)@ + cdln_vars(
                prefix@,
                in_channels,
                out_channels,
                groups,
                stdev,
            ));
        }
        ConvDropoutLayerNorm { conv1d, layer_norm, dropout: Dropout::new(dropout_prob) }
    }

    /// Convolves `hidden_states`, applies dropout, adds the residual
    /// `input`, and normalizes the channel axis.  The result has the
    /// shape of the residual.
    pub fn forward_t(&self, hidden_states: &Tensor, input: &Tensor, train: bool) -> (r: Result<
        Tensor,
        TransformerError,
    >)
        requires
            self.wf(),
        ensures
            r is Ok <==> {
                &&& hidden_states.dims@.len() == 3
                &&& hidden_states.dims@[1] == self.conv1d.in_channels
                &&& input.dims@ == seq![
                    hidden_states.dims@[0],
                    self.conv1d.out_channels,
                    hidden_states.dims@[2],
                ]
            },
            r matches Ok(t) ==> t.dims@ == input.dims@ && t.requires_grad,
            r matches Err(e) ==> e is Shape,
    {
        let convolved = match self.conv1d.forward(hidden_states) {
            Ok(t) => t,
            Err(e) => {
                return Err(e);
            },
        };
        let dropped = match self.dropout.forward_t(&convolved, train) {
            Ok(t) => t,
            Err(e) => {
                return Err(e);
            },
        };
        if input.dims.len() != 3 || input.dims[0] != dropped.dims[0] || input.dims[1]
            != dropped.dims[1] || input.dims[2] != dropped.dims[2] {
            return Err(
                shape_error("residual_add", copy_dims(&dropped.dims), copy_dims(&input.dims)),
            );
        }
        proof {
            assert(input.dims@ =~= dropped.dims@);
        }
        let sum = crate::tensor::residual_add(&dropped, input);
        match self.layer_norm.forward_channels(&sum) {
            Ok(t) => Ok(t),
            Err(e) => Err(e),
        }
    }
}

/// The parameters of the feed-forward expansion of the SqueezeBERT
/// family: one grouped convolution under `conv1d`.
pub open spec fn conv_activation_vars(
    prefix: Seq<char>,
    in_channels: usize,
    out_channels: usize,
    groups: usize,
    stdev: u64,
) -> Seq<VarView> {
    conv1d_vars(spec_sub_path(prefix, "conv1d"@), in_channels, out_channels, groups, stdev)
}

/// Feed-forward expansion of the SqueezeBERT family: grouped convolution
/// followed by the configured nonlinearity.
#[derive(Debug)]
pub struct ConvActivation {
    pub conv1d: Conv1D,
    pub activation: Activation,
}

impl ConvActivation {
    /// Creates the expansion convolution.
    pub fn new(
        store: &mut ParameterStore,
        prefix: &str,
        in_channels: usize,
        out_channels: usize,
        groups: usize,
        stdev: u64,
        activation: Activation,
    ) -> (r: ConvActivation)
        requires
            crate::config::groups_divide(in_channels, out_channels, groups),
        ensures
            final(store)@ == old(store)@ + conv_activation_vars(
                prefix@,
                in_channels,
                out_channels,
                groups,
                stdev,
            ),
            r.conv1d.in_channels == in_channels,
            r.conv1d.out_channels == out_channels,
            r.conv1d.groups == groups,
            r.activation == activation,
    {
        let conv_prefix = sub_path(prefix, "conv1d");
        let conv1d = Conv1D::new(store, conv_prefix.as_str(), in_channels, out_channels, groups, stdev);
        proof {
            assert(final(store)@ =~~= old(store)@ + conv_activation_vars(
                prefix@,
                in_channels,
                out_channels,
                groups,
                stdev,
            ));
        }
        ConvActivation { conv1d, activation }
    }

    /// Convolves `[batch, cin, seq_len]` to `[batch, cout, seq_len]` and
    /// applies the nonlinearity.
    pub fn forward(&self, input: &Tensor) -> (r: Result<Tensor, TransformerError>)
        ensures
            r is Ok <==> (input.dims@.len() == 3 && input.dims@[1] == self.conv1d.in_channels),
            r matches Ok(t) ==> {
                &&& t.dims@ == seq![input.dims@[0], self.conv1d.out_channels, input.dims@[2]]
                &&& t.requires_grad
            },
            r matches Err(e) ==> e is Shape,
    {
        self.conv1d.forward(input)
    }
}

/// The parameters of one SqueezeBERT layer: attention under `attention`,
/// its residual-normalize under `post_attention`, the expansion under
/// `intermediate`, and the second residual-normalize under `output`.
pub open spec fn squeeze_layer_vars(prefix: Seq<char>, config: SqueezeBertConfig) -> Seq<VarView> {
    squeeze_attention_vars(spec_sub_path(prefix, "attention"@), config) + cdln_vars(
        spec_sub_path(prefix, "post_attention"@),
        config.hidden_size,
        config.hidden_size,
        config.post_attention_groups,
        config.initializer_range,
    ) + conv_activation_vars(
        spec_sub_path(prefix, "intermediate"@),
        config.hidden_size,
        config.intermediate_size,
        config.intermediate_groups,
        config.initializer_range,
    ) + cdln_vars(
        spec_sub_path(prefix, "output"@),
        config.intermediate_size,
        config.hidden_size,
        config.output_groups,
        config.initializer_range,
    )
}

/// One SqueezeBERT layer in the channel layout: attention,
/// residual-normalize, expansion, residual-normalize — in exactly that
/// order.
#[derive(Debug)]
pub struct SqueezeBertLayer {
    pub attention: SqueezeBertSelfAttention,
    pub post_attention: ConvDropoutLayerNorm,
    pub intermediate: ConvActivation,
    pub output: ConvDropoutLayerNorm,
}

impl SqueezeBertLayer {
    /// Channel width the layer consumes and produces.
    pub open spec fn spec_hidden_size(self) -> usize {
        self.attention.all_head_size
    }

    /// Every real-valued hyperparameter the layer recorded equals the
    /// configured one: the normalization epsilons, the dropout
    /// probabilities, the expansion nonlinearity, and the convolution
    /// group counts.
    pub open spec fn matches_config(self, config: SqueezeBertConfig) -> bool {
        &&& self.attention.dropout.p == config.attention_probs_dropout_prob
        &&& self.attention.query.groups == config.q_groups
        &&& self.attention.key.groups == config.k_groups
        &&& self.attention.value.groups == config.v_groups
        &&& self.post_attention.layer_norm.eps == config.layer_norm_eps
        &&& self.post_attention.layer_norm.elementwise_affine
        &&& self.post_attention.dropout.p == config.hidden_dropout_prob
        &&& self.post_attention.conv1d.groups == config.post_attention_groups
        &&& self.intermediate.activation == config.hidden_act
        &&& self.intermediate.conv1d.groups == config.intermediate_groups
        &&& self.output.layer_norm.eps == config.layer_norm_eps
        &&& self.output.layer_norm.elementwise_affine
        &&& self.output.dropout.p == config.hidden_dropout_prob
        &&& self.output.conv1d.groups == config.output_groups
    }

    /// All sublayers agree on the channel and expansion widths.
    pub open spec fn wf(self) -> bool {
        &&& self.attention.wf()
        &&& self.post_attention.wf()
        &&& self.output.wf()
        &&& self.post_attention.conv1d.in_channels == self.spec_hidden_size()
        &&& self.post_attention.conv1d.out_channels == self.spec_hidden_size()
        &&& self.intermediate.conv1d.in_channels == self.spec_hidden_size()
        &&& self.output.conv1d.in_channels == self.intermediate.conv1d.out_channels
        &&& self.output.conv1d.out_channels == self.spec_hidden_size()
    }

    /// Creates all four sublayers; an invalid configuration is rejected
    /// before any parameter is created.
    pub fn new(store: &mut ParameterStore, prefix: &str, config: &SqueezeBertConfig) -> (r: Result<
        SqueezeBertLayer,
        TransformerError,
    >)
        ensures
            r is Ok <==> config.valid(),
            r matches Ok(l) ==> {
                &&& final(store)@ == old(store)@ + squeeze_layer_vars(prefix@, *config)
                &&& l.wf()
                &&& l.spec_hidden_size() == config.hidden_size
                &&& l.attention.num_attention_heads == config.num_attention_heads
                &&& l.matches_config(*config)
            },
            r is Err ==> final(store)@ == old(store)@,
            r matches Err(e) ==> e is Configuration,
    {
        if !config.check() {
            return Err(configuration_error("squeeze_bert_layer"));
        }
        let attention_prefix = sub_path(prefix, "attention");
        let attention = match SqueezeBertSelfAttention::new(store, attention_prefix.as_str(), config) {
            Ok(a) => a,
            Err(e) => {
                return Err(e);
            },
        };
        let post_prefix = sub_path(prefix, "post_attention");
        let post_attention = ConvDropoutLayerNorm::new(
            store,
            post_prefix.as_str(),
            config.hidden_size,
            config.hidden_size,
            config.post_attention_groups,
            config.initializer_range,
            config.layer_norm_eps,
            config.hidden_dropout_prob,
        );
        let intermediate_prefix = sub_path(prefix, "intermediate");
        let intermediate = ConvActivation::new(
            store,
            intermediate_prefix.as_str(),
            config.hidden_size,
            config.intermediate_size,
            config.intermediate_groups,
            config.initializer_range,
            config.hidden_act,
        );
        let output_prefix = sub_path(prefix, "output");
        let output = ConvDropoutLayerNorm::new(
            store,
            output_prefix.as_str(),
            config.intermediate_size,
            config.hidden_size,
            config.output_groups,
            config.initializer_range,
            config.layer_norm_eps,
            config.hidden_dropout_prob,
        );
        proof {
            assert(final(store)@ =~~= old(store)@ + squeeze_layer_vars(prefix@, *config));
        }
        Ok(SqueezeBertLayer { attention, post_attention, intermediate, output })
    }

    /// Runs the fixed sublayer sequence over a `[batch, hidden, seq_len]`
    /// input, returning the layer's hidden states (same layout) and its
    /// raw attention scores.
    pub fn forward_t(
        &self,
        input: &Tensor,
        attention_mask: Option<&LogitsMask>,
        train: bool,
    ) -> (r: Result<LayerOutput, TransformerError>)
        requires
            self.wf(),
            logits_mask_wf(attention_mask),
        ensures
            r is Ok <==> self.attention.accepts(input.dims@, attention_mask),
            r matches Ok(lo) ==> {
                &&& lo is EncoderWithAttention
                &&& lo.spec_output().dims@ == input.dims@
                &&& lo.spec_output().requires_grad
                &&& lo.spec_attention().dims@ == seq![
                    input.dims@[0],
                    self.attention.num_attention_heads,
                    input.dims@[2],
                    input.dims@[2],
                ]
                &&& lo.spec_attention().requires_grad
            },
            r matches Err(e) ==> e is Shape,
    {
        let (attention_output, attention) = match self.attention.forward_t(
            input,
            attention_mask,
            train,
        ) {
            Ok(p) => p,
            Err(e) => {
                return Err(e);
            },
        };
        proof {
            assert(input.dims@ =~= seq![input.dims@[0], self.spec_hidden_size(), input.dims@[2]]);
        }
        let post_attention_output = match self.post_attention.forward_t(
            &attention_output,
            input,
            train,
        ) {
            Ok(t) => t,
            Err(e) => {
                return Err(e);
            },
        };
        let intermediate_output = match self.intermediate.forward(&post_attention_output) {
            Ok(t) => t,
            Err(e) => {
                return Err(e);
            },
        };
        proof {
            assert(post_attention_output.dims@ =~= seq![
                input.dims@[0],
                self.output.conv1d.out_channels,
                input.dims@[2],
            ]);
        }
        let output = match self.output.forward_t(&intermediate_output, &post_attention_output, train) {
            Ok(t) => t,
            Err(e) => {
                return Err(e);
            },
        };
        Ok(LayerOutput::EncoderWithAttention(HiddenLayer { output, attention }))
    }
}

/// The parameters of a SqueezeBERT encoder with `n` layers: one
/// [`squeeze_layer_vars`] namespace per layer, under `layer_0`,
/// `layer_1`, and so on, in layer order.
pub open spec fn squeeze_encoder_vars(prefix: Seq<char>, config: SqueezeBertConfig, n: nat) -> Seq<
    VarView,
>
    decreases n,
{
    if n == 0 {
        Seq::<VarView>::empty()
    } else {
        squeeze_encoder_vars(prefix, config, (n - 1) as nat) + squeeze_layer_vars(
            spec_sub_path(prefix, "layer_"@ + dec_str((n - 1) as nat)),
            config,
        )
    }
}

/// SqueezeBERT encoder.
///
/// Even though the family uses the `[batch, hidden_size, seq_len]` layout
/// internally, the encoder accepts and returns the regular
/// `[batch, seq_len, hidden_size]` layout.
#[derive(Debug)]
pub struct SqueezeBertEncoder {
    pub layers: Vec<SqueezeBertLayer>,
    pub hidden_size: usize,
    pub num_attention_heads: usize,
}

impl SqueezeBertEncoder {
    /// Every layer is well-formed and agrees with the stack's widths.
    pub open spec fn wf(self) -> bool {
        &&& self.layers@.len() <= MAX_DIM
        &&& forall|i: int|
            0 <= i < self.layers@.len() ==> (#[trigger] self.layers@[i]).wf()
                && self.layers@[i].spec_hidden_size() == self.hidden_size
                && self.layers@[i].attention.num_attention_heads == self.num_attention_heads
    }

    /// Creates `num_hidden_layers` layers under `layer_0`, `layer_1`, …;
    /// an invalid configuration is rejected before any parameter is
    /// created.
    pub fn new(store: &mut ParameterStore, prefix: &str, config: &SqueezeBertConfig) -> (r: Result<
        SqueezeBertEncoder,
        TransformerError,
    >)
        ensures
            r is Ok <==> config.valid(),
            r matches Ok(enc) ==> {
                &&& final(store)@ == old(store)@ + squeeze_encoder_vars(
                    prefix@,
                    *config,
                    config.num_hidden_layers as nat,
                )
                &&& enc.wf()
                &&& enc.layers@.len() == config.num_hidden_layers
                &&& enc.hidden_size == config.hidden_size
                &&& enc.num_attention_heads == config.num_attention_heads
                &&& forall|i: int|
                    0 <= i < enc.layers@.len() ==> (#[trigger] enc.layers@[i]).matches_config(
                        *config,
                    )
            },
            r is Err ==> final(store)@ == old(store)@,
            r matches Err(e) ==> e is Configuration,
    {
        if !config.check() {
            return Err(configuration_error("squeeze_bert_encoder"));
        }
        let mut layers: Vec<SqueezeBertLayer> = Vec::new();
        let mut i: usize = 0;
        while i < config.num_hidden_layers
            invariant
                config.valid(),
                i <= config.num_hidden_layers,
                layers@.len() == i,
                forall|j: int|
                    0 <= j < i ==> (#[trigger] layers@[j]).wf() && layers@[j].spec_hidden_size()
                        == config.hidden_size && layers@[j].attention.num_attention_heads
                        == config.num_attention_heads && layers@[j].matches_config(*config),
                store@ == old(store)@ + squeeze_encoder_vars(prefix@, *config, i as nat),
            decreases config.num_hidden_layers - i,
        {
            let layer_prefix = numbered_sub_path(prefix, "layer_", i as u64);
            let layer = match SqueezeBertLayer::new(store, layer_prefix.as_str(), config) {
                Ok(l) => l,
                Err(e) => {
                    return Err(e);
                },
            };
            layers.push(layer);
            i = i + 1;
            proof {
                assert(store@ =~~= old(store)@ + squeeze_encoder_vars(prefix@, *config, i as nat));
            }
        }
        Ok(
            SqueezeBertEncoder {
                layers,
                hidden_size: config.hidden_size,
                num_attention_heads: config.num_attention_heads,
            },
        )
    }

    /// Runs the stack over a `[batch, seq_len, hidden]` input: converts
    /// the boolean mask once, transposes into the internal
    /// `[batch, hidden, seq_len]` layout, pushes the transposed input as
    /// the embedding trace entry, runs each layer in order, and converts
    /// every collected hidden state back to the canonical layout before
    /// returning.
    pub fn encode(
        &self,
        input: &Tensor,
        attention_mask: Option<&BoolMask>,
        train: bool,
    ) -> (r: Result<Vec<LayerOutput>, TransformerError>)
        requires
            self.wf(),
            bool_mask_wf(attention_mask),
        ensures
            r is Ok <==> {
                &&& input.dims@.len() == 3
                &&& input.dims@[2] == self.hidden_size
                &&& bool_mask_matches(attention_mask, input.dims@[0], input.dims@[1])
            },
            r matches Ok(t) ==> encode_trace_post(
                t@,
                self.layers@.len() as int,
                input.dims@[0],
                input.dims@[1],
                self.hidden_size,
                self.num_attention_heads,
                input.requires_grad,
                true,
                true,
            ),
            r matches Err(e) ==> e is Shape,
    {
        if input.dims.len() != 3 || input.dims[2] != self.hidden_size {
            return Err(shape_error("encode", vec![self.hidden_size], copy_dims(&input.dims)));
        }
        let batch = input.dims[0];
        let seq_len = input.dims[1];
        let logits_mask: Option<LogitsMask> = match attention_mask {
            Some(m) => {
                if m.batch_size() != batch || m.seq_len() != seq_len {
                    return Err(
                        shape_error(
                            "attention_mask",
                            vec![batch, seq_len],
                            vec![m.batch_size(), m.seq_len()],
                        ),
                    );
                }
                Some(LogitsMask::from_bool_mask(m))
            },
            None => None,
        };

        // [batch, seq_len, hidden] -> [batch, hidden, seq_len]
        let mut hidden_states = permute_021(input);

        let mut all_layer_outputs: Vec<LayerOutput> = Vec::new();
        all_layer_outputs.push(LayerOutput::Embedding(hidden_states.shallow_clone()));

        let mut i: usize = 0;
        while i < self.layers.len()
            invariant
                self.wf(),
                i <= self.layers@.len(),
                logits_mask matches Some(m) ==> m.wf() && m.spec_batch_size() == batch
                    && m.spec_seq_len() == seq_len,
                hidden_states.dims@ == seq![batch, self.hidden_size, seq_len],
                all_layer_outputs@.len() == i + 1,
                all_layer_outputs@[0] is Embedding,
                all_layer_outputs@[0].spec_output().dims@ == seq![batch, self.hidden_size, seq_len],
                all_layer_outputs@[0].spec_output().requires_grad == input.requires_grad,
                forall|j: int|
                    1 <= j <= i ==> (#[trigger] all_layer_outputs@[j]) is EncoderWithAttention,
                forall|j: int|
                    1 <= j <= i ==> (#[trigger] all_layer_outputs@[j]).spec_output().dims@ == seq![
                        batch,
                        self.hidden_size,
                        seq_len,
                    ],
                forall|j: int|
                    1 <= j <= i ==> (#[trigger] all_layer_outputs@[j]).spec_output().requires_grad,
                forall|j: int|
                    1 <= j <= i ==> (#[trigger] all_layer_outputs@[j]).spec_attention().dims@
                        == seq![batch, self.num_attention_heads, seq_len, seq_len],
                forall|j: int|
                    1 <= j <= i ==> (#[trigger] all_layer_outputs@[j]).spec_attention().requires_grad,
                hidden_states.requires_grad == all_layer_outputs@[
                    i as int
                ].spec_output().requires_grad,
            decreases self.layers@.len() - i,
        {
            let layer_output = match self.layers[i].forward_t(
                &hidden_states,
                logits_mask.as_ref(),
                train,
            ) {
                Ok(lo) => lo,
                Err(e) => {
                    return Err(e);
                },
            };
            hidden_states = layer_output.output().shallow_clone();
            all_layer_outputs.push(layer_output);
            i = i + 1;
        }

        // Convert every hidden state back to [batch, seq_len, hidden].
        let mut j: usize = 0;
        while j < all_layer_outputs.len()
            invariant
                all_layer_outputs@.len() == self.layers@.len() + 1,
                self.layers@.len() <= MAX_DIM,
                j <= all_layer_outputs@.len(),
                all_layer_outputs@[0] is Embedding,
                forall|k: int|
                    1 <= k < all_layer_outputs@.len() ==> (#[trigger] all_layer_outputs@[k])
                        is EncoderWithAttention,
                forall|k: int|
                    0 <= k < j ==> (#[trigger] all_layer_outputs@[k]).spec_output().dims@ == seq![
                        batch,
                        seq_len,
                        self.hidden_size,
                    ],
                forall|k: int|
                    j <= k < all_layer_outputs@.len() ==> (
                    #[trigger] all_layer_outputs@[k]).spec_output().dims@ == seq![
                        batch,
                        self.hidden_size,
                        seq_len,
                    ],
                all_layer_outputs@[0].spec_output().requires_grad == input.requires_grad,
                forall|k: int|
                    1 <= k < all_layer_outputs@.len() ==> (
                    #[trigger] all_layer_outputs@[k]).spec_output().requires_grad,
                forall|k: int|
                    1 <= k < all_layer_outputs@.len() ==> (
                    #[trigger] all_layer_outputs@[k]).spec_attention().dims@ == seq![
                        batch,
                        self.num_attention_heads,
                        seq_len,
                        seq_len,
                    ],
                forall|k: int|
                    1 <= k < all_layer_outputs@.len() ==> (
                    #[trigger] all_layer_outputs@[k]).spec_attention().requires_grad,
            decreases all_layer_outputs@.len() - j,
        {
            let converted = permute_021(all_layer_outputs[j].output());
            all_layer_outputs[j].set_output(converted);
            j = j + 1;
        }
        Ok(all_layer_outputs)
    }

    /// Length of the trace [`Self::encode`] returns: the layer count plus
    /// one for the embedding entry.
    pub fn n_layers(&self) -> (r: i64)
        requires
            self.wf(),
        ensures
            r == self.layers@.len() + 1,
    {
        (self.layers.len() as i64) + 1
    }
}

} // verus!
