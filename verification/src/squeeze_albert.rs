//! The SqueezeALBERT encoder family: SqueezeBERT layers (grouped
//! pointwise convolutions, internal `[batch, hidden, seq_len]` layout)
//! combined with ALBERT-style parameter sharing across layer groups and
//! an embedding width projected up to the hidden width by the encoder.

use vstd::prelude::*;

use crate::albert::lemma_group_index_in_range;
use crate::bert::{bool_mask_matches, bool_mask_wf};
use crate::config::{SqueezeAlbertConfig, MAX_DIM};
use crate::error::{configuration_error, shape_error, TransformerError};
use crate::layer_output::{encode_trace_post, LayerOutput};
use crate::layers::{bert_linear, linear_vars, Linear};
use crate::squeeze_bert::{squeeze_layer_vars, SqueezeBertLayer};
use crate::store::{dec_str, numbered_sub_path, spec_sub_path, sub_path, ParameterStore, VarView};
use crate::tensor::{copy_dims, permute_021, BoolMask, LogitsMask, Tensor};

verus! {

/// The parameters of `n` shared SqueezeBERT layer groups, under
/// `group_0`, `group_1`, and so on, in group order.
pub open spec fn squeeze_group_vars(
    prefix: Seq<char>,
    config: crate::config::SqueezeBertConfig,
    n: nat,
) -> Seq<VarView>
    decreases n,
{
    if n == 0 {
        Seq::<VarView>::empty()
    } else {
        squeeze_group_vars(prefix, config, (n - 1) as nat) + squeeze_layer_vars(
            spec_sub_path(prefix, "group_"@ + dec_str((n - 1) as nat)),
            config,
        )
    }
}

/// The parameters of the whole SqueezeALBERT encoder: the embedding
/// projection under `embedding_projection`, followed by the shared layer
/// groups.
pub open spec fn squeeze_albert_encoder_vars(prefix: Seq<char>, config: SqueezeAlbertConfig) -> Seq<
    VarView,
> {
    linear_vars(
        spec_sub_path(prefix, "embedding_projection"@),
        "weight"@,
        "bias"@,
        config.embedding_size,
        config.hidden_size,
        config.initializer_range,
    ) + squeeze_group_vars(
        prefix,
        config.derived_squeeze_bert(),
        config.num_hidden_groups as nat,
    )
}

/// SqueezeALBERT encoder: `num_hidden_layers` iterations over
/// `num_hidden_groups` parameter-sharing SqueezeBERT layer groups.  Like
/// the SqueezeBERT stack it works in the `[batch, hidden, seq_len]`
/// layout internally and accepts and returns the canonical layout.
#[derive(Debug)]
pub struct SqueezeAlbertEncoder {
    pub projection: Linear,
    pub groups: Vec<SqueezeBertLayer>,
    pub num_hidden_layers: usize,
    pub layers_per_group: usize,
    pub hidden_size: usize,
    pub num_attention_heads: usize,
}

impl SqueezeAlbertEncoder {
    /// The groups partition the layers evenly and every group agrees with
    /// the stack's widths.
    pub open spec fn wf(self) -> bool {
        &&& self.num_hidden_layers <= MAX_DIM
        &&& self.groups@.len() <= MAX_DIM
        &&& self.groups@.len() * self.layers_per_group == self.num_hidden_layers
        &&& self.projection.out_features == self.hidden_size
        &&& forall|i: int|
            0 <= i < self.groups@.len() ==> (#[trigger] self.groups@[i]).wf()
                && self.groups@[i].spec_hidden_size() == self.hidden_size
                && self.groups@[i].attention.num_attention_heads == self.num_attention_heads
    }

    /// Creates the embedding projection and `num_hidden_groups` shared
    /// layer groups; an invalid configuration is rejected before any
    /// parameter is created.
    pub fn new(store: &mut ParameterStore, prefix: &str, config: &SqueezeAlbertConfig) -> (r:
        Result<SqueezeAlbertEncoder, TransformerError>)
        ensures
            r is Ok <==> config.valid(),
            r matches Ok(enc) ==> {
                &&& final(store)@ == old(store)@ + squeeze_albert_encoder_vars(prefix@, *config)
                &&& enc.wf()
                &&& enc.num_hidden_layers == config.num_hidden_layers
                &&& enc.projection.in_features == config.embedding_size
                &&& enc.hidden_size == config.hidden_size
                &&& enc.num_attention_heads == config.num_attention_heads
                &&& forall|i: int|
                    0 <= i < enc.groups@.len() ==> (#[trigger] enc.groups@[i]).matches_config(
                        config.derived_squeeze_bert(),
                    )
            },
            r is Err ==> final(store)@ == old(store)@,
            r matches Err(e) ==> e is Configuration,
    {
        if !config.check() {
            return Err(configuration_error("squeeze_albert_encoder"));
        }
        let squeeze_config = config.to_squeeze_bert();
        let bert_config = squeeze_config.to_bert();
        let projection_prefix = sub_path(prefix, "embedding_projection");
        let projection = bert_linear(
            store,
            projection_prefix.as_str(),
            &bert_config,
            config.embedding_size,
            config.hidden_size,
        );

        let mut groups: Vec<SqueezeBertLayer> = Vec::new();
        let mut g: usize = 0;
        while g < config.num_hidden_groups
            invariant
                config.valid(),
                squeeze_config == config.derived_squeeze_bert(),
                g <= config.num_hidden_groups,
                groups@.len() == g,
                forall|j: int|
                    0 <= j < g ==> (#[trigger] groups@[j]).wf() && groups@[j].spec_hidden_size()
                        == config.hidden_size && groups@[j].attention.num_attention_heads
                        == config.num_attention_heads && groups@[j].matches_config(
                        config.derived_squeeze_bert(),
                    ),
                store@ == old(store)@ + linear_vars(
                    spec_sub_path(prefix@, "embedding_projection"@),
                    "weight"@,
                    "bias"@,
                    config.embedding_size,
                    config.hidden_size,
                    config.initializer_range,
                ) + squeeze_group_vars(prefix@, config.derived_squeeze_bert(), g as nat),
            decreases config.num_hidden_groups - g,
        {
            let group_prefix = numbered_sub_path(prefix, "group_", g as u64);
            let layer = match SqueezeBertLayer::new(store, group_prefix.as_str(), &squeeze_config) {
                Ok(l) => l,
                Err(e) => {
                    return Err(e);
                },
            };
            groups.push(layer);
            g = g + 1;
            proof {
                assert(store@ =~~= old(store)@ + linear_vars(
                    spec_sub_path(prefix@, "embedding_projection"@),
                    "weight"@,
                    "bias"@,
                    config.embedding_size,
                    config.hidden_size,
                    config.initializer_range,
                ) + squeeze_group_vars(prefix@, config.derived_squeeze_bert(), g as nat));
            }
        }
        let layers_per_group = config.num_hidden_layers / config.num_hidden_groups;
        proof {
            let l = config.num_hidden_layers as int;
            let k = config.num_hidden_groups as int;
            assert(k * (l / k) == l) by (nonlinear_arith)
                requires
                    0 < k,
                    0 <= l,
                    l % k == 0,
            ;
        }
        Ok(
            SqueezeAlbertEncoder {
                projection,
                groups,
                num_hidden_layers: config.num_hidden_layers,
                layers_per_group,
                hidden_size: config.hidden_size,
                num_attention_heads: config.num_attention_heads,
            },
        )
    }

    /// Runs the stack over a `[batch, seq_len, embedding]` input:
    /// converts the boolean mask once, projects the input up to the
    /// hidden width, transposes into the internal layout, runs
    /// `num_hidden_layers` iterations (layer `i` using shared group
    /// `i / layers_per_group`), and converts every collected hidden state
    /// back to the canonical layout before returning.
    pub fn encode(
        &self,
        input: &Tensor,
        attention_mask: Option<&BoolMask>,
        train: bool,
    ) -> (r: Result<Vec<LayerOutput>, TransformerError>)
        requires
            self.wf(),
            bool_mask_wf(attention_mask),
        ensures
            r is Ok <==> {
                &&& input.dims@.len() == 3
                &&& input.dims@[2] == self.projection.in_features
                &&& bool_mask_matches(attention_mask, input.dims@[0], input.dims@[1])
            },
            r matches Ok(t) ==> encode_trace_post(
                t@,
                self.num_hidden_layers as int,
                input.dims@[0],
                input.dims@[1],
                self.hidden_size,
                self.num_attention_heads,
                true,
                true,
                true,
            ),
            r matches Err(e) ==> e is Shape,
    {
        if input.dims.len() != 3 || input.dims[2] != self.projection.in_features {
            return Err(
                shape_error("encode", vec![self.projection.in_features], copy_dims(&input.dims)),
            );
        }
        let batch = input.dims[0];
        let seq_len = input.dims[1];
        let logits_mask: Option<LogitsMask> = match attention_mask {
            Some(m) => {
                if m.batch_size() != batch || m.seq_len() != seq_len {
                    return Err(
                        shape_error(
                            "attention_mask",
                            vec![batch, seq_len],
                            vec![m.batch_size(), m.seq_len()],
                        ),
                    );
                }
                Some(LogitsMask::from_bool_mask(m))
            },
            None => None,
        };

        // Project up to the hidden width, then move to the internal
        // [batch, hidden, seq_len] layout.
        let projected = match self.projection.forward(input) {
            Ok(t) => t,
            Err(e) => {
                return Err(e);
            },
        };
        let mut hidden_states = permute_021(&projected);

        let mut all_layer_outputs: Vec<LayerOutput> = Vec::new();
        all_layer_outputs.push(LayerOutput::Embedding(hidden_states.shallow_clone()));

        let mut i: usize = 0;
        while i < self.num_hidden_layers
            invariant
                self.wf(),
                i <= self.num_hidden_layers,
                logits_mask matches Some(m) ==> m.wf() && m.spec_batch_size() == batch
                    && m.spec_seq_len() == seq_len,
                hidden_states.dims@ == seq![batch, self.hidden_size, seq_len],
                hidden_states.requires_grad,
                all_layer_outputs@.len() == i + 1,
                all_layer_outputs@[0] is Embedding,
                all_layer_outputs@[0].spec_output().dims@ == seq![batch, self.hidden_size, seq_len],
                all_layer_outputs@[0].spec_output().requires_grad,
                forall|j: int|
                    1 <= j <= i ==> (#[trigger] all_layer_outputs@[j]) is EncoderWithAttention,
                forall|j: int|
                    1 <= j <= i ==> (#[trigger] all_layer_outputs@[j]).spec_output().dims@ == seq![
                        batch,
                        self.hidden_size,
                        seq_len,
                    ],
                forall|j: int|
                    1 <= j <= i ==> (#[trigger] all_layer_outputs@[j]).spec_output().requires_grad,
                forall|j: int|
                    1 <= j <= i ==> (#[trigger] all_layer_outputs@[j]).spec_attention().dims@
                        == seq![batch, self.num_attention_heads, seq_len, seq_len],
                forall|j: int|
                    1 <= j <= i ==> (#[trigger] all_layer_outputs@[j]).spec_attention().requires_grad,
            decreases self.num_hidden_layers - i,
        {
            proof {
                if self.layers_per_group == 0 {
                    assert(self.groups@.len() * 0 == 0);
                    assert(false);
                }
                lemma_group_index_in_range(
                    i as int,
                    self.layers_per_group as int,
                    self.groups@.len() as int,
                );
            }
            let group_index = i / self.layers_per_group;
            let layer_output = match self.groups[group_index].forward_t(
                &hidden_states,
                logits_mask.as_ref(),
                train,
            ) {
                Ok(lo) => lo,
                Err(e) => {
                    return Err(e);
                },
            };
            hidden_states = layer_output.output().shallow_clone();
            all_layer_outputs.push(layer_output);
            i = i + 1;
        }

        // Convert every hidden state back to [batch, seq_len, hidden].
        let mut j: usize = 0;
        while j < all_layer_outputs.len()
            invariant
                all_layer_outputs@.len() == self.num_hidden_layers + 1,
                self.num_hidden_layers <= MAX_DIM,
                j <= all_layer_outputs@.len(),
                all_layer_outputs@[0] is Embedding,
                forall|k: int|
                    1 <= k < all_layer_outputs@.len() ==> (#[trigger] all_layer_outputs@[k])
                        is EncoderWithAttention,
                forall|k: int|
                    0 <= k < j ==> (#[trigger] all_layer_outputs@[k]).spec_output().dims@ == seq![
                        batch,
                        seq_len,
                        self.hidden_size,
                    ],
                forall|k: int|
                    j <= k < all_layer_outputs@.len() ==> (
                    #[trigger] all_layer_outputs@[k]).spec_output().dims@ == seq![
                        batch,
                        self.hidden_size,
                        seq_len,
                    ],
                forall|k: int|
                    0 <= k < all_layer_outputs@.len() ==> (
                    #[trigger] all_layer_outputs@[k]).spec_output().requires_grad,
                forall|k: int|
                    1 <= k < all_layer_outputs@.len() ==> (
                    #[trigger] all_layer_outputs@[k]).spec_attention().dims@ == seq![
                        batch,
                        self.num_attention_heads,
                        seq_len,
                        seq_len,
                    ],
                forall|k: int|
                    1 <= k < all_layer_outputs@.len() ==> (
                    #[trigger] all_layer_outputs@[k]).spec_attention().requires_grad,
            decreases all_layer_outputs@.len() - j,
        {
            let converted = permute_021(all_layer_outputs[j].output());
            all_layer_outputs[j].set_output(converted);
            j = j + 1;
        }
        Ok(all_layer_outputs)
    }

    /// Length of the trace [`Self::encode`] returns: the layer count plus
    /// one for the embedding entry.
    pub fn n_layers(&self) -> (r: i64)
        requires
            self.wf(),
        ensures
            r == self.num_hidden_layers + 1,
    {
        (self.num_hidden_layers as i64) + 1
    }
}

} // verus!
