//! The ALBERT encoder family: the layers are partitioned into groups that
//! share one set of parameters, and the (typically narrower) embedding
//! width is projected up to the hidden width by the encoder itself.

use vstd::prelude::*;

use vstd::arithmetic::div_mod::{lemma_fundamental_div_mod, lemma_mod_division_less_than_divisor};
use vstd::arithmetic::mul::{lemma_mul_inequality, lemma_mul_is_commutative};

use crate::bert::{
    bert_layer_vars, bool_mask_matches, bool_mask_wf, BertLayer,
};
use crate::config::{AlbertConfig, BertConfig, MAX_DIM};
use crate::error::{configuration_error, shape_error, TransformerError};
use crate::layer_output::{encode_trace_post, LayerOutput};
use crate::layers::{bert_linear, linear_vars, Linear};
use crate::store::{dec_str, numbered_sub_path, spec_sub_path, sub_path, ParameterStore, VarView};
use crate::tensor::{copy_dims, BoolMask, LogitsMask, Tensor};

verus! {

/// Iterating `i` below `g * lpg` keeps the group index `i / lpg` below
/// `g`: parameter sharing never selects a group out of range.
pub proof fn lemma_group_index_in_range(i: int, lpg: int, g: int)
    requires
        0 <= i,
        0 < lpg,
        i < g * lpg,
    ensures
        i / lpg < g,
{
    lemma_fundamental_div_mod(i, lpg);
    lemma_mod_division_less_than_divisor(i, lpg);
    if i / lpg >= g {
        lemma_mul_inequality(g, i / lpg, lpg);
        lemma_mul_is_commutative(i / lpg, lpg);
        assert(g * lpg <= lpg * (i / lpg));
        assert(false);
    }
}

/// The parameters of `n` shared layer groups, under `group_0`,
/// `group_1`, and so on, in group order.
pub open spec fn albert_group_vars(prefix: Seq<char>, config: BertConfig, n: nat) -> Seq<VarView>
    decreases n,
{
    if n == 0 {
        Seq::<VarView>::empty()
    } else {
        albert_group_vars(prefix, config, (n - 1) as nat) + bert_layer_vars(
            spec_sub_path(prefix, "group_"@ + dec_str((n - 1) as nat)),
            config,
        )
    }
}

/// The parameters of the whole ALBERT encoder: the embedding projection
/// under `embedding_projection`, followed by the shared layer groups.
pub open spec fn albert_encoder_vars(prefix: Seq<char>, config: AlbertConfig) -> Seq<VarView> {
    linear_vars(
        spec_sub_path(prefix, "embedding_projection"@),
        "weight"@,
        "bias"@,
        config.embedding_size,
        config.hidden_size,
        config.initializer_range,
    ) + albert_group_vars(prefix, config.derived_bert(), config.num_hidden_groups as nat)
}

/// ALBERT encoder: `num_hidden_layers` iterations over
/// `num_hidden_groups` parameter-sharing layer groups, preceded by the
/// projection from the embedding width to the hidden width.
#[derive(Debug)]
pub struct AlbertEncoder {
    pub projection: Linear,
    pub groups: Vec<BertLayer>,
    pub num_hidden_layers: usize,
    pub layers_per_group: usize,
    pub hidden_size: usize,
    pub num_attention_heads: usize,
}

impl AlbertEncoder {
    /// The groups partition the layers evenly and every group agrees with
    /// the stack's widths.
    pub open spec fn wf(self) -> bool {
        &&& self.num_hidden_layers <= MAX_DIM
        &&& self.groups@.len() <= MAX_DIM
        &&& self.groups@.len() * self.layers_per_group == self.num_hidden_layers
        &&& self.projection.out_features == self.hidden_size
        &&& forall|i: int|
            0 <= i < self.groups@.len() ==> (#[trigger] self.groups@[i]).wf()
                && self.groups@[i].spec_hidden_size() == self.hidden_size
                && self.groups@[i].attention.num_attention_heads == self.num_attention_heads
    }

    /// Creates the embedding projection and `num_hidden_groups` shared
    /// layer groups; an invalid configuration is rejected before any
    /// parameter is created.
    pub fn new(store: &mut ParameterStore, prefix: &str, config: &AlbertConfig) -> (r: Result<
        AlbertEncoder,
        TransformerError,
    >)
        ensures
            r is Ok <==> config.valid(),
            r matches Ok(enc) ==> {
                &&& final(store)@ == old(store)@ + albert_encoder_vars(prefix@, *config)
                &&& enc.wf()
                &&& enc.num_hidden_layers == config.num_hidden_layers
                &&& enc.projection.in_features == config.embedding_size
                &&& enc.hidden_size == config.hidden_size
                &&& enc.num_attention_heads == config.num_attention_heads
                &&& forall|i: int|
                    0 <= i < enc.groups@.len() ==> (#[trigger] enc.groups@[i]).matches_config(
                        config.derived_bert(),
                    )
            },
            r is Err ==> final(store)@ == old(store)@,
            r matches Err(e) ==> e is Configuration,
    {
        if !config.check() {
            return Err(configuration_error("albert_encoder"));
        }
        let bert_config = config.to_bert();
        let projection_prefix = sub_path(prefix, "embedding_projection");
        let projection = bert_linear(
            store,
            projection_prefix.as_str(),
            &bert_config,
            config.embedding_size,
            config.hidden_size,
        );

        let mut groups: Vec<BertLayer> = Vec::new();
        let mut g: usize = 0;
        while g < config.num_hidden_groups
            invariant
                config.valid(),
                bert_config == config.derived_bert(),
                g <= config.num_hidden_groups,
                groups@.len() == g,
                forall|j: int|
                    0 <= j < g ==> (#[trigger] groups@[j]).wf() && groups@[j].spec_hidden_size()
                        == config.hidden_size && groups@[j].attention.num_attention_heads
                        == config.num_attention_heads && groups@[j].matches_config(
                        config.derived_bert(),
                    ),
                store@ == old(store)@ + linear_vars(
                    spec_sub_path(prefix@, "embedding_projection"@),
                    "weight"@,
                    "bias"@,
                    config.embedding_size,
                    config.hidden_size,
                    config.initializer_range,
                ) + albert_group_vars(prefix@, config.derived_bert(), g as nat),
            decreases config.num_hidden_groups - g,
        {
            let group_prefix = numbered_sub_path(prefix, "group_", g as u64);
            let layer = match BertLayer::new(store, group_prefix.as_str(), &bert_config) {
                Ok(l) => l,
                Err(e) => {
                    return Err(e);
                },
            };
            groups.push(layer);
            g = g + 1;
            proof {
                assert(store@ =~~= old(store)@ + linear_vars(
                    spec_sub_path(prefix@, "embedding_projection"@),
                    "weight"@,
                    "bias"@,
                    config.embedding_size,
                    config.hidden_size,
                    config.initializer_range,
                ) + albert_group_vars(prefix@, config.derived_bert(), g as nat));
            }
        }
        let layers_per_group = config.num_hidden_layers / config.num_hidden_groups;
        proof {
            let l = config.num_hidden_layers as int;
            let k = config.num_hidden_groups as int;
            assert(k * (l / k) == l) by (nonlinear_arith)
                requires
                    0 < k,
                    0 <= l,
                    l % k == 0,
            ;
        }
        Ok(
            AlbertEncoder {
                projection,
                groups,
                num_hidden_layers: config.num_hidden_layers,
                layers_per_group,
                hidden_size: config.hidden_size,
                num_attention_heads: config.num_attention_heads,
            },
        )
    }

    /// Runs the stack over a `[batch, seq_len, embedding]` input:
    /// converts the boolean mask once, projects the input up to the
    /// hidden width, pushes the projection as the embedding trace entry,
    /// then runs `num_hidden_layers` iterations, layer `i` using shared
    /// group `i / layers_per_group`.
    pub fn encode(
        &self,
        input: &Tensor,
        attention_mask: Option<&BoolMask>,
        train: bool,
    ) -> (r: Result<Vec<LayerOutput>, TransformerError>)
        requires
            self.wf(),
            bool_mask_wf(attention_mask),
        ensures
            r is Ok <==> {
                &&& input.dims@.len() == 3
                &&& input.dims@[2] == self.projection.in_features
                &&& bool_mask_matches(attention_mask, input.dims@[0], input.dims@[1])
            },
            r matches Ok(t) ==> encode_trace_post(
                t@,
                self.num_hidden_layers as int,
                input.dims@[0],
                input.dims@[1],
                self.hidden_size,
                self.num_attention_heads,
                true,
                true,
                true,
            ),
            r matches Err(e) ==> e is Shape,
    {
        if input.dims.len() != 3 || input.dims[2] != self.projection.in_features {
            return Err(
                shape_error("encode", vec![self.projection.in_features], copy_dims(&input.dims)),
            );
        }
        let batch = input.dims[0];
        let seq_len = input.dims[1];
        let logits_mask: Option<LogitsMask> = match attention_mask {
            Some(m) => {
                if m.batch_size() != batch || m.seq_len() != seq_len {
                    return Err(
                        shape_error(
                            "attention_mask",
                            vec![batch, seq_len],
                            vec![m.batch_size(), m.seq_len()],
                        ),
                    );
                }
                Some(LogitsMask::from_bool_mask(m))
            },
            None => None,
        };

        // Project the embedding width up to the hidden width.
        let mut hidden_states = match self.projection.forward(input) {
            Ok(t) => t,
            Err(e) => {
                return Err(e);
            },
        };

        let mut all_layer_outputs: Vec<LayerOutput> = Vec::new();
        all_layer_outputs.push(LayerOutput::Embedding(hidden_states.shallow_clone()));

        let mut i: usize = 0;
        while i < self.num_hidden_layers
            invariant
                self.wf(),
                i <= self.num_hidden_layers,
                logits_mask matches Some(m) ==> m.wf() && m.spec_batch_size() == batch
                    && m.spec_seq_len() == seq_len,
                hidden_states.dims@ == seq![batch, seq_len, self.hidden_size],
                hidden_states.requires_grad,
                all_layer_outputs@.len() == i + 1,
                encode_trace_post(
                    all_layer_outputs@,
                    i as int,
                    batch,
                    seq_len,
                    self.hidden_size,
                    self.num_attention_heads,
                    true,
                    true,
                    true,
                ),
            decreases self.num_hidden_layers - i,
        {
            proof {
                if self.layers_per_group == 0 {
                    assert(self.groups@.len() * 0 == 0);
                    assert(false);
                }
                lemma_group_index_in_range(
                    i as int,
                    self.layers_per_group as int,
                    self.groups@.len() as int,
                );
            }
            let group_index = i / self.layers_per_group;
            let layer_output = match self.groups[group_index].forward_t(
                &hidden_states,
                logits_mask.as_ref(),
                train,
            ) {
                Ok(lo) => lo,
                Err(e) => {
                    return Err(e);
                },
            };
            hidden_states = layer_output.output().shallow_clone();
            all_layer_outputs.push(layer_output);
            i = i + 1;
        }
        Ok(all_layer_outputs)
    }

    /// Length of the trace [`Self::encode`] returns: the layer count plus
    /// one for the embedding entry.
    pub fn n_layers(&self) -> (r: i64)
        requires
            self.wf(),
        ensures
            r == self.num_hidden_layers + 1,
    {
        (self.num_hidden_layers as i64) + 1
    }
}

} // verus!
