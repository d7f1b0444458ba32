//! The model facade: one embedding layer and one encoder stack, both
//! selected once at construction from the configuration's family tag and
//! the position-embedding strategy, plus the shared layer-dropout step and
//! the gradient-freezing contract of the forward operations.

use vstd::prelude::*;

use crate::albert::{albert_encoder_vars, AlbertEncoder};
use crate::bert::{bert_encoder_vars, BertEncoder};
use crate::config::{
    PositionEmbeddings, PretrainBertConfig, PretrainConfig, FIXED_ONE,
};
use crate::embeddings::{
    albert_embeddings_vars, bert_embeddings_vars, sinusoidal_embeddings_vars, AlbertEmbeddings,
    BertEmbeddings, RobertaEmbeddings, SinusoidalEmbeddings,
};
use crate::error::{configuration_error, TransformerError};
use crate::layer_output::{encode_trace_post, LayerOutput};
use crate::layers::Dropout;
use crate::squeeze_albert::{squeeze_albert_encoder_vars, SqueezeAlbertEncoder};
use crate::squeeze_bert::{squeeze_encoder_vars, SqueezeBertEncoder};
use crate::store::{spec_sub_path, sub_path, ParameterStore, VarView};
use crate::tensor::{BoolMask, Tensor, TokenIds};

verus! {

/// Which stages of a forward pass run with gradient tracking suspended.
/// The `classifiers` flag gates the shared layer-dropout step, the last
/// step this core performs before the external classification heads take
/// over.
#[derive(Clone, Copy, Debug, PartialEq, Eq, Structural)]
pub struct FreezeLayers {
    pub embeddings: bool,
    pub encoder: bool,
    pub classifiers: bool,
}

/// Sinusoidal position embeddings are incompatible with the XLM-RoBERTa
/// family; every other combination is constructible.
pub open spec fn position_embeddings_compatible(
    config: PretrainConfig,
    position_embeddings: PositionEmbeddings,
) -> bool {
    !(config is XlmRoberta && position_embeddings is Sinusoidal)
}

/// Width of the hidden states the selected embedding layer produces: the
/// embedding width for the ALBERT-style families, the hidden width
/// otherwise.
pub open spec fn expected_embedding_dim(config: PretrainConfig) -> usize {
    match config {
        PretrainConfig::Albert(c) => c.embedding_size,
        PretrainConfig::Bert(c) => c.hidden_size,
        PretrainConfig::SqueezeAlbert(c) => c.embedding_size,
        PretrainConfig::SqueezeBert(c) => c.hidden_size,
        PretrainConfig::XlmRoberta(c) => c.hidden_size,
    }
}

/// The parameters the selected embedding layer creates, under the
/// `embeddings` namespace.
pub open spec fn embedding_layer_vars(
    config: PretrainConfig,
    position_embeddings: PositionEmbeddings,
    prefix: Seq<char>,
) -> Seq<VarView> {
    let ep = spec_sub_path(prefix, "embeddings"@);
    match (config, position_embeddings) {
        (PretrainConfig::Albert(c), PositionEmbeddings::Model) => albert_embeddings_vars(ep, c),
        (PretrainConfig::Albert(c), PositionEmbeddings::Sinusoidal { .. }) =>
            sinusoidal_embeddings_vars(ep, c.vocab_size, c.embedding_size, c.initializer_range),
        (PretrainConfig::Bert(c), PositionEmbeddings::Model) => bert_embeddings_vars(ep, c),
        (PretrainConfig::Bert(c), PositionEmbeddings::Sinusoidal { .. }) =>
            sinusoidal_embeddings_vars(ep, c.vocab_size, c.hidden_size, c.initializer_range),
        (PretrainConfig::SqueezeAlbert(c), PositionEmbeddings::Model) => albert_embeddings_vars(
            ep,
            c.derived_albert(),
        ),
        (PretrainConfig::SqueezeAlbert(c), PositionEmbeddings::Sinusoidal { .. }) =>
            sinusoidal_embeddings_vars(ep, c.vocab_size, c.embedding_size, c.initializer_range),
        (PretrainConfig::SqueezeBert(c), PositionEmbeddings::Model) => bert_embeddings_vars(
            ep,
            c.derived_bert(),
        ),
        (PretrainConfig::SqueezeBert(c), PositionEmbeddings::Sinusoidal { .. }) =>
            sinusoidal_embeddings_vars(ep, c.vocab_size, c.hidden_size, c.initializer_range),
        (PretrainConfig::XlmRoberta(c), PositionEmbeddings::Model) => bert_embeddings_vars(ep, c),
        (PretrainConfig::XlmRoberta(_), PositionEmbeddings::Sinusoidal { .. }) => Seq::<
            VarView,
        >::empty(),
    }
}

/// The embedding layer of one model: a closed choice among the four
/// structurally different variants, fixed at construction.
#[derive(Debug)]
pub enum BertEmbeddingLayer {
    Albert(AlbertEmbeddings),
    Bert(BertEmbeddings),
    Roberta(RobertaEmbeddings),
    Sinusoidal(SinusoidalEmbeddings),
}

impl BertEmbeddingLayer {
    /// The carried variant is well-formed.
    pub open spec fn wf(self) -> bool {
        match self {
            BertEmbeddingLayer::Albert(e) => e.wf(),
            BertEmbeddingLayer::Bert(e) => e.wf(),
            BertEmbeddingLayer::Roberta(e) => e.wf(),
            BertEmbeddingLayer::Sinusoidal(e) => e.wf(),
        }
    }

    /// Width of the hidden states the layer produces.
    pub open spec fn spec_output_dim(self) -> usize {
        match self {
            BertEmbeddingLayer::Albert(e) => e.embedding_dim,
            BertEmbeddingLayer::Bert(e) => e.embedding_dim,
            BertEmbeddingLayer::Roberta(e) => e.embedding_dim,
            BertEmbeddingLayer::Sinusoidal(e) => e.embedding_dim,
        }
    }

    /// Whether the sequence fits the variant's position table; variants
    /// with computed positions accept any length.
    pub open spec fn spec_seq_fits(self, inputs: TokenIds) -> bool {
        match self {
            BertEmbeddingLayer::Albert(e) => inputs.spec_seq_len() <= e.max_position_embeddings,
            BertEmbeddingLayer::Bert(e) => inputs.spec_seq_len() <= e.max_position_embeddings,
            BertEmbeddingLayer::Roberta(e) => inputs.spec_seq_len() <= e.max_position_embeddings,
            BertEmbeddingLayer::Sinusoidal(_) => true,
        }
    }

    /// Whether every id names an existing word piece of the variant's
    /// vocabulary.
    pub open spec fn spec_ids_in_vocab(self, inputs: TokenIds) -> bool {
        match self {
            BertEmbeddingLayer::Albert(e) => inputs.all_in_vocab(e.vocab_size),
            BertEmbeddingLayer::Bert(e) => inputs.all_in_vocab(e.vocab_size),
            BertEmbeddingLayer::Roberta(e) => inputs.all_in_vocab(e.vocab_size),
            BertEmbeddingLayer::Sinusoidal(e) => inputs.all_in_vocab(e.vocab_size),
        }
    }

    /// The inputs the layer accepts: every id in the vocabulary, and —
    /// for variants with a learned position table — a sequence no longer
    /// than that table.
    pub open spec fn spec_accepts(self, inputs: TokenIds) -> bool {
        self.spec_seq_fits(inputs) && self.spec_ids_in_vocab(inputs)
    }

    /// Dropout probability the selected variant recorded.
    pub open spec fn spec_dropout_p(self) -> u64 {
        match self {
            BertEmbeddingLayer::Albert(e) => e.dropout.p,
            BertEmbeddingLayer::Bert(e) => e.dropout.p,
            BertEmbeddingLayer::Roberta(e) => e.dropout.p,
            BertEmbeddingLayer::Sinusoidal(e) => e.dropout.p,
        }
    }

    /// The variant construction selects for a family and position
    /// strategy.
    pub open spec fn spec_selected(
        self,
        config: PretrainConfig,
        position_embeddings: PositionEmbeddings,
    ) -> bool {
        match (config, position_embeddings) {
            (_, PositionEmbeddings::Sinusoidal { .. }) => self is Sinusoidal,
            (PretrainConfig::Albert(_), PositionEmbeddings::Model) => self is Albert,
            (PretrainConfig::Bert(_), PositionEmbeddings::Model) => self is Bert,
            (PretrainConfig::SqueezeAlbert(_), PositionEmbeddings::Model) => self is Albert,
            (PretrainConfig::SqueezeBert(_), PositionEmbeddings::Model) => self is Bert,
            (PretrainConfig::XlmRoberta(_), PositionEmbeddings::Model) => self is Roberta,
        }
    }

    /// Selects and creates the embedding variant for the family and the
    /// position strategy.  The incompatible combination — and any invalid
    /// configuration — is rejected before any parameter is created.
    pub fn new(
        store: &mut ParameterStore,
        prefix: &str,
        config: &PretrainConfig,
        position_embeddings: PositionEmbeddings,
    ) -> (r: Result<BertEmbeddingLayer, TransformerError>)
        ensures
            r is Ok <==> (config.valid() && position_embeddings_compatible(
                *config,
                position_embeddings,
            )),
            r matches Ok(el) ==> {
                &&& final(store)@ == old(store)@ + embedding_layer_vars(
                    *config,
                    position_embeddings,
                    prefix@,
                )
                &&& el.wf()
                &&& el.spec_output_dim() == expected_embedding_dim(*config)
                &&& el.spec_selected(*config, position_embeddings)
                &&& el.spec_dropout_p() == config.spec_bert_config().hidden_dropout_prob
                &&& (position_embeddings matches PositionEmbeddings::Sinusoidal { normalize }
                    ==> el matches BertEmbeddingLayer::Sinusoidal(s) && s.normalize == normalize)
            },
            r is Err ==> final(store)@ == old(store)@,
            r matches Err(e) ==> e is Configuration,
    {
        if !config.check() {
            return Err(configuration_error("bert_embedding_layer"));
        }
        let ep = sub_path(prefix, "embeddings");
        let layer = match (config, position_embeddings) {
            (PretrainConfig::Albert(c), PositionEmbeddings::Model) => {
                match AlbertEmbeddings::new(store, ep.as_str(), c) {
                    Ok(e) => BertEmbeddingLayer::Albert(e),
                    Err(e) => {
                        return Err(e);
                    },
                }
            },
            (PretrainConfig::Albert(c), PositionEmbeddings::Sinusoidal { normalize }) => {
                BertEmbeddingLayer::Sinusoidal(
                    SinusoidalEmbeddings::new(
                        store,
                        ep.as_str(),
                        c.vocab_size,
                        c.embedding_size,
                        c.layer_norm_eps,
                        c.initializer_range,
                        normalize,
                        c.hidden_dropout_prob,
                    ),
                )
            },
            (PretrainConfig::Bert(c), PositionEmbeddings::Model) => {
                match BertEmbeddings::new(store, ep.as_str(), c) {
                    Ok(e) => BertEmbeddingLayer::Bert(e),
                    Err(e) => {
                        return Err(e);
                    },
                }
            },
            (PretrainConfig::Bert(c), PositionEmbeddings::Sinusoidal { normalize }) => {
                BertEmbeddingLayer::Sinusoidal(
                    SinusoidalEmbeddings::new(
                        store,
                        ep.as_str(),
                        c.vocab_size,
                        c.hidden_size,
                        c.layer_norm_eps,
                        c.initializer_range,
                        normalize,
                        c.hidden_dropout_prob,
                    ),
                )
            },
            (PretrainConfig::SqueezeAlbert(c), PositionEmbeddings::Model) => {
                let albert_config = c.to_albert();
                match AlbertEmbeddings::new(store, ep.as_str(), &albert_config) {
                    Ok(e) => BertEmbeddingLayer::Albert(e),
                    Err(e) => {
                        return Err(e);
                    },
                }
            },
            (PretrainConfig::SqueezeAlbert(c), PositionEmbeddings::Sinusoidal { normalize }) => {
                BertEmbeddingLayer::Sinusoidal(
                    SinusoidalEmbeddings::new(
                        store,
                        ep.as_str(),
                        c.vocab_size,
                        c.embedding_size,
                        c.layer_norm_eps,
                        c.initializer_range,
                        normalize,
                        c.hidden_dropout_prob,
                    ),
                )
            },
            (PretrainConfig::SqueezeBert(c), PositionEmbeddings::Model) => {
                let bert_config = c.to_bert();
                match BertEmbeddings::new(store, ep.as_str(), &bert_config) {
                    Ok(e) => BertEmbeddingLayer::Bert(e),
                    Err(e) => {
                        return Err(e);
                    },
                }
            },
            (PretrainConfig::SqueezeBert(c), PositionEmbeddings::Sinusoidal { normalize }) => {
                BertEmbeddingLayer::Sinusoidal(
                    SinusoidalEmbeddings::new(
                        store,
                        ep.as_str(),
                        c.vocab_size,
                        c.hidden_size,
                        c.layer_norm_eps,
                        c.initializer_range,
                        normalize,
                        c.hidden_dropout_prob,
                    ),
                )
            },
            (PretrainConfig::XlmRoberta(c), PositionEmbeddings::Model) => {
                match RobertaEmbeddings::new(store, ep.as_str(), c) {
                    Ok(e) => BertEmbeddingLayer::Roberta(e),
                    Err(e) => {
                        return Err(e);
                    },
                }
            },
            (PretrainConfig::XlmRoberta(_), PositionEmbeddings::Sinusoidal { .. }) => {
                return Err(configuration_error("position_embeddings"));
            },
        };
        Ok(layer)
    }

    /// Embeds a batch of token ids into `[batch, seq_len, output_dim]`.
    pub fn forward_t(&self, input: &TokenIds, train: bool) -> (r: Result<Tensor, TransformerError>)
        requires
            input.wf(),
        ensures
            r is Ok <==> self.spec_accepts(*input),
            r matches Ok(t) ==> {
                &&& t.dims@ == seq![
                    input.spec_batch_size() as usize,
                    input.spec_seq_len() as usize,
                    self.spec_output_dim(),
                ]
                &&& t.requires_grad
            },
            !self.spec_seq_fits(*input) ==> (r matches Err(e) && e is Shape),
            (self.spec_seq_fits(*input) && !self.spec_ids_in_vocab(*input)) ==> (r matches Err(e)
                && e is Computation),
    {
        match self {
            BertEmbeddingLayer::Albert(e) => e.forward_t(input, train),
            BertEmbeddingLayer::Bert(e) => e.forward_t(input, train),
            BertEmbeddingLayer::Roberta(e) => e.forward_t(input, train),
            BertEmbeddingLayer::Sinusoidal(e) => e.forward_t(input, train),
        }
    }
}

/// The parameters the selected encoder stack creates, under the `encoder`
/// namespace.
pub open spec fn encoder_layer_vars(config: PretrainConfig, prefix: Seq<char>) -> Seq<VarView> {
    let ep = spec_sub_path(prefix, "encoder"@);
    match config {
        PretrainConfig::Albert(c) => albert_encoder_vars(ep, c),
        PretrainConfig::Bert(c) => bert_encoder_vars(ep, c, c.num_hidden_layers as nat),
        PretrainConfig::SqueezeAlbert(c) => squeeze_albert_encoder_vars(ep, c),
        PretrainConfig::SqueezeBert(c) => squeeze_encoder_vars(ep, c, c.num_hidden_layers as nat),
        PretrainConfig::XlmRoberta(c) => bert_encoder_vars(ep, c, c.num_hidden_layers as nat),
    }
}

/// The encoder stack of one model: a closed choice among the four
/// structurally different families, fixed at construction.
#[derive(Debug)]
pub enum Encoder {
    Albert(AlbertEncoder),
    Bert(BertEncoder),
    SqueezeAlbert(SqueezeAlbertEncoder),
    SqueezeBert(SqueezeBertEncoder),
}

impl Encoder {
    /// The carried stack is well-formed.
    pub open spec fn wf(self) -> bool {
        match self {
            Encoder::Albert(e) => e.wf(),
            Encoder::Bert(e) => e.wf(),
            Encoder::SqueezeAlbert(e) => e.wf(),
            Encoder::SqueezeBert(e) => e.wf(),
        }
    }

    /// Width of the hidden states the stack consumes.
    pub open spec fn spec_input_dim(self) -> usize {
        match self {
            Encoder::Albert(e) => e.projection.in_features,
            Encoder::Bert(e) => e.hidden_size,
            Encoder::SqueezeAlbert(e) => e.projection.in_features,
            Encoder::SqueezeBert(e) => e.hidden_size,
        }
    }

    /// Width of the hidden states the stack produces.
    pub open spec fn spec_hidden_size(self) -> usize {
        match self {
            Encoder::Albert(e) => e.hidden_size,
            Encoder::Bert(e) => e.hidden_size,
            Encoder::SqueezeAlbert(e) => e.hidden_size,
            Encoder::SqueezeBert(e) => e.hidden_size,
        }
    }

    /// Number of attention heads of every layer.
    pub open spec fn spec_heads(self) -> usize {
        match self {
            Encoder::Albert(e) => e.num_attention_heads,
            Encoder::Bert(e) => e.num_attention_heads,
            Encoder::SqueezeAlbert(e) => e.num_attention_heads,
            Encoder::SqueezeBert(e) => e.num_attention_heads,
        }
    }

    /// Number of encoder layers the stack runs.
    pub open spec fn spec_layer_count(self) -> int {
        match self {
            Encoder::Albert(e) => e.num_hidden_layers as int,
            Encoder::Bert(e) => e.layers@.len() as int,
            Encoder::SqueezeAlbert(e) => e.num_hidden_layers as int,
            Encoder::SqueezeBert(e) => e.layers@.len() as int,
        }
    }

    /// Whether the embedding trace entry stays on the gradient tape when
    /// the stack's input does (families with an internal embedding
    /// projection put their own parameters into that entry, so it is
    /// always tracked).
    pub open spec fn spec_embedding_entry_grad(self, input_grad: bool) -> bool {
        match self {
            Encoder::Albert(_) => true,
            Encoder::Bert(_) => input_grad,
            Encoder::SqueezeAlbert(_) => true,
            Encoder::SqueezeBert(_) => input_grad,
        }
    }

    /// Every layer (or shared layer group) of the selected family records
    /// exactly the hyperparameters of the configuration it was built
    /// from, via the pure derivations of the family configurations.
    pub open spec fn spec_configured(self, config: PretrainConfig) -> bool {
        match (self, config) {
            (Encoder::Bert(e), PretrainConfig::Bert(c)) => forall|i: int|
                0 <= i < e.layers@.len() ==> (#[trigger] e.layers@[i]).matches_config(c),
            (Encoder::Bert(e), PretrainConfig::XlmRoberta(c)) => forall|i: int|
                0 <= i < e.layers@.len() ==> (#[trigger] e.layers@[i]).matches_config(c),
            (Encoder::Albert(e), PretrainConfig::Albert(c)) => forall|i: int|
                0 <= i < e.groups@.len() ==> (#[trigger] e.groups@[i]).matches_config(
                    c.derived_bert(),
                ),
            (Encoder::SqueezeBert(e), PretrainConfig::SqueezeBert(c)) => forall|i: int|
                0 <= i < e.layers@.len() ==> (#[trigger] e.layers@[i]).matches_config(c),
            (Encoder::SqueezeAlbert(e), PretrainConfig::SqueezeAlbert(c)) => forall|i: int|
                0 <= i < e.groups@.len() ==> (#[trigger] e.groups@[i]).matches_config(
                    c.derived_squeeze_bert(),
                ),
            _ => false,
        }
    }

    /// The family construction selects for a configuration.
    pub open spec fn spec_selected(self, config: PretrainConfig) -> bool {
        match config {
            PretrainConfig::Albert(_) => self is Albert,
            PretrainConfig::Bert(_) => self is Bert,
            PretrainConfig::SqueezeAlbert(_) => self is SqueezeAlbert,
            PretrainConfig::SqueezeBert(_) => self is SqueezeBert,
            PretrainConfig::XlmRoberta(_) => self is Bert,
        }
    }

    /// Selects and creates the encoder family under the `encoder`
    /// namespace; an invalid configuration is rejected before any
    /// parameter is created.
    pub fn new(store: &mut ParameterStore, prefix: &str, config: &PretrainConfig) -> (r: Result<
        Encoder,
        TransformerError,
    >)
        ensures
            r is Ok <==> config.valid(),
            r matches Ok(enc) ==> {
                &&& final(store)@ == old(store)@ + encoder_layer_vars(*config, prefix@)
                &&& enc.wf()
                &&& enc.spec_selected(*config)
                &&& enc.spec_configured(*config)
                &&& enc.spec_input_dim() == expected_embedding_dim(*config)
                &&& enc.spec_hidden_size() == config.spec_bert_config().hidden_size
                &&& enc.spec_heads() == config.spec_bert_config().num_attention_heads
                &&& enc.spec_layer_count() == config.spec_bert_config().num_hidden_layers
            },
            r is Err ==> final(store)@ == old(store)@,
            r matches Err(e) ==> e is Configuration,
    {
        let ep = sub_path(prefix, "encoder");
        let encoder = match config {
            PretrainConfig::Albert(c) => {
                match AlbertEncoder::new(store, ep.as_str(), c) {
                    Ok(e) => Encoder::Albert(e),
                    Err(e) => {
                        return Err(e);
                    },
                }
            },
            PretrainConfig::Bert(c) => {
                match BertEncoder::new(store, ep.as_str(), c) {
                    Ok(e) => Encoder::Bert(e),
                    Err(e) => {
                        return Err(e);
                    },
                }
            },
            PretrainConfig::SqueezeAlbert(c) => {
                match SqueezeAlbertEncoder::new(store, ep.as_str(), c) {
                    Ok(e) => Encoder::SqueezeAlbert(e),
                    Err(e) => {
                        return Err(e);
                    },
                }
            },
            PretrainConfig::SqueezeBert(c) => {
                match SqueezeBertEncoder::new(store, ep.as_str(), c) {
                    Ok(e) => Encoder::SqueezeBert(e),
                    Err(e) => {
                        return Err(e);
                    },
                }
            },
            PretrainConfig::XlmRoberta(c) => {
                match BertEncoder::new(store, ep.as_str(), c) {
                    Ok(e) => Encoder::Bert(e),
                    Err(e) => {
                        return Err(e);
                    },
                }
            },
        };
        Ok(encoder)
    }

    /// Runs the selected stack; the trace contract is the same for every
    /// family.
    pub fn encode(
        &self,
        input: &Tensor,
        attention_mask: Option<&BoolMask>,
        train: bool,
    ) -> (r: Result<Vec<LayerOutput>, TransformerError>)
        requires
            self.wf(),
            crate::bert::bool_mask_wf(attention_mask),
        ensures
            r is Ok <==> {
                &&& input.dims@.len() == 3
                &&& input.dims@[2] == self.spec_input_dim()
                &&& crate::bert::bool_mask_matches(attention_mask, input.dims@[0], input.dims@[1])
            },
            r matches Ok(t) ==> encode_trace_post(
                t@,
                self.spec_layer_count(),
                input.dims@[0],
                input.dims@[1],
                self.spec_hidden_size(),
                self.spec_heads(),
                self.spec_embedding_entry_grad(input.requires_grad),
                true,
                true,
            ),
            r matches Err(e) ==> e is Shape,
    {
        match self {
            Encoder::Albert(e) => e.encode(input, attention_mask, train),
            Encoder::Bert(e) => e.encode(input, attention_mask, train),
            Encoder::SqueezeAlbert(e) => e.encode(input, attention_mask, train),
            Encoder::SqueezeBert(e) => e.encode(input, attention_mask, train),
        }
    }

    /// Length of the trace [`Self::encode`] returns: the layer count plus
    /// one for the embedding entry.
    pub fn n_layers(&self) -> (r: i64)
        requires
            self.wf(),
        ensures
            r == self.spec_layer_count() + 1,
    {
        match self {
            Encoder::Albert(e) => e.n_layers(),
            Encoder::Bert(e) => e.n_layers(),
            Encoder::SqueezeAlbert(e) => e.n_layers(),
            Encoder::SqueezeBert(e) => e.n_layers(),
        }
    }
}

/// Gradient mark of the trace's encoder-layer entries after a facade
/// forward pass with the given freeze flags.
pub open spec fn trace_layer_grad(freeze: FreezeLayers) -> bool {
    !freeze.encoder && !freeze.classifiers
}

/// Gradient mark of the trace's attention-score tensors after a facade
/// forward pass with the given freeze flags (the layer-dropout step
/// touches hidden states only, so only the encoder freeze matters).
pub open spec fn trace_attention_grad(freeze: FreezeLayers) -> bool {
    !freeze.encoder
}

/// What the facade hands to the external classification heads: the
/// layer-output trace, the training flag, and whether the heads must run
/// with gradient tracking suspended.
#[derive(Debug)]
pub struct HeadsInput {
    pub layer_outputs: Vec<LayerOutput>,
    pub train: bool,
    pub no_grad: bool,
}

/// Multi-task sequence model trunk: one embedding layer, one encoder
/// stack, and the shared layer-dropout step over the output trace.  The
/// external classification heads consume what [`BertModel::encode`]
/// produces.
#[derive(Debug)]
pub struct BertModel {
    pub embeddings: BertEmbeddingLayer,
    pub encoder: Encoder,
    pub layers_dropout: Dropout,
}

impl BertModel {
    /// Both stages are well-formed and the embedding width matches what
    /// the encoder consumes.
    pub open spec fn wf(self) -> bool {
        &&& self.embeddings.wf()
        &&& self.encoder.wf()
        &&& self.embeddings.spec_output_dim() == self.encoder.spec_input_dim()
    }

    /// The inputs a forward pass accepts: inputs the embedding layer
    /// accepts, and a mask matching the batch and sequence length.
    pub open spec fn spec_encode_ok(self, inputs: TokenIds, attention_mask: BoolMask) -> bool {
        &&& self.embeddings.spec_accepts(inputs)
        &&& attention_mask.spec_batch_size() == inputs.spec_batch_size()
        &&& attention_mask.spec_seq_len() == inputs.spec_seq_len()
    }

    /// Gradient mark of the trace's embedding entry after a forward pass
    /// with the given freeze flags.
    pub open spec fn spec_embedding_trace_grad(self, freeze: FreezeLayers) -> bool {
        &&& self.encoder.spec_embedding_entry_grad(!freeze.embeddings)
        &&& !freeze.encoder
        &&& !freeze.classifiers
    }

    /// Constructs a fresh model: selects the embedding variant and the
    /// encoder family for the configuration, creating every parameter in
    /// the store.  `layers_dropout` is the fixed-point probability with
    /// which whole layers are dropped from the trace during training.
    /// Invalid configurations, and the incompatible family/position
    /// combination, are rejected before any parameter is created.
    pub fn new(
        store: &mut ParameterStore,
        prefix: &str,
        pretrain_config: &PretrainConfig,
        layers_dropout: u64,
        position_embeddings: PositionEmbeddings,
    ) -> (r: Result<BertModel, TransformerError>)
        requires
            layers_dropout <= FIXED_ONE,
        ensures
            r is Ok <==> (pretrain_config.valid() && position_embeddings_compatible(
                *pretrain_config,
                position_embeddings,
            )),
            r matches Ok(m) ==> {
                &&& final(store)@ == old(store)@ + embedding_layer_vars(
                    *pretrain_config,
                    position_embeddings,
                    prefix@,
                ) + encoder_layer_vars(*pretrain_config, prefix@)
                &&& m.wf()
                &&& m.encoder.spec_layer_count()
                    == pretrain_config.spec_bert_config().num_hidden_layers
                &&& m.encoder.spec_hidden_size()
                    == pretrain_config.spec_bert_config().hidden_size
                &&& m.encoder.spec_heads()
                    == pretrain_config.spec_bert_config().num_attention_heads
                &&& m.encoder.spec_configured(*pretrain_config)
                &&& m.embeddings.spec_dropout_p()
                    == pretrain_config.spec_bert_config().hidden_dropout_prob
                &&& (position_embeddings matches PositionEmbeddings::Sinusoidal { normalize }
                    ==> m.embeddings matches BertEmbeddingLayer::Sinusoidal(s) && s.normalize
                        == normalize)
                &&& m.layers_dropout.p == layers_dropout
            },
            r is Err ==> final(store)@ == old(store)@,
            r matches Err(e) ==> e is Configuration,
    {
        let embeddings = match BertEmbeddingLayer::new(
            store,
            prefix,
            pretrain_config,
            position_embeddings,
        ) {
            Ok(e) => e,
            Err(e) => {
                return Err(e);
            },
        };
        let encoder = match Encoder::new(store, prefix, pretrain_config) {
            Ok(e) => e,
            Err(e) => {
                return Err(e);
            },
        };
        proof {
            assert(final(store)@ =~~= old(store)@ + embedding_layer_vars(
                *pretrain_config,
                position_embeddings,
                prefix@,
            ) + encoder_layer_vars(*pretrain_config, prefix@));
        }
        Ok(BertModel { embeddings, encoder, layers_dropout: Dropout::new(layers_dropout) })
    }

    /// Encodes an input batch: embedding, encoder stack, then one shared
    /// dropout over every per-layer hidden state of the trace.  A stage
    /// whose freeze flag is set runs with gradient tracking suspended,
    /// which changes gradient marks only — never a shape or a value.
    pub fn encode(
        &self,
        inputs: &TokenIds,
        attention_mask: &BoolMask,
        train: bool,
        freeze_layers: FreezeLayers,
    ) -> (r: Result<Vec<LayerOutput>, TransformerError>)
        requires
            self.wf(),
            inputs.wf(),
            attention_mask.wf(),
        ensures
            r is Ok <==> self.spec_encode_ok(*inputs, *attention_mask),
            r matches Ok(t) ==> encode_trace_post(
                t@,
                self.encoder.spec_layer_count(),
                inputs.spec_batch_size() as usize,
                inputs.spec_seq_len() as usize,
                self.encoder.spec_hidden_size(),
                self.encoder.spec_heads(),
                self.spec_embedding_trace_grad(freeze_layers),
                trace_layer_grad(freeze_layers),
                trace_attention_grad(freeze_layers),
            ),
            !self.embeddings.spec_seq_fits(*inputs) ==> (r matches Err(e) && e is Shape),
            (self.embeddings.spec_seq_fits(*inputs) && !self.embeddings.spec_ids_in_vocab(*inputs))
                ==> (r matches Err(e) && e is Computation),
            (self.embeddings.spec_accepts(*inputs) && !self.spec_encode_ok(
                *inputs,
                *attention_mask,
            )) ==> (r matches Err(e) && e is Shape),
    {
        let batch = inputs.batch_size();
        let seq_len = inputs.seq_len();
        let embeds = match self.embeddings.forward_t(inputs, train) {
            Ok(t) => t,
            Err(e) => {
                return Err(e);
            },
        };
        // A frozen embedding stage hands its output on detached.
        let embeds = if freeze_layers.embeddings {
            embeds.detach()
        } else {
            embeds
        };

        let mut encoded = match self.encoder.encode(&embeds, Some(attention_mask), train) {
            Ok(t) => t,
            Err(e) => {
                return Err(e);
            },
        };

        let ghost layer_count = self.encoder.spec_layer_count();
        let ghost hidden = self.encoder.spec_hidden_size();
        let ghost heads = self.encoder.spec_heads();
        let ghost eg0 = self.encoder.spec_embedding_entry_grad(!freeze_layers.embeddings);

        // A frozen encoder stage hands the whole trace on detached; the
        // shared layer dropout then runs over every hidden state, itself
        // under suspended tracking when the classifier stage is frozen.
        let mut j: usize = 0;
        while j < encoded.len()
            invariant
                self.wf(),
                encoded@.len() == layer_count + 1,
                j <= encoded@.len(),
                encoded@[0] is Embedding,
                forall|k: int|
                    1 <= k < encoded@.len() ==> (#[trigger] encoded@[k]) is EncoderWithAttention,
                forall|k: int|
                    0 <= k < encoded@.len() ==> (#[trigger] encoded@[k]).spec_output().dims@
                        == seq![batch, seq_len, hidden],
                forall|k: int|
                    1 <= k < encoded@.len() ==> (#[trigger] encoded@[k]).spec_attention().dims@
                        == seq![batch, heads, seq_len, seq_len],
                0 < j ==> encoded@[0].spec_output().requires_grad == (eg0
                    && !freeze_layers.encoder && !freeze_layers.classifiers),
                j == 0 ==> encoded@[0].spec_output().requires_grad == eg0,
                forall|k: int|
                    1 <= k < j ==> (#[trigger] encoded@[k]).spec_output().requires_grad == (
                    !freeze_layers.encoder && !freeze_layers.classifiers),
                forall|k: int|
                    1 <= k < encoded@.len() && j <= k ==> (
                    #[trigger] encoded@[k]).spec_output().requires_grad,
                forall|k: int|
                    1 <= k < j ==> (#[trigger] encoded@[k]).spec_attention().requires_grad
                        == !freeze_layers.encoder,
                forall|k: int|
                    1 <= k < encoded@.len() && j <= k ==> (
                    #[trigger] encoded@[k]).spec_attention().requires_grad,
            decreases encoded@.len() - j,
        {
            if freeze_layers.encoder {
                encoded[j].detach_grads();
            }
            let current = encoded[j].output().shallow_clone();
            let dropped = match self.layers_dropout.forward_t(&current, train) {
                Ok(t) => t,
                Err(e) => {
                    return Err(e);
                },
            };
            let dropped = if freeze_layers.classifiers {
                dropped.detach()
            } else {
                dropped
            };
            encoded[j].set_output(dropped);
            j = j + 1;
        }
        Ok(encoded)
    }

    /// Produces what the classification heads need to compute the logits
    /// for a batch: the encoded trace, with the heads running in the
    /// given training mode and with gradient tracking left on.
    pub fn logits(
        &self,
        inputs: &TokenIds,
        attention_mask: &BoolMask,
        train: bool,
        freeze_layers: FreezeLayers,
    ) -> (r: Result<HeadsInput, TransformerError>)
        requires
            self.wf(),
            inputs.wf(),
            attention_mask.wf(),
        ensures
            r is Ok <==> self.spec_encode_ok(*inputs, *attention_mask),
            r matches Ok(h) ==> {
                &&& encode_trace_post(
                    h.layer_outputs@,
                    self.encoder.spec_layer_count(),
                    inputs.spec_batch_size() as usize,
                    inputs.spec_seq_len() as usize,
                    self.encoder.spec_hidden_size(),
                    self.encoder.spec_heads(),
                    self.spec_embedding_trace_grad(freeze_layers),
                    trace_layer_grad(freeze_layers),
                    trace_attention_grad(freeze_layers),
                )
                &&& h.train == train
                &&& !h.no_grad
            },
            r matches Err(e) ==> (e is Shape || e is Computation),
    {
        let encoding = match self.encode(inputs, attention_mask, train, freeze_layers) {
            Ok(t) => t,
            Err(e) => {
                return Err(e);
            },
        };
        Ok(HeadsInput { layer_outputs: encoding, train, no_grad: false })
    }

    /// Produces what the classification heads need when the trace has
    /// already been computed.
    pub fn logits_from_encoding(&self, layer_outputs: Vec<LayerOutput>, train: bool) -> (r:
        HeadsInput)
        ensures
            r.layer_outputs@ == layer_outputs@,
            r.train == train,
            !r.no_grad,
    {
        HeadsInput { layer_outputs, train, no_grad: false }
    }

    /// Produces what the classification heads need to compute the loss
    /// for a batch: the encoded trace, with the heads themselves running
    /// under suspended gradient tracking exactly when the classifier
    /// stage is frozen.
    pub fn loss(
        &self,
        inputs: &TokenIds,
        attention_mask: &BoolMask,
        train: bool,
        freeze_layers: FreezeLayers,
    ) -> (r: Result<HeadsInput, TransformerError>)
        requires
            self.wf(),
            inputs.wf(),
            attention_mask.wf(),
        ensures
            r is Ok <==> self.spec_encode_ok(*inputs, *attention_mask),
            r matches Ok(h) ==> {
                &&& encode_trace_post(
                    h.layer_outputs@,
                    self.encoder.spec_layer_count(),
                    inputs.spec_batch_size() as usize,
                    inputs.spec_seq_len() as usize,
                    self.encoder.spec_hidden_size(),
                    self.encoder.spec_heads(),
                    self.spec_embedding_trace_grad(freeze_layers),
                    trace_layer_grad(freeze_layers),
                    trace_attention_grad(freeze_layers),
                )
                &&& h.train == train
                &&& h.no_grad == freeze_layers.classifiers
            },
            r matches Err(e) ==> (e is Shape || e is Computation),
    {
        let encoding = match self.encode(inputs, attention_mask, train, freeze_layers) {
            Ok(t) => t,
            Err(e) => {
                return Err(e);
            },
        };
        Ok(HeadsInput { layer_outputs: encoding, train, no_grad: freeze_layers.classifiers })
    }

    /// Produces what the classification heads need to compute the top-k
    /// labels for a batch: the trace of an inference-mode forward pass
    /// with every stage frozen.
    pub fn top_k(&self, inputs: &TokenIds, attention_mask: &BoolMask) -> (r: Result<
        HeadsInput,
        TransformerError,
    >)
        requires
            self.wf(),
            inputs.wf(),
            attention_mask.wf(),
        ensures
            r is Ok <==> self.spec_encode_ok(*inputs, *attention_mask),
            r matches Ok(h) ==> {
                &&& encode_trace_post(
                    h.layer_outputs@,
                    self.encoder.spec_layer_count(),
                    inputs.spec_batch_size() as usize,
                    inputs.spec_seq_len() as usize,
                    self.encoder.spec_hidden_size(),
                    self.encoder.spec_heads(),
                    false,
                    false,
                    false,
                )
                &&& !h.train
                &&& !h.no_grad
            },
            r matches Err(e) ==> (e is Shape || e is Computation),
    {
        let encoding = match self.encode(
            inputs,
            attention_mask,
            false,
            FreezeLayers { embeddings: true, encoder: true, classifiers: true },
        ) {
            Ok(t) => t,
            Err(e) => {
                return Err(e);
            },
        };
        Ok(HeadsInput { layer_outputs: encoding, train: false, no_grad: false })
    }
}

} // verus!
