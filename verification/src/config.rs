//! Per-family configuration records and their validation.
//!
//! Each architecture family carries an immutable configuration.  Real-valued
//! hyperparameters (dropout probabilities, the layer-norm epsilon, the
//! initializer standard deviation) are stored in a fixed-point encoding so
//! that their range can be validated here; the numeric backend interprets
//! them.  The central invariant is that `hidden_size` is evenly divisible
//! by `num_attention_heads`: the quotient is the attention head size, and
//! `num_attention_heads * attention_head_size == hidden_size` always.

use vstd::prelude::*;

verus! {

/// Denominator of the fixed-point encoding used for real-valued
/// hyperparameters: a stored value `v` denotes the real number `v / 10^12`.
pub const FIXED_ONE: u64 = 1_000_000_000_000;

/// Largest accepted value for any configured dimension (hidden size,
/// vocabulary size, layer count, and so on).  The bound keeps every shape
/// computation of the core free of arithmetic overflow.
pub const MAX_DIM: usize = 1_048_576;

/// The nonlinearity applied by the feed-forward expansion.
#[derive(Clone, Copy, Debug, PartialEq, Eq, Structural)]
pub enum Activation {
    /// Gaussian error linear unit.
    Gelu,
    /// The tanh approximation of the GELU.
    GeluNew,
    /// Rectified linear unit.
    Relu,
}

/// Configuration of the generic (BERT-style) encoder family.
#[derive(Clone, Copy, Debug, PartialEq, Eq, Structural)]
pub struct BertConfig {
    /// Dropout probability on attention distributions, fixed-point.
    pub attention_probs_dropout_prob: u64,
    /// Nonlinearity of the feed-forward expansion.
    pub hidden_act: Activation,
    /// Dropout probability on hidden states, fixed-point.
    pub hidden_dropout_prob: u64,
    /// Width of the hidden representation.
    pub hidden_size: usize,
    /// Standard deviation of the random-normal weight initializer,
    /// fixed-point.
    pub initializer_range: u64,
    /// Width of the feed-forward expansion.
    pub intermediate_size: usize,
    /// Epsilon of the layer normalization, fixed-point.
    pub layer_norm_eps: u64,
    /// Longest sequence for which learned position embeddings exist.
    pub max_position_embeddings: usize,
    /// Number of parallel attention heads.
    pub num_attention_heads: usize,
    /// Number of encoder layers in the stack.
    pub num_hidden_layers: usize,
    /// Number of token-type (segment) embeddings.
    pub type_vocab_size: usize,
    /// Number of word-piece embeddings.
    pub vocab_size: usize,
}

impl BertConfig {
    /// A configuration is valid when every dimension is positive and
    /// bounded, every probability lies in the unit interval, and the
    /// hidden size splits evenly over the attention heads.
    pub open spec fn valid(self) -> bool {
        &&& 0 < self.hidden_size <= MAX_DIM
        &&& 0 < self.num_attention_heads <= self.hidden_size
        &&& self.hidden_size % self.num_attention_heads == 0
        &&& 0 < self.intermediate_size <= MAX_DIM
        &&& self.num_hidden_layers <= MAX_DIM
        &&& 0 < self.max_position_embeddings <= MAX_DIM
        &&& 0 < self.type_vocab_size <= MAX_DIM
        &&& 0 < self.vocab_size <= MAX_DIM
        &&& self.attention_probs_dropout_prob <= FIXED_ONE
        &&& self.hidden_dropout_prob <= FIXED_ONE
    }

    /// Width of the slice of the hidden dimension that one attention head
    /// operates on.
    pub open spec fn spec_attention_head_size(self) -> int {
        self.hidden_size as int / self.num_attention_heads as int
    }

    /// Checks validity, reporting the outcome as the constructors do.
    pub fn check(&self) -> (r: bool)
        ensures
            r == self.valid(),
    {
        0 < self.hidden_size && self.hidden_size <= MAX_DIM
            && 0 < self.num_attention_heads && self.num_attention_heads <= self.hidden_size
            && self.hidden_size % self.num_attention_heads == 0
            && 0 < self.intermediate_size && self.intermediate_size <= MAX_DIM
            && self.num_hidden_layers <= MAX_DIM
            && 0 < self.max_position_embeddings && self.max_position_embeddings <= MAX_DIM
            && 0 < self.type_vocab_size && self.type_vocab_size <= MAX_DIM
            && 0 < self.vocab_size && self.vocab_size <= MAX_DIM
            && self.attention_probs_dropout_prob <= FIXED_ONE
            && self.hidden_dropout_prob <= FIXED_ONE
    }

    /// The attention head size of a valid configuration.
    pub fn attention_head_size(&self) -> (r: usize)
        requires
            self.valid(),
        ensures
            r == self.spec_attention_head_size(),
            self.num_attention_heads * r == self.hidden_size,
    {
        proof {
            lemma_head_partition(*self);
        }
        self.hidden_size / self.num_attention_heads
    }
}

/// For every valid configuration the hidden dimension is exactly the
/// disjoint union of the head slices:
/// `num_attention_heads * attention_head_size == hidden_size`.
pub proof fn lemma_head_partition(c: BertConfig)
    requires
        c.valid(),
    ensures
        c.num_attention_heads * c.spec_attention_head_size() == c.hidden_size,
        0 < c.spec_attention_head_size() <= c.hidden_size,
{
    let h = c.hidden_size as int;
    let n = c.num_attention_heads as int;
    assert(n * (h / n) == h) by (nonlinear_arith)
        requires
            0 < n <= h,
            h % n == 0,
    ;
    assert(0 < h / n <= h) by (nonlinear_arith)
        requires
            0 < n <= h,
            n * (h / n) == h,
    ;
}

/// Configuration of the ALBERT family: a generic configuration plus an
/// embedding width that may differ from the hidden width, and a count of
/// layer groups that share one set of parameters.
#[derive(Clone, Copy, Debug, PartialEq, Eq, Structural)]
pub struct AlbertConfig {
    pub attention_probs_dropout_prob: u64,
    pub hidden_act: Activation,
    pub hidden_dropout_prob: u64,
    pub hidden_size: usize,
    pub initializer_range: u64,
    pub intermediate_size: usize,
    pub layer_norm_eps: u64,
    pub max_position_embeddings: usize,
    pub num_attention_heads: usize,
    pub num_hidden_layers: usize,
    pub type_vocab_size: usize,
    pub vocab_size: usize,
    /// Width of the word-piece embeddings, projected up to `hidden_size`
    /// by the encoder.
    pub embedding_size: usize,
    /// Number of parameter-sharing groups the layers are partitioned into.
    pub num_hidden_groups: usize,
}

impl AlbertConfig {
    /// The generic configuration this family derives; a pure, total,
    /// deterministic mapping with no validation of its own.
    pub open spec fn derived_bert(self) -> BertConfig {
        BertConfig {
            attention_probs_dropout_prob: self.attention_probs_dropout_prob,
            hidden_act: self.hidden_act,
            hidden_dropout_prob: self.hidden_dropout_prob,
            hidden_size: self.hidden_size,
            initializer_range: self.initializer_range,
            intermediate_size: self.intermediate_size,
            layer_norm_eps: self.layer_norm_eps,
            max_position_embeddings: self.max_position_embeddings,
            num_attention_heads: self.num_attention_heads,
            num_hidden_layers: self.num_hidden_layers,
            type_vocab_size: self.type_vocab_size,
            vocab_size: self.vocab_size,
        }
    }

    /// Validity adds to the generic conditions: a bounded embedding width
    /// and a group count that partitions the layers evenly.
    pub open spec fn valid(self) -> bool {
        &&& self.derived_bert().valid()
        &&& 0 < self.embedding_size <= MAX_DIM
        &&& 0 < self.num_hidden_groups <= MAX_DIM
        &&& self.num_hidden_layers % self.num_hidden_groups == 0
    }

    /// Derives the generic configuration.
    pub fn to_bert(&self) -> (c: BertConfig)
        ensures
            c == self.derived_bert(),
    {
        BertConfig {
            attention_probs_dropout_prob: self.attention_probs_dropout_prob,
            hidden_act: self.hidden_act,
            hidden_dropout_prob: self.hidden_dropout_prob,
            hidden_size: self.hidden_size,
            initializer_range: self.initializer_range,
            intermediate_size: self.intermediate_size,
            layer_norm_eps: self.layer_norm_eps,
            max_position_embeddings: self.max_position_embeddings,
            num_attention_heads: self.num_attention_heads,
            num_hidden_layers: self.num_hidden_layers,
            type_vocab_size: self.type_vocab_size,
            vocab_size: self.vocab_size,
        }
    }

    /// Checks validity.
    pub fn check(&self) -> (r: bool)
        ensures
            r == self.valid(),
    {
        self.to_bert().check() && 0 < self.embedding_size && self.embedding_size <= MAX_DIM
            && 0 < self.num_hidden_groups && self.num_hidden_groups <= MAX_DIM
            && self.num_hidden_layers % self.num_hidden_groups == 0
    }
}

/// Configuration of the SqueezeBERT family: a generic configuration plus
/// the group counts of the grouped pointwise convolutions that replace the
/// dense projections.
#[derive(Clone, Copy, Debug, PartialEq, Eq, Structural)]
pub struct SqueezeBertConfig {
    pub attention_probs_dropout_prob: u64,
    pub hidden_act: Activation,
    pub hidden_dropout_prob: u64,
    pub hidden_size: usize,
    pub initializer_range: u64,
    pub intermediate_size: usize,
    pub layer_norm_eps: u64,
    pub max_position_embeddings: usize,
    pub num_attention_heads: usize,
    pub num_hidden_layers: usize,
    pub type_vocab_size: usize,
    pub vocab_size: usize,
    /// Width of the word-piece embeddings.
    pub embedding_size: usize,
    /// Convolution groups of the query projection.
    pub q_groups: usize,
    /// Convolution groups of the key projection.
    pub k_groups: usize,
    /// Convolution groups of the value projection.
    pub v_groups: usize,
    /// Convolution groups of the projection merging attention output back
    /// into the residual stream.
    pub post_attention_groups: usize,
    /// Convolution groups of the feed-forward expansion.
    pub intermediate_groups: usize,
    /// Convolution groups of the projection merging the expansion back.
    pub output_groups: usize,
}

/// A grouped pointwise convolution is well-formed when the group count
/// divides both its input and its output channel count.
pub open spec fn groups_divide(cin: usize, cout: usize, groups: usize) -> bool {
    &&& 0 < groups
    &&& cin % groups == 0
    &&& cout % groups == 0
}

impl SqueezeBertConfig {
    /// The generic configuration this family derives; a pure, total,
    /// deterministic mapping with no validation of its own.
    pub open spec fn derived_bert(self) -> BertConfig {
        BertConfig {
            attention_probs_dropout_prob: self.attention_probs_dropout_prob,
            hidden_act: self.hidden_act,
            hidden_dropout_prob: self.hidden_dropout_prob,
            hidden_size: self.hidden_size,
            initializer_range: self.initializer_range,
            intermediate_size: self.intermediate_size,
            layer_norm_eps: self.layer_norm_eps,
            max_position_embeddings: self.max_position_embeddings,
            num_attention_heads: self.num_attention_heads,
            num_hidden_layers: self.num_hidden_layers,
            type_vocab_size: self.type_vocab_size,
            vocab_size: self.vocab_size,
        }
    }

    /// Validity adds to the generic conditions: every grouped convolution
    /// of a layer must have channel counts divisible by its group count.
    pub open spec fn valid(self) -> bool {
        &&& self.derived_bert().valid()
        &&& 0 < self.embedding_size <= MAX_DIM
        &&& groups_divide(self.hidden_size, self.hidden_size, self.q_groups)
        &&& groups_divide(self.hidden_size, self.hidden_size, self.k_groups)
        &&& groups_divide(self.hidden_size, self.hidden_size, self.v_groups)
        &&& groups_divide(self.hidden_size, self.hidden_size, self.post_attention_groups)
        &&& groups_divide(self.hidden_size, self.intermediate_size, self.intermediate_groups)
        &&& groups_divide(self.intermediate_size, self.hidden_size, self.output_groups)
    }

    /// Derives the generic configuration.
    pub fn to_bert(&self) -> (c: BertConfig)
        ensures
            c == self.derived_bert(),
    {
        BertConfig {
            attention_probs_dropout_prob: self.attention_probs_dropout_prob,
            hidden_act: self.hidden_act,
            hidden_dropout_prob: self.hidden_dropout_prob,
            hidden_size: self.hidden_size,
            initializer_range: self.initializer_range,
            intermediate_size: self.intermediate_size,
            layer_norm_eps: self.layer_norm_eps,
            max_position_embeddings: self.max_position_embeddings,
            num_attention_heads: self.num_attention_heads,
            num_hidden_layers: self.num_hidden_layers,
            type_vocab_size: self.type_vocab_size,
            vocab_size: self.vocab_size,
        }
    }

    /// Checks validity.
    pub fn check(&self) -> (r: bool)
        ensures
            r == self.valid(),
    {
        self.to_bert().check() && 0 < self.embedding_size && self.embedding_size <= MAX_DIM
            && check_groups(self.hidden_size, self.hidden_size, self.q_groups)
            && check_groups(self.hidden_size, self.hidden_size, self.k_groups)
            && check_groups(self.hidden_size, self.hidden_size, self.v_groups)
            && check_groups(self.hidden_size, self.hidden_size, self.post_attention_groups)
            && check_groups(self.hidden_size, self.intermediate_size, self.intermediate_groups)
            && check_groups(self.intermediate_size, self.hidden_size, self.output_groups)
    }
}

/// Checks the divisibility conditions of one grouped convolution.
pub fn check_groups(cin: usize, cout: usize, groups: usize) -> (r: bool)
    ensures
        r == groups_divide(cin, cout, groups),
{
    0 < groups && cin % groups == 0 && cout % groups == 0
}

/// Configuration of the SqueezeALBERT family: SqueezeBERT layers combined
/// with ALBERT-style parameter sharing and a separate embedding width.
#[derive(Clone, Copy, Debug, PartialEq, Eq, Structural)]
pub struct SqueezeAlbertConfig {
    pub attention_probs_dropout_prob: u64,
    pub hidden_act: Activation,
    pub hidden_dropout_prob: u64,
    pub hidden_size: usize,
    pub initializer_range: u64,
    pub intermediate_size: usize,
    pub layer_norm_eps: u64,
    pub max_position_embeddings: usize,
    pub num_attention_heads: usize,
    pub num_hidden_layers: usize,
    pub type_vocab_size: usize,
    pub vocab_size: usize,
    /// Width of the word-piece embeddings, projected up to `hidden_size`
    /// by the encoder.
    pub embedding_size: usize,
    /// Number of parameter-sharing groups the layers are partitioned into.
    pub num_hidden_groups: usize,
    pub q_groups: usize,
    pub k_groups: usize,
    pub v_groups: usize,
    pub post_attention_groups: usize,
    pub intermediate_groups: usize,
    pub output_groups: usize,
}

impl SqueezeAlbertConfig {
    /// The ALBERT configuration this family derives.
    pub open spec fn derived_albert(self) -> AlbertConfig {
        AlbertConfig {
            attention_probs_dropout_prob: self.attention_probs_dropout_prob,
            hidden_act: self.hidden_act,
            hidden_dropout_prob: self.hidden_dropout_prob,
            hidden_size: self.hidden_size,
            initializer_range: self.initializer_range,
            intermediate_size: self.intermediate_size,
            layer_norm_eps: self.layer_norm_eps,
            max_position_embeddings: self.max_position_embeddings,
            num_attention_heads: self.num_attention_heads,
            num_hidden_layers: self.num_hidden_layers,
            type_vocab_size: self.type_vocab_size,
            vocab_size: self.vocab_size,
            embedding_size: self.embedding_size,
            num_hidden_groups: self.num_hidden_groups,
        }
    }

    /// The SqueezeBERT configuration this family derives.
    pub open spec fn derived_squeeze_bert(self) -> SqueezeBertConfig {
        SqueezeBertConfig {
            attention_probs_dropout_prob: self.attention_probs_dropout_prob,
            hidden_act: self.hidden_act,
            hidden_dropout_prob: self.hidden_dropout_prob,
            hidden_size: self.hidden_size,
            initializer_range: self.initializer_range,
            intermediate_size: self.intermediate_size,
            layer_norm_eps: self.layer_norm_eps,
            max_position_embeddings: self.max_position_embeddings,
            num_attention_heads: self.num_attention_heads,
            num_hidden_layers: self.num_hidden_layers,
            type_vocab_size: self.type_vocab_size,
            vocab_size: self.vocab_size,
            embedding_size: self.embedding_size,
            q_groups: self.q_groups,
            k_groups: self.k_groups,
            v_groups: self.v_groups,
            post_attention_groups: self.post_attention_groups,
            intermediate_groups: self.intermediate_groups,
            output_groups: self.output_groups,
        }
    }

    /// The generic configuration this family derives.
    pub open spec fn derived_bert(self) -> BertConfig {
        self.derived_squeeze_bert().derived_bert()
    }

    /// Valid when both derived configurations are.
    pub open spec fn valid(self) -> bool {
        &&& self.derived_albert().valid()
        &&& self.derived_squeeze_bert().valid()
    }

    /// Derives the ALBERT configuration.
    pub fn to_albert(&self) -> (c: AlbertConfig)
        ensures
            c == self.derived_albert(),
    {
        AlbertConfig {
            attention_probs_dropout_prob: self.attention_probs_dropout_prob,
            hidden_act: self.hidden_act,
            hidden_dropout_prob: self.hidden_dropout_prob,
            hidden_size: self.hidden_size,
            initializer_range: self.initializer_range,
            intermediate_size: self.intermediate_size,
            layer_norm_eps: self.layer_norm_eps,
            max_position_embeddings: self.max_position_embeddings,
            num_attention_heads: self.num_attention_heads,
            num_hidden_layers: self.num_hidden_layers,
            type_vocab_size: self.type_vocab_size,
            vocab_size: self.vocab_size,
            embedding_size: self.embedding_size,
            num_hidden_groups: self.num_hidden_groups,
        }
    }

    /// Derives the SqueezeBERT configuration.
    pub fn to_squeeze_bert(&self) -> (c: SqueezeBertConfig)
        ensures
            c == self.derived_squeeze_bert(),
    {
        SqueezeBertConfig {
            attention_probs_dropout_prob: self.attention_probs_dropout_prob,
            hidden_act: self.hidden_act,
            hidden_dropout_prob: self.hidden_dropout_prob,
            hidden_size: self.hidden_size,
            initializer_range: self.initializer_range,
            intermediate_size: self.intermediate_size,
            layer_norm_eps: self.layer_norm_eps,
            max_position_embeddings: self.max_position_embeddings,
            num_attention_heads: self.num_attention_heads,
            num_hidden_layers: self.num_hidden_layers,
            type_vocab_size: self.type_vocab_size,
            vocab_size: self.vocab_size,
            embedding_size: self.embedding_size,
            q_groups: self.q_groups,
            k_groups: self.k_groups,
            v_groups: self.v_groups,
            post_attention_groups: self.post_attention_groups,
            intermediate_groups: self.intermediate_groups,
            output_groups: self.output_groups,
        }
    }

    /// Checks validity.
    pub fn check(&self) -> (r: bool)
        ensures
            r == self.valid(),
    {
        self.to_albert().check() && self.to_squeeze_bert().check()
    }
}

/// The closed set of architecture families a model can be built from,
/// fixed at construction and never changed afterwards.
#[derive(Clone, Copy, Debug)]
pub enum PretrainConfig {
    Albert(AlbertConfig),
    Bert(BertConfig),
    SqueezeAlbert(SqueezeAlbertConfig),
    SqueezeBert(SqueezeBertConfig),
    XlmRoberta(BertConfig),
}

impl PretrainConfig {
    /// Valid when the carried per-family configuration is.
    pub open spec fn valid(self) -> bool {
        match self {
            PretrainConfig::Albert(c) => c.valid(),
            PretrainConfig::Bert(c) => c.valid(),
            PretrainConfig::SqueezeAlbert(c) => c.valid(),
            PretrainConfig::SqueezeBert(c) => c.valid(),
            PretrainConfig::XlmRoberta(c) => c.valid(),
        }
    }

    /// Checks validity of the carried configuration.
    pub fn check(&self) -> (r: bool)
        ensures
            r == self.valid(),
    {
        match self {
            PretrainConfig::Albert(c) => c.check(),
            PretrainConfig::Bert(c) => c.check(),
            PretrainConfig::SqueezeAlbert(c) => c.check(),
            PretrainConfig::SqueezeBert(c) => c.check(),
            PretrainConfig::XlmRoberta(c) => c.check(),
        }
    }
}

/// How position information enters the input embeddings: either learned by
/// the model or computed sinusoidally (optionally followed by
/// normalization).
#[derive(Clone, Copy, Debug, PartialEq, Eq, Structural)]
pub enum PositionEmbeddings {
    /// Learned position embeddings, restored or trained with the model.
    Model,
    /// Fixed sinusoidal position embeddings.
    Sinusoidal { normalize: bool },
}

/// Access to the generic configuration a pretraining configuration
/// derives.
pub trait PretrainBertConfig {
    /// The derived generic configuration.
    spec fn spec_bert_config(&self) -> BertConfig;

    /// Returns the derived generic configuration.
    fn bert_config(&self) -> (c: BertConfig)
        ensures
            c == self.spec_bert_config(),
    ;
}

impl PretrainBertConfig for PretrainConfig {
    open spec fn spec_bert_config(&self) -> BertConfig {
        match *self {
            PretrainConfig::Albert(c) => c.derived_bert(),
            PretrainConfig::Bert(c) => c,
            PretrainConfig::SqueezeAlbert(c) => c.derived_bert(),
            PretrainConfig::SqueezeBert(c) => c.derived_bert(),
            PretrainConfig::XlmRoberta(c) => c,
        }
    }

    fn bert_config(&self) -> (c: BertConfig)
        ensures
            c == self.spec_bert_config(),
    {
        match self {
            PretrainConfig::Albert(c) => c.to_bert(),
            PretrainConfig::Bert(c) => *c,
            PretrainConfig::SqueezeAlbert(c) => c.to_squeeze_bert().to_bert(),
            PretrainConfig::SqueezeBert(c) => c.to_bert(),
            PretrainConfig::XlmRoberta(c) => *c,
        }
    }
}

} // verus!
