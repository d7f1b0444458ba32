//! Input embedding layers, polymorphic over the architecture families.
//!
//! Every variant turns a `[batch, seq_len]` batch of token ids into a
//! rank-3 hidden-state tensor and validates its input the same way:
//! every id must name an existing word piece, and — for variants with
//! learned position embeddings — the sequence must not outgrow the
//! position table.

use vstd::prelude::*;

use crate::config::{AlbertConfig, BertConfig, MAX_DIM};
use crate::error::{computation_error, configuration_error, shape_error, TransformerError};
use crate::layers::{layer_norm_vars, Dropout};
use crate::store::{spec_sub_path, sub_path, var_view, Init, ParameterStore, VarView};
use crate::tensor::{Tensor, TokenIds};

verus! {

/// The weight table of one embedding lookup: `rows` embeddings of width
/// `dim`, under `<prefix>.<name>.weight`.
pub open spec fn embedding_weight_var(
    prefix: Seq<char>,
    name: Seq<char>,
    rows: usize,
    dim: usize,
    stdev: u64,
) -> Seq<VarView> {
    seq![
        var_view(
            spec_sub_path(spec_sub_path(prefix, name), "weight"@),
            seq![rows, dim],
            (Init::RandomNormal { mean: 0, stdev }),
        ),
    ]
}

/// The parameters of the generic embedding layer: word, position and
/// token-type tables plus the final layer normalization.
pub open spec fn bert_embeddings_vars(prefix: Seq<char>, config: BertConfig) -> Seq<VarView> {
    embedding_weight_var(
        prefix,
        "word_embeddings"@,
        config.vocab_size,
        config.hidden_size,
        config.initializer_range,
    ) + embedding_weight_var(
        prefix,
        "position_embeddings"@,
        config.max_position_embeddings,
        config.hidden_size,
        config.initializer_range,
    ) + embedding_weight_var(
        prefix,
        "token_type_embeddings"@,
        config.type_vocab_size,
        config.hidden_size,
        config.initializer_range,
    ) + layer_norm_vars(spec_sub_path(prefix, "layer_norm"@), config.hidden_size)
}

/// The parameters of the ALBERT embedding layer: the same tables, but of
/// the (typically narrower) embedding width.
pub open spec fn albert_embeddings_vars(prefix: Seq<char>, config: AlbertConfig) -> Seq<VarView> {
    embedding_weight_var(
        prefix,
        "word_embeddings"@,
        config.vocab_size,
        config.embedding_size,
        config.initializer_range,
    ) + embedding_weight_var(
        prefix,
        "position_embeddings"@,
        config.max_position_embeddings,
        config.embedding_size,
        config.initializer_range,
    ) + embedding_weight_var(
        prefix,
        "token_type_embeddings"@,
        config.type_vocab_size,
        config.embedding_size,
        config.initializer_range,
    ) + layer_norm_vars(spec_sub_path(prefix, "layer_norm"@), config.embedding_size)
}

/// The parameters of the sinusoidal embedding layer: only the word table
/// and the layer normalization — positions are computed, not learned.
pub open spec fn sinusoidal_embeddings_vars(
    prefix: Seq<char>,
    vocab_size: usize,
    dim: usize,
    stdev: u64,
) -> Seq<VarView> {
    embedding_weight_var(prefix, "word_embeddings"@, vocab_size, dim, stdev)
        + layer_norm_vars(spec_sub_path(prefix, "layer_norm"@), dim)
}

/// Shared forward step of every embedding variant: validates the ids
/// (and, when a position table bounds it, the sequence length) and
/// produces the `[batch, seq_len, dim]` embedding.
fn embed_forward(input: &TokenIds, vocab_size: usize, dim: usize, max_len: Option<usize>) -> (r:
    Result<Tensor, TransformerError>)
    requires
        input.wf(),
    ensures
        r is Ok <==> {
            &&& (match max_len {
                Some(ml) => input.spec_seq_len() <= ml,
                None => true,
            })
            &&& input.all_in_vocab(vocab_size)
        },
        r matches Ok(t) ==> {
            &&& t.dims@ == seq![
                input.spec_batch_size() as usize,
                input.spec_seq_len() as usize,
                dim,
            ]
            &&& t.requires_grad
        },
        (match max_len {
            Some(ml) => input.spec_seq_len() > ml,
            None => false,
        }) ==> (r matches Err(e) && e is Shape),
        ((match max_len {
            Some(ml) => input.spec_seq_len() <= ml,
            None => true,
        }) && !input.all_in_vocab(vocab_size)) ==> (r matches Err(e) && e is Computation),
{
    let batch = input.batch_size();
    let seq_len = input.seq_len();
    if let Some(ml) = max_len {
        if seq_len > ml {
            return Err(shape_error("position_embeddings", vec![ml], vec![seq_len]));
        }
    }
    if !input.check_in_vocab(vocab_size) {
        return Err(computation_error("embedding_lookup"));
    }
    let t = Tensor { dims: vec![batch, seq_len, dim], requires_grad: true };
    proof {
        assert(t.dims@ =~= seq![
            input.spec_batch_size() as usize,
            input.spec_seq_len() as usize,
            dim,
        ]);
    }
    Ok(t)
}

/// Generic learned embeddings: token plus position plus segment, then
/// normalization and dropout.
#[derive(Debug)]
pub struct BertEmbeddings {
    pub vocab_size: usize,
    pub max_position_embeddings: usize,
    pub embedding_dim: usize,
    pub dropout: Dropout,
}

impl BertEmbeddings {
    /// Every table dimension is positive and bounded.
    pub open spec fn wf(self) -> bool {
        &&& 0 < self.vocab_size <= MAX_DIM
        &&& 0 < self.max_position_embeddings <= MAX_DIM
        &&& 0 < self.embedding_dim <= MAX_DIM
    }

    /// Creates the three tables and the normalization; an invalid
    /// configuration is rejected before any parameter is created.
    pub fn new(store: &mut ParameterStore, prefix: &str, config: &BertConfig) -> (r: Result<
        BertEmbeddings,
        TransformerError,
    >)
        ensures
            r is Ok <==> config.valid(),
            r matches Ok(e) ==> {
                &&& final(store)@ == old(store)@ + bert_embeddings_vars(prefix@, *config)
                &&& e.wf()
                &&& e.vocab_size == config.vocab_size
                &&& e.max_position_embeddings == config.max_position_embeddings
                &&& e.embedding_dim == config.hidden_size
                &&& e.dropout.p == config.hidden_dropout_prob
            },
            r is Err ==> final(store)@ == old(store)@,
            r matches Err(e) ==> e is Configuration,
    {
        if !config.check() {
            return Err(configuration_error("bert_embeddings"));
        }
        register_embedding_tables(
            store,
            prefix,
            config.vocab_size,
            config.max_position_embeddings,
            config.type_vocab_size,
            config.hidden_size,
            config.initializer_range,
            config.layer_norm_eps,
        );
        proof {
            assert(final(store)@ =~~= old(store)@ + bert_embeddings_vars(prefix@, *config));
        }
        Ok(
            BertEmbeddings {
                vocab_size: config.vocab_size,
                max_position_embeddings: config.max_position_embeddings,
                embedding_dim: config.hidden_size,
                dropout: Dropout::new(config.hidden_dropout_prob),
            },
        )
    }

    /// Embeds a batch of token ids into `[batch, seq_len, hidden]`.
    pub fn forward_t(&self, input: &TokenIds, train: bool) -> (r: Result<Tensor, TransformerError>)
        requires
            input.wf(),
        ensures
            r is Ok <==> (input.spec_seq_len() <= self.max_position_embeddings
                && input.all_in_vocab(self.vocab_size)),
            r matches Ok(t) ==> {
                &&& t.dims@ == seq![
                    input.spec_batch_size() as usize,
                    input.spec_seq_len() as usize,
                    self.embedding_dim,
                ]
                &&& t.requires_grad
            },
            input.spec_seq_len() > self.max_position_embeddings ==> (r matches Err(e)
                && e is Shape),
            (input.spec_seq_len() <= self.max_position_embeddings && !input.all_in_vocab(
                self.vocab_size,
            )) ==> (r matches Err(e) && e is Computation),
    {
        let _ = train;
        embed_forward(input, self.vocab_size, self.embedding_dim, Some(self.max_position_embeddings))
    }
}

/// Creates the word, position and token-type tables and the layer
/// normalization that the learned embedding variants share.
fn register_embedding_tables(
    store: &mut ParameterStore,
    prefix: &str,
    vocab_size: usize,
    max_position_embeddings: usize,
    type_vocab_size: usize,
    dim: usize,
    stdev: u64,
    eps: u64,
)
    ensures
        final(store)@ == old(store)@ + embedding_weight_var(
            prefix@,
            "word_embeddings"@,
            vocab_size,
            dim,
            stdev,
        ) + embedding_weight_var(prefix@, "position_embeddings"@, max_position_embeddings, dim, stdev)
            + embedding_weight_var(prefix@, "token_type_embeddings"@, type_vocab_size, dim, stdev)
            + layer_norm_vars(spec_sub_path(prefix@, "layer_norm"@), dim),
{
    let word_prefix = sub_path(prefix, "word_embeddings");
    store.var(
        sub_path(word_prefix.as_str(), "weight"),
        vec![vocab_size, dim],
        Init::RandomNormal { mean: 0, stdev },
    );
    let pos_prefix = sub_path(prefix, "position_embeddings");
    store.var(
        sub_path(pos_prefix.as_str(), "weight"),
        vec![max_position_embeddings, dim],
        Init::RandomNormal { mean: 0, stdev },
    );
    let tt_prefix = sub_path(prefix, "token_type_embeddings");
    store.var(
        sub_path(tt_prefix.as_str(), "weight"),
        vec![type_vocab_size, dim],
        Init::RandomNormal { mean: 0, stdev },
    );
    let ln_prefix = sub_path(prefix, "layer_norm");
    let _ = crate::layers::LayerNorm::new(store, ln_prefix.as_str(), dim, eps, true);
    proof {
        assert(final(store)@ =~~= old(store)@ + embedding_weight_var(
            prefix@,
            "word_embeddings"@,
            vocab_size,
            dim,
            stdev,
        ) + embedding_weight_var(prefix@, "position_embeddings"@, max_position_embeddings, dim, stdev)
            + embedding_weight_var(prefix@, "token_type_embeddings"@, type_vocab_size, dim, stdev)
            + layer_norm_vars(spec_sub_path(prefix@, "layer_norm"@), dim));
    }
}

/// ALBERT embeddings: the same three tables, of the embedding width; the
/// encoder projects up to the hidden width.
#[derive(Debug)]
pub struct AlbertEmbeddings {
    pub vocab_size: usize,
    pub max_position_embeddings: usize,
    pub embedding_dim: usize,
    pub dropout: Dropout,
}

impl AlbertEmbeddings {
    /// Every table dimension is positive and bounded.
    pub open spec fn wf(self) -> bool {
        &&& 0 < self.vocab_size <= MAX_DIM
        &&& 0 < self.max_position_embeddings <= MAX_DIM
        &&& 0 < self.embedding_dim <= MAX_DIM
    }

    /// Creates the tables of the embedding width; an invalid
    /// configuration is rejected before any parameter is created.
    pub fn new(store: &mut ParameterStore, prefix: &str, config: &AlbertConfig) -> (r: Result<
        AlbertEmbeddings,
        TransformerError,
    >)
        ensures
            r is Ok <==> config.valid(),
            r matches Ok(e) ==> {
                &&& final(store)@ == old(store)@ + albert_embeddings_vars(prefix@, *config)
                &&& e.wf()
                &&& e.vocab_size == config.vocab_size
                &&& e.max_position_embeddings == config.max_position_embeddings
                &&& e.embedding_dim == config.embedding_size
                &&& e.dropout.p == config.hidden_dropout_prob
            },
            r is Err ==> final(store)@ == old(store)@,
            r matches Err(e) ==> e is Configuration,
    {
        if !config.check() {
            return Err(configuration_error("albert_embeddings"));
        }
        register_embedding_tables(
            store,
            prefix,
            config.vocab_size,
            config.max_position_embeddings,
            config.type_vocab_size,
            config.embedding_size,
            config.initializer_range,
            config.layer_norm_eps,
        );
        proof {
            assert(final(store)@ =~~= old(store)@ + albert_embeddings_vars(prefix@, *config));
        }
        Ok(
            AlbertEmbeddings {
                vocab_size: config.vocab_size,
                max_position_embeddings: config.max_position_embeddings,
                embedding_dim: config.embedding_size,
                dropout: Dropout::new(config.hidden_dropout_prob),
            },
        )
    }

    /// Embeds a batch of token ids into `[batch, seq_len, embedding]`.
    pub fn forward_t(&self, input: &TokenIds, train: bool) -> (r: Result<Tensor, TransformerError>)
        requires
            input.wf(),
        ensures
            r is Ok <==> (input.spec_seq_len() <= self.max_position_embeddings
                && input.all_in_vocab(self.vocab_size)),
            r matches Ok(t) ==> {
                &&& t.dims@ == seq![
                    input.spec_batch_size() as usize,
                    input.spec_seq_len() as usize,
                    self.embedding_dim,
                ]
                &&& t.requires_grad
            },
            input.spec_seq_len() > self.max_position_embeddings ==> (r matches Err(e)
                && e is Shape),
            (input.spec_seq_len() <= self.max_position_embeddings && !input.all_in_vocab(
                self.vocab_size,
            )) ==> (r matches Err(e) && e is Computation),
    {
        let _ = train;
        embed_forward(input, self.vocab_size, self.embedding_dim, Some(self.max_position_embeddings))
    }
}

/// RoBERTa embeddings: structurally the generic layer; the variant only
/// offsets its position ids past the padding id, which changes neither
/// the namespace nor any shape.
#[derive(Debug)]
pub struct RobertaEmbeddings {
    pub vocab_size: usize,
    pub max_position_embeddings: usize,
    pub embedding_dim: usize,
    pub dropout: Dropout,
}

impl RobertaEmbeddings {
    /// Every table dimension is positive and bounded.
    pub open spec fn wf(self) -> bool {
        &&& 0 < self.vocab_size <= MAX_DIM
        &&& 0 < self.max_position_embeddings <= MAX_DIM
        &&& 0 < self.embedding_dim <= MAX_DIM
    }

    /// Creates the three tables and the normalization; an invalid
    /// configuration is rejected before any parameter is created.
    pub fn new(store: &mut ParameterStore, prefix: &str, config: &BertConfig) -> (r: Result<
        RobertaEmbeddings,
        TransformerError,
    >)
        ensures
            r is Ok <==> config.valid(),
            r matches Ok(e) ==> {
                &&& final(store)@ == old(store)@ + bert_embeddings_vars(prefix@, *config)
                &&& e.wf()
                &&& e.vocab_size == config.vocab_size
                &&& e.max_position_embeddings == config.max_position_embeddings
                &&& e.embedding_dim == config.hidden_size
                &&& e.dropout.p == config.hidden_dropout_prob
            },
            r is Err ==> final(store)@ == old(store)@,
            r matches Err(e) ==> e is Configuration,
    {
        if !config.check() {
            return Err(configuration_error("roberta_embeddings"));
        }
        register_embedding_tables(
            store,
            prefix,
            config.vocab_size,
            config.max_position_embeddings,
            config.type_vocab_size,
            config.hidden_size,
            config.initializer_range,
            config.layer_norm_eps,
        );
        proof {
            assert(final(store)@ =~~= old(store)@ + bert_embeddings_vars(prefix@, *config));
        }
        Ok(
            RobertaEmbeddings {
                vocab_size: config.vocab_size,
                max_position_embeddings: config.max_position_embeddings,
                embedding_dim: config.hidden_size,
                dropout: Dropout::new(config.hidden_dropout_prob),
            },
        )
    }

    /// Embeds a batch of token ids into `[batch, seq_len, hidden]`.
    pub fn forward_t(&self, input: &TokenIds, train: bool) -> (r: Result<Tensor, TransformerError>)
        requires
            input.wf(),
        ensures
            r is Ok <==> (input.spec_seq_len() <= self.max_position_embeddings
                && input.all_in_vocab(self.vocab_size)),
            r matches Ok(t) ==> {
                &&& t.dims@ == seq![
                    input.spec_batch_size() as usize,
                    input.spec_seq_len() as usize,
                    self.embedding_dim,
                ]
                &&& t.requires_grad
            },
            input.spec_seq_len() > self.max_position_embeddings ==> (r matches Err(e)
                && e is Shape),
            (input.spec_seq_len() <= self.max_position_embeddings && !input.all_in_vocab(
                self.vocab_size,
            )) ==> (r matches Err(e) && e is Computation),
    {
        let _ = train;
        embed_forward(input, self.vocab_size, self.embedding_dim, Some(self.max_position_embeddings))
    }
}

/// Word-piece embeddings with computed sinusoidal position embeddings,
/// optionally length-normalized; no learned position table, so any
/// sequence length is accepted.
#[derive(Debug)]
pub struct SinusoidalEmbeddings {
    pub vocab_size: usize,
    pub embedding_dim: usize,
    pub normalize: bool,
    pub dropout: Dropout,
}

impl SinusoidalEmbeddings {
    /// Every table dimension is positive and bounded.
    pub open spec fn wf(self) -> bool {
        &&& 0 < self.vocab_size <= MAX_DIM
        &&& 0 < self.embedding_dim <= MAX_DIM
    }

    /// Creates the word table and the normalization.
    pub fn new(
        store: &mut ParameterStore,
        prefix: &str,
        vocab_size: usize,
        dim: usize,
        eps: u64,
        stdev: u64,
        normalize: bool,
        dropout_prob: u64,
    ) -> (r: SinusoidalEmbeddings)
        requires
            0 < vocab_size <= MAX_DIM,
            0 < dim <= MAX_DIM,
            dropout_prob <= crate::config::FIXED_ONE,
        ensures
            final(store)@ == old(store)@ + sinusoidal_embeddings_vars(
                prefix@,
                vocab_size,
                dim,
                stdev,
            ),
            r.wf(),
            r.vocab_size == vocab_size,
            r.embedding_dim == dim,
            r.normalize == normalize,
            r.dropout.p == dropout_prob,
    {
        let word_prefix = sub_path(prefix, "word_embeddings");
        store.var(
            sub_path(word_prefix.as_str(), "weight"),
            vec![vocab_size, dim],
            Init::RandomNormal { mean: 0, stdev },
        );
        let ln_prefix = sub_path(prefix, "layer_norm");
        let _ = crate::layers::LayerNorm::new(store, ln_prefix.as_str(), dim, eps, true);
        proof {
            assert(final(store)@ =~~= old(store)@ + sinusoidal_embeddings_vars(
                prefix@,
                vocab_size,
                dim,
                stdev,
            ));
        }
        SinusoidalEmbeddings {
            vocab_size,
            embedding_dim: dim,
            normalize,
            dropout: Dropout::new(dropout_prob),
        }
    }

    /// Embeds a batch of token ids into `[batch, seq_len, dim]`; the
    /// computed positions place no bound on the sequence length.
    pub fn forward_t(&self, input: &TokenIds, train: bool) -> (r: Result<Tensor, TransformerError>)
        requires
            input.wf(),
        ensures
            r is Ok <==> input.all_in_vocab(self.vocab_size),
            r matches Ok(t) ==> {
                &&& t.dims@ == seq![
                    input.spec_batch_size() as usize,
                    input.spec_seq_len() as usize,
                    self.embedding_dim,
                ]
                &&& t.requires_grad
            },
            r matches Err(e) ==> e is Computation,
    {
        let _ = train;
        embed_forward(input, self.vocab_size, self.embedding_dim, None)
    }
}

} // verus!
