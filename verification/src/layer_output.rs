//! Per-layer outputs and the shape of an encoder's output trace.
//!
//! An encoder stack returns one [`LayerOutput`] per layer plus one for the
//! embedding it consumed, embedding first, layer index ascending.  The
//! predicate [`encode_trace_post`] states the structure every encoder
//! family guarantees of that trace.

use vstd::prelude::*;

use crate::tensor::Tensor;

verus! {

/// Hidden states of one encoder layer together with the raw (pre-softmax)
/// attention scores the layer computed, retained for attention
/// inspection.
#[derive(Debug)]
pub struct HiddenLayer {
    pub output: Tensor,
    pub attention: Tensor,
}

/// One entry of the output trace: either the embedding the stack
/// consumed, or the output of one encoder layer with its attention
/// scores.
#[derive(Debug)]
pub enum LayerOutput {
    Embedding(Tensor),
    EncoderWithAttention(HiddenLayer),
}

impl LayerOutput {
    /// The hidden states carried by this entry.
    pub open spec fn spec_output(self) -> Tensor {
        match self {
            LayerOutput::Embedding(t) => t,
            LayerOutput::EncoderWithAttention(h) => h.output,
        }
    }

    /// The same entry with its hidden states replaced.
    pub open spec fn spec_with_output(self, t: Tensor) -> LayerOutput {
        match self {
            LayerOutput::Embedding(_) => LayerOutput::Embedding(t),
            LayerOutput::EncoderWithAttention(h) => LayerOutput::EncoderWithAttention(
                HiddenLayer { output: t, attention: h.attention },
            ),
        }
    }

    /// The hidden states carried by this entry.
    pub fn output(&self) -> (t: &Tensor)
        ensures
            *t == self.spec_output(),
    {
        match self {
            LayerOutput::Embedding(t) => t,
            LayerOutput::EncoderWithAttention(h) => &h.output,
        }
    }

    /// Replaces the hidden states carried by this entry, keeping any
    /// attention scores.
    pub fn set_output(&mut self, t: Tensor)
        ensures
            *final(self) == old(self).spec_with_output(t),
    {
        match self {
            LayerOutput::Embedding(o) => {
                *o = t;
            },
            LayerOutput::EncoderWithAttention(h) => {
                h.output = t;
            },
        }
    }

    /// The attention scores of an encoder-layer entry; the embedding
    /// entry has none.
    pub fn attention(&self) -> (a: Option<&Tensor>)
        ensures
            match a {
                Some(t) => self is EncoderWithAttention && *t == self.spec_attention(),
                None => self is Embedding,
            },
    {
        match self {
            LayerOutput::Embedding(_) => None,
            LayerOutput::EncoderWithAttention(h) => Some(&h.attention),
        }
    }

    /// The same entry with the hidden states and any attention scores
    /// disconnected from the gradient tape.
    pub open spec fn spec_detach_grads(self) -> LayerOutput {
        match self {
            LayerOutput::Embedding(t) => LayerOutput::Embedding(crate::tensor::spec_detached(t)),
            LayerOutput::EncoderWithAttention(h) => LayerOutput::EncoderWithAttention(
                HiddenLayer {
                    output: crate::tensor::spec_detached(h.output),
                    attention: crate::tensor::spec_detached(h.attention),
                },
            ),
        }
    }

    /// Disconnects the hidden states and any attention scores from the
    /// gradient tape: how the outputs of a stage executed in the scoped
    /// no-gradient mode are handed on.
    pub fn detach_grads(&mut self)
        ensures
            *final(self) == old(self).spec_detach_grads(),
    {
        match self {
            LayerOutput::Embedding(t) => {
                t.requires_grad = false;
            },
            LayerOutput::EncoderWithAttention(h) => {
                h.output.requires_grad = false;
                h.attention.requires_grad = false;
            },
        }
    }

    /// The attention scores of an encoder-layer entry.
    pub open spec fn spec_attention(self) -> Tensor
        recommends
            self is EncoderWithAttention,
    {
        match self {
            LayerOutput::Embedding(t) => t,
            LayerOutput::EncoderWithAttention(h) => h.attention,
        }
    }
}

/// Structure of the output trace of an encoder stack with `layer_count`
/// layers over a `[batch, seq_len, hidden]` input:
///
/// - exactly `layer_count + 1` entries;
/// - entry 0 is the embedding, on the gradient tape exactly when
///   `embedding_grad` says so;
/// - entries `1 ..= layer_count` are encoder-layer outputs, on the
///   gradient tape exactly when `layer_grad` says so;
/// - every hidden state has the identical canonical shape
///   `[batch, seq_len, hidden]`;
/// - every attention-score tensor is `[batch, heads, seq_len, seq_len]`,
///   on the gradient tape exactly when `attention_grad` says so.
pub open spec fn encode_trace_post(
    trace: Seq<LayerOutput>,
    layer_count: int,
    batch: usize,
    seq_len: usize,
    hidden: usize,
    heads: usize,
    embedding_grad: bool,
    layer_grad: bool,
    attention_grad: bool,
) -> bool {
    &&& trace.len() == layer_count + 1
    &&& trace[0] is Embedding
    &&& trace[0].spec_output().dims@ == seq![batch, seq_len, hidden]
    &&& trace[0].spec_output().requires_grad == embedding_grad
    &&& forall|i: int| 1 <= i <= layer_count ==> (#[trigger] trace[i]) is EncoderWithAttention
    &&& forall|i: int|
        1 <= i <= layer_count ==> (#[trigger] trace[i]).spec_output().dims@ == seq![
            batch,
            seq_len,
            hidden,
        ]
    &&& forall|i: int|
        1 <= i <= layer_count ==> (#[trigger] trace[i]).spec_output().requires_grad == layer_grad
    &&& forall|i: int|
        1 <= i <= layer_count ==> (#[trigger] trace[i]).spec_attention().dims@ == seq![
            batch,
            heads,
            seq_len,
            seq_len,
        ]
    &&& forall|i: int|
        1 <= i <= layer_count ==> (#[trigger] trace[i]).spec_attention().requires_grad
            == attention_grad
}

/// Freezing changes gradient tracking only: two traces that satisfy the
/// trace contract for the same input shape — however their stages were
/// frozen — agree on length, on entry tags, and on every hidden-state and
/// attention shape.
pub proof fn lemma_freeze_only_changes_grad(
    t1: Seq<LayerOutput>,
    t2: Seq<LayerOutput>,
    layer_count: int,
    batch: usize,
    seq_len: usize,
    hidden: usize,
    heads: usize,
    eg1: bool,
    lg1: bool,
    ag1: bool,
    eg2: bool,
    lg2: bool,
    ag2: bool,
)
    requires
        encode_trace_post(t1, layer_count, batch, seq_len, hidden, heads, eg1, lg1, ag1),
        encode_trace_post(t2, layer_count, batch, seq_len, hidden, heads, eg2, lg2, ag2),
    ensures
        t1.len() == t2.len(),
        forall|i: int|
            0 <= i < t1.len() ==> ((#[trigger] t1[i]) is Embedding <==> t2[i] is Embedding),
        forall|i: int|
            0 <= i < t1.len() ==> (#[trigger] t1[i]).spec_output().dims@
                == t2[i].spec_output().dims@,
        forall|i: int|
            1 <= i < t1.len() ==> (#[trigger] t1[i]).spec_attention().dims@
                == t2[i].spec_attention().dims@,
{
}

} // verus!
