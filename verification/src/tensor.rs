//! Shape-level tensor model.
//!
//! A [`Tensor`] records the dimensions of a numeric array and whether the
//! value participates in gradient tracking.  The element data itself lives
//! in the numeric backend; every operation here states exactly how it
//! transforms the shape and the gradient mark, which is what the encoder
//! core has to get right.

use vstd::prelude::*;

verus! {

/// A numeric array, carried at the shape level.
#[derive(Debug)]
pub struct Tensor {
    /// Size of each axis, outermost first.
    pub dims: Vec<usize>,
    /// True when the value is connected to the gradient tape.
    pub requires_grad: bool,
}

impl Tensor {
    /// Copies the tensor descriptor; the backend shares the storage.
    pub fn shallow_clone(&self) -> (r: Tensor)
        ensures
            r.dims@ == self.dims@,
            r.requires_grad == self.requires_grad,
    {
        Tensor { dims: copy_dims(&self.dims), requires_grad: self.requires_grad }
    }

    /// Disconnects the value from the gradient tape.  This is how a stage
    /// executed in the scoped no-gradient mode hands its result on.
    pub fn detach(self) -> (r: Tensor)
        ensures
            r.dims@ == self.dims@,
            !r.requires_grad,
    {
        Tensor { dims: self.dims, requires_grad: false }
    }
}

/// The same tensor disconnected from the gradient tape.
pub open spec fn spec_detached(t: Tensor) -> Tensor {
    Tensor { dims: t.dims, requires_grad: false }
}

/// Copies a dimension vector.
pub fn copy_dims(dims: &Vec<usize>) -> (r: Vec<usize>)
    ensures
        r@ == dims@,
{
    let mut out: Vec<usize> = Vec::new();
    let mut i: usize = 0;
    while i < dims.len()
        invariant
            i <= dims@.len(),
            out@ == dims@.take(i as int),
        decreases dims@.len() - i,
    {
        out.push(dims[i]);
        i = i + 1;
    }
    proof {
        assert(out@ == dims@.take(dims@.len() as int));
        assert(dims@.take(dims@.len() as int) =~= dims@);
    }
    out
}

/// Swaps the last two axes of a rank-3 tensor: `[a, b, c]` becomes
/// `[a, c, b]`.  Used by encoder families whose internal layout is
/// `[batch, hidden_size, sequence_length]`.
pub fn permute_021(t: &Tensor) -> (r: Tensor)
    requires
        t.dims@.len() == 3,
    ensures
        r.dims@ == seq![t.dims@[0], t.dims@[2], t.dims@[1]],
        r.requires_grad == t.requires_grad,
{
    let d0 = t.dims[0];
    let d1 = t.dims[1];
    let d2 = t.dims[2];
    let r = Tensor { dims: vec![d0, d2, d1], requires_grad: t.requires_grad };
    proof {
        assert(r.dims@ =~= seq![t.dims@[0], t.dims@[2], t.dims@[1]]);
    }
    r
}

/// Swaps the last two axes of a rank-4 tensor: `[a, b, c, d]` becomes
/// `[a, b, d, c]`.  Used to transpose the key layer before the score
/// product.
pub fn permute_0132(t: &Tensor) -> (r: Tensor)
    requires
        t.dims@.len() == 4,
    ensures
        r.dims@ == seq![t.dims@[0], t.dims@[1], t.dims@[3], t.dims@[2]],
        r.requires_grad == t.requires_grad,
{
    let d0 = t.dims[0];
    let d1 = t.dims[1];
    let d2 = t.dims[2];
    let d3 = t.dims[3];
    let r = Tensor { dims: vec![d0, d1, d3, d2], requires_grad: t.requires_grad };
    proof {
        assert(r.dims@ =~= seq![t.dims@[0], t.dims@[1], t.dims@[3], t.dims@[2]]);
    }
    r
}

/// Shape of the head-split form of a rank-3 tensor: splitting the last
/// axis of `[a, s, heads * head_size]` and moving the head axis forward
/// yields `[a, heads, s, head_size]`.
pub open spec fn split_heads_dims(d: Seq<usize>, heads: usize, head_size: usize) -> Seq<usize> {
    seq![d[0], heads, d[1], head_size]
}

/// Shape after re-merging the heads of a rank-4 tensor
/// `[a, heads, s, head_size]` (transposing the head axis back and fusing
/// the two trailing axes into `all_head_size`): `[a, s, all_head_size]`.
pub open spec fn merge_heads_dims(d: Seq<usize>, all_head_size: usize) -> Seq<usize> {
    seq![d[0], d[2], all_head_size]
}

/// Head-splitting followed by head-merging reconstructs the original
/// rank-3 shape whenever the last axis is exactly `heads * head_size`:
/// the split/merge pair is shape-idempotent.
pub proof fn lemma_split_merge_round_trip(d: Seq<usize>, heads: usize, head_size: usize)
    requires
        d.len() == 3,
        d[2] == heads * head_size,
    ensures
        merge_heads_dims(split_heads_dims(d, heads, head_size), d[2]) =~= d,
{
}

/// Splits the last axis of a rank-3 tensor over the attention heads and
/// moves the head axis forward.
pub fn split_heads(t: &Tensor, heads: usize, head_size: usize) -> (r: Tensor)
    requires
        t.dims@.len() == 3,
        t.dims@[2] == heads * head_size,
    ensures
        r.dims@ == split_heads_dims(t.dims@, heads, head_size),
        r.requires_grad == t.requires_grad,
{
    let d0 = t.dims[0];
    let d1 = t.dims[1];
    let r = Tensor { dims: vec![d0, heads, d1, head_size], requires_grad: t.requires_grad };
    proof {
        assert(r.dims@ =~= split_heads_dims(t.dims@, heads, head_size));
    }
    r
}

/// Moves the head axis of a rank-4 tensor back and fuses the two trailing
/// axes into `all_head_size`, restoring the canonical rank-3 layout.
pub fn merge_heads(t: &Tensor, all_head_size: usize) -> (r: Tensor)
    requires
        t.dims@.len() == 4,
        t.dims@[1] * t.dims@[3] == all_head_size,
    ensures
        r.dims@ == merge_heads_dims(t.dims@, all_head_size),
        r.requires_grad == t.requires_grad,
{
    let d0 = t.dims[0];
    let d2 = t.dims[2];
    let r = Tensor { dims: vec![d0, d2, all_head_size], requires_grad: t.requires_grad };
    proof {
        assert(r.dims@ =~= merge_heads_dims(t.dims@, all_head_size));
    }
    r
}

/// Batched matrix product of two rank-4 tensors sharing their two batch
/// axes: `[a, b, m, k]` times `[a, b, k, n]` gives `[a, b, m, n]`.  The
/// result is on the gradient tape when either operand is.
pub fn matmul4(a: &Tensor, b: &Tensor) -> (r: Tensor)
    requires
        a.dims@.len() == 4,
        b.dims@.len() == 4,
        a.dims@[0] == b.dims@[0],
        a.dims@[1] == b.dims@[1],
        a.dims@[3] == b.dims@[2],
    ensures
        r.dims@ == seq![a.dims@[0], a.dims@[1], a.dims@[2], b.dims@[3]],
        r.requires_grad == (a.requires_grad || b.requires_grad),
{
    let d0 = a.dims[0];
    let d1 = a.dims[1];
    let d2 = a.dims[2];
    let d3 = b.dims[3];
    let r = Tensor {
        dims: vec![d0, d1, d2, d3],
        requires_grad: a.requires_grad || b.requires_grad,
    };
    proof {
        assert(r.dims@ =~= seq![a.dims@[0], a.dims@[1], a.dims@[2], b.dims@[3]]);
    }
    r
}

/// Normalization of the last axis into a probability distribution.  The
/// shape and the gradient mark are unchanged; each row of the result sums
/// to one in the backend.
pub fn softmax_last(t: &Tensor) -> (r: Tensor)
    requires
        t.dims@.len() > 0,
    ensures
        r.dims@ == t.dims@,
        r.requires_grad == t.requires_grad,
{
    Tensor { dims: copy_dims(&t.dims), requires_grad: t.requires_grad }
}

/// Adds two tensors of identical shape elementwise — the residual
/// connection of a sublayer.  The result is on the gradient tape when
/// either operand is.
pub fn residual_add(a: &Tensor, b: &Tensor) -> (r: Tensor)
    requires
        a.dims@ == b.dims@,
    ensures
        r.dims@ == a.dims@,
        r.requires_grad == (a.requires_grad || b.requires_grad),
{
    Tensor { dims: copy_dims(&a.dims), requires_grad: a.requires_grad || b.requires_grad }
}

/// A batch of token-id sequences, shaped `[batch, sequence_length]`.
///
/// Unlike hidden states, token ids are integers, so they are carried with
/// their values: embedding lookup validates every id against the
/// vocabulary size.
#[derive(Debug)]
pub struct TokenIds {
    pub rows: Vec<Vec<i64>>,
}

impl TokenIds {
    /// Number of sequences in the batch.
    pub open spec fn spec_batch_size(self) -> int {
        self.rows@.len() as int
    }

    /// Length shared by every sequence of the batch.
    pub open spec fn spec_seq_len(self) -> int {
        if self.rows@.len() == 0 {
            0
        } else {
            self.rows@[0]@.len() as int
        }
    }

    /// The batch is rectangular: every row has the same length.
    pub open spec fn wf(self) -> bool {
        forall|b: int|
            0 <= b < self.rows@.len() ==> (#[trigger] self.rows@[b])@.len()
                == self.spec_seq_len()
    }

    /// Every id lies in `[0, vocab_size)`.
    pub open spec fn all_in_vocab(self, vocab_size: usize) -> bool {
        forall|b: int, s: int|
            0 <= b < self.rows@.len() && 0 <= s < self.rows@[b]@.len() ==> 0 <= (
            #[trigger] self.rows@[b]@[s]) < vocab_size
    }

    /// Number of sequences in the batch.
    pub fn batch_size(&self) -> (r: usize)
        ensures
            r == self.spec_batch_size(),
    {
        self.rows.len()
    }

    /// Length shared by every sequence of the batch.
    pub fn seq_len(&self) -> (r: usize)
        ensures
            r == self.spec_seq_len(),
    {
        if self.rows.len() == 0 {
            0
        } else {
            self.rows[0].len()
        }
    }

    /// Checks that every id lies in `[0, vocab_size)`.
    pub fn check_in_vocab(&self, vocab_size: usize) -> (r: bool)
        ensures
            r == self.all_in_vocab(vocab_size),
    {
        let mut b: usize = 0;
        while b < self.rows.len()
            invariant
                b <= self.rows@.len(),
                forall|i: int, s: int|
                    0 <= i < b && 0 <= s < self.rows@[i]@.len() ==> 0 <= (
                    #[trigger] self.rows@[i]@[s]) < vocab_size,
            decreases self.rows@.len() - b,
        {
            let row = &self.rows[b];
            let mut s: usize = 0;
            while s < row.len()
                invariant
                    s <= row@.len(),
                    row == &self.rows[b as int],
                    b < self.rows@.len(),
                    forall|i: int, t: int|
                        0 <= i < b && 0 <= t < self.rows@[i]@.len() ==> 0 <= (
                        #[trigger] self.rows@[i]@[t]) < vocab_size,
                    forall|t: int| 0 <= t < s ==> 0 <= (#[trigger] row@[t]) < vocab_size,
                decreases row@.len() - s,
            {
                let id = row[s];
                if id < 0 || (id as u64) >= (vocab_size as u64) {
                    proof {
                        assert(self.rows@[b as int]@[s as int] == id);
                        assert(!self.all_in_vocab(vocab_size));
                    }
                    return false;
                }
                s = s + 1;
            }
            b = b + 1;
        }
        true
    }
}

/// A boolean attention mask, shaped `[batch, sequence_length]`: `true`
/// marks a position the model may attend to.
#[derive(Debug)]
pub struct BoolMask {
    pub rows: Vec<Vec<bool>>,
}

impl BoolMask {
    /// Number of sequences in the batch.
    pub open spec fn spec_batch_size(self) -> int {
        self.rows@.len() as int
    }

    /// Length shared by every row of the mask.
    pub open spec fn spec_seq_len(self) -> int {
        if self.rows@.len() == 0 {
            0
        } else {
            self.rows@[0]@.len() as int
        }
    }

    /// The mask is rectangular: every row has the same length.
    pub open spec fn wf(self) -> bool {
        forall|b: int|
            0 <= b < self.rows@.len() ==> (#[trigger] self.rows@[b])@.len()
                == self.spec_seq_len()
    }

    /// Whether the model may attend to position `s` of batch element `b`.
    pub open spec fn spec_active(self, b: int, s: int) -> bool {
        self.rows@[b]@[s]
    }

    /// Number of sequences in the batch.
    pub fn batch_size(&self) -> (r: usize)
        ensures
            r == self.spec_batch_size(),
    {
        self.rows.len()
    }

    /// Length shared by every row of the mask.
    pub fn seq_len(&self) -> (r: usize)
        ensures
            r == self.spec_seq_len(),
    {
        if self.rows.len() == 0 {
            0
        } else {
            self.rows[0].len()
        }
    }
}

/// The additive logits mask derived once per forward call from a boolean
/// mask, broadcastable to `[batch, 1, 1, sequence_length]`: an attention
/// score keeps its value at active key positions and is pushed to an
/// effectively unreachable low at masked ones, so that normalization
/// assigns masked keys near-zero probability.
#[derive(Debug)]
pub struct LogitsMask {
    /// Which key positions stay reachable, per batch element.
    pub active: Vec<Vec<bool>>,
}

impl LogitsMask {
    /// Number of batch elements.
    pub open spec fn spec_batch_size(self) -> int {
        self.active@.len() as int
    }

    /// Number of key positions.
    pub open spec fn spec_seq_len(self) -> int {
        if self.active@.len() == 0 {
            0
        } else {
            self.active@[0]@.len() as int
        }
    }

    /// The mask is rectangular: every row has the same length.
    pub open spec fn wf(self) -> bool {
        forall|b: int|
            0 <= b < self.active@.len() ==> (#[trigger] self.active@[b])@.len()
                == self.spec_seq_len()
    }

    /// Whether key position `k` of batch element `b` is excluded: the mask
    /// is broadcast over heads and query positions, so exclusion depends
    /// on the batch element and the key position alone.
    pub open spec fn spec_masked(self, b: int, k: int) -> bool {
        !self.active@[b]@[k]
    }

    /// Number of batch elements.
    pub fn batch_size(&self) -> (r: usize)
        ensures
            r == self.spec_batch_size(),
    {
        self.active.len()
    }

    /// Number of key positions.
    pub fn seq_len(&self) -> (r: usize)
        ensures
            r == self.spec_seq_len(),
    {
        if self.active.len() == 0 {
            0
        } else {
            self.active[0].len()
        }
    }

    /// Derives the additive logits mask from a boolean mask: key position
    /// `k` of batch element `b` is masked exactly when the boolean mask
    /// does not allow attending to it.
    pub fn from_bool_mask(mask: &BoolMask) -> (r: LogitsMask)
        requires
            mask.wf(),
        ensures
            r.wf(),
            r.spec_batch_size() == mask.spec_batch_size(),
            r.spec_seq_len() == mask.spec_seq_len(),
            forall|b: int, k: int|
                0 <= b < mask.spec_batch_size() && 0 <= k < mask.spec_seq_len() ==> (
                #[trigger] r.spec_masked(b, k)) == !mask.spec_active(b, k),
    {
        LogitsMask { active: copy_bool_rows(&mask.rows) }
    }
}

/// Copies one row of boolean flags.
fn copy_bool_row(row: &Vec<bool>) -> (r: Vec<bool>)
    ensures
        r@ == row@,
{
    let mut out: Vec<bool> = Vec::new();
    let mut i: usize = 0;
    while i < row.len()
        invariant
            i <= row@.len(),
            out@ == row@.take(i as int),
        decreases row@.len() - i,
    {
        out.push(row[i]);
        i = i + 1;
    }
    proof {
        assert(row@.take(row@.len() as int) =~= row@);
    }
    out
}

/// Copies a rectangular table of boolean flags.
fn copy_bool_rows(rows: &Vec<Vec<bool>>) -> (r: Vec<Vec<bool>>)
    ensures
        r@.len() == rows@.len(),
        forall|i: int| 0 <= i < rows@.len() ==> (#[trigger] r@[i])@ == rows@[i]@,
{
    let mut out: Vec<Vec<bool>> = Vec::new();
    let mut i: usize = 0;
    while i < rows.len()
        invariant
            i <= rows@.len(),
            out@.len() == i,
            forall|j: int| 0 <= j < i ==> (#[trigger] out@[j])@ == rows@[j]@,
        decreases rows@.len() - i,
    {
        out.push(copy_bool_row(&rows[i]));
        i = i + 1;
    }
    out
}

/// Adds the broadcast logits mask to a `[batch, heads, q, k]` score
/// tensor: the shape is unchanged, and masked key positions are excluded
/// for every head and every query position alike.
pub fn add_logits_mask(scores: &Tensor, mask: &LogitsMask) -> (r: Tensor)
    requires
        scores.dims@.len() == 4,
        mask.wf(),
        scores.dims@[0] == mask.spec_batch_size(),
        scores.dims@[3] == mask.spec_seq_len(),
    ensures
        r.dims@ == scores.dims@,
        r.requires_grad == scores.requires_grad,
{
    Tensor { dims: copy_dims(&scores.dims), requires_grad: scores.requires_grad }
}

} // verus!
