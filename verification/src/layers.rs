//! Leaf building blocks: affine projections, grouped pointwise
//! convolutions, layer normalization and dropout.
//!
//! Each constructor creates the parameters of the block in a
//! [`ParameterStore`] and its contract states the exact namespace
//! created; each forward operation states the exact shape of its result
//! and when it fails instead.

use vstd::prelude::*;

use crate::config::{groups_divide, BertConfig, FIXED_ONE};
use crate::error::{shape_error, TransformerError};
use crate::store::{spec_sub_path, sub_path, var_view, Init, ParameterStore, VarView};
use crate::tensor::{copy_dims, Tensor};

verus! {

/// The two parameters of an affine projection: a weight of shape
/// `[out_features, in_features]` drawn from a normal distribution, and a
/// zero-initialized bias of shape `[out_features]`.
pub open spec fn linear_vars(
    prefix: Seq<char>,
    weight_name: Seq<char>,
    bias_name: Seq<char>,
    in_features: usize,
    out_features: usize,
    stdev: u64,
) -> Seq<VarView> {
    seq![
        var_view(
            spec_sub_path(prefix, weight_name),
            seq![out_features, in_features],
            (Init::RandomNormal { mean: 0, stdev }),
        ),
        var_view(
            spec_sub_path(prefix, bias_name),
            seq![out_features],
            (Init::Constant { value: 0 }),
        ),
    ]
}

/// Affine transform with learned weight and bias.
#[derive(Debug)]
pub struct Linear {
    pub in_features: usize,
    pub out_features: usize,
}

impl Linear {
    /// Creates the weight and bias under `prefix` and returns the
    /// projection.
    pub fn new(
        store: &mut ParameterStore,
        prefix: &str,
        in_features: usize,
        out_features: usize,
        stdev: u64,
    ) -> (r: Linear)
        ensures
            final(store)@ == old(store)@ + linear_vars(
                prefix@,
                "weight"@,
                "bias"@,
                in_features,
                out_features,
                stdev,
            ),
            r.in_features == in_features,
            r.out_features == out_features,
    {
        store.var(
            sub_path(prefix, "weight"),
            vec![out_features, in_features],
            Init::RandomNormal { mean: 0, stdev },
        );
        store.var(sub_path(prefix, "bias"), vec![out_features], Init::Constant { value: 0 });
        proof {
            assert(final(store)@ =~~= old(store)@ + linear_vars(
                prefix@,
                "weight"@,
                "bias"@,
                in_features,
                out_features,
                stdev,
            ));
        }
        Linear { in_features, out_features }
    }

    /// Applies the projection to the last axis of a rank-3 input:
    /// `[a, b, in_features]` becomes `[a, b, out_features]`.  Fails with a
    /// shape error on any other input shape.
    pub fn forward(&self, x: &Tensor) -> (r: Result<Tensor, TransformerError>)
        ensures
            r is Ok <==> (x.dims@.len() == 3 && x.dims@[2] == self.in_features),
            r matches Ok(t) ==> {
                &&& t.dims@ == seq![x.dims@[0], x.dims@[1], self.out_features]
                &&& t.requires_grad
            },
            r matches Err(e) ==> e is Shape,
    {
        if x.dims.len() == 3 && x.dims[2] == self.in_features {
            let d0 = x.dims[0];
            let d1 = x.dims[1];
            let t = Tensor { dims: vec![d0, d1, self.out_features], requires_grad: true };
            proof {
                assert(t.dims@ =~= seq![x.dims@[0], x.dims@[1], self.out_features]);
            }
            Ok(t)
        } else {
            Err(shape_error("linear", vec![self.in_features], copy_dims(&x.dims)))
        }
    }
}

/// Creates the affine projection of one encoder sublayer, with the
/// initializer range of the configuration.
pub fn bert_linear(
    store: &mut ParameterStore,
    prefix: &str,
    config: &BertConfig,
    in_features: usize,
    out_features: usize,
) -> (r: Linear)
    ensures
        final(store)@ == old(store)@ + linear_vars(
            prefix@,
            "weight"@,
            "bias"@,
            in_features,
            out_features,
            config.initializer_range,
        ),
        r.in_features == in_features,
        r.out_features == out_features,
{
    Linear::new(store, prefix, in_features, out_features, config.initializer_range)
}

/// The two parameters of a grouped pointwise convolution: a weight of
/// shape `[out_channels, in_channels / groups, 1]` and a zero-initialized
/// bias of shape `[out_channels]`.
pub open spec fn conv1d_vars(
    prefix: Seq<char>,
    in_channels: usize,
    out_channels: usize,
    groups: usize,
    stdev: u64,
) -> Seq<VarView> {
    seq![
        var_view(
            spec_sub_path(prefix, "weight"@),
            seq![out_channels, (in_channels as int / groups as int) as usize, 1usize],
            (Init::RandomNormal { mean: 0, stdev }),
        ),
        var_view(
            spec_sub_path(prefix, "bias"@),
            seq![out_channels],
            (Init::Constant { value: 0 }),
        ),
    ]
}

/// Grouped pointwise (kernel-size 1) convolution over the
/// `[batch, channels, sequence_length]` layout.
#[derive(Debug)]
pub struct Conv1D {
    pub in_channels: usize,
    pub out_channels: usize,
    pub groups: usize,
}

impl Conv1D {
    /// Creates the weight and bias under `prefix` and returns the
    /// convolution.  The group count must divide both channel counts.
    pub fn new(
        store: &mut ParameterStore,
        prefix: &str,
        in_channels: usize,
        out_channels: usize,
        groups: usize,
        stdev: u64,
    ) -> (r: Conv1D)
        requires
            groups_divide(in_channels, out_channels, groups),
        ensures
            final(store)@ == old(store)@ + conv1d_vars(
                prefix@,
                in_channels,
                out_channels,
                groups,
                stdev,
            ),
            r.in_channels == in_channels,
            r.out_channels == out_channels,
            r.groups == groups,
    {
        let per_group = in_channels / groups;
        store.var(
            sub_path(prefix, "weight"),
            vec![out_channels, per_group, 1],
            Init::RandomNormal { mean: 0, stdev },
        );
        store.var(sub_path(prefix, "bias"), vec![out_channels], Init::Constant { value: 0 });
        proof {
            assert(final(store)@ =~~= old(store)@ + conv1d_vars(
                prefix@,
                in_channels,
                out_channels,
                groups,
                stdev,
            ));
        }
        Conv1D { in_channels, out_channels, groups }
    }

    /// Applies the convolution to a `[batch, in_channels, seq_len]` input,
    /// producing `[batch, out_channels, seq_len]`.  Fails with a shape
    /// error on any other input shape.
    pub fn forward(&self, x: &Tensor) -> (r: Result<Tensor, TransformerError>)
        ensures
            r is Ok <==> (x.dims@.len() == 3 && x.dims@[1] == self.in_channels),
            r matches Ok(t) ==> {
                &&& t.dims@ == seq![x.dims@[0], self.out_channels, x.dims@[2]]
                &&& t.requires_grad
            },
            r matches Err(e) ==> e is Shape,
    {
        if x.dims.len() == 3 && x.dims[1] == self.in_channels {
            let d0 = x.dims[0];
            let d2 = x.dims[2];
            let t = Tensor { dims: vec![d0, self.out_channels, d2], requires_grad: true };
            proof {
                assert(t.dims@ =~= seq![x.dims@[0], self.out_channels, x.dims@[2]]);
            }
            Ok(t)
        } else {
            Err(shape_error("conv1d", vec![self.in_channels], copy_dims(&x.dims)))
        }
    }
}

/// The parameters of a layer normalization with learned scale and shift:
/// a scale of ones and a shift of zeros, both of shape `[size]`.
pub open spec fn layer_norm_vars(prefix: Seq<char>, size: usize) -> Seq<VarView> {
    seq![
        var_view(
            spec_sub_path(prefix, "weight"@),
            seq![size],
            (Init::Constant { value: FIXED_ONE as i64 }),
        ),
        var_view(spec_sub_path(prefix, "bias"@), seq![size], (Init::Constant { value: 0 })),
    ]
}

/// Per-feature normalization with learned scale and shift.
#[derive(Debug)]
pub struct LayerNorm {
    pub size: usize,
    pub eps: u64,
    pub elementwise_affine: bool,
}

impl LayerNorm {
    /// Creates the scale and shift under `prefix` (when the normalization
    /// is affine) and returns the block.
    pub fn new(
        store: &mut ParameterStore,
        prefix: &str,
        size: usize,
        eps: u64,
        elementwise_affine: bool,
    ) -> (r: LayerNorm)
        ensures
            elementwise_affine ==> final(store)@ == old(store)@ + layer_norm_vars(prefix@, size),
            !elementwise_affine ==> final(store)@ == old(store)@,
            r.size == size,
            r.eps == eps,
            r.elementwise_affine == elementwise_affine,
    {
        if elementwise_affine {
            store.var(
                sub_path(prefix, "weight"),
                vec![size],
                Init::Constant { value: FIXED_ONE as i64 },
            );
            store.var(sub_path(prefix, "bias"), vec![size], Init::Constant { value: 0 });
            proof {
                assert(final(store)@ =~~= old(store)@ + layer_norm_vars(prefix@, size));
            }
        }
        LayerNorm { size, eps, elementwise_affine }
    }

    /// Normalizes the last axis of a rank-3 input, which must have width
    /// `size`; the shape is unchanged.  Fails with a shape error
    /// otherwise.
    pub fn forward(&self, x: &Tensor) -> (r: Result<Tensor, TransformerError>)
        ensures
            r is Ok <==> (x.dims@.len() == 3 && x.dims@[2] == self.size),
            r matches Ok(t) ==> {
                &&& t.dims@ == x.dims@
                &&& t.requires_grad == (x.requires_grad || self.elementwise_affine)
            },
            r matches Err(e) ==> e is Shape,
    {
        if x.dims.len() == 3 && x.dims[2] == self.size {
            Ok(
                Tensor {
                    dims: copy_dims(&x.dims),
                    requires_grad: x.requires_grad || self.elementwise_affine,
                },
            )
        } else {
            Err(shape_error("layer_norm", vec![self.size], copy_dims(&x.dims)))
        }
    }

    /// Normalizes the channel axis of a `[batch, size, seq_len]` input;
    /// the shape is unchanged.  Used by families whose internal layout
    /// keeps the feature axis in the middle.
    pub fn forward_channels(&self, x: &Tensor) -> (r: Result<Tensor, TransformerError>)
        ensures
            r is Ok <==> (x.dims@.len() == 3 && x.dims@[1] == self.size),
            r matches Ok(t) ==> {
                &&& t.dims@ == x.dims@
                &&& t.requires_grad == (x.requires_grad || self.elementwise_affine)
            },
            r matches Err(e) ==> e is Shape,
    {
        if x.dims.len() == 3 && x.dims[1] == self.size {
            Ok(
                Tensor {
                    dims: copy_dims(&x.dims),
                    requires_grad: x.requires_grad || self.elementwise_affine,
                },
            )
        } else {
            Err(shape_error("layer_norm", vec![self.size], copy_dims(&x.dims)))
        }
    }
}

/// Stochastic zeroing of activations, active only in training mode; an
/// identity in inference mode.  Either way the shape and the tape mark of
/// the input are unchanged, which is all the shape level can state.
#[derive(Debug)]
pub struct Dropout {
    pub p: u64,
}

impl Dropout {
    /// A dropout step with the given fixed-point probability.
    pub fn new(p: u64) -> (r: Dropout)
        requires
            p <= FIXED_ONE,
        ensures
            r.p == p,
    {
        Dropout { p }
    }

    /// Applies dropout when `train` is set; never fails.
    pub fn forward_t(&self, x: &Tensor, train: bool) -> (r: Result<Tensor, TransformerError>)
        ensures
            r matches Ok(t) && t.dims@ == x.dims@ && t.requires_grad == x.requires_grad,
    {
        let _ = train;
        Ok(Tensor { dims: copy_dims(&x.dims), requires_grad: x.requires_grad })
    }
}

} // verus!
