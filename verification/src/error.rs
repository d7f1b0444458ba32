//! Error taxonomy of the encoder core.
//!
//! Every fallible operation returns one of three error classes:
//! configuration errors (invalid or incompatible settings, detected at
//! construction), shape errors (tensor rank or dimension mismatches), and
//! computation errors (a numeric operation of the backend failed).  There
//! is no local recovery: any failure aborts the surrounding forward pass.

use vstd::prelude::*;

verus! {

/// An error raised by the encoder core.
///
/// The `op` field names the operation that failed, so that a caller can
/// diagnose the failure without re-deriving internal layout decisions.
#[derive(Debug)]
pub enum TransformerError {
    /// An invalid configuration or an incompatible combination of
    /// configuration choices, detected at construction time.
    Configuration { op: String },
    /// A tensor rank or dimension mismatch.
    Shape { op: String, expected: Vec<usize>, actual: Vec<usize> },
    /// An underlying numeric operation failed.
    Computation { op: String },
}

impl TransformerError {
    /// True for construction-time configuration errors.
    pub fn is_configuration(&self) -> (b: bool)
        ensures
            b == (self is Configuration),
    {
        match self {
            TransformerError::Configuration { .. } => true,
            _ => false,
        }
    }

    /// True for tensor rank or dimension mismatches.
    pub fn is_shape(&self) -> (b: bool)
        ensures
            b == (self is Shape),
    {
        match self {
            TransformerError::Shape { .. } => true,
            _ => false,
        }
    }

    /// True for failures of an underlying numeric operation.
    pub fn is_computation(&self) -> (b: bool)
        ensures
            b == (self is Computation),
    {
        match self {
            TransformerError::Computation { .. } => true,
            _ => false,
        }
    }

    /// The name of the operation that failed.
    pub fn op_name(&self) -> (r: &str)
        ensures
            r@ == self.spec_op_name(),
    {
        match self {
            TransformerError::Configuration { op } => op.as_str(),
            TransformerError::Shape { op, .. } => op.as_str(),
            TransformerError::Computation { op } => op.as_str(),
        }
    }

    /// The operation name carried by the error.
    pub open spec fn spec_op_name(self) -> Seq<char> {
        match self {
            TransformerError::Configuration { op } => op@,
            TransformerError::Shape { op, .. } => op@,
            TransformerError::Computation { op } => op@,
        }
    }

    /// The expected dimensions a shape error reports.
    pub open spec fn spec_expected(self) -> Seq<usize>
        recommends
            self is Shape,
    {
        match self {
            TransformerError::Shape { expected, .. } => expected@,
            _ => Seq::<usize>::empty(),
        }
    }

    /// The actual dimensions a shape error reports.
    pub open spec fn spec_actual(self) -> Seq<usize>
        recommends
            self is Shape,
    {
        match self {
            TransformerError::Shape { actual, .. } => actual@,
            _ => Seq::<usize>::empty(),
        }
    }
}

/// Builds a configuration error for the named operation.
pub fn configuration_error(op: &str) -> (r: TransformerError)
    ensures
        r is Configuration,
        r.spec_op_name() == op@,
{
    TransformerError::Configuration { op: String::from_str(op) }
}

/// Builds a computation error for the named operation.
pub fn computation_error(op: &str) -> (r: TransformerError)
    ensures
        r is Computation,
        r.spec_op_name() == op@,
{
    TransformerError::Computation { op: String::from_str(op) }
}

/// Builds a shape error for the named operation, recording the expected
/// and the actual dimensions.
pub fn shape_error(op: &str, expected: Vec<usize>, actual: Vec<usize>) -> (r: TransformerError)
    ensures
        r is Shape,
        r.spec_op_name() == op@,
        r.spec_expected() == expected@,
        r.spec_actual() == actual@,
{
    TransformerError::Shape { op: String::from_str(op), expected, actual }
}

} // verus!
