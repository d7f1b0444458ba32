//! Parameter store: a hierarchical namespace of named numeric tensors.
//!
//! Every component of the model creates its weights, biases and
//! normalization parameters in a store, scoped by a dot-separated path
//! such as `encoder.layer_3.attention.query.weight`.  The store records,
//! in creation order, each path together with the declared shape and the
//! initialization policy.  Path composition is deterministic string
//! concatenation, so the full namespace a component creates can be
//! stated — and is stated — in its constructor's contract.

use vstd::prelude::*;

verus! {

/// Initialization policy of a freshly created parameter.  Real values are
/// fixed-point, as in [`crate::config::FIXED_ONE`].
#[derive(Clone, Copy, Debug, PartialEq, Eq, Structural)]
pub enum Init {
    /// Independent draws from a normal distribution.
    RandomNormal { mean: i64, stdev: u64 },
    /// Every element set to the same value.
    Constant { value: i64 },
}

/// One named parameter tensor: its path, its declared shape, and how it
/// is initialized when no checkpoint is restored.
#[derive(Debug)]
pub struct Variable {
    pub path: String,
    pub dims: Vec<usize>,
    pub init: Init,
}

/// Mathematical image of one [`Variable`].
#[verifier::ext_equal]
pub struct VarView {
    pub path: Seq<char>,
    pub dims: Seq<usize>,
    pub init: Init,
}

impl View for Variable {
    type V = VarView;

    open spec fn view(&self) -> VarView {
        VarView { path: self.path@, dims: self.dims@, init: self.init }
    }
}

/// Builds the image of a variable; shorthand for contracts.
pub open spec fn var_view(path: Seq<char>, dims: Seq<usize>, init: Init) -> VarView {
    VarView { path, dims, init }
}

/// The hierarchical namespace of named tensors owned by one model.
///
/// The core only ever appends to a store at construction time; parameters
/// are mutated between forward passes by the external optimizer, which is
/// invisible here.
#[derive(Debug)]
pub struct ParameterStore {
    pub vars: Vec<Variable>,
}

impl View for ParameterStore {
    type V = Seq<VarView>;

    open spec fn view(&self) -> Seq<VarView> {
        self.vars@.map_values(|v: Variable| v@)
    }
}

impl ParameterStore {
    /// An empty namespace.
    pub fn new() -> (r: ParameterStore)
        ensures
            r@ == Seq::<VarView>::empty(),
    {
        let r = ParameterStore { vars: Vec::new() };
        proof {
            assert(r@ =~= Seq::<VarView>::empty());
        }
        r
    }

    /// Creates one parameter at the given path.
    pub fn var(&mut self, path: String, dims: Vec<usize>, init: Init)
        ensures
            final(self)@ == old(self)@.push(var_view(path@, dims@, init)),
    {
        self.vars.push(Variable { path, dims, init });
        proof {
            assert(final(self)@ =~= old(self)@.push(var_view(path@, dims@, init)));
        }
    }

    /// Number of parameters created so far.
    pub fn len(&self) -> (r: usize)
        ensures
            r == self@.len(),
    {
        self.vars.len()
    }
}

/// Composition of a child name under a path prefix: the empty prefix
/// stands for the root of the namespace.
pub open spec fn spec_sub_path(prefix: Seq<char>, name: Seq<char>) -> Seq<char> {
    if prefix.len() == 0 {
        name
    } else {
        prefix + "."@ + name
    }
}

/// Composes a child name under a path prefix.
pub fn sub_path(prefix: &str, name: &str) -> (r: String)
    ensures
        r@ == spec_sub_path(prefix@, name@),
{
    if prefix.is_empty() {
        String::from_str(name)
    } else {
        let mut s = String::from_str(prefix);
        s.append(".");
        s.append(name);
        s
    }
}

/// The character standing for the decimal digit `d`.
pub open spec fn dec_digit(d: int) -> char {
    if d == 0 {
        '0'
    } else if d == 1 {
        '1'
    } else if d == 2 {
        '2'
    } else if d == 3 {
        '3'
    } else if d == 4 {
        '4'
    } else if d == 5 {
        '5'
    } else if d == 6 {
        '6'
    } else if d == 7 {
        '7'
    } else if d == 8 {
        '8'
    } else {
        '9'
    }
}

/// Decimal notation of `n`, most significant digit first, no leading
/// zeros (the number zero is written `0`).
pub open spec fn dec_str(n: nat) -> Seq<char>
    decreases n,
{
    if n < 10 {
        seq![dec_digit(n as int)]
    } else {
        dec_str(n / 10).push(dec_digit((n % 10) as int))
    }
}

/// Appends the character of one decimal digit.
fn push_digit(out: &mut String, d: u64)
    requires
        d < 10,
    ensures
        final(out)@ == old(out)@.push(dec_digit(d as int)),
{
    let s: &str = match d {
        0 => "0",
        1 => "1",
        2 => "2",
        3 => "3",
        4 => "4",
        5 => "5",
        6 => "6",
        7 => "7",
        8 => "8",
        _ => "9",
    };
    proof {
        reveal_strlit("0");
        reveal_strlit("1");
        reveal_strlit("2");
        reveal_strlit("3");
        reveal_strlit("4");
        reveal_strlit("5");
        reveal_strlit("6");
        reveal_strlit("7");
        reveal_strlit("8");
        reveal_strlit("9");
        assert(s@ =~= seq![dec_digit(d as int)]);
    }
    out.append(s);
    proof {
        assert(final(out)@ =~= old(out)@.push(dec_digit(d as int)));
    }
}

/// Appends the decimal notation of `n`.
pub fn push_dec(out: &mut String, n: u64)
    ensures
        final(out)@ == old(out)@ + dec_str(n as nat),
    decreases n,
{
    if n >= 10 {
        push_dec(out, n / 10);
        push_digit(out, n % 10);
        proof {
            assert(final(out)@ =~= old(out)@ + dec_str(n as nat));
        }
    } else {
        push_digit(out, n);
        proof {
            assert(final(out)@ =~= old(out)@ + dec_str(n as nat));
        }
    }
}

/// Composes a numbered child name, `stem` followed by the decimal index,
/// under a path prefix — the per-layer namespaces `layer_0`, `layer_1`,
/// … of an encoder stack are built this way.
pub fn numbered_sub_path(prefix: &str, stem: &str, index: u64) -> (r: String)
    ensures
        r@ == spec_sub_path(prefix@, stem@ + dec_str(index as nat)),
{
    let mut name = String::from_str(stem);
    push_dec(&mut name, index);
    sub_path(prefix, name.as_str())
}

} // verus!
