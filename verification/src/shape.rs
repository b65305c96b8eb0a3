//! Arithmetic on the shapes of rectangular buffers.

use vstd::prelude::*;

verus! {

/// Number of elements addressed by a shape: the product of its axis lengths.
pub open spec fn volume(shape: Seq<usize>) -> nat
    decreases shape.len(),
{
    if shape.len() == 0 {
        1
    } else {
        (volume(shape.drop_last()) * shape.last()) as nat
    }
}

/// True when every axis of the shape has at least one element.
pub open spec fn all_positive(shape: Seq<usize>) -> bool {
    forall|i: int| 0 <= i < shape.len() ==> shape[i] >= 1
}

/// The shape of a two-axis buffer: `rows` then `cols`.
pub open spec fn pair(rows: usize, cols: usize) -> Seq<usize> {
    seq![rows, cols]
}

/// The volume of a two-axis shape is the product of its two lengths.
pub proof fn lemma_volume_pair(rows: usize, cols: usize)
    ensures
        volume(pair(rows, cols)) == rows * cols,
{
    let s = pair(rows, cols);
    let head = seq![rows];
    assert(s.drop_last() =~= head);
    assert(head.drop_last() =~= Seq::<usize>::empty());
    assert(volume(head.drop_last()) == 1);
    assert(head.last() == rows);
    assert(volume(head) == volume(head.drop_last()) * head.last());
    assert(s.last() == cols);
    assert(volume(s) == volume(head) * cols);
}

/// The layout of one text's hidden states: `seq_len` positions of
/// `hidden_dim` values each, stored position by position.
#[derive(Clone, Copy, Debug)]
pub struct HiddenShape {
    seq_len: usize,
    hidden_dim: usize,
}

impl HiddenShape {
    #[verifier::type_invariant]
    spec fn addressable(self) -> bool {
        self.seq_len >= 1 && self.hidden_dim >= 1 && self.seq_len * self.hidden_dim <= usize::MAX
    }

    /// Number of token positions.
    pub closed spec fn seq_len_spec(self) -> usize {
        self.seq_len
    }

    /// Number of values per position.
    pub closed spec fn hidden_dim_spec(self) -> usize {
        self.hidden_dim
    }

    /// Number of values in the whole buffer.
    pub open spec fn len_spec(self) -> nat {
        (self.seq_len_spec() * self.hidden_dim_spec()) as nat
    }

    /// Where the value of dimension `h` at position `s` lies in the buffer.
    pub open spec fn offset_spec(self, s: nat, h: nat) -> nat {
        (s * self.hidden_dim_spec() + h) as nat
    }

    /// True when a buffer of `seq_len` by `hidden_dim` values has at least
    /// one value and a length that fits a `usize`.
    pub open spec fn admits(seq_len: usize, hidden_dim: usize) -> bool {
        seq_len >= 1 && hidden_dim >= 1 && seq_len * hidden_dim <= usize::MAX
    }

    /// Describes a buffer of `seq_len` positions by `hidden_dim` values, or
    /// `None` exactly when such a buffer is empty or too long to address.
    pub fn new(seq_len: usize, hidden_dim: usize) -> (r: Option<HiddenShape>)
        ensures
            r is Some <==> Self::admits(seq_len, hidden_dim),
            r matches Some(h) ==> h.seq_len_spec() == seq_len && h.hidden_dim_spec()
                == hidden_dim,
    {
        if seq_len == 0 || hidden_dim == 0 {
            return None;
        }
        match seq_len.checked_mul(hidden_dim) {
            Some(_) => Some(HiddenShape { seq_len, hidden_dim }),
            None => None,
        }
    }

    /// Number of token positions, at least one.
    pub fn seq_len(&self) -> (n: usize)
        ensures
            n == self.seq_len_spec(),
            n >= 1,
    {
        proof {
            use_type_invariant(self);
        }
        self.seq_len
    }

    /// Number of values per position, at least one.
    pub fn hidden_dim(&self) -> (n: usize)
        ensures
            n == self.hidden_dim_spec(),
            n >= 1,
    {
        proof {
            use_type_invariant(self);
        }
        self.hidden_dim
    }

    /// Number of values in the whole buffer.
    pub fn len(&self) -> (n: usize)
        ensures
            n == self.len_spec(),
    {
        proof {
            use_type_invariant(self);
        }
        self.seq_len * self.hidden_dim
    }

    /// Index of the value of dimension `h` at position `s`; it lies inside
    /// the buffer, and distinct pairs get distinct indices.
    pub fn offset(&self, s: usize, h: usize) -> (i: usize)
        requires
            s < self.seq_len_spec(),
            h < self.hidden_dim_spec(),
        ensures
            i == self.offset_spec(s as nat, h as nat),
            i < self.len_spec(),
    {
        proof {
            use_type_invariant(self);
            lemma_offset_in_bounds(
                self.seq_len as nat,
                self.hidden_dim as nat,
                s as nat,
                h as nat,
            );
        }
        s * self.hidden_dim + h
    }
}

/// In a buffer of `l` rows of `n` values, the value `h` of row `s` lies at
/// `s * n + h`, inside the buffer.
pub proof fn lemma_offset_in_bounds(l: nat, n: nat, s: nat, h: nat)
    requires
        s < l,
        h < n,
    ensures
        s * n + h < l * n,
        s * n <= s * n + h,
{
    assert(s * n + n <= l * n) by (nonlinear_arith)
        requires
            s + 1 <= l,
    ;
}

/// Two positions of a buffer share an offset only if they are the same
/// position: the layout never folds two values onto one slot.
pub proof fn lemma_offset_injective(n: nat, s1: nat, h1: nat, s2: nat, h2: nat)
    requires
        h1 < n,
        h2 < n,
        s1 * n + h1 == s2 * n + h2,
    ensures
        s1 == s2,
        h1 == h2,
{
    if s1 < s2 {
        assert(s1 * n + n <= s2 * n) by (nonlinear_arith)
            requires
                s1 + 1 <= s2,
        ;
    } else if s2 < s1 {
        assert(s2 * n + n <= s1 * n) by (nonlinear_arith)
            requires
                s2 + 1 <= s1,
        ;
    }
}

} // verus!
