//! The shape of a fully recurrent network.
//!
//! A network of `n` neurons has an `n`-by-`n` weight matrix, `n` offsets and
//! `n` state values. Its arithmetic is floating point and happens outside this
//! crate; here the parameters are kept as float bit patterns, and every
//! operation is shown to keep the shape that a step of the network relies on.

use vstd::prelude::*;

verus! {

/// A recurrent network. Every value is the bit pattern of a 32-bit float.
#[derive(Debug, Clone)]
pub struct Rnn {
    weights: Vec<Vec<u32>>,
    offsets: Vec<u32>,
    pub state: Vec<u32>,
}

/// `n` copies of the word `0`, the bit pattern of `0.0`.
pub open spec fn zeros(n: nat) -> Seq<u32> {
    Seq::new(n, |i: int| 0u32)
}

fn zero_vec(n: usize) -> (v: Vec<u32>)
    ensures
        v@ == zeros(n as nat),
{
    let mut v: Vec<u32> = Vec::with_capacity(n);
    let mut i: usize = 0;
    while i < n
        invariant
            i <= n,
            v@ == zeros(i as nat),
        decreases n - i,
    {
        v.push(0);
        i = i + 1;
        assert(v@ =~= zeros(i as nat));
    }
    v
}

impl Rnn {
    /// The weight matrix, row by row.
    pub closed spec fn weights_view(&self) -> Seq<Seq<u32>> {
        self.weights@.map_values(|r: Vec<u32>| r@)
    }

    /// The offsets, one per neuron.
    pub closed spec fn offsets_view(&self) -> Seq<u32> {
        self.offsets@
    }

    /// The state, one value per neuron.
    pub closed spec fn state_view(&self) -> Seq<u32> {
        self.state@
    }

    /// The number of neurons.
    pub open spec fn spec_size(&self) -> nat {
        self.state_view().len()
    }

    /// The shape a step needs: as many offsets and weight rows as neurons,
    /// and as many weights in each row as neurons.
    pub open spec fn wf(&self) -> bool {
        &&& self.offsets_view().len() == self.spec_size()
        &&& self.weights_view().len() == self.spec_size()
        &&& forall|i: int| 0 <= i < self.spec_size() ==> #[trigger] self.weights_view()[i].len() == self.spec_size()
    }

    /// A well-shaped network has exactly as many offsets and weight rows as
    /// state values, and exactly that many weights in every row: no more and
    /// no fewer.
    pub proof fn lemma_wf_is_exact_shape(&self)
        requires
            self.wf(),
        ensures
            self.offsets_view().len() == self.state_view().len(),
            self.weights_view().len() == self.state_view().len(),
            forall|i: int| 0 <= i < self.weights_view().len() ==> #[trigger] self.weights_view()[i].len() == self.state_view().len(),
    {
    }

    /// A network whose state length differs from its offset count or its
    /// weight row count is not well shaped.
    pub proof fn lemma_wrong_state_length_not_wf(&self)
        requires
            self.offsets_view().len() != self.state_view().len() || self.weights_view().len() != self.state_view().len(),
        ensures
            !self.wf(),
    {
    }

    /// A network of `size` neurons whose weights, offsets and state are all
    /// zero.
    pub fn new(size: usize) -> (res: Self)
        ensures
            res.wf(),
            res.spec_size() == size,
            res.offsets_view().len() == size,
            res.weights_view().len() == size,
            res.state_view() == zeros(size as nat),
            res.offsets_view() == zeros(size as nat),
            forall|i: int| 0 <= i < size ==> #[trigger] res.weights_view()[i] == zeros(size as nat),
            forall|i: int| 0 <= i < size ==> #[trigger] res.state_view()[i] == 0 && res.offsets_view()[i] == 0,
            forall|i: int, j: int| 0 <= i < size && 0 <= j < size ==> (#[trigger] res.weights_view()[i][j]) == 0
                && res.weights_view()[i].len() == size,
    {
        let state = zero_vec(size);
        let offsets = zero_vec(size);
        let mut weights: Vec<Vec<u32>> = Vec::with_capacity(size);
        let mut i: usize = 0;
        while i < size
            invariant
                i <= size,
                weights@.len() == i,
                forall|k: int| 0 <= k < i ==> #[trigger] weights@[k]@ == zeros(size as nat),
            decreases size - i,
        {
            weights.push(zero_vec(size));
            i = i + 1;
        }
        Self { state, offsets, weights }
    }

    /// The number of neurons.
    pub fn size(&self) -> (n: usize)
        ensures
            n == self.spec_size(),
    {
        self.state.len()
    }

    /// Row `i` of the weight matrix: the weights into neuron `i`.
    pub fn weight_row(&self, i: usize) -> (row: &Vec<u32>)
        requires
            i < self.weights_view().len(),
        ensures
            row@ == self.weights_view()[i as int],
    {
        &self.weights[i]
    }

    /// The offset of neuron `i`.
    pub fn offset(&self, i: usize) -> (o: u32)
        requires
            i < self.offsets_view().len(),
        ensures
            o == self.offsets_view()[i as int],
    {
        self.offsets[i]
    }

    /// Sets the weight from neuron `j` into neuron `i`; nothing else changes.
    pub fn set_weight(&mut self, i: usize, j: usize, w: u32)
        requires
            old(self).wf(),
            i < old(self).spec_size(),
            j < old(self).spec_size(),
        ensures
            final(self).wf(),
            final(self).state_view() == old(self).state_view(),
            final(self).offsets_view() == old(self).offsets_view(),
            final(self).weights_view() == old(self).weights_view().update(
                i as int,
                old(self).weights_view()[i as int].update(j as int, w),
            ),
    {
        let ghost old_w = self.weights_view();
        assert(old_w[i as int] == self.weights@[i as int]@);
        assert(old_w[i as int].len() == old(self).spec_size());
        let mut row: Vec<u32> = Vec::new();
        std::mem::swap(&mut row, &mut self.weights[i]);
        row.set(j, w);
        self.weights.set(i, row);
        assert(self.weights_view() =~= old_w.update(i as int, old_w[i as int].update(j as int, w)));
    }

    /// Whether the network has the shape a step needs; a caller that has
    /// touched `state` checks this before stepping.
    pub fn has_valid_shape(&self) -> (res: bool)
        ensures
            res == self.wf(),
            res == (self.offsets_view().len() == self.state_view().len()
                && self.weights_view().len() == self.state_view().len()
                && forall|i: int| 0 <= i < self.weights_view().len() ==> #[trigger] self.weights_view()[i].len() == self.state_view().len()),
    {
        let n = self.state.len();
        if self.offsets.len() != n || self.weights.len() != n {
            return false;
        }
        let mut i: usize = 0;
        while i < n
            invariant
                n == self.spec_size(),
                self.weights@.len() == n,
                i <= n,
                forall|k: int| 0 <= k < i ==> #[trigger] self.weights_view()[k].len() == n,
            decreases n - i,
        {
            assert(self.weights_view()[i as int] == self.weights@[i as int]@);
            if self.weights[i].len() != n {
                return false;
            }
            i = i + 1;
        }
        true
    }

    /// Sets the offset of neuron `i`; nothing else changes.
    pub fn set_offset(&mut self, i: usize, o: u32)
        requires
            old(self).wf(),
            i < old(self).spec_size(),
        ensures
            final(self).wf(),
            final(self).state_view() == old(self).state_view(),
            final(self).weights_view() == old(self).weights_view(),
            final(self).offsets_view() == old(self).offsets_view().update(i as int, o),
    {
        self.offsets.set(i, o);
    }
}

} // verus!
