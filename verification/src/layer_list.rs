//! Wrap-around selection over the immutable layer catalog: a pure
//! index-and-count selection state, and the list that binds it to the
//! ordered sequence of layer snapshots.

use vstd::prelude::*;

use crate::data::LayerInfo;

verus! {

/// Where `next` moves a selection: one step forward, wrapping to the first
/// entry after the last.
pub open spec fn next_index_spec(i: int, n: int) -> int
    recommends
        0 < n,
{
    (i + 1) % n
}

/// Where `previous` moves a selection: one step backward, wrapping to the
/// last entry before the first.
pub open spec fn previous_index_spec(i: int, n: int) -> int
    recommends
        0 < n,
{
    (i + n - 1) % n
}

/// Selection cursor over a list of `count` entries. Whenever the list is
/// non-empty the cursor is a valid position in it; over an empty list every
/// navigation step is a no-op.
#[derive(Clone, Copy, Debug, PartialEq, Eq, Structural)]
pub struct SelectionState {
    pub index: usize,
    pub count: usize,
}

impl SelectionState {
    pub open spec fn wf(self) -> bool {
        self.count > 0 ==> self.index < self.count
    }

    /// A fresh selection over `count` entries, standing on the first one.
    pub fn new(count: usize) -> (r: SelectionState)
        ensures
            r.count == count,
            r.index == 0,
            r.wf(),
    {
        SelectionState { index: 0, count }
    }

    /// Moves one entry forward, wrapping around past the last entry; a
    /// no-op over an empty list.
    pub fn next(&mut self)
        requires
            old(self).wf(),
        ensures
            final(self).wf(),
            final(self).count == old(self).count,
            old(self).count == 0 ==> *final(self) == *old(self),
            old(self).count > 0 ==> final(self).index == next_index_spec(
                old(self).index as int,
                old(self).count as int,
            ),
    {
        if self.count == 0 {
            return ;
        }
        let i: usize = if self.index >= self.count - 1 {
            0
        } else {
            self.index + 1
        };
        proof {
            let n = self.count as int;
            if self.index as int == n - 1 {
                vstd::arithmetic::div_mod::lemma_mod_self_0(n);
            } else {
                vstd::arithmetic::div_mod::lemma_small_mod((self.index + 1) as nat, n as nat);
            }
        }
        self.index = i;
    }

    /// Moves one entry backward, wrapping around before the first entry; a
    /// no-op over an empty list.
    pub fn previous(&mut self)
        requires
            old(self).wf(),
        ensures
            final(self).wf(),
            final(self).count == old(self).count,
            old(self).count == 0 ==> *final(self) == *old(self),
            old(self).count > 0 ==> final(self).index == previous_index_spec(
                old(self).index as int,
                old(self).count as int,
            ),
    {
        if self.count == 0 {
            return ;
        }
        let i: usize = if self.index == 0 {
            self.count - 1
        } else {
            self.index - 1
        };
        proof {
            let n = self.count as int;
            let ix = self.index as int;
            if ix == 0 {
                vstd::arithmetic::div_mod::lemma_small_mod((n - 1) as nat, n as nat);
            } else {
                vstd::arithmetic::div_mod::lemma_mod_multiples_vanish(1, ix - 1, n);
                vstd::arithmetic::div_mod::lemma_small_mod((ix - 1) as nat, n as nat);
            }
        }
        self.index = i;
    }
}

/// The position reached from `i` after `k` forward steps over `n` entries.
pub open spec fn iterate_next_spec(i: int, n: int, k: nat) -> int
    decreases k,
{
    if k == 0 {
        i
    } else {
        next_index_spec(iterate_next_spec(i, n, (k - 1) as nat), n)
    }
}

/// The position reached from `i` after `k` backward steps over `n` entries.
pub open spec fn iterate_previous_spec(i: int, n: int, k: nat) -> int
    decreases k,
{
    if k == 0 {
        i
    } else {
        previous_index_spec(iterate_previous_spec(i, n, (k - 1) as nat), n)
    }
}

proof fn lemma_iterate_next_adds(i: int, n: int, k: nat)
    requires
        0 < n,
        0 <= i < n,
    ensures
        iterate_next_spec(i, n, k) == (i + k) % n,
    decreases k,
{
    if k == 0 {
        vstd::arithmetic::div_mod::lemma_small_mod(i as nat, n as nat);
    } else {
        lemma_iterate_next_adds(i, n, (k - 1) as nat);
        vstd::arithmetic::div_mod::lemma_add_mod_noop_right(1, i + k - 1, n);
    }
}

proof fn lemma_iterate_previous_subtracts(i: int, n: int, k: nat)
    requires
        0 < n,
        0 <= i < n,
    ensures
        iterate_previous_spec(i, n, k) == (i - k) % n,
    decreases k,
{
    if k == 0 {
        vstd::arithmetic::div_mod::lemma_small_mod(i as nat, n as nat);
    } else {
        lemma_iterate_previous_subtracts(i, n, (k - 1) as nat);
        vstd::arithmetic::div_mod::lemma_add_mod_noop_right(n - 1, i - k + 1, n);
        vstd::arithmetic::div_mod::lemma_mod_multiples_vanish(1, i - k, n);
    }
}

/// Cycle law of forward navigation: over a non-empty list, taking exactly
/// as many forward steps as there are entries returns the selection to
/// where it started.
pub proof fn lemma_next_cycle(i: int, n: int)
    requires
        0 < n,
        0 <= i < n,
    ensures
        iterate_next_spec(i, n, n as nat) == i,
{
    lemma_iterate_next_adds(i, n, n as nat);
    vstd::arithmetic::div_mod::lemma_mod_multiples_vanish(1, i, n);
    vstd::arithmetic::div_mod::lemma_small_mod(i as nat, n as nat);
}

/// Cycle law of backward navigation: over a non-empty list, taking exactly
/// as many backward steps as there are entries returns the selection to
/// where it started.
pub proof fn lemma_previous_cycle(i: int, n: int)
    requires
        0 < n,
        0 <= i < n,
    ensures
        iterate_previous_spec(i, n, n as nat) == i,
{
    lemma_iterate_previous_subtracts(i, n, n as nat);
    vstd::arithmetic::div_mod::lemma_mod_multiples_vanish(-1, i, n);
    vstd::arithmetic::div_mod::lemma_small_mod(i as nat, n as nat);
}

/// The ordered layer catalog together with its selection cursor. The data
/// is loaded once and never mutated; the cursor is the only quantity that
/// moves, and it always matches the number of entries.
#[derive(Debug)]
pub struct LayerList {
    pub items: Vec<LayerInfo>,
    pub state: SelectionState,
}

impl LayerList {
    pub open spec fn wf(self) -> bool {
        self.state.count == self.items@.len() && self.state.wf()
    }

    /// Binds a freshly derived catalog to a selection standing on the
    /// first layer.
    pub fn new(layer_info: Vec<LayerInfo>) -> (r: LayerList)
        ensures
            r.wf(),
            r.items == layer_info,
            r.state.index == 0,
    {
        let count = layer_info.len();
        LayerList { items: layer_info, state: SelectionState::new(count) }
    }

    /// How `next` relates the list after a step to the list before it:
    /// the catalog and its length are untouched, an empty catalog leaves
    /// everything unchanged, and otherwise only the cursor moves, one
    /// entry forward with wrap-around.
    pub open spec fn advanced_spec(pre: LayerList, post: LayerList) -> bool {
        &&& post.items == pre.items
        &&& post.state.count == pre.state.count
        &&& (pre.items@.len() == 0 ==> post == pre)
        &&& (pre.items@.len() > 0 ==> post.state.index == next_index_spec(
            pre.state.index as int,
            pre.items@.len() as int,
        ))
    }

    /// How `previous` relates the list after a step to the list before
    /// it: as `advanced_spec`, with the cursor moving one entry backward
    /// with wrap-around.
    pub open spec fn retreated_spec(pre: LayerList, post: LayerList) -> bool {
        &&& post.items == pre.items
        &&& post.state.count == pre.state.count
        &&& (pre.items@.len() == 0 ==> post == pre)
        &&& (pre.items@.len() > 0 ==> post.state.index == previous_index_spec(
            pre.state.index as int,
            pre.items@.len() as int,
        ))
    }

    /// Selects the next layer, wrapping past the last; the catalog itself
    /// is untouched.
    pub fn next(&mut self)
        requires
            old(self).wf(),
        ensures
            final(self).wf(),
            LayerList::advanced_spec(*old(self), *final(self)),
    {
        self.state.next();
    }

    /// Selects the previous layer, wrapping before the first; the catalog
    /// itself is untouched.
    pub fn previous(&mut self)
        requires
            old(self).wf(),
        ensures
            final(self).wf(),
            LayerList::retreated_spec(*old(self), *final(self)),
    {
        self.state.previous();
    }

    /// The position of the selected layer: defined exactly over a
    /// non-empty catalog.
    pub fn selected(&self) -> (r: Option<usize>)
        requires
            self.wf(),
        ensures
            self.items@.len() > 0 ==> r == Option::Some(self.state.index),
            self.items@.len() == 0 ==> r is None,
    {
        if self.items.len() > 0 {
            Option::Some(self.state.index)
        } else {
            Option::None
        }
    }
}

} // verus!
