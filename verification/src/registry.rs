//! The task registry of the server role: the delegated tasks still
//! outstanding, keyed by generated identifier.
//!
//! A handle exists only while its delegated task is outstanding: it is
//! inserted on delegation and removed on result receipt, and when a node
//! disconnects while handles for it are outstanding, every one of them is
//! handed back as a failure, never silently dropped.

use std::collections::HashMap;

use vstd::prelude::*;

use crate::message::Task;

verus! {

broadcast use vstd::std_specs::hash::group_hash_axioms;

/// One outstanding delegated task: its identifier, the task itself, and
/// the address of the node it was delegated to.
#[derive(Clone, Debug, PartialEq, Eq)]
pub struct TaskHandle {
    pub id: u64,
    pub task: Task,
    pub node_addr: String,
}

/// The registry of outstanding delegated tasks.
pub struct TaskRegistry {
    next_id: u64,
    entries: HashMap<u64, TaskHandle>,
    order: Vec<u64>,
}

impl View for TaskRegistry {
    type V = Map<u64, TaskHandle>;

    closed spec fn view(&self) -> Map<u64, TaskHandle> {
        self.entries@
    }
}

impl TaskRegistry {
    /// The registry's internal soundness: every outstanding handle sits
    /// under its own identifier, identifiers are never reused, and the
    /// insertion order carries each outstanding identifier exactly once.
    pub closed spec fn wf(self) -> bool {
        &&& (forall|k: u64| #[trigger]
            self.entries@.contains_key(k) ==> k < self.next_id && self.entries@[k].id == k)
        &&& self.order@.no_duplicates()
        &&& (forall|i: int|
            0 <= i < self.order@.len() ==> self.entries@.contains_key(
                #[trigger] self.order@[i],
            ))
        &&& (forall|k: u64| #[trigger]
            self.entries@.contains_key(k) ==> self.order@.contains(k))
    }

    /// Whether a further identifier can still be generated.
    pub closed spec fn has_capacity(self) -> bool {
        self.next_id < u64::MAX
    }

    /// An empty registry.
    pub fn new() -> (r: TaskRegistry)
        ensures
            r@ == Map::<u64, TaskHandle>::empty(),
            r.wf(),
            r.has_capacity(),
    {
        TaskRegistry { next_id: 0, entries: HashMap::new(), order: Vec::new() }
    }

    /// How many delegated tasks are outstanding.
    pub fn outstanding(&self) -> (n: usize)
        requires
            self.wf(),
        ensures
            n == self@.dom().len(),
    {
        proof {
            self.lemma_order_counts_dom();
        }
        self.order.len()
    }

    proof fn lemma_order_counts_dom(self)
        requires
            self.wf(),
        ensures
            self.order@.len() == self@.dom().len(),
    {
        broadcast use vstd::seq_lib::seq_to_set_is_finite;

        assert(self.order@.to_set() =~= self@.dom());
        self.order@.unique_seq_to_set();
    }

    /// Registers a task delegated to a node and yields its fresh
    /// identifier, under which the handle is now outstanding.
    pub fn delegate(&mut self, task: Task, node_addr: String) -> (id: u64)
        requires
            old(self).wf(),
            old(self).has_capacity(),
        ensures
            final(self).wf(),
            !old(self)@.contains_key(id),
            final(self)@ == old(self)@.insert(
                id,
                TaskHandle { id, task, node_addr },
            ),
    {
        let id = self.next_id;
        self.next_id = self.next_id + 1;
        let handle = TaskHandle { id, task, node_addr };
        self.entries.insert(id, handle);
        proof {
            if self.order@.contains(id) {
                let w = choose|w: int| 0 <= w < self.order@.len() && self.order@[w] == id;
                assert(old(self).entries@.contains_key(id));
                assert(id < old(self).next_id);
            }
        }
        let ghost ord0 = self.order@;
        self.order.push(id);
        proof {
            let ord1 = self.order@;
            assert forall|k: u64| #[trigger]
                self.entries@.contains_key(k) implies ord1.contains(k) by {
                if k == id {
                    assert(ord1[ord0.len() as int] == id);
                } else {
                    assert(old(self).entries@.contains_key(k));
                    let w = choose|w: int| 0 <= w < ord0.len() && ord0[w] == k;
                    assert(ord1[w] == k);
                }
            }
        }
        id
    }

    /// Hands back the outstanding handle under `id`, which a received
    /// result settles: the handle, if any, is no longer outstanding, and
    /// nothing else changes.
    pub fn complete(&mut self, id: u64) -> (h: Option<TaskHandle>)
        requires
            old(self).wf(),
        ensures
            final(self).wf(),
            final(self).has_capacity() == old(self).has_capacity(),
            old(self)@.contains_key(id) ==> (h matches Some(handle) && handle == old(self)@[id]
                && final(self)@ == old(self)@.remove(id)),
            !old(self)@.contains_key(id) ==> h is None && final(self)@ == old(self)@,
    {
        match self.entries.remove(&id) {
            Some(handle) => {
                let i = position_of(&self.order, id);
                self.order.remove(i);
                proof {
                    let ord0 = old(self).order@;
                    let ord1 = self.order@;
                    assert(forall|j: int|
                        0 <= j < ord1.len() ==> ord1[j] == if j < i {
                            ord0[j]
                        } else {
                            ord0[j + 1]
                        });
                    assert forall|k: u64| #[trigger]
                        self.entries@.contains_key(k) implies ord1.contains(k) by {
                        let w = choose|w: int| 0 <= w < ord0.len() && ord0[w] == k;
                        if w < i {
                            assert(ord1[w] == k);
                        } else {
                            assert(w != i);
                            assert(ord1[w - 1] == k);
                        }
                    }
                }
                Some(handle)
            }
            None => None,
        }
    }

    /// The identifiers of every handle outstanding for one node, each
    /// exactly once.
    fn outstanding_for(&self, node_addr: &String) -> (ids: Vec<u64>)
        requires
            self.wf(),
        ensures
            ids@.no_duplicates(),
            forall|t: int|
                0 <= t < ids@.len() ==> self@.contains_key(#[trigger] ids@[t]) && self@[ids@[t]]
                    .node_addr@ == node_addr@,
            forall|k: u64|
                (#[trigger] self@.contains_key(k) && self@[k].node_addr@ == node_addr@)
                    ==> ids@.contains(k),
    {
        let mut ids: Vec<u64> = Vec::new();
        let n = self.order.len();
        let mut j: usize = 0;
        while j < n
            invariant
                self.wf(),
                n == self.order@.len(),
                j <= n,
                forall|t: int|
                    0 <= t < ids@.len() ==> self.order@.subrange(0, j as int).contains(
                        #[trigger] ids@[t],
                    ),
                ids@.no_duplicates(),
                forall|t: int|
                    0 <= t < ids@.len() ==> self@.contains_key(#[trigger] ids@[t])
                        && self@[ids@[t]].node_addr@ == node_addr@,
                forall|w: int|
                    0 <= w < j && self@[#[trigger] self.order@[w]].node_addr@ == node_addr@
                        ==> ids@.contains(self.order@[w]),
            decreases n - j,
        {
            let id = self.order[j];
            let matched = match self.entries.get(&id) {
                Some(handle) => handle.node_addr.eq(node_addr),
                None => {
                    proof {
                        assert(false);
                    }
                    false
                }
            };
            proof {
                let pre = self.order@.subrange(0, j as int);
                let post = self.order@.subrange(0, j + 1);
                assert(post =~= pre.push(id));
                if pre.contains(id) {
                    let w = choose|w: int| 0 <= w < pre.len() && pre[w] == id;
                    assert(self.order@[w] == id);
                    assert(false);
                }
                assert forall|x: u64| #[trigger] pre.contains(x) implies post.contains(x) by {
                    let w = choose|w: int| 0 <= w < pre.len() && pre[w] == x;
                    assert(post[w] == x);
                }
            }
            if matched {
                let ghost pre_ids = ids@;
                ids.push(id);
                proof {
                    assert forall|x: u64| #[trigger]
                        pre_ids.contains(x) implies ids@.contains(x) by {
                        let w = choose|w: int| 0 <= w < pre_ids.len() && pre_ids[w] == x;
                        assert(ids@[w] == x);
                    }
                    assert(ids@[pre_ids.len() as int] == id);
                    assert(ids@.contains(id));
                    assert(self.order@.subrange(0, j + 1).contains(self.order@[j as int]))
                        by {
                        assert(self.order@.subrange(0, j + 1)[j as int] == self.order@[
                        j as int]);
                    }
                }
            }
            j += 1;
        }
        ids
    }



    /// Fails every handle outstanding for a disconnected node: each such
    /// handle — and no other — leaves the registry and is handed back,
    /// so that its task is reported failed, never silently dropped.
    pub fn node_disconnected(&mut self, node_addr: &String) -> (failed: Vec<TaskHandle>)
        requires
            old(self).wf(),
        ensures
            final(self).wf(),
            final(self).has_capacity() == old(self).has_capacity(),
            forall|k: u64| #[trigger]
                final(self)@.contains_key(k) == (old(self)@.contains_key(k) && old(self)@[k]
                    .node_addr@ != node_addr@),
            forall|k: u64| #[trigger]
                final(self)@.contains_key(k) ==> final(self)@[k] == old(self)@[k],
            forall|t: int|
                0 <= t < failed@.len() ==> old(self)@.contains_key(
                    (#[trigger] failed@[t]).id,
                ) && failed@[t] == old(self)@[failed@[t].id] && failed@[t].node_addr@
                    == node_addr@,
            forall|k: u64|
                (#[trigger] old(self)@.contains_key(k) && old(self)@[k].node_addr@
                    == node_addr@) ==> exists|t: int|
                    0 <= t < failed@.len() && (#[trigger] failed@[t]).id == k,
    {
        let ids = self.outstanding_for(node_addr);
        let mut failed: Vec<TaskHandle> = Vec::new();
        let mut t: usize = 0;
        let n = ids.len();
        while t < n
            invariant
                self.wf(),
                self.has_capacity() == old(self).has_capacity(),
                n == ids@.len(),
                t <= n,
                ids@.no_duplicates(),
                forall|u: int|
                    0 <= u < ids@.len() ==> old(self)@.contains_key(#[trigger] ids@[u]) && old(
                        self,
                    )@[ids@[u]].node_addr@ == node_addr@,
                forall|k: u64|
                    (#[trigger] old(self)@.contains_key(k) && old(self)@[k].node_addr@
                        == node_addr@) ==> ids@.contains(k),
                forall|k: u64| #[trigger]
                    self@.contains_key(k) == (old(self)@.contains_key(k)
                        && !ids@.subrange(0, t as int).contains(k)),
                forall|k: u64| #[trigger]
                    self@.contains_key(k) ==> self@[k] == old(self)@[k],
                failed@.len() == t,
                forall|u: int| 0 <= u < t ==> (#[trigger] failed@[u]) == old(self)@[ids@[u]]
                    && failed@[u].id == ids@[u],
            decreases n - t,
        {
            let id = ids[t];
            proof {
                if ids@.subrange(0, t as int).contains(id) {
                    let w = choose|w: int| 0 <= w < t && ids@[w] == id;
                    assert(false);
                }
                assert(self@.contains_key(id));
            }
            match self.complete(id) {
                Some(handle) => {
                    failed.push(handle);
                }
                None => {
                    proof {
                        assert(false);
                    }
                }
            }
            proof {
                let pre = ids@.subrange(0, t as int);
                let post = ids@.subrange(0, t + 1);
                assert forall|k: u64| #[trigger]
                    post.contains(k) == (pre.contains(k) || k == ids@[t as int]) by {
                    if post.contains(k) {
                        let w = choose|w: int| 0 <= w < post.len() && post[w] == k;
                        if w < t {
                            assert(pre[w] == k);
                            assert(pre.contains(k));
                        }
                    }
                    if pre.contains(k) {
                        let w = choose|w: int| 0 <= w < pre.len() && pre[w] == k;
                        assert(post[w] == k);
                        assert(post.contains(k));
                    }
                    if k == ids@[t as int] {
                        assert(post[t as int] == k);
                        assert(post.contains(k));
                    }
                }
            }
            t += 1;
        }
        proof {
            assert(ids@.subrange(0, n as int) =~= ids@);
            assert forall|k: u64|
                (#[trigger] old(self)@.contains_key(k) && old(self)@[k].node_addr@
                    == node_addr@) implies exists|u: int|
                0 <= u < failed@.len() && (#[trigger] failed@[u]).id == k by {
                assert(ids@.contains(k));
                let w = choose|w: int| 0 <= w < ids@.len() && ids@[w] == k;
                assert(failed@[w].id == k);
            }
        }
        failed
    }
}

/// The index at which `id` sits in `order`.
fn position_of(order: &Vec<u64>, id: u64) -> (idx: usize)
    requires
        order@.contains(id),
    ensures
        idx < order@.len(),
        order@[idx as int] == id,
{
    let n = order.len();
    let mut i: usize = 0;
    while i < n
        invariant
            n == order@.len(),
            i <= n,
            order@.contains(id),
            forall|j: int| 0 <= j < i ==> order@[j] != id,
        decreases n - i,
    {
        if order[i] == id {
            return i;
        }
        i += 1;
    }
    proof {
        let w = choose|w: int| 0 <= w < order@.len() && order@[w] == id;
        assert(false);
    }
    0
}

} // verus!
