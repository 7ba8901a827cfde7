use vstd::prelude::*;

verus! {

/// One node of the cancellation hierarchy.
#[derive(Debug, Clone, Copy)]
pub struct CancelNode {
    pub parent: Option<usize>,
    pub cancelled: bool,
}

/// A hierarchy of cooperative cancellation signals.
///
/// Signals are identified by indices into an arena; a child derived from a
/// parent observes the parent's cancellation. Cancelling is idempotent and a
/// cancelled signal stays cancelled: `cancel` only ever sets flags.
#[derive(Debug, Clone)]
pub struct CancelTree {
    pub nodes: Vec<CancelNode>,
}

/// Every parent link points strictly downwards in the arena, so ancestor
/// chains terminate.
pub open spec fn wf_nodes(nodes: Seq<CancelNode>) -> bool {
    forall|i: int|
        0 <= i < nodes.len() ==> ((#[trigger] nodes[i]).parent matches Some(p) ==> p < i)
}

/// A signal reports cancelled when its own flag is set or any ancestor's is.
pub open spec fn spec_cancelled(nodes: Seq<CancelNode>, id: int) -> bool
    decreases id,
    when wf_nodes(nodes) && 0 <= id < nodes.len()
{
    nodes[id].cancelled || (match nodes[id].parent {
        Some(p) => spec_cancelled(nodes, p as int),
        None => false,
    })
}

/// `child` descends from `ancestor` through parent links.
pub open spec fn spec_descends(nodes: Seq<CancelNode>, child: int, ancestor: int) -> bool
    decreases child,
    when wf_nodes(nodes) && 0 <= child < nodes.len()
{
    child == ancestor || (match nodes[child].parent {
        Some(p) => spec_descends(nodes, p as int, ancestor),
        None => false,
    })
}

impl CancelTree {
    pub open spec fn wf(&self) -> bool {
        wf_nodes(self.nodes@)
    }

    /// An empty hierarchy.
    pub fn new() -> (r: CancelTree)
        ensures
            r.wf(),
            r.nodes@.len() == 0,
    {
        CancelTree { nodes: Vec::new() }
    }

    /// Creates a fresh root signal and returns its identifier.
    pub fn new_root(&mut self) -> (id: usize)
        requires
            old(self).wf(),
            old(self).nodes@.len() < usize::MAX,
        ensures
            final(self).wf(),
            id == old(self).nodes@.len(),
            final(self).nodes@ == old(self).nodes@.push(
                CancelNode { parent: None, cancelled: false },
            ),
            !spec_cancelled(final(self).nodes@, id as int),
    {
        let id = self.nodes.len();
        self.nodes.push(CancelNode { parent: None, cancelled: false });
        id
    }

    /// Derives a child signal from `parent` and returns its identifier.
    pub fn derive_child(&mut self, parent: usize) -> (id: usize)
        requires
            old(self).wf(),
            parent < old(self).nodes@.len(),
            old(self).nodes@.len() < usize::MAX,
        ensures
            final(self).wf(),
            id == old(self).nodes@.len(),
            final(self).nodes@ == old(self).nodes@.push(
                CancelNode { parent: Some(parent), cancelled: false },
            ),
            spec_descends(final(self).nodes@, id as int, parent as int),
    {
        let id = self.nodes.len();
        self.nodes.push(CancelNode { parent: Some(parent), cancelled: false });
        proof {
            assert(forall|i: int|
                0 <= i < self.nodes@.len() - 1 ==> self.nodes@[i] == old(self).nodes@[i]);
            assert(spec_descends(self.nodes@, parent as int, parent as int));
            assert(self.nodes@[id as int].parent == Some(parent));
        }
        id
    }

    /// Marks `id` cancelled. Only sets flags, so cancellation is idempotent
    /// and permanent.
    pub fn cancel(&mut self, id: usize)
        requires
            old(self).wf(),
            id < old(self).nodes@.len(),
        ensures
            final(self).wf(),
            final(self).nodes@.len() == old(self).nodes@.len(),
            final(self).nodes@[id as int].cancelled,
            final(self).nodes@[id as int].parent == old(self).nodes@[id as int].parent,
            forall|i: int|
                0 <= i < old(self).nodes@.len() && i != id ==> final(self).nodes@[i] == old(
                    self,
                ).nodes@[i],
    {
        let parent = self.nodes[id].parent;
        self.nodes.set(id, CancelNode { parent, cancelled: true });
    }

    /// Whether `id` observes cancellation, through its own flag or an
    /// ancestor's.
    pub fn is_cancelled(&self, id: usize) -> (r: bool)
        requires
            self.wf(),
            id < self.nodes@.len(),
        ensures
            r == spec_cancelled(self.nodes@, id as int),
        decreases id,
    {
        let node = self.nodes[id];
        if node.cancelled {
            true
        } else {
            match node.parent {
                Some(p) => self.is_cancelled(p),
                None => false,
            }
        }
    }
}

/// Cancelling a signal cancels every signal that descends from it: after
/// `cancel(parent)`, each `child` with `spec_descends(.., child, parent)`
/// reports cancelled.
pub proof fn lemma_cancel_reaches_descendants(
    pre: Seq<CancelNode>,
    post: Seq<CancelNode>,
    parent: int,
    child: int,
)
    requires
        wf_nodes(pre),
        wf_nodes(post),
        0 <= parent < pre.len(),
        0 <= child < pre.len(),
        post.len() == pre.len(),
        post[parent].cancelled,
        post[parent].parent == pre[parent].parent,
        forall|i: int| 0 <= i < pre.len() && i != parent ==> post[i] == pre[i],
        spec_descends(pre, child, parent),
    ensures
        spec_cancelled(post, child),
    decreases child,
{
    if child == parent {
    } else {
        match pre[child].parent {
            Some(p) => {
                lemma_cancel_reaches_descendants(pre, post, parent, p as int);
            },
            None => {
            },
        }
    }
}

/// A cancelled signal stays cancelled across further `cancel` calls, whatever
/// signal they target.
pub proof fn lemma_cancel_is_permanent(
    pre: Seq<CancelNode>,
    post: Seq<CancelNode>,
    target: int,
    id: int,
)
    requires
        wf_nodes(pre),
        wf_nodes(post),
        0 <= target < pre.len(),
        0 <= id < pre.len(),
        post.len() == pre.len(),
        post[target].cancelled,
        post[target].parent == pre[target].parent,
        forall|i: int| 0 <= i < pre.len() && i != target ==> post[i] == pre[i],
        spec_cancelled(pre, id),
    ensures
        spec_cancelled(post, id),
    decreases id,
{
    if pre[id].cancelled {
        if id != target {
            assert(post[id] == pre[id]);
        }
    } else {
        match pre[id].parent {
            Some(p) => {
                lemma_cancel_is_permanent(pre, post, target, p as int);
            },
            None => {
            },
        }
    }
}

} // verus!
