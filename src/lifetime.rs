//! The ownership tree of native resources.
//!
//! Every native resource is a node of one tree rooted at the capability
//! token: windows, surfaces, controllers, audio queues and loaded libraries
//! hang off the token, renderers off a window, textures off a renderer. A
//! node is released at most once, and only after every node below it.
//! Handles are indices that are never reused, so a handle to a released node
//! stays stale for good.

use vstd::prelude::*;

verus! {

/// The kinds of native resources.
#[derive(Debug, Clone, Copy, PartialEq, Eq, Structural)]
pub enum ResourceKind {
    Token,
    Window,
    Renderer,
    Texture,
    Surface,
    Controller,
    AudioQueue,
    Library,
}

impl ResourceKind {
    /// The kind that a resource of this kind is created from; the token is
    /// created from nothing.
    pub open spec fn spec_parent_kind(self) -> Option<ResourceKind> {
        match self {
            ResourceKind::Token => None,
            ResourceKind::Renderer => Some(ResourceKind::Window),
            ResourceKind::Texture => Some(ResourceKind::Renderer),
            _ => Some(ResourceKind::Token),
        }
    }

    /// Whether a resource of this kind is created from one of kind `p`.
    pub fn is_child_of(self, p: ResourceKind) -> (r: bool)
        ensures
            r == (self.spec_parent_kind() == Some(p)),
    {
        match self {
            ResourceKind::Token => false,
            ResourceKind::Renderer => p == ResourceKind::Window,
            ResourceKind::Texture => p == ResourceKind::Renderer,
            _ => p == ResourceKind::Token,
        }
    }
}

/// Why an operation on the tree was refused.
#[derive(Debug, Clone, Copy, PartialEq, Eq, Structural)]
pub enum LifetimeError {
    /// A capability token is already live.
    AlreadyInitialized,
    /// The handle names no live resource.
    StaleHandle,
    /// A resource of that kind is not created from a resource of this kind.
    WrongParent,
    /// The resource still has live resources created from it.
    HasLiveChildren,
}

/// A handle to a node of the tree.
#[derive(Debug, Clone, Copy, PartialEq, Eq, Structural)]
pub struct Handle {
    pub index: usize,
}

/// One node: its kind, the index of its parent, and whether it is live.
#[derive(Debug, Clone, Copy, PartialEq, Eq, Structural)]
pub struct Node {
    pub kind: ResourceKind,
    pub parent: Option<usize>,
    pub live: bool,
}

/// The node at `i` exists and is live.
pub open spec fn live_at(s: Seq<Node>, i: int) -> bool {
    0 <= i < s.len() && s[i].live
}

/// Some live node has the node at `i` as its parent.
pub open spec fn has_live_child(s: Seq<Node>, i: int) -> bool {
    exists|j: int| 0 <= j < s.len() && s[j].live && s[j].parent == Some(i as usize)
}

/// Some token node is live.
pub open spec fn has_live_token(s: Seq<Node>) -> bool {
    exists|i: int| 0 <= i < s.len() && s[i].live && s[i].kind is Token
}

/// The nodes form a tree of the right kinds, in which every live node has a
/// live parent, and at most one token is live.
pub open spec fn tree_wf(s: Seq<Node>) -> bool {
    &&& forall|i: int|
        #![trigger s[i].parent]
        0 <= i < s.len() ==> match s[i].parent {
            Some(p) => p < i && s[i].kind.spec_parent_kind() == Some(s[p as int].kind),
            None => s[i].kind is Token,
        }
    &&& forall|i: int|
        #![trigger s[i].live]
        0 <= i < s.len() && s[i].live && s[i].parent is Some ==> s[s[i].parent->Some_0 as int].live
    &&& forall|i: int, j: int|
        #![trigger s[i].live, s[j].live]
        0 <= i < s.len() && 0 <= j < s.len() && s[i].live && s[i].kind is Token && s[j].live
            && s[j].kind is Token ==> i == j
}

/// The nodes after the node at `i` is released.
pub open spec fn released(s: Seq<Node>, i: int) -> Seq<Node> {
    s.update(i, Node { live: false, ..s[i] })
}

/// The nodes after a live node of kind `k` is created under `parent`.
pub open spec fn acquired(s: Seq<Node>, k: ResourceKind, parent: Option<usize>) -> Seq<Node> {
    s.push(Node { kind: k, parent, live: true })
}

/// The tree of all native resources that the process holds.
pub struct ResourceTree {
    nodes: Vec<Node>,
    token: Option<usize>,
}

impl View for ResourceTree {
    type V = Seq<Node>;

    closed spec fn view(&self) -> Seq<Node> {
        self.nodes@
    }
}

impl ResourceTree {
    /// The tree is well formed and `token` names its live token, if any.
    pub closed spec fn wf(&self) -> bool {
        &&& tree_wf(self.nodes@)
        &&& match self.token {
            Some(t) => live_at(self.nodes@, t as int) && self.nodes@[t as int].kind is Token,
            None => !has_live_token(self.nodes@),
        }
    }

    /// An empty tree: no token, no resource.
    pub fn new() -> (r: Self)
        ensures
            r.wf(),
            r@ == Seq::<Node>::empty(),
    {
        ResourceTree { nodes: Vec::new(), token: None }
    }

    /// Records the capability token. Fails while another token is live.
    pub fn init_token(&mut self) -> (r: Result<Handle, LifetimeError>)
        requires
            old(self).wf(),
            old(self)@.len() < usize::MAX,
        ensures
            final(self).wf(),
            has_live_token(old(self)@) ==> r == Err::<Handle, LifetimeError>(
                LifetimeError::AlreadyInitialized,
            ) && final(self)@ == old(self)@,
            !has_live_token(old(self)@) ==> r == Ok::<Handle, LifetimeError>(
                Handle { index: old(self)@.len() as usize },
            ) && final(self)@ == acquired(old(self)@, ResourceKind::Token, None),
    {
        if self.token.is_some() {
            return Err(LifetimeError::AlreadyInitialized);
        }
        let i = self.nodes.len();
        self.nodes.push(Node { kind: ResourceKind::Token, parent: None, live: true });
        self.token = Some(i);
        proof {
            let s = self.nodes@;
            assert(s[i as int].live && s[i as int].kind is Token);
            assert(forall|j: int| 0 <= j < i ==> s[j] == old(self).nodes@[j]);
        }
        Ok(Handle { index: i })
    }

    /// The number of resources ever recorded, live or released.
    pub fn len(&self) -> (r: usize)
        ensures
            r == self@.len(),
    {
        self.nodes.len()
    }

    /// Whether `h` names a live resource.
    pub fn is_live(&self, h: Handle) -> (r: bool)
        ensures
            r == live_at(self@, h.index as int),
    {
        h.index < self.nodes.len() && self.nodes[h.index].live
    }

    /// Whether `child` was created from `parent`.
    pub fn owns(&self, parent: Handle, child: Handle) -> (r: bool)
        ensures
            r == (child.index < self@.len() && self@[child.index as int].parent == Some(
                parent.index,
            )),
    {
        if child.index < self.nodes.len() {
            match self.nodes[child.index].parent {
                Some(p) => p == parent.index,
                None => false,
            }
        } else {
            false
        }
    }

    /// Records a new live resource of kind `kind` created from `parent`.
    pub fn acquire(&mut self, parent: Handle, kind: ResourceKind) -> (r: Result<
        Handle,
        LifetimeError,
    >)
        requires
            old(self).wf(),
            old(self)@.len() < usize::MAX,
        ensures
            final(self).wf(),
            !live_at(old(self)@, parent.index as int) ==> r == Err::<Handle, LifetimeError>(
                LifetimeError::StaleHandle,
            ) && final(self)@ == old(self)@,
            live_at(old(self)@, parent.index as int) && kind.spec_parent_kind() != Some(
                old(self)@[parent.index as int].kind,
            ) ==> r == Err::<Handle, LifetimeError>(LifetimeError::WrongParent) && final(self)@
                == old(self)@,
            live_at(old(self)@, parent.index as int) && kind.spec_parent_kind() == Some(
                old(self)@[parent.index as int].kind,
            ) ==> r == Ok::<Handle, LifetimeError>(Handle { index: old(self)@.len() as usize })
                && final(self)@ == acquired(old(self)@, kind, Some(parent.index)),
    {
        if !self.is_live(parent) {
            return Err(LifetimeError::StaleHandle);
        }
        if !kind.is_child_of(self.nodes[parent.index].kind) {
            return Err(LifetimeError::WrongParent);
        }
        let i = self.nodes.len();
        self.nodes.push(Node { kind, parent: Some(parent.index), live: true });
        proof {
            let s = self.nodes@;
            assert(forall|j: int| 0 <= j < i ==> s[j] == old(self).nodes@[j]);
            assert(s[i as int].kind == kind);
        }
        Ok(Handle { index: i })
    }

    /// Releases the resource `h`. Fails on a stale handle, and on a resource
    /// from which live resources were created: children go first.
    pub fn release(&mut self, h: Handle) -> (r: Result<(), LifetimeError>)
        requires
            old(self).wf(),
        ensures
            final(self).wf(),
            !live_at(old(self)@, h.index as int) ==> r == Err::<(), LifetimeError>(
                LifetimeError::StaleHandle,
            ) && final(self)@ == old(self)@,
            live_at(old(self)@, h.index as int) && has_live_child(old(self)@, h.index as int)
                ==> r == Err::<(), LifetimeError>(LifetimeError::HasLiveChildren) && final(self)@
                == old(self)@,
            live_at(old(self)@, h.index as int) && !has_live_child(old(self)@, h.index as int)
                ==> r == Ok::<(), LifetimeError>(()) && final(self)@ == released(
                old(self)@,
                h.index as int,
            ),
    {
        if !self.is_live(h) {
            return Err(LifetimeError::StaleHandle);
        }
        let n = self.nodes.len();
        let mut j: usize = 0;
        while j < n
            invariant
                self.nodes@ == old(self).nodes@,
                self.token == old(self).token,
                self.wf(),
                live_at(self.nodes@, h.index as int),
                n == self.nodes@.len(),
                j <= n,
                forall|k: int|
                    0 <= k < j ==> !(self.nodes@[k].live && self.nodes@[k].parent == Some(
                        h.index,
                    )),
            decreases n - j,
        {
            let node = self.nodes[j];
            let is_child = match node.parent {
                Some(p) => p == h.index,
                None => false,
            };
            if node.live && is_child {
                return Err(LifetimeError::HasLiveChildren);
            }
            j = j + 1;
        }
        let old_node = self.nodes[h.index];
        let is_token = old_node.kind == ResourceKind::Token;
        self.nodes.set(h.index, Node { kind: old_node.kind, parent: old_node.parent, live: false });
        if is_token {
            self.token = None;
        }
        proof {
            let s0 = old(self).nodes@;
            let s = self.nodes@;
            assert(s =~= released(s0, h.index as int));
            assert(!has_live_child(s0, h.index as int));
            assert forall|i: int|
                #![trigger s[i].live]
                0 <= i < s.len() && s[i].live && s[i].parent is Some implies s[s[i].parent->Some_0 as int].live by {
                assert(s0[i].live);
                assert(s0[s0[i].parent->Some_0 as int].live);
            }
        }
        Ok(())
    }
}

impl ResourceTree {
    /// Releases every live resource, leaves first, and returns their handles
    /// in the order they were released. Every one of these releases
    /// succeeds, since a resource is always released after those created
    /// from it.
    pub fn shutdown(&mut self) -> (r: Vec<Handle>)
        requires
            old(self).wf(),
        ensures
            final(self).wf(),
            final(self)@.len() == old(self)@.len(),
            forall|j: int|
                0 <= j < final(self)@.len() ==> !final(self)@[j].live && final(self)@[j].kind
                    == old(self)@[j].kind && final(self)@[j].parent == old(self)@[j].parent,
            forall|k: int| 0 <= k < r@.len() ==> live_at(old(self)@, r@[k].index as int),
            forall|j: int|
                live_at(old(self)@, j) ==> exists|k: int| 0 <= k < r@.len() && r@[k].index == j,
            forall|a: int, b: int|
                0 <= a < b < r@.len() ==> r@[a].index > r@[b].index,
            forall|a: int, b: int|
                0 <= a < r@.len() && 0 <= b < r@.len() && old(self)@[r@[b].index as int].parent
                    == Some(r@[a].index) ==> b < a,
    {
        let mut order: Vec<Handle> = Vec::new();
        let mut i: usize = self.nodes.len();
        while i > 0
            invariant
                self.wf(),
                i <= self.nodes@.len(),
                self.nodes@.len() == old(self)@.len(),
                forall|j: int|
                    0 <= j < self.nodes@.len() ==> self.nodes@[j].kind == old(self)@[j].kind
                        && self.nodes@[j].parent == old(self)@[j].parent,
                forall|j: int| 0 <= j < i ==> self.nodes@[j].live == old(self)@[j].live,
                forall|j: int| i <= j < self.nodes@.len() ==> !self.nodes@[j].live,
                forall|k: int|
                    0 <= k < order@.len() ==> live_at(old(self)@, order@[k].index as int)
                        && i <= order@[k].index,
                forall|j: int|
                    i <= j < self.nodes@.len() && old(self)@[j].live ==> exists|k: int|
                        0 <= k < order@.len() && order@[k].index == j,
                forall|a: int, b: int|
                    0 <= a < b < order@.len() ==> order@[a].index > order@[b].index,
            decreases i,
        {
            i = i - 1;
            let h = Handle { index: i };
            let ghost prev = order@;
            if self.is_live(h) {
                proof {
                    let s = self.nodes@;
                    assert forall|j: int|
                        0 <= j < s.len() && s[j].live implies s[j].parent != Some(i) by {
                        if s[j].parent == Some(i) {
                            assert(i < j);
                        }
                    }
                }
                let res = self.release(h);
                assert(res is Ok);
                order.push(h);
                proof {
                    assert(order@ == prev.push(h));
                    assert(order@[order@.len() - 1].index == i);
                    assert forall|j: int|
                        i <= j < self.nodes@.len() && old(self)@[j].live implies exists|k: int|
                            0 <= k < order@.len() && order@[k].index == j by {
                        if j == i {
                            assert(order@[order@.len() - 1].index == j);
                        } else {
                            let k0 = choose|k: int| 0 <= k < prev.len() && prev[k].index == j;
                            assert(order@[k0].index == j);
                        }
                    }
                }
            }
        }
        order
    }
}

/// After a successful release the released node is no longer live, so a
/// second release of the same handle fails; no other node changes.
pub proof fn lemma_release_once(s: Seq<Node>, h: int)
    requires
        tree_wf(s),
        live_at(s, h),
        !has_live_child(s, h),
    ensures
        !live_at(released(s, h), h),
        tree_wf(released(s, h)),
        released(s, h).len() == s.len(),
        forall|j: int| 0 <= j < s.len() && j != h ==> released(s, h)[j] == s[j],
{
    let r = released(s, h);
    assert forall|i: int|
        #![trigger r[i].live]
        0 <= i < r.len() && r[i].live && r[i].parent is Some implies r[r[i].parent->Some_0 as int].live by {
        assert(s[i].live);
    }
}

/// In a well-formed tree no live resource outlives the resource it was
/// created from: a parent is released only after all its children.
pub proof fn lemma_children_before_parent(s: Seq<Node>, c: int)
    requires
        tree_wf(s),
        live_at(s, c),
        s[c].parent is Some,
    ensures
        live_at(s, s[c].parent->Some_0 as int),
        has_live_child(s, s[c].parent->Some_0 as int),
{
    let p = s[c].parent->Some_0;
    assert(p < c);
    assert(s[c].live);
}

/// Once a token is recorded, a second one is refused until it is released.
pub proof fn lemma_single_token(s: Seq<Node>)
    ensures
        has_live_token(acquired(s, ResourceKind::Token, None)),
{
    let t = acquired(s, ResourceKind::Token, None);
    assert(t[s.len() as int].live && t[s.len() as int].kind is Token);
}

} // verus!
