use vstd::prelude::*;
use std::collections::HashMap;

use super::entity_id::WorldEntityId;

verus! {

/// A single serialized component within a [`NodeDescriptor`].
#[derive(Debug)]
pub struct ComponentData {
    /// Type path of the component (e.g. "mycelium_vr::components::Health").
    pub type_path: String,
    /// MessagePack-serialized bytes of the component value.
    pub data: Vec<u8>,
}

/// The mathematical value of a [`ComponentData`].
pub struct ComponentDataView {
    pub type_path: Seq<char>,
    pub data: Seq<u8>,
}

impl View for ComponentData {
    type V = ComponentDataView;

    open spec fn view(&self) -> ComponentDataView {
        ComponentDataView { type_path: self.type_path@, data: self.data@ }
    }
}

impl Clone for ComponentData {
    fn clone(&self) -> (res: Self)
        ensures
            res@ == self@,
    {
        ComponentData { type_path: self.type_path.clone(), data: self.data.clone() }
    }
}

/// Portable description of a single entity and its children.
/// Used for save/load, late-join snapshots, node additions and the undo of deletions.
#[derive(Debug)]
pub struct NodeDescriptor {
    /// Stable cross-peer identifier for this entity.
    pub world_entity_id: WorldEntityId,
    /// Serialized components.
    pub components: Vec<ComponentData>,
    /// Child entities, preserving hierarchy.
    pub children: Vec<NodeDescriptor>,
    /// Arbitrary metadata (display name, tags, asset references).
    pub metadata: HashMap<String, Vec<u8>>,
}

/// The mathematical value of a [`NodeDescriptor`]: a tree.
pub struct NodeDescriptorView {
    pub world_entity_id: u128,
    pub components: Seq<ComponentDataView>,
    pub children: Seq<NodeDescriptorView>,
    pub metadata: Map<String, Vec<u8>>,
}

/// The mathematical values of a sequence of descriptors.
pub open spec fn descriptors_view(s: Seq<NodeDescriptor>) -> Seq<NodeDescriptorView>
    decreases s,
{
    if s.len() == 0 {
        Seq::empty()
    } else {
        descriptors_view(s.subrange(0, s.len() - 1)).push(s[s.len() - 1].model())
    }
}

impl NodeDescriptor {
    /// The tree that this descriptor describes.
    pub open spec fn model(&self) -> NodeDescriptorView
        decreases self,
    {
        NodeDescriptorView {
            world_entity_id: self.world_entity_id.0,
            components: self.components@.map_values(|c: ComponentData| c@),
            children: descriptors_view(self.children@),
            metadata: self.metadata@,
        }
    }
}

/// Number of nodes in a tree.
pub open spec fn tree_size(t: NodeDescriptorView) -> nat
    decreases t,
{
    1 + forest_size(t.children)
}

/// Number of nodes in a sequence of trees.
pub open spec fn forest_size(s: Seq<NodeDescriptorView>) -> nat
    decreases s,
{
    if s.len() == 0 {
        0
    } else {
        forest_size(s.subrange(0, s.len() - 1)) + tree_size(s[s.len() - 1])
    }
}

/// The view of a prefix extended by one more descriptor.
proof fn lemma_descriptors_view_push(s: Seq<NodeDescriptor>, i: int)
    requires
        0 <= i < s.len(),
    ensures
        descriptors_view(s.subrange(0, i + 1)) == descriptors_view(s.subrange(0, i)).push(
            s[i].model(),
        ),
{
    assert(s.subrange(0, i + 1).subrange(0, i) =~= s.subrange(0, i));
}

/// The view of a sequence has the same length, and its elements are the elements' views.
proof fn lemma_descriptors_view_index(s: Seq<NodeDescriptor>)
    ensures
        descriptors_view(s).len() == s.len(),
        forall|i: int| 0 <= i < s.len() ==> #[trigger] descriptors_view(s)[i] == s[i].model(),
    decreases s.len(),
{
    if s.len() > 0 {
        lemma_descriptors_view_index(s.subrange(0, s.len() - 1));
    }
}

/// A prefix of a forest has no more nodes than the forest.
proof fn lemma_forest_size_prefix(s: Seq<NodeDescriptorView>, i: int)
    requires
        0 <= i <= s.len(),
    ensures
        forest_size(s.subrange(0, i)) <= forest_size(s),
    decreases s.len() - i,
{
    if i < s.len() {
        lemma_forest_size_prefix(s, i + 1);
        assert(s.subrange(0, i + 1).subrange(0, i) =~= s.subrange(0, i));
    } else {
        assert(s.subrange(0, i) =~= s);
    }
}

/// Clones each component of a list.
fn clone_components(v: &Vec<ComponentData>) -> (res: Vec<ComponentData>)
    ensures
        res@.map_values(|c: ComponentData| c@) == v@.map_values(|c: ComponentData| c@),
{
    let mut res: Vec<ComponentData> = Vec::new();
    let mut i: usize = 0;
    while i < v.len()
        invariant
            i <= v.len(),
            res@.len() == i,
            forall|j: int| 0 <= j < i ==> #[trigger] res@[j]@ == v@[j]@,
        decreases v.len() - i,
    {
        res.push(v[i].clone());
        i = i + 1;
    }
    assert(res@.map_values(|c: ComponentData| c@) =~= v@.map_values(|c: ComponentData| c@));
    res
}

impl NodeDescriptor {
    /// A copy of the whole tree.
    fn clone_tree(&self) -> (res: NodeDescriptor)
        ensures
            res@ == self@,
        decreases self,
    {
        let mut children: Vec<NodeDescriptor> = Vec::new();
        let mut i: usize = 0;
        while i < self.children.len()
            invariant
                i <= self.children@.len(),
                descriptors_view(children@) == descriptors_view(self.children@.subrange(0, i as int)),
            decreases self.children@.len() - i,
        {
            let child = self.children[i].clone_tree();
            proof {
                lemma_descriptors_view_push(self.children@, i as int);
                assert(children@.push(child).subrange(0, children@.len() as int) =~= children@);
            }
            children.push(child);
            i = i + 1;
        }
        proof {
            assert(self.children@.subrange(0, self.children@.len() as int) =~= self.children@);
        }
        NodeDescriptor {
            world_entity_id: self.world_entity_id,
            components: clone_components(&self.components),
            children,
            metadata: self.metadata.clone(),
        }
    }

    /// A new empty descriptor with a fresh random identifier.
    pub fn new() -> (d: NodeDescriptor)
        ensures
            super::entity_id::is_random_uuid(d@.world_entity_id),
            d@.components.len() == 0,
            d@.children.len() == 0,
            d@.metadata == Map::<String, Vec<u8>>::empty(),
    {
        NodeDescriptor {
            world_entity_id: WorldEntityId::new(),
            components: Vec::new(),
            children: Vec::new(),
            metadata: HashMap::new(),
        }
    }

    /// A new empty descriptor with the given identifier.
    pub fn with_id(id: WorldEntityId) -> (d: NodeDescriptor)
        ensures
            d@.world_entity_id == id.0,
            d@.components.len() == 0,
            d@.children.len() == 0,
            d@.metadata == Map::<String, Vec<u8>>::empty(),
    {
        NodeDescriptor {
            world_entity_id: id,
            components: Vec::new(),
            children: Vec::new(),
            metadata: HashMap::new(),
        }
    }

    /// Total number of entities in this subtree (itself and all descendants).
    pub fn entity_count(&self) -> (n: usize)
        requires
            tree_size(self@) <= usize::MAX,
        ensures
            n == tree_size(self@),
        decreases self,
    {
        let ghost kids = descriptors_view(self.children@);
        proof {
            lemma_descriptors_view_index(self.children@);
        }
        let mut total: usize = 1;
        let mut i: usize = 0;
        while i < self.children.len()
            invariant
                i <= self.children@.len(),
                kids == descriptors_view(self.children@),
                kids.len() == self.children@.len(),
                forall|j: int| 0 <= j < self.children@.len() ==> #[trigger] kids[j] == self.children@[j].model(),
                1 + forest_size(kids) <= usize::MAX,
                total == 1 + forest_size(kids.subrange(0, i as int)),
            decreases self.children@.len() - i,
        {
            proof {
                assert(kids.subrange(0, i + 1).subrange(0, i as int) =~= kids.subrange(0, i as int));
                lemma_forest_size_prefix(kids, i + 1);
            }
            let c = self.children[i].entity_count();
            total = total + c;
            i = i + 1;
        }
        proof {
            assert(kids.subrange(0, i as int) =~= kids);
        }
        total
    }
}

impl Clone for NodeDescriptor {
    fn clone(&self) -> (res: Self)
        ensures
            res@ == self@,
    {
        self.clone_tree()
    }
}

impl Default for NodeDescriptor {
    fn default() -> (d: NodeDescriptor)
        ensures
            super::entity_id::is_random_uuid(d@.world_entity_id),
            d@.components.len() == 0,
            d@.children.len() == 0,
            d@.metadata == Map::<String, Vec<u8>>::empty(),
    {
        NodeDescriptor::new()
    }
}

impl View for NodeDescriptor {
    type V = NodeDescriptorView;

    open spec fn view(&self) -> NodeDescriptorView {
        self.model()
    }
}

} // verus!
