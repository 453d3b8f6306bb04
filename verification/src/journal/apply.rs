use vstd::prelude::*;

use super::action::{ActionPayload, PayloadView, bytes_view, payloads_view, snapshot_view, undo_of};
use super::descriptor::{NodeDescriptor, NodeDescriptorView};
use super::entity_id::WorldEntityId;
use super::entity_id::WorldEntityRegistry;
use super::save_load::SaveLoadError;
use crate::text::chars_of;

verus! {

/// Errors that can occur when applying an action. Entities are given by their 64-bit handles.
#[derive(Debug)]
pub enum ApplyError {
    /// The target is not in the world's entity registry.
    TargetNotFound(WorldEntityId),
    /// The entity is not in the world.
    EntityMissing(u64),
    /// The world root (or its registry) was not found.
    WorldRootMissing,
    /// Saving or loading a component failed.
    SaveLoad(SaveLoadError),
    /// The component type is not in the type registry.
    TypeNotRegistered(String),
    /// The component type has no reflected component data.
    NoReflectComponent(String),
    /// The component is not present on the entity.
    ComponentMissing(String),
    /// The field path does not lead to a field of the component.
    FieldNotFound { component: String, path: String },
}

/// Resolves a world identifier to the entity it names in the world root's registry.
/// `registry` is the registry found on the world root, if any.
pub fn resolve_entity(registry: Option<&WorldEntityRegistry>, target: WorldEntityId) -> (res: Result<
    u64,
    ApplyError,
>)
    ensures
        match registry {
            None => res matches Err(ApplyError::WorldRootMissing),
            Some(r) => if r.entities().contains_key(target.0) {
                res == Ok::<u64, ApplyError>(r.entities()[target.0])
            } else {
                res matches Err(ApplyError::TargetNotFound(t)) && t == target
            },
        },
{
    match registry {
        None => Err(ApplyError::WorldRootMissing),
        Some(r) => match r.get_entity(&target) {
            Some(e) => Ok(e),
            None => Err(ApplyError::TargetNotFound(target)),
        },
    }
}

/// The parent to remember for undo, given an entity's parent (if it has one): none for
/// the world root itself, else the parent's world identifier if it is registered.
pub fn parent_for_undo(parent: Option<u64>, world_root: u64, registry: Option<&WorldEntityRegistry>) -> (res: Option<WorldEntityId>)
    ensures
        res == match parent {
            None => None::<WorldEntityId>,
            Some(p) => if p == world_root {
                None::<WorldEntityId>
            } else {
                match registry {
                    None => None::<WorldEntityId>,
                    Some(r) => if r.world_ids().contains_key(p) {
                        Some(WorldEntityId(r.world_ids()[p]))
                    } else {
                        None::<WorldEntityId>
                    },
                }
            },
        },
{
    match parent {
        None => None,
        Some(p) => {
            if p == world_root {
                None
            } else {
                match registry {
                    None => None,
                    Some(r) => r.get_world_id(&p),
                }
            }
        },
    }
}

/// What applying a payload found in the world just before changing it.
#[derive(Debug)]
pub enum PriorState {
    /// The previous serialized component or field (none: absent or not serializable).
    Value(Option<Vec<u8>>),
    /// The deleted subtree (none: it could not be captured) and its parent (none: the world root).
    Subtree { snapshot: Option<NodeDescriptor>, parent: Option<WorldEntityId> },
    /// The previous parent (none: the world root).
    Parent(Option<WorldEntityId>),
    /// Nothing (for additions).
    Nothing,
}

/// The mathematical value of a [`PriorState`].
pub enum PriorView {
    Value(Option<Seq<u8>>),
    Subtree { snapshot: Option<NodeDescriptorView>, parent: Option<WorldEntityId> },
    Parent(Option<WorldEntityId>),
    Nothing,
}

impl View for PriorState {
    type V = PriorView;

    open spec fn view(&self) -> PriorView {
        match self {
            PriorState::Value(b) => PriorView::Value(bytes_view(*b)),
            PriorState::Subtree { snapshot, parent } => PriorView::Subtree {
                snapshot: snapshot_view(*snapshot),
                parent: *parent,
            },
            PriorState::Parent(p) => PriorView::Parent(*p),
            PriorState::Nothing => PriorView::Nothing,
        }
    }
}

/// The previous bytes a prior state holds (none for other kinds).
pub open spec fn prior_bytes(prior: PriorView) -> Option<Seq<u8>> {
    match prior {
        PriorView::Value(b) => b,
        _ => None,
    }
}

/// The payload that an application records: the requested change with the prior state
/// filled in for undo. Additions and batches are recorded as requested.
pub open spec fn applied(p: PayloadView, prior: PriorView) -> PayloadView {
    match p {
        PayloadView::SetProperty { component, field_path, value, previous_value } =>
            PayloadView::SetProperty {
            component,
            field_path,
            value,
            previous_value: prior_bytes(prior),
        },
        PayloadView::SetComponent { component, data, previous_data } =>
            PayloadView::SetComponent { component, data, previous_data: prior_bytes(prior) },
        PayloadView::RemoveComponent { component, previous_data } =>
            PayloadView::RemoveComponent { component, previous_data: prior_bytes(prior) },
        PayloadView::DeleteNode { snapshot, parent } => match prior {
            PriorView::Subtree { snapshot, parent } => PayloadView::DeleteNode { snapshot, parent },
            _ => PayloadView::DeleteNode { snapshot: None, parent: None },
        },
        PayloadView::Reparent { new_parent, previous_parent } => match prior {
            PriorView::Parent(prev) => PayloadView::Reparent {
                new_parent,
                previous_parent: Some(prev),
            },
            _ => PayloadView::Reparent { new_parent, previous_parent: None },
        },
        _ => p,
    }
}

/// Whether the prior state holds everything that undoing the payload needs.
pub open spec fn prior_complete(p: PayloadView, prior: PriorView) -> bool {
    match p {
        PayloadView::SetProperty { .. } => prior_bytes(prior) is Some,
        PayloadView::SetComponent { .. } => prior_bytes(prior) is Some,
        PayloadView::RemoveComponent { .. } => prior_bytes(prior) is Some,
        PayloadView::DeleteNode { .. } => prior matches PriorView::Subtree { snapshot, .. } && snapshot is Some,
        PayloadView::Reparent { .. } => prior is Parent,
        PayloadView::AddComponent { .. } => true,
        PayloadView::AddNode { .. } => true,
        PayloadView::Batch(_) => false,
    }
}

/// An applied change records exactly what was asked, with the prior state captured before
/// it as its previous state: a property or component change keeps its component, field
/// path and new value, and its previous value is the captured prior value.
pub proof fn law_applied_records_prior(p: PayloadView, prior: PriorView)
    ensures
        p matches PayloadView::SetProperty { component, field_path, value, .. } ==> applied(p, prior)
            == (PayloadView::SetProperty { component, field_path, value, previous_value: prior_bytes(prior) }),
        p matches PayloadView::SetComponent { component, data, .. } ==> applied(p, prior)
            == (PayloadView::SetComponent { component, data, previous_data: prior_bytes(prior) }),
        p matches PayloadView::RemoveComponent { component, .. } ==> applied(p, prior)
            == (PayloadView::RemoveComponent { component, previous_data: prior_bytes(prior) }),
        (p is AddComponent || p is AddNode || p is Batch) ==> applied(p, prior) == p,
{
}

/// Undoing an applied change restores the state captured before it: a property or
/// component is set back to the captured bytes, a removed component is added back with
/// them, a deleted node is re-added from its snapshot under its old parent, and a moved
/// node goes back to its old parent.
pub proof fn law_undo_restores_prior(p: PayloadView, prior: PriorView)
    ensures
        p matches PayloadView::SetProperty { component, field_path, value, .. } ==> (
        prior matches PriorView::Value(Some(b)) ==> undo_of(applied(p, prior)) == Some(
            PayloadView::SetProperty { component, field_path, value: b, previous_value: Some(value) },
        )),
        p matches PayloadView::SetComponent { component, data, .. } ==> (
        prior matches PriorView::Value(Some(b)) ==> undo_of(applied(p, prior)) == Some(
            PayloadView::SetComponent { component, data: b, previous_data: Some(data) },
        )),
        p matches PayloadView::RemoveComponent { component, .. } ==> (
        prior matches PriorView::Value(Some(b)) ==> undo_of(applied(p, prior)) == Some(
            PayloadView::AddComponent { component, data: b },
        )),
        p is DeleteNode ==> (
        prior matches PriorView::Subtree { snapshot: Some(s), parent } ==> undo_of(applied(p, prior))
            == Some(PayloadView::AddNode { descriptor: s, parent })),
        p matches PayloadView::Reparent { new_parent, .. } ==> (
        prior matches PriorView::Parent(old) ==> undo_of(applied(p, prior)) == Some(
            PayloadView::Reparent { new_parent: old, previous_parent: Some(new_parent) },
        )),
{
    super::action::law_undo_swaps_old_and_new(applied(p, prior));
}

/// A single (non-batch) action applied with its prior state captured can be undone, and
/// undoing the undo gives back exactly the recorded action.
pub proof fn law_applied_is_undoable(p: PayloadView, prior: PriorView)
    requires
        prior_complete(p, prior),
    ensures
        undo_of(applied(p, prior)) is Some,
        undo_of(undo_of(applied(p, prior)).unwrap()) == Some(applied(p, prior)),
{
    super::action::law_undo_of_undo(applied(p, prior));
}

/// The action that rolls back the sub-actions of a batch that were applied before one
/// failed: their reverses, the last applied first. None where one of them has no reverse.
pub fn batch_rollback(applied: Vec<ActionPayload>) -> (res: Option<ActionPayload>)
    ensures
        match res {
            Some(q) => undo_of(PayloadView::Batch(payloads_view(applied@))) == Some(q@),
            None => undo_of(PayloadView::Batch(payloads_view(applied@))) is None,
        },
{
    let batch = ActionPayload::Batch(applied);
    batch.undo_payload()
}

/// Copies optional bytes.
fn copy_bytes(b: &Option<Vec<u8>>) -> (res: Option<Vec<u8>>)
    ensures
        bytes_view(res) == bytes_view(*b),
{
    match b {
        Some(v) => Some(v.clone()),
        None => None,
    }
}

/// The payload to record after applying `payload`, given what the world held before.
pub fn applied_payload(payload: &ActionPayload, prior: PriorState) -> (res: ActionPayload)
    ensures
        res@ == applied(payload@, prior@),
{
    let prev = match &prior {
        PriorState::Value(b) => copy_bytes(b),
        _ => None,
    };
    match payload {
        ActionPayload::SetProperty { component, field_path, value, .. } => ActionPayload::SetProperty {
            component: component.clone(),
            field_path: field_path.clone(),
            value: value.clone(),
            previous_value: prev,
        },
        ActionPayload::SetComponent { component, data, .. } => ActionPayload::SetComponent {
            component: component.clone(),
            data: data.clone(),
            previous_data: prev,
        },
        ActionPayload::RemoveComponent { component, .. } => ActionPayload::RemoveComponent {
            component: component.clone(),
            previous_data: prev,
        },
        ActionPayload::DeleteNode { .. } => match prior {
            PriorState::Subtree { snapshot, parent } => ActionPayload::DeleteNode { snapshot, parent },
            _ => ActionPayload::DeleteNode { snapshot: None, parent: None },
        },
        ActionPayload::Reparent { new_parent, .. } => match prior {
            PriorState::Parent(p) => ActionPayload::Reparent {
                new_parent: *new_parent,
                previous_parent: Some(p),
            },
            _ => ActionPayload::Reparent { new_parent: *new_parent, previous_parent: None },
        },
        _ => payload.clone(),
    }
}

/// The dot-separated segments of a field path, in order; consecutive, leading or
/// trailing dots give empty segments, and the empty path is one empty segment.
pub open spec fn split_dots(s: Seq<char>) -> Seq<Seq<char>>
    decreases s.len(),
{
    if s.len() == 0 {
        seq![Seq::empty()]
    } else {
        let r = split_dots(s.drop_last());
        if s.last() == '.' {
            r.push(Seq::empty())
        } else {
            r.update(r.len() - 1, r.last().push(s.last()))
        }
    }
}

/// The views of a sequence of strings.
pub open spec fn strings_view(s: Seq<String>) -> Seq<Seq<char>> {
    s.map_values(|x: String| x@)
}

/// The segments of a dot-separated field path (e.g. "translation.x" gives
/// "translation" and "x"), which name nested struct fields of a component.
pub fn field_path_segments(path: &str) -> (segs: Vec<String>)
    ensures
        strings_view(segs@) == split_dots(path@),
{
    let c = chars_of(path);
    let mut segs: Vec<String> = Vec::new();
    let mut start: usize = 0;
    let mut j: usize = 0;
    proof {
        assert(c@.subrange(0, 0) =~= Seq::<char>::empty());
        assert(strings_view(segs@).push(c@.subrange(0, 0)) =~= seq![Seq::<char>::empty()]);
    }
    while j < c.len()
        invariant
            c@ == path@,
            start <= j <= c@.len(),
            split_dots(c@.subrange(0, j as int)) == strings_view(segs@).push(
                c@.subrange(start as int, j as int),
            ),
        decreases c@.len() - j,
    {
        let ghost pre = c@.subrange(0, j + 1);
        proof {
            assert(pre.drop_last() =~= c@.subrange(0, j as int));
            assert(pre.last() == c@[j as int]);
        }
        if c[j] == '.' {
            let seg = path.substring_char(start, j).to_owned();
            let ghost before = strings_view(segs@);
            segs.push(seg);
            proof {
                assert(strings_view(segs@) =~= before.push(c@.subrange(start as int, j as int)));
                assert(c@.subrange(j + 1, j + 1) =~= Seq::<char>::empty());
            }
            start = j + 1;
        } else {
            proof {
                assert(c@.subrange(start as int, j + 1) =~= c@.subrange(start as int, j as int).push(
                    c@[j as int],
                ));
                let r = strings_view(segs@).push(c@.subrange(start as int, j as int));
                assert(r.update(r.len() - 1, r.last().push(c@[j as int])) =~= strings_view(segs@).push(
                    c@.subrange(start as int, j + 1),
                ));
            }
        }
        j = j + 1;
    }
    let last = path.substring_char(start, c.len()).to_owned();
    let ghost before = strings_view(segs@);
    segs.push(last);
    proof {
        assert(c@.subrange(0, c@.len() as int) =~= c@);
        assert(strings_view(segs@) =~= before.push(c@.subrange(start as int, c@.len() as int)));
    }
    segs
}

} // verus!
