use mycelium_vr::journal::action::ActionPayload;
use mycelium_vr::journal::apply::{
    applied_payload, batch_rollback, parent_for_undo, resolve_entity, ApplyError, PriorState,
};
use mycelium_vr::journal::descriptor::ComponentData;
use mycelium_vr::journal::{field_path_segments, identifier_for_save};
use mycelium_vr::journal::plugin::{JournalActionQueue, JournalUndoRedoQueue, UndoRedoKeys};
use mycelium_vr::journal::{
    should_skip_component, ActionRecord, NodeDescriptor, SavePolicy, WorldEntityId,
    WorldEntityRegistry, WorldJournal, WorldPermissions, WorldRole,
};

fn record(payload: ActionPayload) -> ActionRecord {
    ActionRecord {
        target: WorldEntityId::from_uuid(7),
        payload,
        author: "peer".into(),
        timestamp_bits: 1.5f64.to_bits(),
        sequence: 9,
        received: true,
    }
}

fn set_component(data: u8, prev: Option<u8>) -> ActionPayload {
    ActionPayload::SetComponent {
        component: "Health".into(),
        data: vec![data],
        previous_data: prev.map(|p| vec![p]),
    }
}

#[test]
fn undo_of_undo_restores_batch() {
    let batch = ActionPayload::Batch(vec![
        set_component(2, Some(1)),
        ActionPayload::AddComponent { component: "Tag".into(), data: vec![5] },
        ActionPayload::Reparent {
            new_parent: Some(WorldEntityId::from_uuid(3)),
            previous_parent: Some(None),
        },
    ]);
    let r = record(batch);
    let u = r.make_undo().unwrap();
    assert_eq!(u.sequence, 0);
    assert!(!u.received);
    assert_eq!(u.author, "peer");
    assert_eq!(u.timestamp_bits, 1.5f64.to_bits());
    match &u.payload {
        ActionPayload::Batch(items) => {
            assert_eq!(items.len(), 3);
            // Reversed order: the reparent comes first.
            match &items[0] {
                ActionPayload::Reparent { new_parent, previous_parent } => {
                    assert_eq!(*new_parent, None);
                    assert_eq!(*previous_parent, Some(Some(WorldEntityId::from_uuid(3))));
                }
                _ => panic!("Expected Reparent"),
            }
            match &items[1] {
                ActionPayload::RemoveComponent { component, previous_data } => {
                    assert_eq!(component, "Tag");
                    assert_eq!(previous_data, &Some(vec![5]));
                }
                _ => panic!("Expected RemoveComponent"),
            }
            match &items[2] {
                ActionPayload::SetComponent { data, previous_data, .. } => {
                    assert_eq!(data, &vec![1]);
                    assert_eq!(previous_data, &Some(vec![2]));
                }
                _ => panic!("Expected SetComponent"),
            }
        }
        _ => panic!("Expected Batch"),
    }
    let uu = u.make_undo().unwrap();
    match &uu.payload {
        ActionPayload::Batch(items) => {
            assert_eq!(items.len(), 3);
            assert!(matches!(&items[0], ActionPayload::SetComponent { data, previous_data: Some(p), .. } if data == &vec![2] && p == &vec![1]));
            assert!(matches!(&items[1], ActionPayload::AddComponent { data, .. } if data == &vec![5]));
            assert!(matches!(&items[2], ActionPayload::Reparent { new_parent: Some(_), previous_parent: Some(None) }));
        }
        _ => panic!("Expected Batch"),
    }
}

#[test]
fn undo_needs_captured_state() {
    assert!(record(set_component(2, None)).make_undo().is_none());
    assert!(record(ActionPayload::RemoveComponent { component: "X".into(), previous_data: None })
        .make_undo()
        .is_none());
    assert!(record(ActionPayload::DeleteNode { snapshot: None, parent: None }).make_undo().is_none());
    assert!(record(ActionPayload::Reparent { new_parent: None, previous_parent: None })
        .make_undo()
        .is_none());
    // One sub-action without captured state makes the whole batch irreversible.
    let batch = ActionPayload::Batch(vec![set_component(2, Some(1)), set_component(3, None)]);
    assert!(record(batch).make_undo().is_none());
    // An empty batch reverses to an empty batch.
    let u = record(ActionPayload::Batch(vec![])).make_undo().unwrap();
    assert!(matches!(&u.payload, ActionPayload::Batch(v) if v.is_empty()));
    // Deleting with a snapshot undoes to adding it back under the same parent.
    let snap = NodeDescriptor::with_id(WorldEntityId::from_uuid(11));
    let parent = Some(WorldEntityId::from_uuid(12));
    let u = record(ActionPayload::DeleteNode { snapshot: Some(snap), parent }).make_undo().unwrap();
    match &u.payload {
        ActionPayload::AddNode { descriptor, parent: p } => {
            assert_eq!(descriptor.world_entity_id, WorldEntityId::from_uuid(11));
            assert_eq!(*p, parent);
        }
        _ => panic!("Expected AddNode"),
    }
}

fn local(v: u8) -> ActionRecord {
    ActionRecord {
        target: WorldEntityId::from_uuid(1),
        payload: set_component(v, Some(v.wrapping_sub(1))),
        author: "me".into(),
        timestamp_bits: 0,
        sequence: 0,
        received: true,
    }
}

#[test]
fn journal_undo_redo_cycle() {
    let mut j = WorldJournal::new();
    assert_eq!(j.record_local(local(1)), 1);
    assert_eq!(j.record_local(local(2)), 2);
    assert!(!j.log[1].received);
    assert_eq!(j.log[1].sequence, 2);
    assert_eq!(j.next_sequence, 3);

    let u = j.undo().unwrap();
    assert!(matches!(&u.payload, ActionPayload::SetComponent { data, .. } if data == &vec![1]));
    assert_eq!(j.undo_stack.len(), 1);
    assert_eq!(j.redo_stack.len(), 1);

    // Redo after undo gives back the undone action and restores the stacks.
    let r = j.redo().unwrap();
    assert_eq!(r.sequence, 2);
    assert_eq!(j.undo_stack.len(), 2);
    assert!(j.redo_stack.is_empty());

    // A new local action clears the redo chain.
    j.undo().unwrap();
    assert_eq!(j.redo_stack.len(), 1);
    assert_eq!(j.record_local(local(3)), 3);
    assert!(j.redo_stack.is_empty());
    assert!(j.redo().is_none());
    assert_eq!(j.log.len(), 3);
    assert_eq!(j.outbox.len(), 3);
}

#[test]
fn journal_undo_without_state_drops_action() {
    let mut j = WorldJournal::new();
    let mut r = local(1);
    r.payload = set_component(1, None);
    j.record_local(r);
    assert!(j.undo().is_none());
    assert!(j.undo_stack.is_empty());
    assert!(j.redo_stack.is_empty());
    assert!(j.undo().is_none());
}

#[test]
fn journal_depth_limit_drops_oldest() {
    let mut j = WorldJournal::new();
    j.max_undo_depth = 2;
    for v in 1..=4u8 {
        j.record_local(local(v));
    }
    assert_eq!(j.undo_stack.len(), 2);
    assert_eq!(j.undo_stack[0].sequence, 3);
    assert_eq!(j.undo_stack[1].sequence, 4);
    assert_eq!(j.log.len(), 4);

    let mut z = WorldJournal::new();
    z.max_undo_depth = 0;
    z.record_local(local(1));
    assert!(z.undo_stack.is_empty());
    assert_eq!(z.log.len(), 1);
}

#[test]
fn journal_drain_keeps_order() {
    let mut j = WorldJournal::new();
    for v in 1..=3u8 {
        j.record_local(local(v));
    }
    let out = j.drain_outbox();
    let seqs: Vec<u64> = out.iter().map(|r| r.sequence).collect();
    assert_eq!(seqs, vec![1, 2, 3]);
    assert!(j.drain_outbox().is_empty());
}

#[test]
fn permissions_policies() {
    let mut p = WorldPermissions::default();
    assert_eq!(p.role_for(""), WorldRole::Owner);
    assert_eq!(p.role_for("x"), WorldRole::Editor);
    assert!(p.can_edit("x"));
    assert!(!p.can_save("x"));
    assert!(!p.can_admin("x"));

    p.owner = "o".into();
    p.save_policy = SavePolicy::Anyone;
    p.peer_roles = vec![
        ("blocked".into(), WorldRole::Blocked),
        ("admin".into(), WorldRole::Admin),
        ("admin".into(), WorldRole::Viewer),
    ];
    assert!(p.can_save("x"));
    assert!(!p.can_save("blocked"));
    assert!(p.can_save("o"));
    assert_eq!(p.role_for("admin"), WorldRole::Admin);
    assert!(p.can_admin("admin"));
    assert!(p.can_edit("admin"));
    assert!(!p.can_edit("blocked"));

    // The owner keeps the owner role even with an override of its own.
    p.peer_roles.push(("o".into(), WorldRole::Blocked));
    assert_eq!(p.role_for("o"), WorldRole::Owner);
    assert!(p.can_admin("o"));
}

#[test]
fn registry_reregistration_and_entity_removal() {
    let mut reg = WorldEntityRegistry::new();
    let a = WorldEntityId::from_uuid(1);
    let b = WorldEntityId::from_uuid(2);
    reg.register(a, 10);
    reg.register(b, 10);
    assert_eq!(reg.len(), 2);
    assert_eq!(reg.get_world_id(&10), Some(b));
    assert_eq!(reg.get_entity(&a), Some(10));
    assert_eq!(reg.unregister_entity(&10), Some(b));
    assert_eq!(reg.get_entity(&b), None);
    assert_eq!(reg.get_entity(&a), Some(10));
    assert_eq!(reg.unregister_entity(&10), None);
    assert_eq!(reg.unregister(&b), None);
    assert_eq!(reg.unregister(&a), Some(10));
    assert!(reg.is_empty());
}

#[test]
fn world_entity_id_text_and_version() {
    let id = WorldEntityId::from_uuid(0x67e5_5044_10b1_426f_9247_bb68_0e5f_e0c8);
    assert_eq!(id.to_string(), "67e55044-10b1-426f-9247-bb680e5fe0c8");
    let fresh = WorldEntityId::new();
    assert_eq!((fresh.0 >> 76) & 0xf, 4);
    assert_eq!((fresh.0 >> 62) & 0x3, 2);
    assert_eq!(WorldEntityId::from_uuid(0).to_string(), "00000000-0000-0000-0000-000000000000");
}

#[test]
fn descriptor_clone_and_count() {
    let mut root = NodeDescriptor::with_id(WorldEntityId::from_uuid(5));
    root.components.push(ComponentData { type_path: "a::B".into(), data: vec![1, 2] });
    root.metadata.insert("name".into(), b"Root".to_vec());
    let mut child = NodeDescriptor::new();
    child.children.push(NodeDescriptor::new());
    root.children.push(child);
    let copy = root.clone();
    assert_eq!(copy.world_entity_id, WorldEntityId::from_uuid(5));
    assert_eq!(copy.components[0].type_path, "a::B");
    assert_eq!(copy.components[0].data, vec![1, 2]);
    assert_eq!(copy.metadata.get("name").unwrap(), b"Root");
    assert_eq!(copy.entity_count(), 3);
    assert_eq!(NodeDescriptor::default().entity_count(), 1);
}

#[test]
fn skip_list() {
    assert!(should_skip_component("bevy_ecs::hierarchy::ChildOf"));
    assert!(should_skip_component("mycelium_vr::journal::entity_id::WorldEntityId"));
    assert!(should_skip_component("x::bevy_hierarchy::Parent"));
    assert!(!should_skip_component("bevy_transform::components::Transform"));
    assert!(!should_skip_component("Child"));
    assert!(!should_skip_component(""));
}

#[test]
fn resolve_and_parent_decisions() {
    let mut reg = WorldEntityRegistry::new();
    let a = WorldEntityId::from_uuid(1);
    reg.register(a, 10);
    assert!(matches!(resolve_entity(None, a), Err(ApplyError::WorldRootMissing)));
    assert!(matches!(resolve_entity(Some(&reg), a), Ok(10)));
    let b = WorldEntityId::from_uuid(2);
    assert!(matches!(resolve_entity(Some(&reg), b), Err(ApplyError::TargetNotFound(t)) if t == b));

    assert_eq!(parent_for_undo(None, 99, Some(&reg)), None);
    assert_eq!(parent_for_undo(Some(99), 99, Some(&reg)), None);
    assert_eq!(parent_for_undo(Some(10), 99, Some(&reg)), Some(a));
    assert_eq!(parent_for_undo(Some(11), 99, Some(&reg)), None);
    assert_eq!(parent_for_undo(Some(10), 99, None), None);
}

#[test]
fn applied_payload_fills_prior_state() {
    let p = set_component(2, None);
    let a = applied_payload(&p, PriorState::Value(Some(vec![1])));
    assert!(matches!(&a, ActionPayload::SetComponent { data, previous_data: Some(v), .. } if data == &vec![2] && v == &vec![1]));
    let r = record(a).make_undo().unwrap();
    assert!(matches!(&r.payload, ActionPayload::SetComponent { data, .. } if data == &vec![1]));

    let del = ActionPayload::DeleteNode { snapshot: None, parent: None };
    let snap = NodeDescriptor::with_id(WorldEntityId::from_uuid(4));
    let parent = Some(WorldEntityId::from_uuid(8));
    let a = applied_payload(&del, PriorState::Subtree { snapshot: Some(snap), parent });
    assert!(matches!(&a, ActionPayload::DeleteNode { snapshot: Some(_), parent: p } if *p == parent));

    let re = ActionPayload::Reparent { new_parent: None, previous_parent: None };
    let a = applied_payload(&re, PriorState::Parent(parent));
    assert!(matches!(&a, ActionPayload::Reparent { new_parent: None, previous_parent: Some(p) } if *p == parent));

    let add = ActionPayload::AddComponent { component: "T".into(), data: vec![3] };
    let a = applied_payload(&add, PriorState::Nothing);
    assert!(matches!(&a, ActionPayload::AddComponent { data, .. } if data == &vec![3]));
}

#[test]
fn queues() {
    let mut q = JournalActionQueue::default();
    q.0.push(local(1));
    q.0.push(local(2));
    let taken = q.drain();
    assert_eq!(taken.len(), 2);
    assert!(q.0.is_empty());

    let mut u = JournalUndoRedoQueue::default();
    let none = UndoRedoKeys { ctrl: false, shift: false, z_pressed: true, y_pressed: true };
    u.add_key_requests(none);
    assert_eq!((u.undo_count, u.redo_count), (0, 0));
    u.add_key_requests(UndoRedoKeys { ctrl: true, shift: false, z_pressed: true, y_pressed: false });
    u.add_key_requests(UndoRedoKeys { ctrl: true, shift: true, z_pressed: true, y_pressed: true });
    assert_eq!((u.undo_count, u.redo_count), (1, 2));
    assert_eq!(u.take_counts(), (1, 2));
    assert_eq!((u.undo_count, u.redo_count), (0, 0));
}

#[test]
fn field_path_split() {
    assert_eq!(field_path_segments("translation.x"), vec!["translation".to_string(), "x".to_string()]);
    assert_eq!(field_path_segments("x"), vec!["x".to_string()]);
    assert_eq!(field_path_segments(""), vec!["".to_string()]);
    assert_eq!(field_path_segments("a..b."), vec!["a".to_string(), "".to_string(), "b".to_string(), "".to_string()]);
}

#[test]
fn set_peer_role_replaces_or_adds_one_entry() {
    let mut p = WorldPermissions::default();
    p.owner = "o".into();
    p.set_peer_role("bob".into(), WorldRole::Viewer);
    p.set_peer_role("carol".into(), WorldRole::Admin);
    p.set_peer_role("bob".into(), WorldRole::Editor);
    assert_eq!(p.peer_roles.len(), 2);
    assert_eq!(p.role_for("bob"), WorldRole::Editor);
    assert_eq!(p.role_for("carol"), WorldRole::Admin);
    assert_eq!(p.role_for("dave"), WorldRole::Editor);
    p.set_peer_role("o".into(), WorldRole::Blocked);
    assert_eq!(p.role_for("o"), WorldRole::Owner);
}

#[test]
fn registry_counts_drop_by_one_on_unregister_entity() {
    let mut r = WorldEntityRegistry::new();
    let w = WorldEntityId::from_uuid(11);
    r.register(w, 5);
    r.register(WorldEntityId::from_uuid(12), 6);
    assert_eq!(r.len(), 2);
    assert_eq!(r.unregister_entity(&5), Some(w));
    assert_eq!(r.len(), 1);
    assert_eq!(r.get_entity(&w), None);
    assert_eq!(r.unregister_entity(&5), None);
    assert_eq!(r.len(), 1);
}

#[test]
fn identifier_for_save_prefers_carried_then_registered() {
    let a = WorldEntityId::from_uuid(1);
    let b = WorldEntityId::from_uuid(2);
    assert_eq!(identifier_for_save(Some(a), Some(b)), a);
    assert_eq!(identifier_for_save(None, Some(b)), b);
    let fresh = identifier_for_save(None, None);
    assert_eq!((fresh.0 >> 76) & 0xf, 4);
    assert_ne!(fresh, identifier_for_save(None, None));
}

#[test]
fn batch_rollback_reverses_applied_prefix() {
    let applied = vec![set_component(2, Some(1)), set_component(3, Some(2))];
    let rollback = batch_rollback(applied).unwrap();
    let expected = ActionPayload::Batch(vec![set_component(2, Some(3)), set_component(1, Some(2))]);
    assert_eq!(format!("{:?}", rollback), format!("{:?}", expected));
    assert!(batch_rollback(vec![set_component(2, None)]).is_none());
    let empty = batch_rollback(vec![]).unwrap();
    assert!(matches!(&empty, ActionPayload::Batch(v) if v.is_empty()));
}

#[test]
fn key_requests_fit_only_when_increments_overflow() {
    let full = JournalUndoRedoQueue { undo_count: u32::MAX, redo_count: u32::MAX };
    let idle = UndoRedoKeys { ctrl: true, shift: false, z_pressed: false, y_pressed: false };
    assert!(full.key_requests_fit(idle));
    let mut q = full;
    q.add_key_requests(idle);
    assert_eq!((q.undo_count, q.redo_count), (u32::MAX, u32::MAX));
    let undo = UndoRedoKeys { ctrl: true, shift: false, z_pressed: true, y_pressed: false };
    assert!(!full.key_requests_fit(undo));
    let near = JournalUndoRedoQueue { undo_count: 0, redo_count: u32::MAX - 1 };
    let both_redo = UndoRedoKeys { ctrl: true, shift: true, z_pressed: true, y_pressed: true };
    assert!(!near.key_requests_fit(both_redo));
    let one_redo = UndoRedoKeys { ctrl: true, shift: false, z_pressed: false, y_pressed: true };
    assert!(near.key_requests_fit(one_redo));
}
