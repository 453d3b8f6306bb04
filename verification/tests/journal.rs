use mycelium_vr::journal::action::ActionPayload;
use mycelium_vr::journal::{
    ActionRecord, NodeDescriptor, SavePolicy, WorldEntityId, WorldEntityRegistry, WorldJournal,
    WorldPermissions, WorldRole,
};

fn set_property_record(author: &str, value: Vec<u8>, previous: Option<Vec<u8>>) -> ActionRecord {
    ActionRecord {
        target: WorldEntityId::new(),
        payload: ActionPayload::SetProperty {
            component: "Transform".into(),
            field_path: "translation.x".into(),
            value,
            previous_value: previous,
        },
        author: author.into(),
        timestamp_bits: 0.0f64.to_bits(),
        sequence: 1,
        received: false,
    }
}

#[test]
fn undo_set_property() {
    let record = set_property_record("peer", vec![1], Some(vec![0]));
    let undo = record.make_undo().unwrap();
    match &undo.payload {
        ActionPayload::SetProperty { value, previous_value, .. } => {
            assert_eq!(value, &vec![0]);
            assert_eq!(previous_value.as_ref().unwrap(), &vec![1]);
        }
        _ => panic!("Expected SetProperty"),
    }
}

#[test]
fn undo_add_node_becomes_delete() {
    let desc = NodeDescriptor::new();
    let record = ActionRecord {
        target: WorldEntityId::new(),
        payload: ActionPayload::AddNode { descriptor: desc.clone(), parent: None },
        author: "peer".into(),
        timestamp_bits: 0.0f64.to_bits(),
        sequence: 1,
        received: false,
    };
    let undo = record.make_undo().unwrap();
    match &undo.payload {
        ActionPayload::DeleteNode { snapshot, parent } => {
            assert!(snapshot.is_some());
            assert!(parent.is_none());
        }
        _ => panic!("Expected DeleteNode"),
    }
}

#[test]
fn entity_count_nested() {
    let mut root = NodeDescriptor::new();
    let mut child = NodeDescriptor::new();
    child.children.push(NodeDescriptor::new());
    child.children.push(NodeDescriptor::new());
    root.children.push(child);
    root.children.push(NodeDescriptor::new());
    assert_eq!(root.entity_count(), 5);
}

#[test]
fn world_entity_id_unique() {
    let a = WorldEntityId::new();
    let b = WorldEntityId::new();
    assert_ne!(a, b);
}

#[test]
fn registry_bidirectional() {
    let mut reg = WorldEntityRegistry::default();
    let wid = WorldEntityId::new();
    let entity: u64 = 42;

    reg.register(wid, entity);
    assert_eq!(reg.get_entity(&wid), Some(entity));
    assert_eq!(reg.get_world_id(&entity), Some(wid));
    assert_eq!(reg.len(), 1);

    reg.unregister(&wid);
    assert_eq!(reg.get_entity(&wid), None);
    assert_eq!(reg.get_world_id(&entity), None);
    assert!(reg.is_empty());
}

#[test]
fn journal_record_and_undo() {
    let mut journal = WorldJournal::default();
    let mut record = set_property_record("peer_a", vec![1], Some(vec![0]));
    record.sequence = 0;

    let seq = journal.record_local(record);
    assert_eq!(seq, 1);
    assert_eq!(journal.log.len(), 1);
    assert_eq!(journal.undo_stack.len(), 1);
    assert_eq!(journal.outbox.len(), 1);

    let undo_action = journal.undo().unwrap();
    match &undo_action.payload {
        ActionPayload::SetProperty { value, .. } => {
            assert_eq!(value, &vec![0]);
        }
        _ => panic!("Expected SetProperty"),
    }
    assert_eq!(journal.undo_stack.len(), 0);
    assert_eq!(journal.redo_stack.len(), 1);

    let _redo_action = journal.redo().unwrap();
    assert_eq!(journal.undo_stack.len(), 1);
    assert_eq!(journal.redo_stack.len(), 0);
}

#[test]
fn journal_received_does_not_go_to_outbox() {
    let mut journal = WorldJournal::default();
    let mut record = set_property_record("remote_peer", vec![1], None);
    record.sequence = 5;

    journal.record_received(record);
    assert_eq!(journal.log.len(), 1);
    assert!(journal.log[0].received);
    assert!(journal.outbox.is_empty());
    assert!(journal.undo_stack.is_empty());
}

#[test]
fn permissions_role_resolution() {
    let perms = WorldPermissions {
        owner: "alice".into(),
        save_policy: SavePolicy::Permitted(vec!["bob".into()]),
        default_role: WorldRole::Viewer,
        peer_roles: vec![("bob".into(), WorldRole::Editor)],
    };

    assert_eq!(perms.role_for("alice"), WorldRole::Owner);
    assert_eq!(perms.role_for("bob"), WorldRole::Editor);
    assert_eq!(perms.role_for("charlie"), WorldRole::Viewer);

    assert!(perms.can_edit("alice"));
    assert!(perms.can_edit("bob"));
    assert!(!perms.can_edit("charlie"));

    assert!(perms.can_save("alice"));
    assert!(perms.can_save("bob"));
    assert!(!perms.can_save("charlie"));

    assert!(perms.can_admin("alice"));
    assert!(!perms.can_admin("bob"));
}

#[test]
fn drain_outbox() {
    let mut journal = WorldJournal::default();
    for i in 0..3u8 {
        let record = ActionRecord {
            target: WorldEntityId::new(),
            payload: ActionPayload::SetProperty {
                component: "T".into(),
                field_path: "x".into(),
                value: vec![i],
                previous_value: None,
            },
            author: "peer".into(),
            timestamp_bits: 0.0f64.to_bits(),
            sequence: 0,
            received: false,
        };
        journal.record_local(record);
    }

    let drained = journal.drain_outbox();
    assert_eq!(drained.len(), 3);
    assert!(journal.outbox.is_empty());
    assert_eq!(journal.log.len(), 3);
}
