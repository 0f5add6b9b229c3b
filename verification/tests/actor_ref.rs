use ractor::actor_ref::{ActorCell, ActorDied, ActorRef, CheckedActorRef, InvalidTypeId};
use ractor::messaging::{ActorId, MessagingErr};
use ractor::properties::ActorProperties;

fn local_cell(type_id: u64) -> ActorCell {
    let p: ActorProperties<(), ()> = ActorProperties::new(Some("a".to_string()), 1, type_id, (), ());
    ActorCell::new(&p)
}

fn remote_cell(type_id: u64) -> ActorCell {
    let p: ActorProperties<(), ()> = ActorProperties::new_remote(
        None,
        ActorId::Remote { node_id: 2, pid: 5 },
        type_id,
        (),
        (),
    );
    ActorCell::new(&p)
}

#[test]
fn cell_reports_its_actor() {
    let c = local_cell(10);
    assert_eq!(c.get_id(), ActorId::Local(1));
    assert_eq!(c.get_name(), Some("a".to_string()));
    assert_eq!(c.message_type_id(), 10);
    assert_eq!(c.is_message_type_of(10), Some(true));
    assert_eq!(c.is_message_type_of(11), Some(false));
    assert_eq!(remote_cell(10).is_message_type_of(11), None);
    assert_eq!(remote_cell(10).get_name(), None);
    assert_eq!(remote_cell(10).get_id(), ActorId::Remote { node_id: 2, pid: 5 });
}

#[test]
fn typed_ref_round_trip() {
    let r: ActorRef<u32> = ActorRef::from_cell(local_cell(10));
    let c = r.get_cell();
    assert_eq!(c.get_id(), ActorId::Local(1));
    let again = r.duplicate().into_cell();
    assert_eq!(again.message_type_id(), 10);
    assert_eq!(again.get_name(), Some("a".to_string()));
}

#[test]
fn where_is_checks_local_types() {
    assert!(ActorRef::<u32>::where_is(Some(local_cell(10)), 10).is_some());
    assert!(ActorRef::<u32>::where_is(Some(local_cell(10)), 11).is_none());
    assert!(ActorRef::<u32>::where_is(Some(remote_cell(10)), 11).is_some());
    assert!(ActorRef::<u32>::where_is(None, 10).is_none());
    let found = ActorRef::<u32>::where_is(Some(local_cell(10)), 10).unwrap();
    assert_eq!(found.get_cell().get_id(), ActorId::Local(1));
}

#[test]
fn checked_ref_requires_matching_type() {
    let ok = CheckedActorRef::<u32>::try_from_cell(local_cell(10), 10);
    assert!(ok.is_ok());
    let c = ok.ok().unwrap();
    assert_eq!(c.get_cell().message_type_id(), 10);
    assert_eq!(c.duplicate().into_cell().get_id(), ActorId::Local(1));
    assert!(matches!(
        CheckedActorRef::<u32>::try_from_cell(local_cell(10), 11),
        Err(InvalidTypeId)
    ));
    // the check does not depend on where the actor lives
    assert!(CheckedActorRef::<u32>::try_from_cell(remote_cell(10), 11).is_err());
    assert!(CheckedActorRef::<u32>::try_from_cell(remote_cell(10), 10).is_ok());
}

#[test]
fn checked_send_failure_hands_message_back() {
    assert!(CheckedActorRef::<u32>::send_result(Ok(())).is_ok());
    match CheckedActorRef::<u32>::send_result(Err(MessagingErr::SendErr(3))) {
        Err(MessagingErr::SendErr(m)) => assert_eq!(m, 3),
        _ => panic!("expected the message back"),
    }
}

#[test]
fn error_texts() {
    assert_eq!(ActorDied(1u8).describe(), "Message could not be sent because actor died");
    assert_eq!(ActorDied(1u8).debug_text(), "ActorDied(_)");
    assert_eq!(InvalidTypeId.describe(), "Message type is not adequate");
}
