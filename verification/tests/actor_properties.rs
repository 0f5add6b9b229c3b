use ractor::membership::MemberShip;
use ractor::messaging::{
    Delivery, closed_on_failure, drain_send_result, returned_on_failure, stop_message, ActorId,
    MessagingErr, Signal, StopMessage,
};
use ractor::properties::ActorProperties;
use ractor::status::{drain_transition, ActorStatus};

fn props() -> ActorProperties<&'static str, &'static str> {
    ActorProperties::new(Some("worker".to_string()), 7, 42, "signal-port", "stop-port")
}

fn pairs(v: &[(String, String)]) -> Vec<(&str, &str)> {
    v.iter().map(|(s, g)| (s.as_str(), g.as_str())).collect()
}

#[test]
fn new_actor_is_unstarted_local_and_can_monitor() {
    let p = props();
    assert_eq!(p.get_status(), ActorStatus::Unstarted);
    assert_eq!(p.get_id(), ActorId::Local(7));
    assert_eq!(p.get_type_id(), 42);
    assert_eq!(p.get_name(), Some("worker".to_string()));
    assert!(p.can_monitor());
}

#[test]
fn new_remote_keeps_the_given_id() {
    let p: ActorProperties<u8, u8> =
        ActorProperties::new_remote(None, ActorId::Remote { node_id: 3, pid: 9 }, 1, 0, 0);
    assert_eq!(p.get_id(), ActorId::Remote { node_id: 3, pid: 9 });
    assert_eq!(p.get_status(), ActorStatus::Unstarted);
}

#[test]
fn status_bytes_round_trip() {
    let all = [
        ActorStatus::Unstarted,
        ActorStatus::Starting,
        ActorStatus::Running,
        ActorStatus::Upgrading,
        ActorStatus::Draining,
        ActorStatus::Stopping,
        ActorStatus::Stopped,
    ];
    for (i, s) in all.iter().enumerate() {
        assert_eq!(s.as_u8(), i as u8);
        assert_eq!(ActorStatus::from_u8(s.as_u8()), *s);
    }
    assert_eq!(ActorStatus::from_u8(7), ActorStatus::Stopped);
    assert_eq!(ActorStatus::from_u8(255), ActorStatus::Stopped);
}

#[test]
fn set_status_then_get_status() {
    let mut p = props();
    p.set_status(ActorStatus::Running);
    assert_eq!(p.get_status(), ActorStatus::Running);
    p.set_status(ActorStatus::Upgrading);
    assert_eq!(p.get_status(), ActorStatus::Upgrading);
}

#[test]
fn drain_moves_to_draining_unless_stopping() {
    assert_eq!(drain_transition(0), Some(4));
    assert_eq!(drain_transition(2), Some(4));
    assert_eq!(drain_transition(4), Some(4));
    assert_eq!(drain_transition(5), None);
    assert_eq!(drain_transition(6), None);
    let mut p = props();
    p.set_status(ActorStatus::Running);
    p.begin_drain();
    assert_eq!(p.get_status(), ActorStatus::Draining);
    p.begin_drain();
    assert_eq!(p.get_status(), ActorStatus::Draining);
    p.set_status(ActorStatus::Stopping);
    p.begin_drain();
    assert_eq!(p.get_status(), ActorStatus::Stopping);
    p.set_status(ActorStatus::Stopped);
    p.begin_drain();
    assert_eq!(p.get_status(), ActorStatus::Stopped);
}

#[test]
fn running_actor_takes_messages_of_its_type() {
    let mut p = props();
    p.set_status(ActorStatus::Running);
    assert!(matches!(p.send_message("hello", 42, false), Ok(Delivery::Mailbox("hello"))));
    assert!(matches!(p.send_message("hello", 42, true), Ok(Delivery::Mailbox("hello"))));
    assert!(matches!(p.send_local_message_unchecked(5u32), Ok(5)));
}

#[test]
fn wrong_type_is_invalid_actor_type() {
    let mut p = props();
    p.set_status(ActorStatus::Running);
    assert!(matches!(p.send_message("hello", 41, false), Err(MessagingErr::InvalidActorType)));
    assert!(matches!(p.send_message("hello", 41, true), Err(MessagingErr::InvalidActorType)));
}

#[test]
fn remote_actor_refuses_local_message() {
    let mut p: ActorProperties<u8, u8> =
        ActorProperties::new_remote(None, ActorId::Remote { node_id: 1, pid: 2 }, 42, 0, 0);
    p.set_status(ActorStatus::Running);
    assert!(matches!(p.send_message(1u8, 42, false), Err(MessagingErr::InvalidActorType)));
}

#[test]
fn remote_actor_takes_serializable_message_of_any_type() {
    let mut p: ActorProperties<u8, u8> =
        ActorProperties::new_remote(None, ActorId::Remote { node_id: 1, pid: 2 }, 42, 0, 0);
    p.set_status(ActorStatus::Running);
    assert!(matches!(p.send_message(1u8, 42, true), Ok(Delivery::Serialized(1))));
    assert!(matches!(p.send_message(1u8, 7, true), Ok(Delivery::Serialized(1))));
    p.set_status(ActorStatus::Stopping);
    assert!(matches!(p.send_message(1u8, 42, true), Err(MessagingErr::SendErr(1))));
}

#[test]
fn draining_actor_hands_message_back() {
    let mut p = props();
    p.set_status(ActorStatus::Running);
    p.begin_drain();
    assert!(matches!(p.send_message("late", 42, false), Err(MessagingErr::SendErr("late"))));
    // the status is checked before the type
    assert!(matches!(p.send_message("late", 41, false), Err(MessagingErr::SendErr("late"))));
    assert!(matches!(p.send_local_message_unchecked(9u8), Err(MessagingErr::SendErr(9))));
    p.set_status(ActorStatus::Stopped);
    assert!(matches!(p.send_message("late", 42, false), Err(MessagingErr::SendErr("late"))));
}

#[test]
fn signal_port_is_taken_once() {
    let mut p = props();
    assert!(matches!(p.take_signal_port(), Ok("signal-port")));
    assert!(matches!(p.take_signal_port(), Err(MessagingErr::ChannelClosed)));
    // the stop port is independent
    assert!(matches!(p.take_stop_port(), Ok("stop-port")));
    assert!(matches!(p.take_stop_port(), Err(MessagingErr::ChannelClosed)));
}

#[test]
fn stop_message_carries_the_reason() {
    assert!(matches!(stop_message(None), StopMessage::Stop));
    match stop_message(Some("done".to_string())) {
        StopMessage::Reason(r) => assert_eq!(r, "done"),
        StopMessage::Stop => panic!("expected a reason"),
    }
}

#[test]
fn send_outcomes_are_mapped() {
    let ok: Result<(), Signal> = Ok(());
    assert!(matches!(closed_on_failure::<(), Signal>(ok), Ok(())));
    assert!(matches!(closed_on_failure::<(), Signal>(Err(Signal::Kill)), Err(MessagingErr::ChannelClosed)));
    assert!(matches!(returned_on_failure(Err(17u32)), Err(MessagingErr::SendErr(17))));
    assert!(matches!(returned_on_failure::<u32>(Ok(())), Ok(())));
    assert!(matches!(drain_send_result(Err("closed")), Err(MessagingErr::SendErr(()))));
    assert!(matches!(drain_send_result::<&str>(Ok(())), Ok(())));
}

#[test]
fn member_ship_add_is_idempotent_and_ordered() {
    let mut p = props();
    assert!(p.add_member_ship("s".to_string(), "a".to_string()));
    assert!(p.add_member_ship("s".to_string(), "b".to_string()));
    assert!(p.add_member_ship("s".to_string(), "a".to_string()));
    assert!(p.add_member_ship("t".to_string(), "a".to_string()));
    let m = p.remove_member_ship_ability();
    assert_eq!(pairs(&m.scope_groups), vec![("s", "a"), ("s", "b"), ("t", "a")]);
}

#[test]
fn member_ship_remove_keeps_others() {
    let mut p = props();
    p.add_member_ship("s".to_string(), "a".to_string());
    p.add_member_ship("s".to_string(), "b".to_string());
    p.add_member_ship("t".to_string(), "a".to_string());
    p.remove_member_ship("s".to_string(), "b".to_string());
    p.remove_member_ship("x".to_string(), "y".to_string());
    let m = p.remove_member_ship_ability();
    assert_eq!(pairs(&m.scope_groups), vec![("s", "a"), ("t", "a")]);
}

#[test]
fn listen_groups_and_scopes() {
    let mut p = props();
    assert!(p.add_listen_group("s".to_string(), "g".to_string()));
    assert!(p.add_listen_group("s".to_string(), "g".to_string()));
    assert!(p.add_listen_group("s".to_string(), "h".to_string()));
    assert!(p.add_listen_scope("s".to_string()));
    assert!(p.add_listen_scope("s".to_string()));
    assert!(p.add_listen_scope("u".to_string()));
    p.remove_listen_group("s", "g");
    p.remove_listen_scope("u");
    let m = p.remove_member_ship_ability();
    assert_eq!(pairs(&m.listened_groups), vec![("s", "h")]);
    assert_eq!(m.listened_scopes, vec!["s".to_string()]);
    assert!(m.scope_groups.is_empty());
}

#[test]
fn removing_member_ship_ability_hands_out_and_empties() {
    let mut p = props();
    p.add_member_ship("s".to_string(), "a".to_string());
    p.add_listen_scope("s".to_string());
    let first = p.remove_member_ship_ability();
    assert_eq!(first.scope_groups.len(), 1);
    assert_eq!(first.listened_scopes.len(), 1);
    assert!(p.can_monitor());
    let second = p.remove_member_ship_ability();
    assert!(second.scope_groups.is_empty());
    assert!(second.listened_groups.is_empty());
    assert!(second.listened_scopes.is_empty());
}

#[test]
fn member_ship_of_its_own() {
    let mut m = MemberShip::new();
    m.add_scope_group("a".to_string(), "b".to_string());
    m.add_scope_group("a".to_string(), "b".to_string());
    m.add_listened_scope("a".to_string());
    m.remove_listened_scope(&"a".to_string());
    m.add_listened_group("a".to_string(), "c".to_string());
    m.remove_listened_group(&"a".to_string(), &"c".to_string());
    m.remove_scope_group(&"z".to_string(), &"z".to_string());
    assert_eq!(pairs(&m.scope_groups), vec![("a", "b")]);
    assert!(m.listened_scopes.is_empty());
    assert!(m.listened_groups.is_empty());
}

#[test]
fn member_ship_built_with_repeats() {
    let mut m = MemberShip::new();
    m.scope_groups.push(("a".to_string(), "b".to_string()));
    m.scope_groups.push(("c".to_string(), "d".to_string()));
    m.scope_groups.push(("a".to_string(), "b".to_string()));
    m.add_scope_group("a".to_string(), "b".to_string());
    assert_eq!(m.scope_groups.len(), 3);
    m.remove_scope_group(&"a".to_string(), &"b".to_string());
    assert_eq!(pairs(&m.scope_groups), vec![("c", "d")]);
}
