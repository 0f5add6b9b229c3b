use vstd::prelude::*;

use crate::membership::{MemberShip, MemberShipView};
use crate::messaging::{ActorId, Delivery, MessageTypeId, MessagingErr, StopMessage};
use crate::status::{drain_transition, drain_update, ActorStatus};

verus! {

/// The text of an optional name.
pub open spec fn opt_text(o: Option<String>) -> Option<Seq<char>> {
    match o {
        Some(s) => Some(s@),
        None => None,
    }
}

/// A copy of an optional name.
pub fn clone_name(name: &Option<String>) -> (r: Option<String>)
    ensures
        opt_text(r) == opt_text(*name),
{
    match name {
        Some(s) => Some(s.clone()),
        None => None,
    }
}

/// The inner properties of an actor: who it is, where it is in its lifecycle,
/// its one-shot control ports (a signal port `Sig` and a stop port `Stp`, each
/// used at most once), the message type it takes, and its process-group
/// memberships. `member_ship` is `None` once the actor may no longer join or
/// listen to anything.
pub struct ActorProperties<Sig, Stp> {
    id: ActorId,
    name: Option<String>,
    status: u8,
    signal: Option<Sig>,
    stop: Option<Stp>,
    type_id: MessageTypeId,
    member_ship: Option<MemberShip>,
}

/// The properties of an actor as plain values.
pub struct ActorPropertiesView<Sig, Stp> {
    pub id: ActorId,
    pub name: Option<Seq<char>>,
    /// The stored status byte
    pub status: u8,
    pub signal: Option<Sig>,
    pub stop: Option<Stp>,
    pub type_id: MessageTypeId,
    pub member_ship: Option<MemberShipView>,
}

impl<Sig, Stp> ActorPropertiesView<Sig, Stp> {
    /// The status that the stored byte stands for.
    pub open spec fn actor_status(self) -> ActorStatus {
        ActorStatus::decode(self.status)
    }

    /// The same properties with another membership.
    pub open spec fn with_member_ship(self, m: Option<MemberShipView>) -> Self {
        ActorPropertiesView { member_ship: m, ..self }
    }

    /// The same properties with another status byte.
    pub open spec fn with_status(self, raw: u8) -> Self {
        ActorPropertiesView { status: raw, ..self }
    }

    /// The membership, when the actor still has one, changed by `f`.
    pub open spec fn map_member_ship(self, f: spec_fn(MemberShipView) -> MemberShipView) -> Self {
        match self.member_ship {
            Some(m) => self.with_member_ship(Some(f(m))),
            None => self,
        }
    }

    /// The properties after a drain request: an actor not yet stopping moves to
    /// `Draining`, one that is stopping or stopped keeps its status.
    pub open spec fn drained(self) -> Self {
        match drain_update(self.status) {
            Some(raw) => self.with_status(raw),
            None => self,
        }
    }

    /// The properties once the signal port has been taken.
    pub open spec fn without_signal(self) -> Self {
        ActorPropertiesView { signal: None, ..self }
    }

    /// The properties once the stop port has been taken.
    pub open spec fn without_stop(self) -> Self {
        ActorPropertiesView { stop: None, ..self }
    }

    /// What a send of a message of type `message_type` meets (`serializable`:
    /// whether that type can be sent across nodes): `None` when the actor takes
    /// it; else the refusal, `true` when the message is handed back (the actor
    /// is draining, stopping or stopped) and `false` when it is of the wrong
    /// kind (a message that cannot be serialized bound for a remote actor, or a
    /// message of another type bound for a local one).
    pub open spec fn send_refusal(self, message_type: MessageTypeId, serializable: bool) -> Option<
        bool,
    > {
        if self.actor_status().refuses_messages() {
            Some(true)
        } else if self.id is Remote {
            if serializable {
                None
            } else {
                Some(false)
            }
        } else if message_type != self.type_id {
            Some(false)
        } else {
            None
        }
    }
}

impl<Sig, Stp> View for ActorProperties<Sig, Stp> {
    type V = ActorPropertiesView<Sig, Stp>;

    closed spec fn view(&self) -> ActorPropertiesView<Sig, Stp> {
        ActorPropertiesView {
            id: self.id,
            name: opt_text(self.name),
            status: self.status,
            signal: self.signal,
            stop: self.stop,
            type_id: self.type_id,
            member_ship: match self.member_ship {
                Some(m) => Some(m@),
                None => None,
            },
        }
    }
}

/// After a drain request an actor refuses every message and hands it back,
/// whatever status it had before; a second drain request changes nothing.
pub proof fn lemma_drained_refuses_messages<Sig, Stp>(
    p: ActorPropertiesView<Sig, Stp>,
    message_type: MessageTypeId,
)
    ensures
        forall|serializable: bool| #[trigger] p.drained().send_refusal(message_type, serializable)
            == Some(true),
        p.drained().drained() == p.drained(),
{
}

/// Each control port serves once: after it has been taken the properties
/// hold it no more, and taking it again changes nothing else.
pub proof fn lemma_ports_single_use<Sig, Stp>(p: ActorPropertiesView<Sig, Stp>)
    ensures
        p.without_signal().signal is None,
        p.without_signal().without_signal() == p.without_signal(),
        p.without_stop().stop is None,
        p.without_stop().without_stop() == p.without_stop(),
        p.without_signal().stop == p.stop,
        p.without_stop().signal == p.signal,
{
}

/// For an actor that takes messages, of this process and of the message type
/// asked for, the checked send decides as the unchecked one: only the status
/// counts.
pub proof fn lemma_checked_send_agrees_with_unchecked<Sig, Stp>(
    p: ActorPropertiesView<Sig, Stp>,
    message_type: MessageTypeId,
)
    requires
        p.id is Local,
        p.type_id == message_type,
    ensures
        forall|serializable: bool| #[trigger] p.send_refusal(message_type, serializable) == (if p.actor_status().refuses_messages() {
            Some(true)
        } else {
            None
        }),
{
}

/// Every membership list names each entry at most once.
pub open spec fn wf_member_ship(m: Option<MemberShipView>) -> bool {
    m matches Some(v) ==> v.wf()
}

impl<Sig, Stp> ActorProperties<Sig, Stp> {
    #[verifier::type_invariant]
    spec fn inv(self) -> bool {
        self.member_ship matches Some(m) ==> m@.wf()
    }

    /// Properties of an actor that may live anywhere: unstarted, with both
    /// control ports in hand and an empty membership.
    pub fn new_remote(
        name: Option<String>,
        id: ActorId,
        type_id: MessageTypeId,
        signal: Sig,
        stop: Stp,
    ) -> (p: Self)
        ensures
            wf_member_ship(p@.member_ship),
            p@ == (ActorPropertiesView {
                id,
                name: opt_text(name),
                status: ActorStatus::Unstarted.code(),
                signal: Some(signal),
                stop: Some(stop),
                type_id,
                member_ship: Some(MemberShipView::empty()),
            }),
    {
        ActorProperties {
            id,
            name,
            status: ActorStatus::Unstarted.as_u8(),
            signal: Some(signal),
            stop: Some(stop),
            type_id,
            member_ship: Some(MemberShip::new()),
        }
    }

    /// Properties of an actor of this process with the local id `pid`.
    pub fn new(name: Option<String>, pid: u64, type_id: MessageTypeId, signal: Sig, stop: Stp) -> (p:
        Self)
        ensures
            wf_member_ship(p@.member_ship),
            p@ == (ActorPropertiesView {
                id: ActorId::Local(pid),
                name: opt_text(name),
                status: ActorStatus::Unstarted.code(),
                signal: Some(signal),
                stop: Some(stop),
                type_id,
                member_ship: Some(MemberShipView::empty()),
            }),
    {
        Self::new_remote(name, ActorId::Local(pid), type_id, signal, stop)
    }

    /// The id of the actor.
    pub fn get_id(&self) -> (id: ActorId)
        ensures
            id == self@.id,
    {
        self.id
    }

    /// The name of the actor, if it has one.
    pub fn get_name(&self) -> (name: Option<String>)
        ensures
            opt_text(name) == self@.name,
    {
        clone_name(&self.name)
    }

    /// The message type the actor takes.
    pub fn get_type_id(&self) -> (t: MessageTypeId)
        ensures
            t == self@.type_id,
    {
        self.type_id
    }

    /// Whether the actor may still join or listen to groups.
    pub fn can_monitor(&self) -> (able: bool)
        ensures
            able == (self@.member_ship is Some),
    {
        self.member_ship.is_some()
    }

    /// Leaves the group `group` of the scope `scope`.
    pub fn remove_member_ship(&mut self, scope: String, group: String)
        ensures
            wf_member_ship(final(self)@.member_ship),
            final(self)@ == old(self)@.map_member_ship(
                |m: MemberShipView| m.left((scope@, group@)),
            ),
    {
        proof { use_type_invariant(&*self); }
        let mut taken = None;
        std::mem::swap(&mut taken, &mut self.member_ship);
        match taken {
            Some(mut m) => {
                m.remove_scope_group(&scope, &group);
                self.member_ship = Some(m);
            },
            None => {},
        }
    }

    /// Joins the group `group` of the scope `scope`. When the actor may no
    /// longer join anything, nothing changes and `false` says so.
    pub fn add_member_ship(&mut self, scope: String, group: String) -> (able: bool)
        ensures
            wf_member_ship(final(self)@.member_ship),
            able == (old(self)@.member_ship is Some),
            final(self)@ == old(self)@.map_member_ship(
                |m: MemberShipView| m.joined((scope@, group@)),
            ),
    {
        proof { use_type_invariant(&*self); }
        let mut taken = None;
        std::mem::swap(&mut taken, &mut self.member_ship);
        match taken {
            Some(mut m) => {
                m.add_scope_group(scope, group);
                self.member_ship = Some(m);
                true
            },
            None => false,
        }
    }

    /// Stops listening to the group `group` of the scope `scope`.
    pub fn remove_listen_group(&mut self, scope: &str, group: &str)
        ensures
            wf_member_ship(final(self)@.member_ship),
            final(self)@ == old(self)@.map_member_ship(
                |m: MemberShipView| m.unlistening_group((scope@, group@)),
            ),
    {
        proof { use_type_invariant(&*self); }
        let scope = scope.to_owned();
        let group = group.to_owned();
        let mut taken = None;
        std::mem::swap(&mut taken, &mut self.member_ship);
        match taken {
            Some(mut m) => {
                m.remove_listened_group(&scope, &group);
                self.member_ship = Some(m);
            },
            None => {},
        }
    }

    /// Listens to the group `group` of the scope `scope`. When the actor may no
    /// longer listen to anything, nothing changes and `false` says so.
    pub fn add_listen_group(&mut self, scope: String, group: String) -> (able: bool)
        ensures
            wf_member_ship(final(self)@.member_ship),
            able == (old(self)@.member_ship is Some),
            final(self)@ == old(self)@.map_member_ship(
                |m: MemberShipView| m.listening_group((scope@, group@)),
            ),
    {
        proof { use_type_invariant(&*self); }
        let mut taken = None;
        std::mem::swap(&mut taken, &mut self.member_ship);
        match taken {
            Some(mut m) => {
                m.add_listened_group(scope, group);
                self.member_ship = Some(m);
                true
            },
            None => false,
        }
    }

    /// Stops listening to the scope `scope`.
    pub fn remove_listen_scope(&mut self, scope: &str)
        ensures
            wf_member_ship(final(self)@.member_ship),
            final(self)@ == old(self)@.map_member_ship(
                |m: MemberShipView| m.unlistening_scope(scope@),
            ),
    {
        proof { use_type_invariant(&*self); }
        let scope = scope.to_owned();
        let mut taken = None;
        std::mem::swap(&mut taken, &mut self.member_ship);
        match taken {
            Some(mut m) => {
                m.remove_listened_scope(&scope);
                self.member_ship = Some(m);
            },
            None => {},
        }
    }

    /// Listens to the scope `scope`. When the actor may no longer listen to
    /// anything, nothing changes and `false` says so.
    pub fn add_listen_scope(&mut self, scope: String) -> (able: bool)
        ensures
            wf_member_ship(final(self)@.member_ship),
            able == (old(self)@.member_ship is Some),
            final(self)@ == old(self)@.map_member_ship(
                |m: MemberShipView| m.listening_scope(scope@),
            ),
    {
        proof { use_type_invariant(&*self); }
        let mut taken = None;
        std::mem::swap(&mut taken, &mut self.member_ship);
        match taken {
            Some(mut m) => {
                m.add_listened_scope(scope);
                self.member_ship = Some(m);
                true
            },
            None => false,
        }
    }

    /// Hands out the whole membership and leaves an empty one in its place.
    /// An actor that has no membership hands out an empty one and keeps none.
    pub fn remove_member_ship_ability(&mut self) -> (taken: MemberShip)
        ensures
            wf_member_ship(final(self)@.member_ship),
            taken@ == (match old(self)@.member_ship {
                Some(m) => m,
                None => MemberShipView::empty(),
            }),
            taken@.wf(),
            final(self)@ == old(self)@.map_member_ship(|m: MemberShipView| MemberShipView::empty()),
    {
        proof { use_type_invariant(&*self); }
        let mut taken = None;
        std::mem::swap(&mut taken, &mut self.member_ship);
        match taken {
            Some(m) => {
                self.member_ship = Some(MemberShip::new());
                m
            },
            None => MemberShip::new(),
        }
    }

    /// The current status.
    pub fn get_status(&self) -> (status: ActorStatus)
        ensures
            status == self@.actor_status(),
    {
        ActorStatus::from_u8(self.status)
    }

    /// Moves the actor to the given status.
    pub fn set_status(&mut self, status: ActorStatus)
        ensures
            final(self)@ == old(self)@.with_status(status.code()),
            final(self)@.actor_status() == status,
    {
        proof { use_type_invariant(&*self); }
        self.status = status.as_u8();
    }

    /// Asks the actor to drain: an actor not yet stopping moves to `Draining`;
    /// one that is stopping or stopped keeps its status.
    pub fn begin_drain(&mut self)
        ensures
            final(self)@ == old(self)@.drained(),
    {
        proof { use_type_invariant(&*self); }
        match drain_transition(self.status) {
            Some(raw) => self.status = raw,
            None => {},
        }
    }

    /// Takes the signal port for its single use. Once it has been taken, the
    /// channel counts as closed.
    pub fn take_signal_port(&mut self) -> (port: Result<Sig, MessagingErr<()>>)
        ensures
            match old(self)@.signal {
                Some(s) => port == Ok::<Sig, MessagingErr<()>>(s),
                None => port matches Err(MessagingErr::ChannelClosed),
            },
            final(self)@ == old(self)@.without_signal(),
    {
        proof { use_type_invariant(&*self); }
        let mut taken = None;
        std::mem::swap(&mut taken, &mut self.signal);
        match taken {
            Some(s) => Ok(s),
            None => Err(MessagingErr::ChannelClosed),
        }
    }

    /// Takes the stop port for its single use. Once it has been taken, the
    /// channel counts as closed.
    pub fn take_stop_port(&mut self) -> (port: Result<Stp, MessagingErr<StopMessage>>)
        ensures
            match old(self)@.stop {
                Some(s) => port == Ok::<Stp, MessagingErr<StopMessage>>(s),
                None => port matches Err(MessagingErr::ChannelClosed),
            },
            final(self)@ == old(self)@.without_stop(),
    {
        proof { use_type_invariant(&*self); }
        let mut taken = None;
        std::mem::swap(&mut taken, &mut self.stop);
        match taken {
            Some(s) => Ok(s),
            None => Err(MessagingErr::ChannelClosed),
        }
    }

    /// Decides where a message of type `message_type` goes (`serializable`:
    /// whether that type can be sent across nodes). A draining, stopping or
    /// stopped actor hands the message back. A message for a remote actor goes
    /// serialized, when its type can be serialized, and is of the wrong kind
    /// otherwise. A message for a local actor goes to its mailbox when it is of
    /// the actor's message type, and is of the wrong kind otherwise.
    pub fn send_message<T>(&self, message: T, message_type: MessageTypeId, serializable: bool) -> (r:
        Result<Delivery<T>, MessagingErr<T>>)
        ensures
            match self@.send_refusal(message_type, serializable) {
                None => r == Ok::<Delivery<T>, MessagingErr<T>>(
                    if self@.id is Remote {
                        Delivery::Serialized(message)
                    } else {
                        Delivery::Mailbox(message)
                    },
                ),
                Some(true) => r == Err::<Delivery<T>, MessagingErr<T>>(
                    MessagingErr::SendErr(message),
                ),
                Some(false) => r matches Err(MessagingErr::InvalidActorType),
            },
    {
        if self.get_status().is_refusing_messages() {
            return Err(MessagingErr::SendErr(message));
        }
        if !self.id.is_local() {
            if serializable {
                return Ok(Delivery::Serialized(message));
            }
            return Err(MessagingErr::InvalidActorType);
        }
        if message_type != self.type_id {
            return Err(MessagingErr::InvalidActorType);
        }
        Ok(Delivery::Mailbox(message))
    }

    /// Decides whether a message, already known to be of the actor's message
    /// type, may go to the mailbox of this local actor: only the status
    /// decides.
    pub fn send_local_message_unchecked<T>(&self, message: T) -> (r: Result<T, MessagingErr<T>>)
        ensures
            self@.actor_status().refuses_messages() ==> r == Err::<T, MessagingErr<T>>(
                MessagingErr::SendErr(message),
            ),
            !self@.actor_status().refuses_messages() ==> r == Ok::<T, MessagingErr<T>>(message),
    {
        if self.get_status().is_refusing_messages() {
            return Err(MessagingErr::SendErr(message));
        }
        Ok(message)
    }
}


/// The text of an optional name is the text of the name, whatever it is, and
/// no name has none.
pub proof fn lemma_opt_text_keeps_name(o: Option<String>)
    ensures
        o matches Some(s) ==> opt_text(o) == Some(s@),
        o is None ==> opt_text(o) is None,
        opt_text(o) is Some <==> o is Some,
{
}

/// Which messages an actor takes: a draining, stopping or stopped actor hands
/// every message back; any other actor takes a message for a remote actor
/// exactly when it can be serialized, and a message for a local actor exactly
/// when its type is the actor's own, refusing every other type as of the wrong
/// kind.
pub proof fn lemma_send_refusal_cases<Sig, Stp>(
    p: ActorPropertiesView<Sig, Stp>,
    message_type: MessageTypeId,
    serializable: bool,
)
    ensures
        (p.actor_status() == ActorStatus::Draining || p.actor_status() == ActorStatus::Stopping
            || p.actor_status() == ActorStatus::Stopped) ==> p.send_refusal(
            message_type,
            serializable,
        ) == Some(true),
        !(p.actor_status() == ActorStatus::Draining || p.actor_status() == ActorStatus::Stopping
            || p.actor_status() == ActorStatus::Stopped) ==> {
            &&& p.id is Local && message_type != p.type_id ==> p.send_refusal(
                message_type,
                serializable,
            ) == Some(false)
            &&& p.id is Local && message_type == p.type_id ==> p.send_refusal(
                message_type,
                serializable,
            ) is None
            &&& p.id is Remote && serializable ==> p.send_refusal(message_type, serializable) is None
            &&& p.id is Remote && !serializable ==> p.send_refusal(message_type, serializable)
                == Some(false)
        },
{
    crate::status::lemma_refusing_statuses(p.actor_status());
}

/// Changing the membership touches nothing else, and an actor without a
/// membership stays without one.
pub proof fn lemma_map_member_ship<Sig, Stp>(
    p: ActorPropertiesView<Sig, Stp>,
    f: spec_fn(MemberShipView) -> MemberShipView,
)
    ensures
        p.member_ship matches Some(m) ==> p.map_member_ship(f).member_ship == Some(f(m)),
        p.member_ship is None ==> p.map_member_ship(f).member_ship is None,
        p.map_member_ship(f).id == p.id,
        p.map_member_ship(f).name == p.name,
        p.map_member_ship(f).status == p.status,
        p.map_member_ship(f).signal == p.signal,
        p.map_member_ship(f).stop == p.stop,
        p.map_member_ship(f).type_id == p.type_id,
{
}


/// Setting the status byte, draining or taking a port changes only the status
/// byte or that port.
pub proof fn lemma_updates_touch_one_field<Sig, Stp>(p: ActorPropertiesView<Sig, Stp>, raw: u8)
    ensures
        p.with_status(raw).status == raw,
        (ActorPropertiesView { status: p.status, ..p.with_status(raw) }) == p,
        (ActorPropertiesView { status: p.status, ..p.drained() }) == p,
        (ActorPropertiesView { signal: p.signal, ..p.without_signal() }) == p,
        (ActorPropertiesView { stop: p.stop, ..p.without_stop() }) == p,
        p.without_signal().signal is None,
        p.without_stop().stop is None,
{
}

} // verus!
