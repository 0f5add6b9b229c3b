use vstd::prelude::*;

use crate::messaging::{ActorId, MessageTypeId, MessagingErr};
use crate::properties::{clone_name, opt_text, ActorProperties};

verus! {

/// For an actor of this process, a registry lookup hands out a typed handle
/// exactly when a checked handle can be made from the same cell; for a remote
/// actor the lookup always hands one out.
pub proof fn lemma_where_is_agrees_with_checked(cell: ActorCellView, message_type: MessageTypeId)
    ensures
        cell.id is Local ==> ((cell.message_type_check(message_type) != Some(false)) <==> (
        cell.type_id == message_type)),
        cell.id is Remote ==> cell.message_type_check(message_type) is None,
{
}

/// An untyped handle on an actor: its id, its name and the message type it
/// takes.
pub struct ActorCell {
    id: ActorId,
    name: Option<String>,
    type_id: MessageTypeId,
}

/// A handle as plain values.
pub struct ActorCellView {
    pub id: ActorId,
    pub name: Option<Seq<char>>,
    pub type_id: MessageTypeId,
}

impl ActorCellView {
    /// Whether the actor takes messages of type `message_type`: known only for
    /// an actor of this process (`None` for a remote one).
    pub open spec fn message_type_check(self, message_type: MessageTypeId) -> Option<bool> {
        if self.id is Local {
            Some(self.type_id == message_type)
        } else {
            None
        }
    }
}

impl View for ActorCell {
    type V = ActorCellView;

    closed spec fn view(&self) -> ActorCellView {
        ActorCellView { id: self.id, name: opt_text(self.name), type_id: self.type_id }
    }
}

impl ActorCell {
    /// The handle on the actor whose properties are given.
    pub fn new<Sig, Stp>(props: &ActorProperties<Sig, Stp>) -> (cell: ActorCell)
        ensures
            cell@ == (ActorCellView { id: props@.id, name: props@.name, type_id: props@.type_id }),
    {
        ActorCell { id: props.get_id(), name: props.get_name(), type_id: props.get_type_id() }
    }

    /// A second handle on the same actor.
    pub fn duplicate(&self) -> (cell: ActorCell)
        ensures
            cell@ == self@,
    {
        ActorCell { id: self.id, name: clone_name(&self.name), type_id: self.type_id }
    }

    /// The id of the actor.
    pub fn get_id(&self) -> (id: ActorId)
        ensures
            id == self@.id,
    {
        self.id
    }

    /// The name of the actor, if it has one.
    pub fn get_name(&self) -> (name: Option<String>)
        ensures
            opt_text(name) == self@.name,
    {
        clone_name(&self.name)
    }

    /// The message type the actor takes.
    pub fn message_type_id(&self) -> (t: MessageTypeId)
        ensures
            t == self@.type_id,
    {
        self.type_id
    }

    /// Whether the actor takes messages of type `message_type`; `None` for a
    /// remote actor, whose message type is not known here.
    pub fn is_message_type_of(&self, message_type: MessageTypeId) -> (check: Option<bool>)
        ensures
            check == self@.message_type_check(message_type),
    {
        if self.id.is_local() {
            Some(self.type_id == message_type)
        } else {
            None
        }
    }
}

/// A handle on an actor that takes messages of type `TMessage`.
pub struct ActorRef<TMessage> {
    inner: ActorCell,
    _tactor: core::marker::PhantomData<TMessage>,
}

impl<TMessage> View for ActorRef<TMessage> {
    type V = ActorCellView;

    closed spec fn view(&self) -> ActorCellView {
        self.inner@
    }
}

impl<TMessage> ActorRef<TMessage> {
    /// The typed handle on the actor of the untyped handle.
    pub fn from_cell(value: ActorCell) -> (r: ActorRef<TMessage>)
        ensures
            r@ == value@,
    {
        ActorRef { inner: value, _tactor: core::marker::PhantomData }
    }

    /// The untyped handle underneath.
    pub fn into_cell(self) -> (cell: ActorCell)
        ensures
            cell@ == self@,
    {
        self.inner
    }

    /// A second typed handle on the same actor.
    pub fn duplicate(&self) -> (r: ActorRef<TMessage>)
        ensures
            r@ == self@,
    {
        ActorRef { inner: self.inner.duplicate(), _tactor: core::marker::PhantomData }
    }

    /// An untyped handle on the same actor.
    pub fn get_cell(&self) -> (cell: ActorCell)
        ensures
            cell@ == self@,
    {
        self.inner.duplicate()
    }

    /// The typed handle on the actor that a registry lookup found, provided
    /// the actor can take messages of type `message_type` (the type of
    /// `TMessage`): a remote actor is taken on trust, a local one only when
    /// its message type is `message_type`.
    pub fn where_is(found: Option<ActorCell>, message_type: MessageTypeId) -> (r: Option<
        ActorRef<TMessage>,
    >)
        ensures
            match found {
                Some(cell) => match cell@.message_type_check(message_type) {
                    Some(false) => r is None,
                    _ => r matches Some(a) && a@ == cell@,
                },
                None => r is None,
            },
    {
        if let Some(actor) = found {
            let check = actor.is_message_type_of(message_type);
            if check.is_none() || matches!(check, Some(true)) {
                return Some(ActorRef::from_cell(actor));
            }
        }
        None
    }
}

/// A handle on an actor that is known to take messages of type `TMessage`.
pub struct CheckedActorRef<TMessage> {
    inner: ActorCell,
    _tactor: core::marker::PhantomData<TMessage>,
}

impl<TMessage> View for CheckedActorRef<TMessage> {
    type V = ActorCellView;

    closed spec fn view(&self) -> ActorCellView {
        self.inner@
    }
}

/// A message that could not be sent because the actor has died; the message
/// is handed back.
pub struct ActorDied<T>(pub T);

impl<T> ActorDied<T> {
    /// The debug text of this error, which leaves the message out.
    pub fn debug_text(&self) -> (text: &'static str)
        ensures
            text@ == "ActorDied(_)"@,
    {
        "ActorDied(_)"
    }

    /// The text that reports this error.
    pub fn describe(&self) -> (text: &'static str)
        ensures
            text@ == "Message could not be sent because actor died"@,
    {
        "Message could not be sent because actor died"
    }
}

/// The actor's message type is not the one that was asked for.
#[derive(Clone, Copy, Debug, PartialEq, Eq, Structural, Hash, PartialOrd, Ord)]
pub struct InvalidTypeId;

impl InvalidTypeId {
    /// The text that reports this error.
    pub fn describe(&self) -> (text: &'static str)
        ensures
            text@ == "Message type is not adequate"@,
    {
        "Message type is not adequate"
    }
}

impl<TMessage> CheckedActorRef<TMessage> {
    /// The checked handle on the actor of the untyped handle, when the actor's
    /// message type is `message_type` (the type of `TMessage`).
    pub fn try_from_cell(value: ActorCell, message_type: MessageTypeId) -> (r: Result<
        CheckedActorRef<TMessage>,
        InvalidTypeId,
    >)
        ensures
            value@.type_id == message_type ==> (r matches Ok(c) && c@ == value@),
            value@.type_id != message_type ==> r is Err,
    {
        if value.message_type_id() != message_type {
            return Err(InvalidTypeId);
        }
        Ok(CheckedActorRef { inner: value, _tactor: core::marker::PhantomData })
    }

    /// The untyped handle underneath.
    pub fn into_cell(self) -> (cell: ActorCell)
        ensures
            cell@ == self@,
    {
        self.inner
    }

    /// A second checked handle on the same actor.
    pub fn duplicate(&self) -> (r: CheckedActorRef<TMessage>)
        ensures
            r@ == self@,
    {
        CheckedActorRef { inner: self.inner.duplicate(), _tactor: core::marker::PhantomData }
    }

    /// An untyped handle on the same actor.
    pub fn get_cell(&self) -> (cell: ActorCell)
        ensures
            cell@ == self@,
    {
        self.inner.duplicate()
    }

    /// What a send through a checked handle reports: the message type is
    /// known to match and the port is the actor's own mailbox, so the only
    /// failure is the mailbox's refusal, `SendErr` with the message handed
    /// back, which is passed on as it is.
    pub fn send_result(sent: Result<(), MessagingErr<TMessage>>) -> (r: Result<
        (),
        MessagingErr<TMessage>,
    >)
        requires
            sent matches Err(e) ==> e is SendErr,
        ensures
            r == sent,
    {
        match sent {
            Ok(u) => Ok(u),
            Err(MessagingErr::SendErr(v)) => Err(MessagingErr::SendErr(v)),
            Err(_) => vstd::pervasive::unreached(),
        }
    }
}


/// A local actor's message type is known, and matches exactly the type it
/// was created for; a remote actor's is not known.
pub proof fn lemma_message_type_check(cell: ActorCellView, message_type: MessageTypeId)
    ensures
        cell.id is Local ==> cell.message_type_check(message_type) == Some(
            cell.type_id == message_type,
        ),
        cell.id is Remote ==> cell.message_type_check(message_type) is None,
{
}

} // verus!
