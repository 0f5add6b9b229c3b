use vstd::prelude::*;

verus! {

/// The identity under which a message type is known: two message types are
/// the same exactly when their identities are equal.
pub type MessageTypeId = u64;

/// Where an actor lives: in this process, or on another node of a cluster.
#[derive(Clone, Copy, Debug, PartialEq, Eq, Structural)]
pub enum ActorId {
    /// An actor of this process, with its process-local id
    Local(u64),
    /// An actor on another node
    Remote { node_id: u64, pid: u64 },
}

impl ActorId {
    /// Whether the actor lives in this process.
    pub fn is_local(&self) -> (local: bool)
        ensures
            local == (*self is Local),
    {
        match self {
            ActorId::Local(_) => true,
            ActorId::Remote { .. } => false,
        }
    }
}

/// Why a message could not be handed to an actor.
#[derive(Debug)]
pub enum MessagingErr<T> {
    /// The actor does not take the message; the message is handed back.
    SendErr(T),
    /// The port is closed or was already used.
    ChannelClosed,
    /// The message is not of the actor's message type, or cannot reach it.
    InvalidActorType,
}

/// Where a message that an actor takes is to be sent.
#[derive(Debug)]
pub enum Delivery<T> {
    /// Into the mailbox of the actor in this process
    Mailbox(T),
    /// Serialized, to the actor on its remote node
    Serialized(T),
}

/// Out-of-band signals to an actor.
#[derive(Clone, Copy, Debug, PartialEq, Eq, Structural)]
pub enum Signal {
    /// Stop at once, without draining
    Kill,
}

/// The request that asks an actor to stop gracefully.
#[derive(Debug)]
pub enum StopMessage {
    /// Stop with no reason given
    Stop,
    /// Stop for the given reason
    Reason(String),
}

/// The stop request that a stop with the given optional reason sends.
pub open spec fn stop_request(reason: Option<Seq<char>>, msg: StopMessage) -> bool {
    match reason {
        Some(r) => msg matches StopMessage::Reason(s) && s@ == r,
        None => msg is Stop,
    }
}

/// Builds the stop request for an optional reason.
pub fn stop_message(reason: Option<String>) -> (msg: StopMessage)
    ensures
        stop_request(
            match reason {
                Some(r) => Some(r@),
                None => None,
            },
            msg,
        ),
{
    match reason {
        Some(r) => StopMessage::Reason(r),
        None => StopMessage::Stop,
    }
}

/// What a send on a one-shot port reports: any failure of the port means
/// that it is closed.
pub fn closed_on_failure<T, E>(sent: Result<(), E>) -> (r: Result<(), MessagingErr<T>>)
    ensures
        sent is Ok ==> r is Ok,
        sent is Err ==> r is Err && r->Err_0 is ChannelClosed,
{
    match sent {
        Ok(()) => Ok(()),
        Err(_) => Err(MessagingErr::ChannelClosed),
    }
}

/// What a send on a mailbox reports: a message the mailbox did not take is
/// handed back to the sender.
pub fn returned_on_failure<T>(sent: Result<(), T>) -> (r: Result<(), MessagingErr<T>>)
    ensures
        sent is Ok ==> r is Ok,
        sent is Err ==> r is Err && r->Err_0 == MessagingErr::SendErr(sent->Err_0),
{
    match sent {
        Ok(()) => Ok(()),
        Err(m) => Err(MessagingErr::SendErr(m)),
    }
}

/// What a drain request on a mailbox reports: a mailbox that did not take
/// the request refuses it.
pub fn drain_send_result<E>(sent: Result<(), E>) -> (r: Result<(), MessagingErr<()>>)
    ensures
        sent is Ok ==> r is Ok,
        sent is Err ==> r matches Err(MessagingErr::SendErr(())),
{
    match sent {
        Ok(()) => Ok(()),
        Err(_) => Err(MessagingErr::SendErr(())),
    }
}


/// A stop with a reason sends that reason, whatever its text; a stop without
/// one sends a plain stop.
pub proof fn lemma_stop_request_keeps_reason(reason: Option<Seq<char>>, msg: StopMessage)
    ensures
        reason matches Some(r) ==> (stop_request(reason, msg) <==> (msg matches StopMessage::Reason(
            s,
        ) && s@ == r)),
        reason is None ==> (stop_request(reason, msg) <==> msg is Stop),
{
}

} // verus!
