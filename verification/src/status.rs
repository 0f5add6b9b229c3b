use vstd::prelude::*;

verus! {

/// The lifecycle of an actor, in the order an actor moves through it.
#[derive(Clone, Copy, Debug, PartialEq, Eq, Structural)]
pub enum ActorStatus {
    /// Created, not yet started
    Unstarted,
    /// Running its start hook
    Starting,
    /// Processing messages
    Running,
    /// Upgrading its code
    Upgrading,
    /// Draining its mailbox before stopping
    Draining,
    /// Stopping
    Stopping,
    /// Stopped
    Stopped,
}

impl ActorStatus {
    /// The position of the status in the lifecycle; also its stored byte.
    pub open spec fn code(self) -> u8 {
        match self {
            ActorStatus::Unstarted => 0,
            ActorStatus::Starting => 1,
            ActorStatus::Running => 2,
            ActorStatus::Upgrading => 3,
            ActorStatus::Draining => 4,
            ActorStatus::Stopping => 5,
            ActorStatus::Stopped => 6,
        }
    }

    /// The status that a stored byte stands for; every byte past the last
    /// code reads as `Stopped`.
    pub open spec fn decode(raw: u8) -> ActorStatus {
        if raw == 0 {
            ActorStatus::Unstarted
        } else if raw == 1 {
            ActorStatus::Starting
        } else if raw == 2 {
            ActorStatus::Running
        } else if raw == 3 {
            ActorStatus::Upgrading
        } else if raw == 4 {
            ActorStatus::Draining
        } else if raw == 5 {
            ActorStatus::Stopping
        } else {
            ActorStatus::Stopped
        }
    }

    /// An actor in this status takes no more messages: it is draining,
    /// stopping or stopped.
    pub open spec fn refuses_messages(self) -> bool {
        self.code() >= ActorStatus::Draining.code()
    }

    /// The byte under which the status is stored.
    pub fn as_u8(self) -> (raw: u8)
        ensures
            raw == self.code(),
    {
        match self {
            ActorStatus::Unstarted => 0u8,
            ActorStatus::Starting => 1u8,
            ActorStatus::Running => 2u8,
            ActorStatus::Upgrading => 3u8,
            ActorStatus::Draining => 4u8,
            ActorStatus::Stopping => 5u8,
            ActorStatus::Stopped => 6u8,
        }
    }

    /// Reads a stored byte back as a status.
    pub fn from_u8(raw: u8) -> (status: ActorStatus)
        ensures
            status == ActorStatus::decode(raw),
    {
        match raw {
            0u8 => ActorStatus::Unstarted,
            1u8 => ActorStatus::Starting,
            2u8 => ActorStatus::Running,
            3u8 => ActorStatus::Upgrading,
            4u8 => ActorStatus::Draining,
            5u8 => ActorStatus::Stopping,
            _ => ActorStatus::Stopped,
        }
    }

    /// Whether an actor in this status refuses new messages.
    pub fn is_refusing_messages(self) -> (refuses: bool)
        ensures
            refuses == self.refuses_messages(),
    {
        self.as_u8() >= ActorStatus::Draining.as_u8()
    }
}

/// The update a drain request makes to a stored status byte: an actor that is
/// not yet stopping moves to `Draining`; one that is stopping or stopped keeps
/// its status (`None`: no update).
pub open spec fn drain_update(raw: u8) -> Option<u8> {
    if raw < ActorStatus::Stopping.code() {
        Some(ActorStatus::Draining.code())
    } else {
        None
    }
}

/// The drain update on a stored status byte.
pub fn drain_transition(raw: u8) -> (next: Option<u8>)
    ensures
        next == drain_update(raw),
{
    if raw < ActorStatus::Stopping.as_u8() {
        Some(ActorStatus::Draining.as_u8())
    } else {
        None
    }
}

/// Storing a status and reading it back gives the same status.
pub proof fn lemma_status_round_trip(status: ActorStatus)
    ensures
        ActorStatus::decode(status.code()) == status,
{
}

/// Status bytes follow the lifecycle order, and every byte reads as the
/// status whose code it is, or as `Stopped` when it is past the last code.
pub proof fn lemma_status_codes(raw: u8)
    ensures
        raw <= 6 ==> ActorStatus::decode(raw).code() == raw,
        raw > 6 ==> ActorStatus::decode(raw) == ActorStatus::Stopped,
        ActorStatus::decode(raw).code() <= 6,
{
}

/// After a drain request the status refuses messages, and a second drain
/// request changes nothing.
pub proof fn lemma_drain_refuses_and_settles(raw: u8)
    ensures
        ({
            let after = match drain_update(raw) {
                Some(next) => next,
                None => raw,
            };
            &&& ActorStatus::decode(after).refuses_messages()
            &&& drain_update(after) == None::<u8> || drain_update(after) == Some(after)
        }),
{
}


/// Exactly the draining, stopping and stopped actors refuse messages; an
/// unstarted, starting, running or upgrading actor takes them.
pub proof fn lemma_refusing_statuses(status: ActorStatus)
    ensures
        status.refuses_messages() <==> (status == ActorStatus::Draining || status
            == ActorStatus::Stopping || status == ActorStatus::Stopped),
{
}

/// A drain request moves an actor that is not yet stopping or stopped to
/// `Draining`, whatever its status was; it leaves a stopping or stopped actor
/// as it is.
pub proof fn lemma_drain_targets_draining(raw: u8)
    ensures
        !(ActorStatus::decode(raw) == ActorStatus::Stopping || ActorStatus::decode(raw)
            == ActorStatus::Stopped) ==> (drain_update(raw) matches Some(next)
            && ActorStatus::decode(next) == ActorStatus::Draining),
        (ActorStatus::decode(raw) == ActorStatus::Stopping || ActorStatus::decode(raw)
            == ActorStatus::Stopped) ==> drain_update(raw) is None,
{
}

/// The stored bytes are 0 to 6, one per status in lifecycle order, and
/// distinct statuses are stored under distinct bytes.
pub proof fn lemma_status_codes_distinct(s: ActorStatus, t: ActorStatus)
    ensures
        s.code() == t.code() <==> s == t,
        s.code() <= 6,
        ActorStatus::decode(0) == ActorStatus::Unstarted,
        ActorStatus::decode(1) == ActorStatus::Starting,
        ActorStatus::decode(2) == ActorStatus::Running,
        ActorStatus::decode(3) == ActorStatus::Upgrading,
        ActorStatus::decode(4) == ActorStatus::Draining,
        ActorStatus::decode(5) == ActorStatus::Stopping,
        ActorStatus::decode(6) == ActorStatus::Stopped,
{
}

} // verus!
