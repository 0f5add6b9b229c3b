//! The bookkeeping core of an actor: its lifecycle status, its process-group
//! memberships, its one-shot control ports and the typed handles through which
//! other actors address it.

pub mod actor_ref;
pub mod membership;
pub mod messaging;
pub mod properties;
pub mod status;
