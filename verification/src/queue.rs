//! What happens to messages for which a queue has no room.

use vstd::prelude::*;

use crate::packet::QoS;
use crate::reason::Reason;

verus! {

/// Which message is dropped where the queue of a session is full.
#[derive(Clone, Copy, Debug, PartialEq, Eq, Structural)]
pub enum Policy {
    /// The message that is to be put in.
    Current,
    /// The message that has waited longest.
    Early,
}

/// Returns which message is dropped where the queue of a session is full: a message that may
/// be lost gives way, any other displaces the one that has waited longest.
pub fn drop_policy(qos: QoS) -> (policy: Policy)
    ensures
        policy == (if qos == QoS::AtMostOnce {
            Policy::Current
        } else {
            Policy::Early
        }),
{
    match qos {
        QoS::AtMostOnce => Policy::Current,
        _ => Policy::Early,
    }
}

/// Returns why a message that did not get into the mailbox of a session is dropped.
pub fn mailbox_reason(is_full: bool) -> (reason: Reason)
    ensures
        reason == (if is_full {
            Reason::MessageQueueFull
        } else {
            Reason::MailboxClosed
        }),
{
    if is_full {
        Reason::MessageQueueFull
    } else {
        Reason::MailboxClosed
    }
}

/// Returns whether a session that is cleaned is removed from the broker: only where its entry
/// is still its own.
pub fn removes_entry(id_same: Option<bool>) -> (removes: bool)
    ensures
        removes == (id_same == Some(true)),
{
    match id_same {
        Some(same) => same,
        None => false,
    }
}

} // verus!
