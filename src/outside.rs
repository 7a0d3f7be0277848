//! Declarations of the outside types and calls that the library relies on.
use vstd::prelude::*;

use crate::registry::{ChannelReceiver, ChannelSender};

verus! {

#[verifier::external_type_specification]
#[verifier::external_body]
pub struct ExBytes(bytes::Bytes);

#[verifier::external_type_specification]
#[verifier::external_body]
#[verifier::reject_recursive_types(T)]
pub struct ExSender<T>(tokio::sync::mpsc::Sender<T>);

#[verifier::external_type_specification]
#[verifier::external_body]
#[verifier::reject_recursive_types(T)]
pub struct ExReceiver<T>(tokio::sync::mpsc::Receiver<T>);

/// A bound on channel buffers that stays within tokio's semaphore permit limit
/// (`usize::MAX >> 3`) on 32-bit and 64-bit targets alike.
pub const MAX_CHANNEL_CAPACITY: usize = 0x1fff_ffff;

/// Relies on tokio::sync::mpsc::channel: a fresh bounded channel holding at
/// most `capacity` messages, whose two halves both carry the number `channel`.
/// tokio panics on a capacity of zero or above the semaphore's permit limit,
/// which `requires` leaves out.
#[verifier::external_body]
pub(crate) fn open_channel(capacity: usize, channel: u64) -> (r: (ChannelSender, ChannelReceiver))
    requires
        0 < capacity <= MAX_CHANNEL_CAPACITY,
    ensures
        r.0.id() == channel,
        r.1.id() == channel,
{
    let (tx, rx) = tokio::sync::mpsc::channel(capacity);
    (ChannelSender { channel, tx }, ChannelReceiver { channel, rx })
}

/// Relies on `Clone for tokio::sync::mpsc::Sender`: another handle on the same
/// channel, carrying the same number.
#[verifier::external_body]
pub(crate) fn share_sender(s: &ChannelSender) -> (r: ChannelSender)
    ensures
        r.id() == s.id(),
{
    ChannelSender { channel: s.channel, tx: s.tx.clone() }
}

} // verus!
