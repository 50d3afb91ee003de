//! What this library takes on trust from `crossbeam_channel`.
//!
//! The two ends of a channel are opaque here: nothing is proved about the
//! messages that travel through them, only about where the ends are put.

use crossbeam_channel::{Receiver, Sender};
use vstd::prelude::*;

verus! {

/// `crossbeam_channel::Sender`, the outbound end of a channel. Any number of
/// them may feed one channel.
#[verifier::external_type_specification]
#[verifier::external_body]
#[verifier::reject_recursive_types(T)]
pub struct ExSender<T>(crossbeam_channel::Sender<T>);

/// `crossbeam_channel::Receiver`, the inbound end of a channel.
#[verifier::external_type_specification]
#[verifier::external_body]
#[verifier::reject_recursive_types(T)]
pub struct ExReceiver<T>(crossbeam_channel::Receiver<T>);

/// `crossbeam_channel::unbounded` makes a new channel without a capacity
/// limit and returns its two ends. Nothing is claimed of them: that they
/// belong together, and to no channel made before, is beyond what a contract
/// over opaque values can say.
pub assume_specification<T>[ crossbeam_channel::unbounded::<T> ]() -> (ends: (
    Sender<T>,
    Receiver<T>,
));

/// `Sender::clone` returns one more handle on the channel of `sender`. The
/// new handle holds the same reference to the channel as the old one, and the
/// contract claims just that: the two are the same value. (The call counts
/// the handles of a channel and gives up the process should that count pass
/// `isize::MAX`, which takes more handles than memory can hold.)
pub assume_specification<T>[ <crossbeam_channel::Sender<T> as Clone>::clone ](
    sender: &Sender<T>,
) -> (handle: Sender<T>)
    ensures
        handle == *sender,
;

} // verus!
