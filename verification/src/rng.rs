use vstd::prelude::*;

verus! {

/// Relies on rand::random: one byte drawn from the thread-local generator,
/// every value equally likely and each call independent of the last.
/// Nothing can be promised of the value, so this has no contract; callers
/// state what holds of their result whatever byte came back.
#[verifier::external_body]
pub(crate) fn random_byte() -> u8 {
    rand::random::<u8>()
}

} // verus!
