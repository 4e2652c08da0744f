use vstd::prelude::*;

verus! {

/// The ways an instruction can fail. Every failure leaves all accounts as
/// they were.
#[derive(Clone, Copy, Debug, PartialEq, Eq, Structural)]
pub enum ErrorCode {
    /// The caller is not the author of the record.
    Unauthorized,
    /// The reaction value is not one of -1, 0 and 1.
    InvalidReaction,
    /// The reaction record is bound to another post or user.
    InvalidAccount,
    /// The content identifier is longer than `MAX_CID_LEN` bytes.
    MetadataCidTooLong,
}

} // verus!
