use vstd::prelude::*;

verus! {

/// Why an operation of the ledger or of the bridge was refused.
///
/// Every refusal leaves all records as they were and emits no event.
#[derive(Clone, Copy, Debug, PartialEq, Eq, Structural)]
pub enum ErrorCode {
    /// A bridge operation was signed by someone other than the bridge authority.
    UnauthorizedBridgeAuthority,
    /// A ledger operation was signed by someone other than the mint authority
    /// (mint) or the account owner (burn, transfer).
    Unauthorized,
    /// The declared records refer to different mints.
    MintMismatch,
    /// The amount exceeds the available balance.
    InsufficientFunds,
    /// A checked addition would pass the largest 64-bit unsigned value.
    Overflow,
    /// A declared record reference names no record.
    RecordNotFound,
    /// The bridge record already exists.
    BridgeAlreadyInitialized,
    /// The bridge record does not exist yet.
    BridgeNotInitialized,
    /// No valid program-derived address exists for the bridge seed.
    BridgeAddressUnavailable,
}

/// The stable message that goes with each error.
pub open spec fn error_message(e: ErrorCode) -> Seq<char> {
    match e {
        ErrorCode::UnauthorizedBridgeAuthority => "Caller is not authorized to perform this action"@,
        ErrorCode::Unauthorized => "Caller is not the mint authority or account owner"@,
        ErrorCode::MintMismatch => "Records refer to different mints"@,
        ErrorCode::InsufficientFunds => "Insufficient funds"@,
        ErrorCode::Overflow => "Arithmetic overflow"@,
        ErrorCode::RecordNotFound => "Record not found"@,
        ErrorCode::BridgeAlreadyInitialized => "Bridge is already initialized"@,
        ErrorCode::BridgeNotInitialized => "Bridge is not initialized"@,
        ErrorCode::BridgeAddressUnavailable => "No viable bridge address"@,
    }
}

impl ErrorCode {
    /// The stable, human-readable message for the error.
    pub fn message(&self) -> (r: String)
        ensures
            r@ == error_message(*self),
    {
        let s = match self {
            ErrorCode::UnauthorizedBridgeAuthority => "Caller is not authorized to perform this action",
            ErrorCode::Unauthorized => "Caller is not the mint authority or account owner",
            ErrorCode::MintMismatch => "Records refer to different mints",
            ErrorCode::InsufficientFunds => "Insufficient funds",
            ErrorCode::Overflow => "Arithmetic overflow",
            ErrorCode::RecordNotFound => "Record not found",
            ErrorCode::BridgeAlreadyInitialized => "Bridge is already initialized",
            ErrorCode::BridgeNotInitialized => "Bridge is not initialized",
            ErrorCode::BridgeAddressUnavailable => "No viable bridge address",
        };
        s.to_string()
    }
}

} // verus!
