use vstd::prelude::*;

verus! {

/// Every failure that the library reports.
#[derive(Debug, Clone, Copy, PartialEq, Eq, Structural)]
pub enum Error {
    /// The light client could not be updated.
    UpdateBeefyLightClientFailure,
    /// A received root is older than the client's latest commitment.
    ReceiveMmrRootBlockNumberLessThanClientStateLatestCommitmentBlockNumber,
    /// No client is stored under the given id.
    ClientIdNotFound,
    /// A value could not be encoded.
    InvalidEncode,
    /// Stored or received bytes could not be decoded.
    InvalidDecode,
    /// Bytes that should be text are not valid UTF-8.
    InvalidFromUtf8,
    /// A signed commitment failed its checks.
    InvalidSignedCommitment,
    /// The client holds no latest commitment.
    EmptyLatestCommitment,
    /// No asset is registered under the given denomination.
    InvalidTokenId,
    /// No denomination is registered for the given asset id.
    WrongAssetId,
    /// A handler is already registered under the module id.
    DuplicateModuleId,
    /// No handler is registered for the module id.
    RouteNotFound,
    /// An account holds less than the amount to be moved or burnt.
    InsufficientFunds,
    /// A balance, a counter or an asset id would exceed its type's range.
    Overflow,
    /// A denomination or an asset id is registered already.
    DuplicateAsset,
    /// No packet commitment is stored for the packet.
    CommitmentNotFound,
    /// The stored packet commitment is not the packet's.
    CommitmentMismatch,
}

} // verus!
