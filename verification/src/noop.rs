//! A consensus verifier that performs no verification: it takes what the host
//! says of the consensus layer as it comes. Talking to the host is outside
//! work; here is what the verifier asks for and what it makes of the replies.

use std::sync::Arc;
use vstd::prelude::*;

verus! {

/// The height that stands for the latest block.
pub const HEIGHT_LATEST: u64 = 0;

/// A block of the consensus layer as the host hands it out.
#[derive(Debug, PartialEq, Eq)]
pub struct LightBlock {
    /// The height of the block.
    pub height: u64,
    /// The encoded block.
    pub meta: Vec<u8>,
}

/// The root of the consensus state that a block commits to.
#[derive(Debug, PartialEq, Eq)]
pub struct Root {
    /// The version of the state: the height of the block.
    pub version: u64,
    /// The hash of the state.
    pub hash: Vec<u8>,
}

/// The header of a block of the runtime.
#[derive(Debug, PartialEq, Eq)]
pub struct Header {
    /// The round of the block.
    pub round: u64,
    /// The time of the block.
    pub timestamp: u64,
    /// The hash of the block before it.
    pub previous_hash: Vec<u8>,
    /// The root of the runtime's state after the block.
    pub state_root: Vec<u8>,
}

/// The number of an epoch.
pub type EpochTime = u64;

/// The consensus state that queries are answered from.
#[derive(Debug, PartialEq, Eq)]
pub struct ConsensusState {
    /// The height at which the state holds.
    pub height: u64,
    /// The root of the state.
    pub root: Root,
}

/// The kinds of consensus event that the host can be asked for.
#[derive(Clone, Copy, Debug, PartialEq, Eq, Structural)]
pub enum EventKind {
    /// Events of the staking service.
    Staking,
    /// Events of the registry service.
    Registry,
    /// Events of the root hash service.
    RootHash,
    /// Events of the governance service.
    Governance,
}

/// What the verifier asks the host for.
#[derive(Clone, Copy, Debug, PartialEq, Eq, Structural)]
pub enum HostRequest {
    /// The block at a height.
    FetchConsensusBlock {
        /// The height.
        height: u64,
    },
    /// The events of one kind at a height.
    FetchConsensusEvents {
        /// The height.
        height: u64,
        /// The kind of event.
        kind: EventKind,
    },
}

/// What the host answers.
#[derive(Debug, PartialEq, Eq)]
pub enum HostResponse {
    /// A block.
    ConsensusBlock {
        /// The block.
        block: LightBlock,
    },
    /// Events, each encoded.
    ConsensusEvents {
        /// The events.
        events: Vec<Vec<u8>>,
    },
    /// Anything else.
    Other,
}

/// Why the verifier gave no answer.
#[derive(Debug, PartialEq, Eq)]
pub enum VerifierError {
    /// The host could not be asked, answered with something else than was
    /// asked for, or handed out a block that does not decode.
    VerificationFailed {
        /// What went wrong.
        reason: String,
    },
}

/// What the verifier reports when the host answers with something else than
/// was asked for.
pub open spec fn bad_response() -> Seq<char> {
    "bad response from host"@
}

/// `r` is the state that a decoded block commits to, taken on trust: the
/// state one height above the version of its root, or the failure to decode.
pub open spec fn is_unverified_state(
    decoded: Result<Root, String>,
    r: Result<ConsensusState, VerifierError>,
) -> bool {
    match decoded {
        Ok(root) => r == Ok::<ConsensusState, VerifierError>(
            ConsensusState { height: (root.version + 1) as u64, root },
        ),
        Err(err) => r matches Err(VerifierError::VerificationFailed { reason }) && reason@ == err@,
    }
}

/// A verifier which performs no verification.
pub struct NopVerifier<P> {
    protocol: Arc<P>,
}

impl<P> NopVerifier<P> {
    /// The connection to the host that the verifier was made with.
    pub closed spec fn protocol(&self) -> Arc<P> {
        self.protocol
    }

    /// Create a new non-verifying verifier.
    pub fn new(protocol: Arc<P>) -> (verifier: Self)
        ensures
            verifier.protocol() == protocol,
    {
        Self { protocol }
    }

    /// The connection to the host.
    pub fn get_protocol(&self) -> (protocol: &Arc<P>)
        ensures
            *protocol == self.protocol(),
    {
        &self.protocol
    }

    /// What to ask the host for to get the block at `height`.
    pub fn block_request(&self, height: u64) -> (request: HostRequest)
        ensures
            request == (HostRequest::FetchConsensusBlock { height }),
    {
        HostRequest::FetchConsensusBlock { height }
    }

    /// The block in the host's reply to a request for a block. A host that
    /// could not be asked, or that answered with something else, makes the
    /// verification fail.
    pub fn fetch_light_block(&self, reply: Result<HostResponse, String>) -> (r: Result<
        LightBlock,
        VerifierError,
    >)
        ensures
            match reply {
                Ok(HostResponse::ConsensusBlock { block }) => r == Ok::<LightBlock, VerifierError>(
                    block,
                ),
                Ok(_) => r matches Err(VerifierError::VerificationFailed { reason }) && reason@
                    == bad_response(),
                Err(err) => r matches Err(VerifierError::VerificationFailed { reason }) && reason@
                    == err@,
            },
    {
        let result = match reply {
            Ok(result) => result,
            Err(err) => {
                return Err(VerifierError::VerificationFailed { reason: err });
            },
        };
        match result {
            HostResponse::ConsensusBlock { block } => Ok(block),
            _ => Err(
                VerifierError::VerificationFailed { reason: "bad response from host".to_owned() },
            ),
        }
    }

    /// Brings the verifier up to `height`: there is nothing to do.
    pub fn sync(&self, _height: u64) -> (r: Result<(), VerifierError>)
        ensures
            r is Ok,
    {
        Ok(())
    }

    /// The state that a block commits to, taken on trust. The block arrives
    /// decoded: its state root, or why it did not decode. The state holds one
    /// height above the version of the root.
    pub fn unverified_state(&self, decoded: Result<Root, String>) -> (r: Result<
        ConsensusState,
        VerifierError,
    >)
        requires
            decoded matches Ok(root) ==> root.version < u64::MAX,
        ensures
            is_unverified_state(decoded, r),
    {
        let state_root = match decoded {
            Ok(root) => root,
            Err(err) => {
                return Err(VerifierError::VerificationFailed { reason: err });
            },
        };
        // NOTE: No actual verification is performed.
        Ok(ConsensusState { height: state_root.version + 1, root: state_root })
    }

    /// Verifies a block: no verification is performed, and neither the
    /// header nor the epoch is looked at.
    pub fn verify(
        &self,
        decoded: Result<Root, String>,
        _runtime_header: Header,
        _epoch: EpochTime,
    ) -> (r: Result<ConsensusState, VerifierError>)
        requires
            decoded matches Ok(root) ==> root.version < u64::MAX,
        ensures
            is_unverified_state(decoded, r),
    {
        self.unverified_state(decoded)
    }

    /// Verifies a block for a query: no verification is performed, and
    /// neither the header nor the epoch is looked at.
    pub fn verify_for_query(
        &self,
        decoded: Result<Root, String>,
        _runtime_header: Header,
        _epoch: EpochTime,
    ) -> (r: Result<ConsensusState, VerifierError>)
        requires
            decoded matches Ok(root) ==> root.version < u64::MAX,
        ensures
            is_unverified_state(decoded, r),
    {
        self.unverified_state(decoded)
    }

    /// What to ask the host for to get the latest state.
    pub fn latest_state(&self) -> (request: HostRequest)
        ensures
            request == (HostRequest::FetchConsensusBlock { height: HEIGHT_LATEST }),
    {
        self.state_at(HEIGHT_LATEST)
    }

    /// What to ask the host for to get the state at `height`.
    pub fn state_at(&self, height: u64) -> (request: HostRequest)
        ensures
            request == (HostRequest::FetchConsensusBlock { height }),
    {
        self.block_request(height)
    }

    /// The state at a height, from what became of fetching its block: a fetch
    /// that failed is handed on as it is and no state is built; a block that
    /// was fetched, and arrives decoded, gives its unverified state.
    pub fn state_from(&self, fetched: Result<Result<Root, String>, VerifierError>) -> (r: Result<
        ConsensusState,
        VerifierError,
    >)
        requires
            fetched matches Ok(Ok(root)) ==> root.version < u64::MAX,
        ensures
            match fetched {
                Err(e) => r == Err::<ConsensusState, VerifierError>(e),
                Ok(decoded) => is_unverified_state(decoded, r),
            },
    {
        let decoded = match fetched {
            Ok(decoded) => decoded,
            Err(e) => {
                return Err(e);
            },
        };
        self.unverified_state(decoded)
    }

    /// What to ask the host for to get the height of the latest block.
    pub fn latest_height_request(&self) -> (request: HostRequest)
        ensures
            request == (HostRequest::FetchConsensusBlock { height: HEIGHT_LATEST }),
    {
        self.block_request(HEIGHT_LATEST)
    }

    /// What to ask the host for to get the events of `kind` at `height`.
    pub fn events_request(&self, height: u64, kind: EventKind) -> (request: HostRequest)
        ensures
            request == (HostRequest::FetchConsensusEvents { height, kind }),
    {
        HostRequest::FetchConsensusEvents { height, kind }
    }

    /// The events in the host's reply to a request for events. A host that
    /// could not be asked, or that answered with something else, makes the
    /// verification fail.
    pub fn events_at(&self, reply: Result<HostResponse, String>) -> (r: Result<
        Vec<Vec<u8>>,
        VerifierError,
    >)
        ensures
            match reply {
                Ok(HostResponse::ConsensusEvents { events }) => r == Ok::<
                    Vec<Vec<u8>>,
                    VerifierError,
                >(events),
                Ok(_) => r matches Err(VerifierError::VerificationFailed { reason }) && reason@
                    == bad_response(),
                Err(err) => r matches Err(VerifierError::VerificationFailed { reason }) && reason@
                    == err@,
            },
    {
        let result = match reply {
            Ok(result) => result,
            Err(err) => {
                return Err(VerifierError::VerificationFailed { reason: err });
            },
        };
        match result {
            HostResponse::ConsensusEvents { events } => Ok(events),
            _ => Err(
                VerifierError::VerificationFailed { reason: "bad response from host".to_owned() },
            ),
        }
    }

    /// The height of the latest block, from the host's reply to a request for
    /// the block at [`HEIGHT_LATEST`].
    pub fn latest_height(&self, reply: Result<HostResponse, String>) -> (r: Result<
        u64,
        VerifierError,
    >)
        ensures
            match reply {
                Ok(HostResponse::ConsensusBlock { block }) => r == Ok::<u64, VerifierError>(
                    block.height,
                ),
                Ok(_) => r matches Err(VerifierError::VerificationFailed { reason }) && reason@
                    == bad_response(),
                Err(err) => r matches Err(VerifierError::VerificationFailed { reason }) && reason@
                    == err@,
            },
    {
        match self.fetch_light_block(reply) {
            Ok(block) => Ok(block.height),
            Err(e) => Err(e),
        }
    }
}

} // verus!
