//! The eight-state protocol tag and its wire encoding.

use vstd::prelude::*;

verus! {

/// The state tag of the slot.  It is the only field of the slot with ordered
/// access: every other field is published by the compare-and-swap that
/// advances this tag.
#[derive(Debug, Clone, Copy, PartialEq, Eq, Structural)]
pub enum CabinState {
    /// Idle, no client; the server busy-waits for a connect.
    AcceptingSpin,
    /// Idle, the server has escalated to a blocking wait.
    AcceptingYield,
    /// The client published its identifier; the server must claim it.
    Connecting,
    /// Awaiting the next client request, busy-wait.
    WaitReqSpin,
    /// Awaiting the next client request, blocking wait.
    WaitReqYield,
    /// Awaiting the server's response, busy-wait.
    WaitRespSpin,
    /// Awaiting the server's response, blocking wait.
    WaitRespYield,
    /// The session ended; the server must recycle the slot.
    Disconnected,
}

impl CabinState {
    /// The one-byte encoding of the tag as stored in the shared slot.
    pub open spec fn code_spec(self) -> u8 {
        match self {
            CabinState::AcceptingSpin => 0,
            CabinState::AcceptingYield => 1,
            CabinState::Connecting => 2,
            CabinState::WaitReqSpin => 3,
            CabinState::WaitReqYield => 4,
            CabinState::WaitRespSpin => 5,
            CabinState::WaitRespYield => 6,
            CabinState::Disconnected => 7,
        }
    }

    /// Decoding of a byte read from the shared slot; every byte above the
    /// last tag is taken as `Disconnected`.
    pub open spec fn from_code_spec(code: u8) -> CabinState {
        if code == 0 {
            CabinState::AcceptingSpin
        } else if code == 1 {
            CabinState::AcceptingYield
        } else if code == 2 {
            CabinState::Connecting
        } else if code == 3 {
            CabinState::WaitReqSpin
        } else if code == 4 {
            CabinState::WaitReqYield
        } else if code == 5 {
            CabinState::WaitRespSpin
        } else if code == 6 {
            CabinState::WaitRespYield
        } else {
            CabinState::Disconnected
        }
    }

    /// Encode the tag for storage in the slot's state byte.
    pub fn code(self) -> (c: u8)
        ensures
            c == self.code_spec(),
    {
        match self {
            CabinState::AcceptingSpin => 0,
            CabinState::AcceptingYield => 1,
            CabinState::Connecting => 2,
            CabinState::WaitReqSpin => 3,
            CabinState::WaitReqYield => 4,
            CabinState::WaitRespSpin => 5,
            CabinState::WaitRespYield => 6,
            CabinState::Disconnected => 7,
        }
    }

    /// A tag in which some role sleeps on the condition variable; whoever
    /// moves the state out of such a tag must signal.
    pub open spec fn is_yield(self) -> bool {
        self is AcceptingYield || self is WaitReqYield || self is WaitRespYield
    }
}

impl From<u8> for CabinState {
    fn from(src: u8) -> (s: Self) {
        match src {
            0 => CabinState::AcceptingSpin,
            1 => CabinState::AcceptingYield,
            2 => CabinState::Connecting,
            3 => CabinState::WaitReqSpin,
            4 => CabinState::WaitReqYield,
            5 => CabinState::WaitRespSpin,
            6 => CabinState::WaitRespYield,
            _ => CabinState::Disconnected,
        }
    }
}

impl vstd::std_specs::convert::FromSpecImpl<u8> for CabinState {
    open spec fn obeys_from_spec() -> bool {
        true
    }

    open spec fn from_spec(v: u8) -> CabinState {
        CabinState::from_code_spec(v)
    }
}

/// Encoding and decoding of the state byte invert each other.
pub proof fn lemma_state_code_roundtrip(s: CabinState)
    ensures
        CabinState::from_code_spec(s.code_spec()) == s,
{
}

/// The transition relation of the protocol: which compare-and-swap edges any
/// role may ever take.  Within a session the state moves monotonically along
/// the cycle `Accepting* -> Connecting -> WaitReq* -> WaitResp* -> WaitReq*
/// -> ... -> Disconnected -> AcceptingSpin`, escalation edges included.
pub open spec fn protocol_next(pre: CabinState, post: CabinState) -> bool {
    ||| (pre is AcceptingSpin && post is AcceptingYield)  // server escalates its accept wait
    ||| (pre is AcceptingSpin && post is Connecting)  // client connects
    ||| (pre is AcceptingYield && post is Connecting)  // client connects, then signals
    ||| (pre is Connecting && post is WaitReqSpin)  // server claims the client
    ||| (pre is WaitReqSpin && post is WaitReqYield)  // server escalates its request wait
    ||| (pre is WaitReqSpin && post is WaitRespSpin)  // client publishes a request
    ||| (pre is WaitReqYield && post is WaitRespSpin)  // client publishes, then signals
    ||| (pre is WaitReqSpin && post is Disconnected)  // client quota exhausted
    ||| (pre is WaitReqYield && post is Disconnected)  // quota exhausted, then signals
    ||| (pre is WaitRespSpin && post is WaitRespYield)  // client escalates its response wait
    ||| (pre is WaitRespSpin && post is WaitReqSpin)  // server publishes a response
    ||| (pre is WaitRespYield && post is WaitReqSpin)  // server publishes, then signals
    ||| (pre is Disconnected && post is AcceptingSpin)  // server recycles the slot
}

} // verus!
