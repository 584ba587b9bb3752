use vstd::prelude::*;

use crate::direction::Direction;

verus! {

/// Identifier of an application-layer protocol, as handed out by the engine.
pub type AppProto = u16;

/// The protocol identifier meaning "not recognised".
pub const ALPROTO_UNKNOWN: AppProto = 0;

/// Detection flag that tells the engine to skip inspecting a transaction
/// in one direction.
pub const APP_LAYER_TX_SKIP_INSPECT_FLAG: u64 = 0x4000_0000_0000_0000;

/// Per-transaction bookkeeping shared with the engine: whether the
/// transaction was updated in each direction since the engine last looked,
/// and the detection flags of each direction.
#[derive(Clone, Copy, Debug, PartialEq, Eq, Structural)]
pub struct AppLayerTxData {
    pub updated_ts: bool,
    pub updated_tc: bool,
    pub detect_flags_ts: u64,
    pub detect_flags_tc: u64,
}

impl AppLayerTxData {
    /// Data of a fresh transaction that only ever carries traffic in
    /// `direction`: it counts as updated both ways, and inspection of the
    /// other direction is skipped.
    pub open spec fn spec_for_direction(direction: Direction) -> AppLayerTxData {
        match direction {
            Direction::ToServer => AppLayerTxData {
                updated_ts: true,
                updated_tc: true,
                detect_flags_ts: 0,
                detect_flags_tc: APP_LAYER_TX_SKIP_INSPECT_FLAG,
            },
            Direction::ToClient => AppLayerTxData {
                updated_ts: true,
                updated_tc: true,
                detect_flags_ts: APP_LAYER_TX_SKIP_INSPECT_FLAG,
                detect_flags_tc: 0,
            },
        }
    }

    pub fn for_direction(direction: Direction) -> (data: AppLayerTxData)
        ensures
            data == AppLayerTxData::spec_for_direction(direction),
    {
        match direction {
            Direction::ToServer => AppLayerTxData {
                updated_ts: true,
                updated_tc: true,
                detect_flags_ts: 0,
                detect_flags_tc: APP_LAYER_TX_SKIP_INSPECT_FLAG,
            },
            Direction::ToClient => AppLayerTxData {
                updated_ts: true,
                updated_tc: true,
                detect_flags_ts: APP_LAYER_TX_SKIP_INSPECT_FLAG,
                detect_flags_tc: 0,
            },
        }
    }

    /// The same data, marked as updated in `direction`.
    pub open spec fn with_update(self, direction: Direction) -> AppLayerTxData {
        match direction {
            Direction::ToServer => AppLayerTxData { updated_ts: true, ..self },
            Direction::ToClient => AppLayerTxData { updated_tc: true, ..self },
        }
    }

    /// Marks the transaction as updated in `direction`; nothing else changes.
    pub fn mark_updated(&mut self, direction: Direction)
        ensures
            *final(self) == old(self).with_update(direction),
    {
        match direction {
            Direction::ToServer => self.updated_ts = true,
            Direction::ToClient => self.updated_tc = true,
        }
    }
}

/// A chunk of stream data handed to a parser: its length, and whether it
/// stands for a gap (data that was lost, so only its length is known).
#[derive(Clone, Copy, Debug, PartialEq, Eq, Structural)]
pub struct StreamSlice {
    pub input_len: u32,
    pub gap: bool,
}

impl StreamSlice {
    pub fn is_gap(&self) -> (r: bool)
        ensures
            r == self.gap,
    {
        self.gap
    }

    pub fn is_empty(&self) -> (r: bool)
        ensures
            r == (self.input_len == 0),
    {
        self.input_len == 0
    }
}

/// What a parser reports back to the engine.
#[derive(Clone, Copy, Debug, PartialEq, Eq, Structural)]
pub struct AppLayerResult {
    pub status: i32,
    pub consumed: u32,
    pub needed: u32,
}

impl AppLayerResult {
    /// The report of a parser that took all of its input.
    pub open spec fn spec_ok() -> AppLayerResult {
        AppLayerResult { status: 0, consumed: 0, needed: 0 }
    }

    pub fn ok() -> (r: AppLayerResult)
        ensures
            r == AppLayerResult::spec_ok(),
    {
        AppLayerResult { status: 0, consumed: 0, needed: 0 }
    }
}

/// IP protocol number of UDP.
pub const IPPROTO_UDP: u8 = 17;

/// IP protocol number of TCP.
pub const IPPROTO_TCP: u8 = 6;

/// The plain-valued part of a parser's registration record: its name, the
/// ports it is tried on by default, the IP protocol, how much data the
/// probe wants to see, the progress value at which a transaction is
/// complete in each direction, and the parser flags.
#[derive(Clone, Copy, Debug, PartialEq, Eq)]
pub struct ParserSettings<'a> {
    pub name: &'a str,
    pub default_port: &'a str,
    pub ipproto: u8,
    pub min_depth: u16,
    pub max_depth: u16,
    pub tx_comp_st_ts: i32,
    pub tx_comp_st_tc: i32,
    pub flags: u32,
}

/// Which registrations to make once the engine has said whether protocol
/// detection and parsing are enabled for the protocol.
#[derive(Clone, Copy, Debug, PartialEq, Eq, Structural)]
pub struct RegistrationPlan {
    pub register_detection: bool,
    pub register_parser: bool,
    pub register_logger: bool,
}

} // verus!
