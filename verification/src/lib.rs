//! Detection and transaction tracking for STUN flows.

pub mod applayer;
pub mod direction;
pub mod stun;

use vstd::prelude::*;

use crate::applayer::AppProto;

verus! {

/// The probe of the UDP/TCP parser and the probe of the UDP-only parser
/// give the same answer on every input: both accept exactly the buffers
/// that start with a STUN header.
pub proof fn lemma_probes_agree(input: Option<Seq<u8>>, alproto_stun: AppProto)
    ensures
        stun::stun::spec_probe(input, alproto_stun) == stun::spec_probe(input, alproto_stun),
{
}

} // verus!
