//! The outbound payload for a found solution: the salt the collector needs to
//! reproduce the deployment, the derived address, and its score. The HTTP
//! transport that carries the payload is the driver's affair; only the data
//! format is built, and pinned down, here.

use vstd::prelude::*;
use vstd::bytes::{spec_u64_to_le_bytes, u64_to_le_bytes};
use vstd::string::{StringExecFns, StrSliceExecFns};
use crate::codec::{derive_address, spec_derivation_message, spec_derived_address};
use crate::config::Config;
use crate::hexstr::{hex_encode, hex_lower_chars};
use crate::score_address::{score_address, spec_score};

verus! {

/// The hex string reported as the salt: the calling address, the run segment
/// and the raw little-endian lane result, `0x`-prefixed.
pub open spec fn spec_salt_string(caller: Seq<u8>, run_segment: Seq<u8>, lane_result: u64) -> Seq<
    char,
> {
    "0x"@ + hex_lower_chars(caller) + hex_lower_chars(run_segment) + hex_lower_chars(
        spec_u64_to_le_bytes(lane_result),
    )
}

/// The hex string reported for a derived address, `0x`-prefixed.
pub open spec fn spec_address_string(addr: Seq<u8>) -> Seq<char> {
    "0x"@ + hex_lower_chars(addr)
}

/// What is sent to the collector for one found solution.
pub struct ReportPayload {
    pub salt: String,
    pub address: String,
    pub score: i32,
}

impl Config {
    /// Build the payload for a found lane result: assemble the derivation
    /// message, derive and score the candidate address, and format the salt
    /// and address as hex strings.
    pub fn build_report(&self, run_segment: &[u8; 4], lane_result: u64) -> (p: ReportPayload)
        ensures
            p.salt@ == spec_salt_string(self.calling_address@, run_segment@, lane_result),
            p.address@ == spec_address_string(
                spec_derived_address(
                    spec_derivation_message(
                        self.factory_address@,
                        self.calling_address@,
                        run_segment@,
                        lane_result,
                        self.init_code_hash@,
                    ),
                ),
            ),
            p.score == spec_score(
                spec_derived_address(
                    spec_derivation_message(
                        self.factory_address@,
                        self.calling_address@,
                        run_segment@,
                        lane_result,
                        self.init_code_hash@,
                    ),
                ),
            ),
    {
        let msg = self.assemble_derivation_message(run_segment, lane_result);
        let addr = derive_address(msg.as_slice());
        let score = score_address(addr.as_slice());

        let mut salt = String::from_str("0x");
        let caller_hex = hex_encode(self.calling_address.as_slice());
        salt.append(caller_hex.as_str());
        let segment_hex = hex_encode(run_segment.as_slice());
        salt.append(segment_hex.as_str());
        let lane_bytes = u64_to_le_bytes(lane_result);
        let lane_hex = hex_encode(lane_bytes.as_slice());
        salt.append(lane_hex.as_str());
        assert(salt@ =~= spec_salt_string(self.calling_address@, run_segment@, lane_result));

        let mut address = String::from_str("0x");
        let addr_hex = hex_encode(addr.as_slice());
        address.append(addr_hex.as_str());
        assert(address@ =~= spec_address_string(addr@));

        ReportPayload { salt, address, score }
    }
}

} // verus!
