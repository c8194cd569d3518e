//! The records the remote service reports beyond tasks: prover nodes and their
//! statistics, proof-round and auto-submission batches, users and
//! subscriptions, application images, the chain catalogue, and the global
//! counters.
//!
//! Sub-second durations the service reports are held in ten-thousandths of
//! a second, the precision the dashboard prints them at.

use crate::strutil::dec_string;
use crate::task::AutoSubmitStatus;
use crate::task::ObjectId;
use crate::time::pad_dec;
use vstd::prelude::*;

verus! {

/// A two-part commitment identifying an application image.
#[derive(Debug, Clone, PartialEq)]
pub struct ImageChecksum {
    pub x: Vec<u8>,
    pub y: Vec<u8>,
}

/// Timing of a node's latest successful task of one type.
/// `latest_time_taken_e4` holds seconds in ten-thousandths.
#[derive(Debug, Clone, PartialEq)]
pub struct TimingStats {
    pub latest_task_id: Option<ObjectId>,
    pub latest_time_taken_e4: u64,
    pub latest_timestamp: Option<String>,
}

/// A node's aggregated task statistics.
#[derive(Debug, Clone, PartialEq)]
pub struct NodeStatistics {
    pub successful_tasks: u64,
    pub failed_tasks: u64,
    pub total_tasks: u64,
    pub timed_out_count: u64,
    pub last_timed_out: Option<String>,
    pub last_timed_out_task_id: Option<ObjectId>,
    pub last_failed_ts: Option<String>,
    pub last_failed_task_id: Option<ObjectId>,
    pub last_failed_task_log: Option<String>,
    pub setup_timing_stats: Option<TimingStats>,
    pub proof_timing_stats: Option<TimingStats>,
}

/// The software version a node last reported.
#[derive(Debug, Clone, PartialEq)]
pub struct VersionInfo {
    pub version: String,
}

/// Whether a node is currently online.
#[derive(Debug, Clone, PartialEq)]
pub struct OnlineActivity {
    pub online: bool,
}

/// The task a node last attempted, and when.
#[derive(Debug, Clone, PartialEq)]
pub struct AttemptedTask {
    pub task_id: ObjectId,
    pub timestamp: String,
}

/// A worker machine that executes tasks.
#[derive(Debug, Clone, PartialEq)]
pub struct ProverNode {
    pub address: String,
    pub statistics: NodeStatistics,
    pub version_info: Option<VersionInfo>,
    pub prover_level: String,
    pub online_activity: Option<OnlineActivity>,
    pub performance_track: String,
    pub last_attempted_task: Option<AttemptedTask>,
}

/// Task counts over a queried time range.
#[derive(Debug, Clone, PartialEq)]
pub struct TaskCounts {
    pub successful: u64,
    pub failed: u64,
    pub timed_out: u64,
}

/// A node's statistics over a queried time range.
#[derive(Debug, Clone, PartialEq)]
pub struct ProverNodeTimeRangeStats {
    pub stats: TaskCounts,
}

/// One auto-submitted batch proof's lifecycle record.
#[derive(Debug, Clone, PartialEq)]
pub struct AutoSubmitProof {
    pub _id: Option<ObjectId>,
    pub status: AutoSubmitStatus,
    pub batch_started: Option<String>,
    pub batch_finished: Option<String>,
    pub auto_submit_network_chain_id: u32,
}

/// A first-round batch record of the proof-submission pipeline.
#[derive(Debug, Clone, PartialEq)]
pub struct Round1Info {
    pub _id: Option<ObjectId>,
    pub status: AutoSubmitStatus,
    pub batch_started: Option<String>,
    pub batch_finished: Option<String>,
    pub auto_submit_network_chain_id: u32,
}

/// A second-round batch record of the proof-submission pipeline.
#[derive(Debug, Clone, PartialEq)]
pub struct Round2Info {
    pub _id: Option<ObjectId>,
    pub status: AutoSubmitStatus,
    pub batched_time: Option<String>,
    pub registered_tx_hash: Option<String>,
    pub auto_submit_network_chain_id: u32,
}

/// A service account: its address and its hex-encoded credit balance.
#[derive(Debug, Clone, PartialEq)]
pub struct User {
    pub user_address: String,
    pub credits: String,
}

/// A user's subscription, with the label of its current standing.
#[derive(Debug, Clone, PartialEq)]
pub struct Subscription {
    pub status: String,
}

/// Who pays for proofs submitted against an image.
#[derive(Debug, Clone, Copy, PartialEq, Eq, Structural)]
pub enum ProvePaymentSrc {
    Standard,
    CreatorPay,
}

/// Who may add prove tasks against an image.
#[derive(Debug, Clone, Copy, PartialEq, Eq, Structural)]
pub enum AddProveTaskRestrictions {
    Anyone,
    CreatorOnly,
}

/// Shared merkle data an image inherits from another image.
#[derive(Debug, Clone, PartialEq)]
pub struct InheritedMerkleData {
    pub md5: String,
}

/// An application descriptor.
#[derive(Debug, Clone, PartialEq)]
pub struct Image {
    pub user_address: String,
    pub circuit_size: u32,
    pub prove_payment_src: ProvePaymentSrc,
    pub add_prove_task_restrictions: AddProveTaskRestrictions,
    pub auto_submit_network_ids: Vec<u32>,
    pub checksum: Option<ImageChecksum>,
    pub status: String,
    pub inherited_merkle_data_info: Option<InheritedMerkleData>,
    pub description_url: String,
}

/// One chain the service can submit proofs to.
#[derive(Debug, Clone, PartialEq)]
pub struct ChainInfo {
    pub chain_id: u32,
    pub chain_name: String,
}

/// The service's global configuration: the chains it knows.
#[derive(Debug, Clone, PartialEq)]
pub struct AppConfig {
    pub chain_info_list: Vec<ChainInfo>,
}

/// The service's global counters.
#[derive(Debug, Clone, Copy, PartialEq, Eq, Structural)]
pub struct StatisticsInfo {
    pub total_images: u64,
    pub total_tasks: u64,
    pub total_proofs: u64,
}

/// The text of a duration held in ten-thousandths of a second: whole
/// seconds, a point, and exactly four fractional digits.
pub open spec fn fixed4_string(v: nat) -> Seq<char> {
    dec_string(v / 10000) + seq!['.'] + pad_dec(v % 10000, 4)
}

/// Renders a ten-thousandths-of-a-second duration with four decimal places.
pub fn fixed4_label(v: u64) -> (r: String)
    ensures
        r@ == fixed4_string(v as nat),
{
    proof {
        reveal_strlit(".");
    }
    let whole = crate::strutil::u64_to_string(v / 10000);
    let frac = crate::time::pad_dec_str((v % 10000) as u32, 4);
    whole.concat(".").concat(frac.as_str())
}

} // verus!
