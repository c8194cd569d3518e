//! The node detail page's cards: general statistics, failure statistics,
//! the latest successful setup and proof, and the last month's counts.
//! Each is a labelled-entry card over an optionally loaded node record.

use crate::card::entries_view;
use crate::card::EntryListLike;
use crate::entry::ZkEntry;
use crate::entry::ZkEntryV;
use crate::records::ProverNode;
use crate::records::ProverNodeTimeRangeStats;
use crate::records::TimingStats;
use crate::strutil::clone_opt_string;
use crate::strutil::dec_string;
use crate::strutil::na_text;
use crate::strutil::opt_str_view;
use crate::strutil::u64_to_string;
use crate::task::ObjectId;
use crate::time::TimestampStyle;
use vstd::prelude::*;

verus! {

/// The identifier an optional record reference renders as a task link.
pub open spec fn opt_task_id_view(o: Option<ObjectId>) -> Option<Seq<char>> {
    match o {
        Some(id) => Some(id.oid@),
        None => None,
    }
}

fn clone_opt_task_id(o: &Option<ObjectId>) -> (r: Option<String>)
    ensures
        opt_str_view(r) == opt_task_id_view(*o),
{
    match o {
        Some(id) => Some(id.oid.clone()),
        None => None,
    }
}

/// The general node-statistics card.
#[derive(Debug, Clone, PartialEq)]
pub struct GeneralNodeDetails {
    pub node: Option<ProverNode>,
}

/// The general entries of one node.
pub open spec fn general_node_entries(n: ProverNode) -> Seq<(Seq<char>, ZkEntryV)> {
    seq![
        (
            "Address"@,
            ZkEntryV::Address(
                n.address@,
                crate::entry::AddressStyle::Detailed,
                crate::entry::AddressKind::Node,
            ),
        ),
        (
            "Latest Node Version Used"@,
            ZkEntryV::Raw(
                match n.version_info {
                    Some(v) => v.version@,
                    None => na_text(),
                },
            ),
        ),
        ("Prover Level"@, ZkEntryV::Raw(n.prover_level@)),
        (
            "Status"@,
            ZkEntryV::Raw(
                match n.online_activity {
                    Some(a) => if a.online {
                        "Online"@
                    } else {
                        "Offline"@
                    },
                    None => na_text(),
                },
            ),
        ),
        ("Performance Track"@, ZkEntryV::Raw(n.performance_track@)),
        (
            "Last Attempted Task"@,
            ZkEntryV::MaybeAddress(
                match n.last_attempted_task {
                    Some(t) => Some(t.task_id.oid@),
                    None => None,
                },
                crate::entry::AddressStyle::Dashboard,
                crate::entry::AddressKind::Task,
            ),
        ),
        (
            "Last Attempted Task Timestamp"@,
            ZkEntryV::Timestamp(
                match n.last_attempted_task {
                    Some(t) => Some(t.timestamp@),
                    None => None,
                },
                TimestampStyle::Full,
            ),
        ),
        ("Total Tasks Taken"@, ZkEntryV::Raw(dec_string(n.statistics.total_tasks as nat))),
        (
            "Total Successful Tasks Completed "@,
            ZkEntryV::Raw(dec_string(n.statistics.successful_tasks as nat)),
        ),
    ]
}

impl EntryListLike for GeneralNodeDetails {
    open spec fn title_spec(&self) -> Seq<char> {
        "Prover Node Statistics"@
    }

    open spec fn entries_spec(&self) -> Seq<(Seq<char>, ZkEntryV)> {
        match self.node {
            Some(n) => general_node_entries(n),
            None => Seq::empty(),
        }
    }

    fn title(&self) -> (r: &'static str) {
        "Prover Node Statistics"
    }

    fn entries(&self) -> (r: Vec<(&'static str, ZkEntry)>) {
        let n = match &self.node {
            Some(n) => n,
            None => {
                let r: Vec<(&'static str, ZkEntry)> = Vec::new();
                proof {
                    assert(entries_view(r@) =~= Seq::<(Seq<char>, ZkEntryV)>::empty());
                }
                return r;
            },
        };
        let mut r: Vec<(&'static str, ZkEntry)> = Vec::new();
        r.push(
            (
                "Address",
                ZkEntry::Address(
                    n.address.clone(),
                    crate::entry::AddressStyle::Detailed,
                    crate::entry::AddressKind::Node,
                ),
            ),
        );
        let version = match &n.version_info {
            Some(v) => v.version.clone(),
            None => String::from_str("N/A"),
        };
        r.push(("Latest Node Version Used", ZkEntry::Raw(version)));
        r.push(("Prover Level", ZkEntry::Raw(n.prover_level.clone())));
        let status = match &n.online_activity {
            Some(a) => if a.online {
                String::from_str("Online")
            } else {
                String::from_str("Offline")
            },
            None => String::from_str("N/A"),
        };
        r.push(("Status", ZkEntry::Raw(status)));
        r.push(("Performance Track", ZkEntry::Raw(n.performance_track.clone())));
        let last_id = match &n.last_attempted_task {
            Some(t) => Some(t.task_id.oid.clone()),
            None => None,
        };
        r.push(
            (
                "Last Attempted Task",
                ZkEntry::MaybeAddress(
                    last_id,
                    crate::entry::AddressStyle::Dashboard,
                    crate::entry::AddressKind::Task,
                ),
            ),
        );
        let last_ts = match &n.last_attempted_task {
            Some(t) => Some(t.timestamp.clone()),
            None => None,
        };
        r.push(
            ("Last Attempted Task Timestamp", ZkEntry::Timestamp(last_ts, TimestampStyle::Full)),
        );
        r.push(("Total Tasks Taken", ZkEntry::Raw(u64_to_string(n.statistics.total_tasks))));
        r.push(
            (
                "Total Successful Tasks Completed ",
                ZkEntry::Raw(u64_to_string(n.statistics.successful_tasks)),
            ),
        );
        proof {
            assert(entries_view(r@) =~= general_node_entries(self.node.unwrap()));
        }
        r
    }
}

/// The failure-statistics card.
#[derive(Debug, Clone, PartialEq)]
pub struct FailureNodeDetails {
    pub node: Option<ProverNode>,
}

/// The failure entries of one node.
pub open spec fn failure_node_entries(n: ProverNode) -> Seq<(Seq<char>, ZkEntryV)> {
    seq![
        ("Failed Tasks"@, ZkEntryV::Raw(dec_string(n.statistics.failed_tasks as nat))),
        ("Timed Out Tasks"@, ZkEntryV::Raw(dec_string(n.statistics.timed_out_count as nat))),
        (
            "Last Timed Out Timestamp"@,
            ZkEntryV::Timestamp(opt_str_view(n.statistics.last_timed_out), TimestampStyle::Full),
        ),
        (
            "Last Timed Out Task Id"@,
            ZkEntryV::MaybeAddress(
                opt_task_id_view(n.statistics.last_timed_out_task_id),
                crate::entry::AddressStyle::Dashboard,
                crate::entry::AddressKind::Task,
            ),
        ),
        (
            "Last Failed Task Timestamp"@,
            ZkEntryV::Timestamp(opt_str_view(n.statistics.last_failed_ts), TimestampStyle::Full),
        ),
        (
            "Last Failed Task Id"@,
            ZkEntryV::MaybeAddress(
                opt_task_id_view(n.statistics.last_failed_task_id),
                crate::entry::AddressStyle::Dashboard,
                crate::entry::AddressKind::Task,
            ),
        ),
        ("Last Failed Task Logs"@, ZkEntryV::Logs(opt_str_view(n.statistics.last_failed_task_log))),
    ]
}

impl EntryListLike for FailureNodeDetails {
    open spec fn title_spec(&self) -> Seq<char> {
        "Failure Statistics"@
    }

    open spec fn entries_spec(&self) -> Seq<(Seq<char>, ZkEntryV)> {
        match self.node {
            Some(n) => failure_node_entries(n),
            None => Seq::empty(),
        }
    }

    fn title(&self) -> (r: &'static str) {
        "Failure Statistics"
    }

    fn entries(&self) -> (r: Vec<(&'static str, ZkEntry)>) {
        let n = match &self.node {
            Some(n) => n,
            None => {
                let r: Vec<(&'static str, ZkEntry)> = Vec::new();
                proof {
                    assert(entries_view(r@) =~= Seq::<(Seq<char>, ZkEntryV)>::empty());
                }
                return r;
            },
        };
        let stats = &n.statistics;
        let mut r: Vec<(&'static str, ZkEntry)> = Vec::new();
        r.push(("Failed Tasks", ZkEntry::Raw(u64_to_string(stats.failed_tasks))));
        r.push(("Timed Out Tasks", ZkEntry::Raw(u64_to_string(stats.timed_out_count))));
        r.push(
            (
                "Last Timed Out Timestamp",
                ZkEntry::Timestamp(clone_opt_string(&stats.last_timed_out), TimestampStyle::Full),
            ),
        );
        r.push(
            (
                "Last Timed Out Task Id",
                ZkEntry::MaybeAddress(
                    clone_opt_task_id(&stats.last_timed_out_task_id),
                    crate::entry::AddressStyle::Dashboard,
                    crate::entry::AddressKind::Task,
                ),
            ),
        );
        r.push(
            (
                "Last Failed Task Timestamp",
                ZkEntry::Timestamp(clone_opt_string(&stats.last_failed_ts), TimestampStyle::Full),
            ),
        );
        r.push(
            (
                "Last Failed Task Id",
                ZkEntry::MaybeAddress(
                    clone_opt_task_id(&stats.last_failed_task_id),
                    crate::entry::AddressStyle::Dashboard,
                    crate::entry::AddressKind::Task,
                ),
            ),
        );
        r.push(
            ("Last Failed Task Logs", ZkEntry::Logs(clone_opt_string(&stats.last_failed_task_log))),
        );
        proof {
            assert(entries_view(r@) =~= failure_node_entries(self.node.unwrap()));
        }
        r
    }
}

/// The timing entries shared by the setup and proof success cards.
pub open spec fn timing_entries(stats: Option<TimingStats>) -> Seq<(Seq<char>, ZkEntryV)> {
    seq![
        (
            "Last Successful Task"@,
            ZkEntryV::MaybeAddress(
                match stats {
                    Some(t) => opt_task_id_view(t.latest_task_id),
                    None => None,
                },
                crate::entry::AddressStyle::Dashboard,
                crate::entry::AddressKind::Task,
            ),
        ),
        (
            "Latest Processing Time"@,
            ZkEntryV::Raw(
                match stats {
                    Some(t) => crate::records::fixed4_string(t.latest_time_taken_e4 as nat)
                        + " seconds"@,
                    None => na_text(),
                },
            ),
        ),
        (
            "Latest Timestamp"@,
            ZkEntryV::Timestamp(
                match stats {
                    Some(t) => opt_str_view(t.latest_timestamp),
                    None => None,
                },
                TimestampStyle::Full,
            ),
        ),
    ]
}

fn build_timing_entries(stats: &Option<TimingStats>) -> (r: Vec<(&'static str, ZkEntry)>)
    ensures
        entries_view(r@) == timing_entries(*stats),
{
    let mut r: Vec<(&'static str, ZkEntry)> = Vec::new();
    let last_id = match stats {
        Some(t) => clone_opt_task_id(&t.latest_task_id),
        None => None,
    };
    r.push(
        (
            "Last Successful Task",
            ZkEntry::MaybeAddress(
                last_id,
                crate::entry::AddressStyle::Dashboard,
                crate::entry::AddressKind::Task,
            ),
        ),
    );
    let time = match stats {
        Some(t) => crate::records::fixed4_label(t.latest_time_taken_e4).concat(" seconds"),
        None => String::from_str("N/A"),
    };
    r.push(("Latest Processing Time", ZkEntry::Raw(time)));
    let ts = match stats {
        Some(t) => clone_opt_string(&t.latest_timestamp),
        None => None,
    };
    r.push(("Latest Timestamp", ZkEntry::Timestamp(ts, TimestampStyle::Full)));
    proof {
        assert(entries_view(r@) =~= timing_entries(*stats));
    }
    r
}

/// The latest-successful-setup card.
#[derive(Debug, Clone, PartialEq)]
pub struct SuccessfulSetupNodeStats {
    pub node: Option<ProverNode>,
}

/// The setup timing of an optionally loaded node.
pub open spec fn setup_timing_of(node: Option<ProverNode>) -> Option<TimingStats> {
    match node {
        Some(n) => n.statistics.setup_timing_stats,
        None => None,
    }
}

impl EntryListLike for SuccessfulSetupNodeStats {
    open spec fn title_spec(&self) -> Seq<char> {
        "Successful Setup Statistics"@
    }

    open spec fn entries_spec(&self) -> Seq<(Seq<char>, ZkEntryV)> {
        timing_entries(setup_timing_of(self.node))
    }

    fn title(&self) -> (r: &'static str) {
        "Successful Setup Statistics"
    }

    fn entries(&self) -> (r: Vec<(&'static str, ZkEntry)>) {
        match &self.node {
            Some(n) => build_timing_entries(&n.statistics.setup_timing_stats),
            None => build_timing_entries(&None),
        }
    }
}

/// The latest-successful-proof card.
#[derive(Debug, Clone, PartialEq)]
pub struct SuccessfulProveNodeStats {
    pub node: Option<ProverNode>,
}

/// The proof timing of an optionally loaded node.
pub open spec fn proof_timing_of(node: Option<ProverNode>) -> Option<TimingStats> {
    match node {
        Some(n) => n.statistics.proof_timing_stats,
        None => None,
    }
}

impl EntryListLike for SuccessfulProveNodeStats {
    open spec fn title_spec(&self) -> Seq<char> {
        "Successful Proof Statistics"@
    }

    open spec fn entries_spec(&self) -> Seq<(Seq<char>, ZkEntryV)> {
        timing_entries(proof_timing_of(self.node))
    }

    fn title(&self) -> (r: &'static str) {
        "Successful Proof Statistics"
    }

    fn entries(&self) -> (r: Vec<(&'static str, ZkEntry)>) {
        match &self.node {
            Some(n) => build_timing_entries(&n.statistics.proof_timing_stats),
            None => build_timing_entries(&None),
        }
    }
}

/// The last-month card over a node's time-range statistics.
#[derive(Debug, Clone, PartialEq)]
pub struct LastMonthsNodeStats {
    pub timerange_stats: Option<ProverNodeTimeRangeStats>,
}

/// The last-month entries of one time-range record.
pub open spec fn last_month_entries(s: ProverNodeTimeRangeStats) -> Seq<(Seq<char>, ZkEntryV)> {
    seq![
        ("Successful Tasks Number"@, ZkEntryV::Raw(dec_string(s.stats.successful as nat))),
        ("Failed Tasks Number"@, ZkEntryV::Raw(dec_string(s.stats.failed as nat))),
        ("Timed Out Tasks Number"@, ZkEntryV::Raw(dec_string(s.stats.timed_out as nat))),
    ]
}

impl EntryListLike for LastMonthsNodeStats {
    open spec fn title_spec(&self) -> Seq<char> {
        "Last Month Statistics"@
    }

    open spec fn entries_spec(&self) -> Seq<(Seq<char>, ZkEntryV)> {
        match self.timerange_stats {
            Some(s) => last_month_entries(s),
            None => Seq::empty(),
        }
    }

    fn title(&self) -> (r: &'static str) {
        "Last Month Statistics"
    }

    fn entries(&self) -> (r: Vec<(&'static str, ZkEntry)>) {
        let s = match &self.timerange_stats {
            Some(s) => s,
            None => {
                let r: Vec<(&'static str, ZkEntry)> = Vec::new();
                proof {
                    assert(entries_view(r@) =~= Seq::<(Seq<char>, ZkEntryV)>::empty());
                }
                return r;
            },
        };
        let mut r: Vec<(&'static str, ZkEntry)> = Vec::new();
        r.push(("Successful Tasks Number", ZkEntry::Raw(u64_to_string(s.stats.successful))));
        r.push(("Failed Tasks Number", ZkEntry::Raw(u64_to_string(s.stats.failed))));
        r.push(("Timed Out Tasks Number", ZkEntry::Raw(u64_to_string(s.stats.timed_out))));
        proof {
            assert(entries_view(r@) =~= last_month_entries(self.timerange_stats.unwrap()));
        }
        r
    }
}

} // verus!
