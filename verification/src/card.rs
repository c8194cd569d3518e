//! The card models: a detail page is a titled list of label-and-cell pairs,
//! and a dashboard summary is a list of four-cell tuples.  Concrete records
//! implement the capability traits; the HTML layer renders any implementor
//! the same way.

use crate::codec::dec_string_of_hex;
use crate::codec::is_hex_quantity;
use crate::entry::ZkEntry;
use crate::entry::ZkEntryV;
use crate::records::AppConfig;
use crate::records::AddProveTaskRestrictions;
use crate::records::Image;
use crate::records::ProvePaymentSrc;
use crate::records::StatisticsInfo;
use crate::records::Subscription;
use crate::records::User;
use crate::strutil::clone_bytes;
use crate::strutil::clone_opt_string;
use crate::strutil::clone_strings;
use crate::strutil::dec_string;
use crate::strutil::join_spaces;
use crate::strutil::na_text;
use crate::strutil::opt_str_view;
use crate::strutil::strings_view;
use crate::strutil::u64_to_string;
use crate::task::ConciseTask;
use crate::task::ProofSubmitMode;
use crate::task::TaskView;
use crate::time::processing_time_text;
use crate::time::TimestampStyle;
use vstd::prelude::*;

verus! {

/// The label-and-entry pairs a list of labelled entries holds.
pub open spec fn entries_view(v: Seq<(&str, ZkEntry)>) -> Seq<(Seq<char>, ZkEntryV)> {
    v.map_values(|p: (&str, ZkEntry)| (p.0@, p.1@))
}

/// A record that can stand in a labelled-entry card: a title and an ordered
/// list of label-and-entry pairs, pinned by a spec-level description.
pub trait EntryListLike {
    /// The card's title.
    spec fn title_spec(&self) -> Seq<char>;

    /// The labelled entries, in display order.
    spec fn entries_spec(&self) -> Seq<(Seq<char>, ZkEntryV)>;

    fn title(&self) -> (r: &'static str)
        ensures
            r@ == self.title_spec(),
    ;

    fn entries(&self) -> (r: Vec<(&'static str, ZkEntry)>)
        ensures
            entries_view(r@) == self.entries_spec(),
    ;
}

/// The task-overview entries of one detailed task.
pub open spec fn task_entries(t: TaskView) -> Seq<(Seq<char>, ZkEntryV)> {
    seq![
        (
            "Application"@,
            ZkEntryV::Address(
                t.md5@,
                crate::entry::AddressStyle::Detailed,
                crate::entry::AddressKind::Image,
            ),
        ),
        ("Type"@, ZkEntryV::TaskType(t.task_type)),
        ("Status"@, ZkEntryV::TaskStatus(t.status)),
        ("Submitted at"@, ZkEntryV::Timestamp(Some(t.submit_time@), TimestampStyle::Full)),
        (
            "Submitted by"@,
            ZkEntryV::Address(
                t.user_address@,
                crate::entry::AddressStyle::Detailed,
                crate::entry::AddressKind::User,
            ),
        ),
        (
            "Task taken by Node"@,
            ZkEntryV::MaybeAddress(
                opt_str_view(t.node_address),
                crate::entry::AddressStyle::Detailed,
                crate::entry::AddressKind::Node,
            ),
        ),
        (
            "Processing Started"@,
            ZkEntryV::Timestamp(opt_str_view(t.process_started), TimestampStyle::Full),
        ),
        (
            "Processing Finished"@,
            ZkEntryV::Timestamp(opt_str_view(t.process_finished), TimestampStyle::Full),
        ),
        (
            "Processing Time"@,
            ZkEntryV::Raw(
                processing_time_text(
                    opt_str_view(t.process_started),
                    opt_str_view(t.process_finished),
                ),
            ),
        ),
        ("Task Fee"@, ZkEntryV::Raw(dec_string(crate::lebytes::le_nat(t.task_fee@)))),
        ("Debug Logs"@, ZkEntryV::Logs(opt_str_view(t.debug_logs))),
        (
            "Guest Statics"@,
            ZkEntryV::Raw(
                match t.guest_statics {
                    Some(g) => dec_string(g as nat),
                    None => na_text(),
                },
            ),
        ),
        (
            "Proof Submit Mode"@,
            ZkEntryV::Raw(
                match t.proof_submit_mode {
                    Some(m) => m.label_spec(),
                    None => ProofSubmitMode::Manual.label_spec(),
                },
            ),
        ),
        (
            "Current Batch Status"@,
            ZkEntryV::Raw(
                match t.auto_submit_status {
                    Some(s) => s.label_spec(),
                    None => na_text(),
                },
            ),
        ),
        ("Public Inputs"@, ZkEntryV::LongInput(strings_view(t.public_inputs@))),
        ("Witness"@, ZkEntryV::LongInput(strings_view(t.private_inputs@))),
        ("External Host Table"@, ZkEntryV::DownloadButton(t._id.oid@)),
        ("Input Context"@, ZkEntryV::Bytes(t.input_context@, Some(8usize))),
        ("Context Output"@, ZkEntryV::Bytes(t.output_context@, Some(8usize))),
        ("Single Proof Transcripts"@, ZkEntryV::Bytes(t.single_proof@, None)),
        ("Instances"@, ZkEntryV::Bytes(t.instances@, None)),
        ("Batched Proof Transcripts"@, ZkEntryV::Bytes(t.proof@, None)),
        ("Shadow Instances"@, ZkEntryV::Bytes(t.shadow_instances@, None)),
        ("Batch Instances"@, ZkEntryV::Bytes(t.batch_instances@, None)),
        ("Aux Data"@, ZkEntryV::Bytes(t.aux@, None)),
    ]
}

impl EntryListLike for Option<TaskView> {
    open spec fn title_spec(&self) -> Seq<char> {
        "Task Overview"@
    }

    open spec fn entries_spec(&self) -> Seq<(Seq<char>, ZkEntryV)> {
        match self {
            Some(t) => task_entries(*t),
            None => Seq::empty(),
        }
    }

    fn title(&self) -> (r: &'static str) {
        "Task Overview"
    }

    #[verifier::rlimit(50)]
    fn entries(&self) -> (r: Vec<(&'static str, ZkEntry)>) {
        let t = match self {
            Some(t) => t,
            None => {
                let r: Vec<(&'static str, ZkEntry)> = Vec::new();
                proof {
                    assert(entries_view(r@) =~= Seq::<(Seq<char>, ZkEntryV)>::empty());
                }
                return r;
            },
        };
        let mut r: Vec<(&'static str, ZkEntry)> = Vec::new();
        r.push(
            (
                "Application",
                ZkEntry::Address(
                    t.md5.clone(),
                    crate::entry::AddressStyle::Detailed,
                    crate::entry::AddressKind::Image,
                ),
            ),
        );
        r.push(("Type", ZkEntry::TaskType(t.task_type)));
        r.push(("Status", ZkEntry::TaskStatus(t.status)));
        r.push(
            ("Submitted at", ZkEntry::Timestamp(Some(t.submit_time.clone()), TimestampStyle::Full)),
        );
        r.push(
            (
                "Submitted by",
                ZkEntry::Address(
                    t.user_address.clone(),
                    crate::entry::AddressStyle::Detailed,
                    crate::entry::AddressKind::User,
                ),
            ),
        );
        r.push(
            (
                "Task taken by Node",
                ZkEntry::MaybeAddress(
                    clone_opt_string(&t.node_address),
                    crate::entry::AddressStyle::Detailed,
                    crate::entry::AddressKind::Node,
                ),
            ),
        );
        r.push(
            (
                "Processing Started",
                ZkEntry::Timestamp(clone_opt_string(&t.process_started), TimestampStyle::Full),
            ),
        );
        r.push(
            (
                "Processing Finished",
                ZkEntry::Timestamp(clone_opt_string(&t.process_finished), TimestampStyle::Full),
            ),
        );
        r.push(
            (
                "Processing Time",
                ZkEntry::Raw(
                    crate::time::processing_time_label(
                        clone_opt_string(&t.process_started),
                        clone_opt_string(&t.process_finished),
                    ),
                ),
            ),
        );
        let fee = crate::codec::biguint_from_bytes_le(t.task_fee.as_slice());
        r.push(("Task Fee", ZkEntry::Raw(crate::codec::biguint_to_decimal(&fee))));
        r.push(("Debug Logs", ZkEntry::Logs(clone_opt_string(&t.debug_logs))));
        let guest = match t.guest_statics {
            Some(g) => u64_to_string(g as u64),
            None => String::from_str("N/A"),
        };
        r.push(("Guest Statics", ZkEntry::Raw(guest)));
        let mode = match t.proof_submit_mode {
            Some(m) => m,
            None => ProofSubmitMode::Manual,
        };
        r.push(("Proof Submit Mode", ZkEntry::Raw(String::from_str(mode.label()))));
        let batch = match t.auto_submit_status {
            Some(s) => String::from_str(s.label()),
            None => String::from_str("N/A"),
        };
        r.push(("Current Batch Status", ZkEntry::Raw(batch)));
        r.push(("Public Inputs", ZkEntry::LongInput(clone_strings(&t.public_inputs))));
        r.push(("Witness", ZkEntry::LongInput(clone_strings(&t.private_inputs))));
        r.push(("External Host Table", ZkEntry::DownloadButton(t._id.oid.clone())));
        r.push(("Input Context", ZkEntry::Bytes(clone_bytes(&t.input_context), Some(8))));
        r.push(("Context Output", ZkEntry::Bytes(clone_bytes(&t.output_context), Some(8))));
        r.push(("Single Proof Transcripts", ZkEntry::Bytes(clone_bytes(&t.single_proof), None)));
        r.push(("Instances", ZkEntry::Bytes(clone_bytes(&t.instances), None)));
        r.push(("Batched Proof Transcripts", ZkEntry::Bytes(clone_bytes(&t.proof), None)));
        r.push(("Shadow Instances", ZkEntry::Bytes(clone_bytes(&t.shadow_instances), None)));
        r.push(("Batch Instances", ZkEntry::Bytes(clone_bytes(&t.batch_instances), None)));
        r.push(("Aux Data", ZkEntry::Bytes(clone_bytes(&t.aux), None)));
        proof {
            assert(entries_view(r@) =~= task_entries(*t));
        }
        r
    }
}

/// A user detail page's data: the account, its subscription, and how many
/// tasks it has submitted.
#[derive(Debug, Clone, PartialEq)]
pub struct DetailedUser {
    pub user: Option<User>,
    pub subscription: Option<Subscription>,
    pub tasks_submitted: Option<u64>,
}

/// The balance line of a user: the credits parsed from their hex encoding
/// and rendered in decimal, or the placeholder where they do not parse.
pub open spec fn balance_text(credits: Seq<char>) -> Seq<char> {
    if is_hex_quantity(credits) {
        dec_string_of_hex(credits) + " credits"@
    } else {
        na_text()
    }
}

/// The user-details entries of one account.
pub open spec fn user_entries(u: User, sub: Option<Subscription>, tasks: Option<u64>) -> Seq<
    (Seq<char>, ZkEntryV),
> {
    seq![
        (
            "Address"@,
            ZkEntryV::Address(
                u.user_address@,
                crate::entry::AddressStyle::Detailed,
                crate::entry::AddressKind::User,
            ),
        ),
        ("Balance"@, ZkEntryV::Raw(balance_text(u.credits@))),
        (
            "Current Subscription"@,
            ZkEntryV::Raw(
                match sub {
                    Some(s) => s.status@,
                    None => "None"@,
                },
            ),
        ),
        (
            "Total Tasks Submitted"@,
            ZkEntryV::Raw(
                match tasks {
                    Some(n) => dec_string(n as nat),
                    None => na_text(),
                },
            ),
        ),
    ]
}

impl EntryListLike for DetailedUser {
    open spec fn title_spec(&self) -> Seq<char> {
        "User Details"@
    }

    open spec fn entries_spec(&self) -> Seq<(Seq<char>, ZkEntryV)> {
        match self.user {
            Some(u) => user_entries(u, self.subscription, self.tasks_submitted),
            None => Seq::empty(),
        }
    }

    fn title(&self) -> (r: &'static str) {
        "User Details"
    }

    fn entries(&self) -> (r: Vec<(&'static str, ZkEntry)>) {
        let u = match &self.user {
            Some(u) => u,
            None => {
                let r: Vec<(&'static str, ZkEntry)> = Vec::new();
                proof {
                    assert(entries_view(r@) =~= Seq::<(Seq<char>, ZkEntryV)>::empty());
                }
                return r;
            },
        };
        let mut r: Vec<(&'static str, ZkEntry)> = Vec::new();
        r.push(
            (
                "Address",
                ZkEntry::Address(
                    u.user_address.clone(),
                    crate::entry::AddressStyle::Detailed,
                    crate::entry::AddressKind::User,
                ),
            ),
        );
        let balance = match crate::codec::hex_to_num_string(u.credits.as_str()) {
            Some(n) => n.concat(" credits"),
            None => String::from_str("N/A"),
        };
        r.push(("Balance", ZkEntry::Raw(balance)));
        let sub = match &self.subscription {
            Some(s) => s.status.clone(),
            None => String::from_str("None"),
        };
        r.push(("Current Subscription", ZkEntry::Raw(sub)));
        let tasks = match self.tasks_submitted {
            Some(n) => u64_to_string(n),
            None => String::from_str("N/A"),
        };
        r.push(("Total Tasks Submitted", ZkEntry::Raw(tasks)));
        proof {
            assert(entries_view(r@) =~= user_entries(
                self.user.unwrap(),
                self.subscription,
                self.tasks_submitted,
            ));
        }
        r
    }
}

/// The chain names an image auto-submits to: the chains of the catalogue
/// whose id the image lists, in catalogue order.
pub open spec fn networks_spec(catalogue: Seq<crate::records::ChainInfo>, ids: Seq<u32>) -> Seq<
    Seq<char>,
>
    decreases catalogue.len(),
{
    if catalogue.len() == 0 {
        Seq::empty()
    } else {
        let rest = networks_spec(catalogue.drop_last(), ids);
        if ids.contains(catalogue.last().chain_id) {
            rest.push(catalogue.last().chain_name@)
        } else {
            rest
        }
    }
}

/// Collects the chain names an image auto-submits to, exactly as
/// `networks_spec` states.
pub fn collect_networks(config: &AppConfig, image: &Image) -> (r: Vec<String>)
    ensures
        strings_view(r@) == networks_spec(config.chain_info_list@, image.auto_submit_network_ids@),
{
    let catalogue = &config.chain_info_list;
    let ids = &image.auto_submit_network_ids;
    let mut r: Vec<String> = Vec::new();
    let mut i: usize = 0;
    proof {
        assert(catalogue@.take(0) =~= Seq::<crate::records::ChainInfo>::empty());
        assert(strings_view(r@) =~= networks_spec(catalogue@.take(0), ids@));
    }
    while i < catalogue.len()
        invariant
            i <= catalogue@.len(),
            strings_view(r@) =~= networks_spec(catalogue@.take(i as int), ids@),
        decreases catalogue@.len() - i,
    {
        let ci = &catalogue[i];
        let mut found = false;
        let mut j: usize = 0;
        while j < ids.len()
            invariant
                j <= ids@.len(),
                found == exists|k: int| 0 <= k < j && ids@[k] == ci.chain_id,
            decreases ids@.len() - j,
        {
            if ids[j] == ci.chain_id {
                found = true;
            }
            j += 1;
        }
        if found {
            r.push(ci.chain_name.clone());
        }
        proof {
            let prefix = catalogue@.take(i as int);
            let next = catalogue@.take(i + 1);
            assert(next.drop_last() =~= prefix);
            assert(next.last() == catalogue@[i as int]);
            assert(found == ids@.contains(catalogue@[i as int].chain_id));
            assert(strings_view(r@) =~= networks_spec(next, ids@));
        }
        i += 1;
    }
    proof {
        assert(catalogue@.take(catalogue@.len() as int) =~= catalogue@);
    }
    r
}

/// An image detail page's data, derived once from four fetches: the image,
/// the chain catalogue, the image's setup task, and its proof count.
#[derive(Debug, Clone, PartialEq)]
pub struct DetailedImage {
    pub submit_time: String,
    pub networks: Vec<String>,
    pub creator_paid_proof: String,
    pub only_creator_add: String,
    pub proofs_submitted: u64,
    pub image: Image,
}

impl DetailedImage {
    /// Assembles the page data; nothing stands until all four fetches have.
    pub fn new(
        image_in: Option<Image>,
        config_in: Option<AppConfig>,
        task_in: Option<ConciseTask>,
        proofs_submitted_in: Option<u64>,
    ) -> (r: Option<DetailedImage>)
        ensures
            match (image_in, config_in, task_in, proofs_submitted_in) {
                (Some(image), Some(config), Some(task), Some(proofs)) => {
                    &&& r matches Some(d)
                    &&& d.submit_time@ == task.submit_time@
                    &&& strings_view(d.networks@) == networks_spec(
                        config.chain_info_list@,
                        image.auto_submit_network_ids@,
                    )
                    &&& d.creator_paid_proof@ == (match image.prove_payment_src {
                        ProvePaymentSrc::Standard => "No"@,
                        ProvePaymentSrc::CreatorPay => "Yes"@,
                    })
                    &&& d.only_creator_add@ == (match image.add_prove_task_restrictions {
                        AddProveTaskRestrictions::Anyone => "No"@,
                        AddProveTaskRestrictions::CreatorOnly => "Yes"@,
                    })
                    &&& d.proofs_submitted == proofs
                    &&& d.image == image
                },
                _ => r is None,
            },
    {
        let (image, config, task, proofs_submitted) = match (
            image_in,
            config_in,
            task_in,
            proofs_submitted_in,
        ) {
            (Some(i), Some(c), Some(t), Some(p)) => (i, c, t, p),
            _ => {
                return None;
            },
        };
        let networks = collect_networks(&config, &image);
        let creator_paid_proof = match image.prove_payment_src {
            ProvePaymentSrc::Standard => String::from_str("No"),
            ProvePaymentSrc::CreatorPay => String::from_str("Yes"),
        };
        let only_creator_add = match image.add_prove_task_restrictions {
            AddProveTaskRestrictions::Anyone => String::from_str("No"),
            AddProveTaskRestrictions::CreatorOnly => String::from_str("Yes"),
        };
        Some(
            DetailedImage {
                submit_time: task.submit_time,
                networks,
                creator_paid_proof,
                only_creator_add,
                proofs_submitted,
                image,
            },
        )
    }
}

/// The overview entries of one image detail page.
pub open spec fn image_entries(d: DetailedImage) -> Seq<(Seq<char>, ZkEntryV)> {
    seq![
        (
            "Owner"@,
            ZkEntryV::Address(
                d.image.user_address@,
                crate::entry::AddressStyle::Detailed,
                crate::entry::AddressKind::User,
            ),
        ),
        ("Created On"@, ZkEntryV::Timestamp(Some(d.submit_time@), TimestampStyle::Simple)),
        (
            "Auto Submit Proof Network(s)"@,
            ZkEntryV::Raw(join_spaces(strings_view(d.networks@))),
        ),
        ("Circuit Size"@, ZkEntryV::Raw(dec_string(d.image.circuit_size as nat))),
        ("Creator Paid Proof"@, ZkEntryV::Raw(d.creator_paid_proof@)),
        ("Only image creator can add prove task"@, ZkEntryV::Raw(d.only_creator_add@)),
        ("Proofs submitted"@, ZkEntryV::Raw(dec_string(d.proofs_submitted as nat))),
        (
            "Image Commitment"@,
            ZkEntryV::Checksum(
                match d.image.checksum {
                    Some(ck) => Some((ck.x@, ck.y@)),
                    None => None,
                },
            ),
        ),
        ("Image Status"@, ZkEntryV::Raw(d.image.status@)),
        (
            "Shared Data Image"@,
            ZkEntryV::Raw(
                match d.image.inherited_merkle_data_info {
                    Some(m) => m.md5@,
                    None => "NA"@,
                },
            ),
        ),
    ]
}

impl EntryListLike for Option<DetailedImage> {
    open spec fn title_spec(&self) -> Seq<char> {
        "Overview"@
    }

    open spec fn entries_spec(&self) -> Seq<(Seq<char>, ZkEntryV)> {
        match self {
            Some(d) => image_entries(*d),
            None => Seq::empty(),
        }
    }

    fn title(&self) -> (r: &'static str) {
        "Overview"
    }

    fn entries(&self) -> (r: Vec<(&'static str, ZkEntry)>) {
        let d = match self {
            Some(d) => d,
            None => {
                let r: Vec<(&'static str, ZkEntry)> = Vec::new();
                proof {
                    assert(entries_view(r@) =~= Seq::<(Seq<char>, ZkEntryV)>::empty());
                }
                return r;
            },
        };
        let mut r: Vec<(&'static str, ZkEntry)> = Vec::new();
        r.push(
            (
                "Owner",
                ZkEntry::Address(
                    d.image.user_address.clone(),
                    crate::entry::AddressStyle::Detailed,
                    crate::entry::AddressKind::User,
                ),
            ),
        );
        r.push(
            ("Created On", ZkEntry::Timestamp(Some(d.submit_time.clone()), TimestampStyle::Simple)),
        );
        r.push(
            (
                "Auto Submit Proof Network(s)",
                ZkEntry::Raw(crate::strutil::join_spaces_exec(&d.networks)),
            ),
        );
        r.push(("Circuit Size", ZkEntry::Raw(u64_to_string(d.image.circuit_size as u64))));
        r.push(("Creator Paid Proof", ZkEntry::Raw(d.creator_paid_proof.clone())));
        r.push(
            ("Only image creator can add prove task", ZkEntry::Raw(d.only_creator_add.clone())),
        );
        r.push(("Proofs submitted", ZkEntry::Raw(u64_to_string(d.proofs_submitted))));
        let checksum = match &d.image.checksum {
            Some(ck) => Some(
                crate::records::ImageChecksum { x: clone_bytes(&ck.x), y: clone_bytes(&ck.y) },
            ),
            None => None,
        };
        r.push(("Image Commitment", ZkEntry::Checksum(checksum)));
        r.push(("Image Status", ZkEntry::Raw(d.image.status.clone())));
        let shared = match &d.image.inherited_merkle_data_info {
            Some(m) => m.md5.clone(),
            None => String::from_str("NA"),
        };
        r.push(("Shared Data Image", ZkEntry::Raw(shared)));
        proof {
            assert(entries_view(r@) =~= image_entries(*d));
        }
        r
    }
}

/// A record that can stand in a four-cell summary card: tuples of top and
/// bottom cells for the left and right columns.
pub trait SummaryCardLike {
    /// The rows, each four cells.
    spec fn summary_spec(&self) -> Seq<(ZkEntryV, ZkEntryV, ZkEntryV, ZkEntryV)>;

    fn entries(&self) -> (r: Vec<(ZkEntry, ZkEntry, ZkEntry, ZkEntry)>)
        ensures
            r@.map_values(|p: (ZkEntry, ZkEntry, ZkEntry, ZkEntry)| (p.0@, p.1@, p.2@, p.3@))
                == self.summary_spec(),
    ;
}

/// The one-row summary the global counters render to.
pub open spec fn statistics_row(s: StatisticsInfo) -> (ZkEntryV, ZkEntryV, ZkEntryV, ZkEntryV) {
    (
        ZkEntryV::Raw(dec_string(s.total_images as nat) + " applications"@),
        ZkEntryV::Raw(dec_string(s.total_tasks as nat) + " tasks"@),
        ZkEntryV::Raw(dec_string(s.total_proofs as nat) + " proofs"@),
        ZkEntryV::Raw("40 seconds"@),
    )
}

impl SummaryCardLike for Option<StatisticsInfo> {
    open spec fn summary_spec(&self) -> Seq<(ZkEntryV, ZkEntryV, ZkEntryV, ZkEntryV)> {
        match self {
            Some(s) => seq![statistics_row(*s)],
            None => Seq::empty(),
        }
    }

    fn entries(&self) -> (r: Vec<(ZkEntry, ZkEntry, ZkEntry, ZkEntry)>) {
        match self {
            Some(s) => {
                let mut r: Vec<(ZkEntry, ZkEntry, ZkEntry, ZkEntry)> = Vec::new();
                r.push(
                    (
                        ZkEntry::Raw(u64_to_string(s.total_images).concat(" applications")),
                        ZkEntry::Raw(u64_to_string(s.total_tasks).concat(" tasks")),
                        ZkEntry::Raw(u64_to_string(s.total_proofs).concat(" proofs")),
                        ZkEntry::Raw(String::from_str("40 seconds")),
                    ),
                );
                proof {
                    assert(r@.map_values(
                        |p: (ZkEntry, ZkEntry, ZkEntry, ZkEntry)| (p.0@, p.1@, p.2@, p.3@),
                    ) =~= seq![statistics_row(*s)]);
                }
                r
            },
            None => {
                let r: Vec<(ZkEntry, ZkEntry, ZkEntry, ZkEntry)> = Vec::new();
                proof {
                    assert(r@.map_values(
                        |p: (ZkEntry, ZkEntry, ZkEntry, ZkEntry)| (p.0@, p.1@, p.2@, p.3@),
                    ) =~= Seq::<(ZkEntryV, ZkEntryV, ZkEntryV, ZkEntryV)>::empty());
                }
                r
            },
        }
    }
}

/// The latest-tasks summary: a handful of recent tasks of one type.
#[derive(Debug, Clone, PartialEq)]
pub struct ConciseTaskSummary {
    pub data: Vec<ConciseTask>,
}

/// The four-cell row one task summarizes to.
pub open spec fn task_summary_row(t: ConciseTask) -> (ZkEntryV, ZkEntryV, ZkEntryV, ZkEntryV) {
    (
        ZkEntryV::Address(
            t.md5@,
            crate::entry::AddressStyle::Detailed,
            crate::entry::AddressKind::PrefixedImage,
        ),
        ZkEntryV::Address(
            t._id.oid@,
            crate::entry::AddressStyle::Dashboard,
            crate::entry::AddressKind::PrefixedTask,
        ),
        ZkEntryV::Address(
            t.user_address@,
            crate::entry::AddressStyle::Dashboard,
            crate::entry::AddressKind::User,
        ),
        ZkEntryV::Timestamp(Some(t.submit_time@), TimestampStyle::Simple),
    )
}

impl SummaryCardLike for ConciseTaskSummary {
    open spec fn summary_spec(&self) -> Seq<(ZkEntryV, ZkEntryV, ZkEntryV, ZkEntryV)> {
        self.data@.map_values(|t: ConciseTask| task_summary_row(t))
    }

    fn entries(&self) -> (r: Vec<(ZkEntry, ZkEntry, ZkEntry, ZkEntry)>) {
        let mut r: Vec<(ZkEntry, ZkEntry, ZkEntry, ZkEntry)> = Vec::new();
        let mut i: usize = 0;
        while i < self.data.len()
            invariant
                i <= self.data@.len(),
                r@.len() == i,
                forall|j: int|
                    0 <= j < i ==> (r@[j].0@, r@[j].1@, r@[j].2@, r@[j].3@) == task_summary_row(
                        self.data@[j],
                    ),
            decreases self.data@.len() - i,
        {
            let t = &self.data[i];
            r.push(
                (
                    ZkEntry::Address(
                        t.md5.clone(),
                        crate::entry::AddressStyle::Detailed,
                        crate::entry::AddressKind::PrefixedImage,
                    ),
                    ZkEntry::Address(
                        t._id.oid.clone(),
                        crate::entry::AddressStyle::Dashboard,
                        crate::entry::AddressKind::PrefixedTask,
                    ),
                    ZkEntry::Address(
                        t.user_address.clone(),
                        crate::entry::AddressStyle::Dashboard,
                        crate::entry::AddressKind::User,
                    ),
                    ZkEntry::Timestamp(Some(t.submit_time.clone()), TimestampStyle::Simple),
                ),
            );
            i += 1;
        }
        proof {
            assert(r@.map_values(
                |p: (ZkEntry, ZkEntry, ZkEntry, ZkEntry)| (p.0@, p.1@, p.2@, p.3@),
            ) =~= self.summary_spec());
        }
        r
    }
}

} // verus!
