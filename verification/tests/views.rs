use zkp_explorer::card::ConciseTaskSummary;
use zkp_explorer::card::DetailedImage;
use zkp_explorer::card::DetailedUser;
use zkp_explorer::card::EntryListLike;
use zkp_explorer::card::SummaryCardLike;
use zkp_explorer::config::Config;
use zkp_explorer::entry::AddressKind;
use zkp_explorer::entry::AddressStyle;
use zkp_explorer::entry::ZkEntry;
use zkp_explorer::node_details::FailureNodeDetails;
use zkp_explorer::node_details::GeneralNodeDetails;
use zkp_explorer::node_details::LastMonthsNodeStats;
use zkp_explorer::node_details::SuccessfulProveNodeStats;
use zkp_explorer::node_details::SuccessfulSetupNodeStats;
use zkp_explorer::records::AddProveTaskRestrictions;
use zkp_explorer::records::AppConfig;
use zkp_explorer::records::AttemptedTask;
use zkp_explorer::records::AutoSubmitProof;
use zkp_explorer::records::ChainInfo;
use zkp_explorer::records::Image;
use zkp_explorer::records::NodeStatistics;
use zkp_explorer::records::ProvePaymentSrc;
use zkp_explorer::records::ProverNode;
use zkp_explorer::records::ProverNodeTimeRangeStats;
use zkp_explorer::records::Round2Info;
use zkp_explorer::records::StatisticsInfo;
use zkp_explorer::records::Subscription;
use zkp_explorer::records::TaskCounts;
use zkp_explorer::records::TimingStats;
use zkp_explorer::records::User;
use zkp_explorer::table::TableLike;
use zkp_explorer::task::AutoSubmitStatus;
use zkp_explorer::task::ConciseTask;
use zkp_explorer::task::ObjectId;
use zkp_explorer::task::TaskStatus;
use zkp_explorer::task::TaskVerificationData;
use zkp_explorer::task::TaskView;
use zkp_explorer::task::TaskType;
use zkp_explorer::time::TimestampStyle;

fn sample_task() -> ConciseTask {
    ConciseTask {
        _id: ObjectId { oid: "507f1f77bcf86cd799439011".to_string() },
        user_address: "0x1234567890abcdef1234567890abcdef12345678".to_string(),
        md5: "0123456789abcdef0123456789abcdef".to_string(),
        task_type: TaskType::Prove,
        status: TaskStatus::Done,
        submit_time: "2024-01-02T03:04:05Z".to_string(),
        process_started: None,
        process_finished: None,
        proof_submit_mode: None,
        auto_submit_status: None,
    }
}

#[test]
fn task_history_table() {
    let tasks = vec![sample_task()];
    assert_eq!(tasks.title(), "Task History");
    assert_eq!(
        tasks.headers(),
        vec!["Task Id", "Application Image", "Published By", "Type", "Submit At", "Status"]
    );
    let rows = tasks.rows();
    assert_eq!(rows.len(), 1);
    let t = sample_task();
    assert_eq!(
        rows[0],
        vec![
            ZkEntry::MaybeAddress(Some(t._id.oid), AddressStyle::Dashboard, AddressKind::Task),
            ZkEntry::Address(t.md5, AddressStyle::Dashboard, AddressKind::Image),
            ZkEntry::Address(t.user_address, AddressStyle::Dashboard, AddressKind::User),
            ZkEntry::TaskType(TaskType::Prove),
            ZkEntry::Timestamp(Some(t.submit_time), TimestampStyle::Simple),
            ZkEntry::TaskStatus(TaskStatus::Done),
        ]
    );
}

fn sample_node() -> ProverNode {
    ProverNode {
        address: "0xnode".to_string(),
        statistics: NodeStatistics {
            successful_tasks: 10,
            failed_tasks: 2,
            total_tasks: 13,
            timed_out_count: 1,
            last_timed_out: Some("2024-01-01T00:00:00Z".to_string()),
            last_timed_out_task_id: Some(ObjectId { oid: "t1".to_string() }),
            last_failed_ts: None,
            last_failed_task_id: None,
            last_failed_task_log: Some("oops\nbad".to_string()),
            setup_timing_stats: None,
            proof_timing_stats: Some(TimingStats {
                latest_task_id: Some(ObjectId { oid: "t2".to_string() }),
                latest_time_taken_e4: 12345,
                latest_timestamp: Some("2024-01-02T00:00:00Z".to_string()),
            }),
        },
        version_info: None,
        prover_level: "Gold".to_string(),
        online_activity: None,
        performance_track: "steady".to_string(),
        last_attempted_task: Some(AttemptedTask {
            task_id: ObjectId { oid: "t3".to_string() },
            timestamp: "2024-01-03T00:00:00Z".to_string(),
        }),
    }
}

#[test]
fn prover_list_table() {
    let nodes = vec![sample_node()];
    assert_eq!(nodes.title(), "Prover List");
    assert_eq!(nodes.headers().len(), 6);
    let rows = nodes.rows();
    assert_eq!(
        rows[0][0],
        ZkEntry::Address("0xnode".to_string(), AddressStyle::Dashboard, AddressKind::Node)
    );
    assert_eq!(rows[0][1], ZkEntry::Raw("10".to_string()));
    assert_eq!(rows[0][4], ZkEntry::Raw("1.2345".to_string()));
    assert_eq!(
        rows[0][5],
        ZkEntry::Timestamp(Some("2024-01-03T00:00:00Z".to_string()), TimestampStyle::Full)
    );
}

#[test]
fn batch_history_tables() {
    let proofs = vec![AutoSubmitProof {
        _id: Some(ObjectId { oid: "p1".to_string() }),
        status: AutoSubmitStatus::Round1,
        batch_started: None,
        batch_finished: None,
        auto_submit_network_chain_id: 11155111,
    }];
    assert_eq!(proofs.title(), "Auto Submit Proof Task History");
    let rows = proofs.rows();
    assert_eq!(rows[0][1], ZkEntry::Raw("Round1".to_string()));
    assert_eq!(rows[0][3], ZkEntry::Raw("11155111".to_string()));

    let round2 = vec![Round2Info {
        _id: None,
        status: AutoSubmitStatus::Batched,
        batched_time: None,
        registered_tx_hash: None,
        auto_submit_network_chain_id: 1,
    }];
    assert_eq!(round2.title(), "Round 2 Proof History");
    let rows = round2.rows();
    assert_eq!(rows[0][0], ZkEntry::MaybeAddress(None, AddressStyle::Dashboard, AddressKind::Task));
    assert_eq!(rows[0][2], ZkEntry::Raw("N/A".to_string()));
}

#[test]
fn user_details_card() {
    let card = DetailedUser {
        user: Some(User {
            user_address: "0xabc".to_string(),
            credits: "0xff".to_string(),
        }),
        subscription: Some(Subscription { status: "Active".to_string() }),
        tasks_submitted: Some(4),
    };
    assert_eq!(card.title(), "User Details");
    let entries = card.entries();
    assert_eq!(entries.len(), 4);
    assert_eq!(entries[1].0, "Balance");
    assert_eq!(entries[1].1, ZkEntry::Raw("255 credits".to_string()));
    assert_eq!(entries[2].1, ZkEntry::Raw("Active".to_string()));
    assert_eq!(entries[3].1, ZkEntry::Raw("4".to_string()));

    let empty = DetailedUser { user: None, subscription: None, tasks_submitted: None };
    assert!(empty.entries().is_empty());

    let bad_balance = DetailedUser {
        user: Some(User { user_address: "0xabc".to_string(), credits: "garbage".to_string() }),
        subscription: None,
        tasks_submitted: None,
    };
    let entries = bad_balance.entries();
    assert_eq!(entries[1].1, ZkEntry::Raw("N/A".to_string()));
    assert_eq!(entries[2].1, ZkEntry::Raw("None".to_string()));
}

fn sample_image() -> Image {
    Image {
        user_address: "0xowner".to_string(),
        circuit_size: 22,
        prove_payment_src: ProvePaymentSrc::CreatorPay,
        add_prove_task_restrictions: AddProveTaskRestrictions::Anyone,
        auto_submit_network_ids: vec![5],
        checksum: None,
        status: "Verified".to_string(),
        inherited_merkle_data_info: None,
        description_url: "".to_string(),
    }
}

#[test]
fn image_details_card() {
    let config = AppConfig {
        chain_info_list: vec![
            ChainInfo { chain_id: 1, chain_name: "Mainnet".to_string() },
            ChainInfo { chain_id: 5, chain_name: "Goerli".to_string() },
        ],
    };
    let detailed = DetailedImage::new(
        Some(sample_image()),
        Some(config),
        Some(sample_task()),
        Some(7),
    )
    .expect("all four fetches are present");
    assert_eq!(detailed.networks, vec!["Goerli".to_string()]);
    assert_eq!(detailed.creator_paid_proof, "Yes");
    assert_eq!(detailed.only_creator_add, "No");
    let card = Some(detailed);
    assert_eq!(card.title(), "Overview");
    let entries = card.entries();
    assert_eq!(entries.len(), 10);
    assert_eq!(entries[2].0, "Auto Submit Proof Network(s)");
    assert_eq!(entries[2].1, ZkEntry::Raw("Goerli".to_string()));
    assert_eq!(entries[3].1, ZkEntry::Raw("22".to_string()));
    assert_eq!(entries[6].1, ZkEntry::Raw("7".to_string()));
    assert_eq!(entries[9].1, ZkEntry::Raw("NA".to_string()));
}

#[test]
fn image_details_need_all_fetches() {
    assert!(DetailedImage::new(Some(sample_image()), None, Some(sample_task()), Some(1)).is_none());
    assert!(DetailedImage::new(None, None, None, None).is_none());
}

#[test]
fn node_detail_cards() {
    let node = Some(sample_node());
    let general = GeneralNodeDetails { node: node.clone() };
    assert_eq!(general.title(), "Prover Node Statistics");
    let entries = general.entries();
    assert_eq!(entries.len(), 9);
    assert_eq!(entries[1].1, ZkEntry::Raw("N/A".to_string()));
    assert_eq!(entries[2].1, ZkEntry::Raw("Gold".to_string()));
    assert_eq!(entries[7].1, ZkEntry::Raw("13".to_string()));
    assert!(GeneralNodeDetails { node: None }.entries().is_empty());

    let failure = FailureNodeDetails { node: node.clone() };
    let entries = failure.entries();
    assert_eq!(entries.len(), 7);
    assert_eq!(entries[0].1, ZkEntry::Raw("2".to_string()));
    assert_eq!(
        entries[6].1,
        ZkEntry::Logs(Some("oops\nbad".to_string()))
    );

    let setup = SuccessfulSetupNodeStats { node: node.clone() };
    let entries = setup.entries();
    assert_eq!(entries.len(), 3);
    assert_eq!(entries[1].1, ZkEntry::Raw("N/A".to_string()));

    let prove = SuccessfulProveNodeStats { node };
    let entries = prove.entries();
    assert_eq!(entries[1].1, ZkEntry::Raw("1.2345 seconds".to_string()));

    let month = LastMonthsNodeStats {
        timerange_stats: Some(ProverNodeTimeRangeStats {
            stats: TaskCounts { successful: 5, failed: 1, timed_out: 0 },
        }),
    };
    let entries = month.entries();
    assert_eq!(entries.len(), 3);
    assert_eq!(entries[0].1, ZkEntry::Raw("5".to_string()));
    assert!(LastMonthsNodeStats { timerange_stats: None }.entries().is_empty());
}

#[test]
fn summary_cards() {
    let stats = Some(StatisticsInfo { total_images: 3, total_tasks: 14, total_proofs: 9 });
    let rows = stats.entries();
    assert_eq!(rows.len(), 1);
    assert_eq!(rows[0].0, ZkEntry::Raw("3 applications".to_string()));
    assert_eq!(rows[0].1, ZkEntry::Raw("14 tasks".to_string()));
    assert_eq!(rows[0].2, ZkEntry::Raw("9 proofs".to_string()));
    assert_eq!(rows[0].3, ZkEntry::Raw("40 seconds".to_string()));
    assert!(Option::<StatisticsInfo>::None.entries().is_empty());

    let summary = ConciseTaskSummary { data: vec![sample_task()] };
    let rows = summary.entries();
    assert_eq!(rows.len(), 1);
    let t = sample_task();
    assert_eq!(
        rows[0].0,
        ZkEntry::Address(t.md5, AddressStyle::Detailed, AddressKind::PrefixedImage)
    );
    assert_eq!(
        rows[0].1,
        ZkEntry::Address(t._id.oid, AddressStyle::Dashboard, AddressKind::PrefixedTask)
    );
}

#[test]
fn task_overview_card() {
    let task = TaskView {
        user_address: "0xsubmitter".to_string(),
        node_address: None,
        _id: ObjectId { oid: "task1".to_string() },
        status: TaskStatus::Done,
        md5: "0123456789abcdef0123456789abcdef".to_string(),
        task_type: TaskType::Prove,
        public_inputs: vec!["0x1:i64".to_string()],
        private_inputs: vec![],
        single_proof: vec![],
        proof: vec![],
        batch_instances: vec![],
        shadow_instances: vec![],
        instances: vec![],
        aux: vec![],
        input_context: vec![],
        input_context_type: None,
        output_context: vec![],
        chain_id: None,
        external_host_table: vec![],
        submit_time: "2024-01-01T00:00:00Z".to_string(),
        process_started: Some("2024-01-01T00:00:00Z".to_string()),
        process_finished: Some("2024-01-01T00:01:30Z".to_string()),
        task_fee: vec![0xE8, 0x03],
        status_message: None,
        internal_message: None,
        guest_statics: None,
        task_verification_data: TaskVerificationData {
            static_file_checksum: vec![],
            verifier_contracts: vec![],
        },
        debug_logs: None,
        proof_submit_mode: None,
        batch_proof_data: None,
        auto_submit_status: None,
        retries_left: 0,
        compression: zkp_explorer::task::CompressionType::Plain,
    };
    let card = Some(task);
    assert_eq!(card.title(), "Task Overview");
    let entries = card.entries();
    assert_eq!(entries.len(), 25);
    assert_eq!(entries[0].0, "Application");
    assert_eq!(entries[8].0, "Processing Time");
    assert_eq!(entries[8].1, ZkEntry::Raw("90 seconds".to_string()));
    assert_eq!(entries[9].1, ZkEntry::Raw("1000".to_string()));
    assert_eq!(entries[12].1, ZkEntry::Raw("Manual".to_string()));
    assert_eq!(entries[13].1, ZkEntry::Raw("N/A".to_string()));
    assert!(Option::<TaskView>::None.entries().is_empty());
}

#[test]
fn config_wraps_the_api_address() {
    let c = Config::new("http://localhost:8080".to_string());
    assert_eq!(c.api.url, "http://localhost:8080");
}
