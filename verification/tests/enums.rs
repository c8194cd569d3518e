use zkp_explorer::task::AutoSubmitStatus;
use zkp_explorer::task::CompressionType;
use zkp_explorer::task::InputContextType;
use zkp_explorer::task::ProofSubmitMode;
use zkp_explorer::task::TaskStatus;
use zkp_explorer::task::TaskType;

#[test]
fn task_type_labels_round_trip() {
    let all = [
        TaskType::Setup,
        TaskType::Prove,
        TaskType::Verify,
        TaskType::Batch,
        TaskType::Deploy,
        TaskType::Reset,
    ];
    for t in all {
        assert_eq!(TaskType::from_label(t.label()), Some(t));
        assert_eq!(TaskType::label_round_trip(t), Some(t));
    }
    assert_eq!(TaskType::label(&TaskType::Setup), "Setup");
    assert_eq!(TaskType::from_label("Bogus"), None);
    assert_eq!(TaskType::from_label(""), None);
    assert_eq!(TaskType::from_label("setup"), None);
}

#[test]
fn task_status_labels_round_trip() {
    let all = [
        TaskStatus::Pending,
        TaskStatus::Processing,
        TaskStatus::DryRunSuccess,
        TaskStatus::DryRunFailed,
        TaskStatus::Done,
        TaskStatus::Fail,
        TaskStatus::Unprovable,
        TaskStatus::Stale,
    ];
    for t in all {
        assert_eq!(TaskStatus::from_label(t.label()), Some(t));
        assert_eq!(TaskStatus::label_round_trip(t), Some(t));
    }
    assert_eq!(TaskStatus::label(&TaskStatus::DryRunSuccess), "DryRunSuccess");
    assert_eq!(TaskStatus::from_label("done"), None);
    assert_eq!(TaskStatus::from_label("Donee"), None);
}

#[test]
fn proof_submit_mode_labels_round_trip() {
    for t in [ProofSubmitMode::Manual, ProofSubmitMode::Auto] {
        assert_eq!(ProofSubmitMode::from_label(t.label()), Some(t));
        assert_eq!(ProofSubmitMode::label_round_trip(t), Some(t));
    }
    assert_eq!(ProofSubmitMode::from_label("Automatic"), None);
}

#[test]
fn auto_submit_status_labels_round_trip() {
    let all = [
        AutoSubmitStatus::Round1,
        AutoSubmitStatus::Round2,
        AutoSubmitStatus::Batched,
        AutoSubmitStatus::RegisteredProof,
        AutoSubmitStatus::Failed,
    ];
    for t in all {
        assert_eq!(AutoSubmitStatus::from_label(t.label()), Some(t));
        assert_eq!(AutoSubmitStatus::label_round_trip(t), Some(t));
    }
    assert_eq!(AutoSubmitStatus::from_label("Round3"), None);
}

#[test]
fn compression_type_labels_round_trip() {
    for t in [CompressionType::Plain, CompressionType::GZip] {
        assert_eq!(CompressionType::from_label(t.label()), Some(t));
        assert_eq!(CompressionType::label_round_trip(t), Some(t));
    }
    assert_eq!(CompressionType::label(&CompressionType::Plain), "None");
    assert_eq!(CompressionType::from_label("gzip"), None);
}

#[test]
fn input_context_type_labels_round_trip() {
    let all = [
        InputContextType::Custom,
        InputContextType::ImageInitial,
        InputContextType::ImageCurrent,
    ];
    for t in all {
        assert_eq!(InputContextType::from_label(t.label()), Some(t));
        assert_eq!(InputContextType::label_round_trip(t), Some(t));
    }
    assert_eq!(InputContextType::from_label("Image"), None);
}

#[test]
fn status_badge_colors() {
    assert_eq!(TaskStatus::Pending.badge_color(), "#CA9B00");
    assert_eq!(TaskStatus::DryRunFailed.badge_color(), "#CA9B00");
    assert_eq!(TaskStatus::Done.badge_color(), "#3E8166");
    assert_eq!(TaskStatus::Fail.badge_color(), "#DD6B00");
    assert_eq!(TaskStatus::Unprovable.badge_color(), "#894E50");
    assert_eq!(TaskStatus::Stale.badge_color(), "#636363");
}

#[test]
fn status_background_colors() {
    assert_eq!(TaskStatus::Pending.to_background_color(), "#CA9B00");
    assert_eq!(TaskStatus::Processing.to_background_color(), "#CA9B00");
    assert_eq!(TaskStatus::DryRunSuccess.to_background_color(), "#CA9B00");
    assert_eq!(TaskStatus::DryRunFailed.to_background_color(), "#DD6B00");
    assert_eq!(TaskStatus::Done.to_background_color(), "#3E8166");
    assert_eq!(TaskStatus::Fail.to_background_color(), "#DD6B00");
    assert_eq!(TaskStatus::Unprovable.to_background_color(), "red");
    assert_eq!(TaskStatus::Stale.to_background_color(), "#636363");
}
