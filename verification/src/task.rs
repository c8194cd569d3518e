//! The domain records the remote proof service reports: tasks and their
//! lifecycle enums, batch-proof metadata, and the pagination envelope.
//!
//! Every enum carries its display label and a parser back from the label;
//! the round-trip functions state that the two are mutual inverses and that
//! an unrecognized label never silently matches a variant.

use crate::strutil::str_eq;
use vstd::prelude::*;

verus! {

/// A successful remote response wrapper.
#[derive(Debug, Clone)]
pub struct RequestResult<T> {
    pub success: bool,
    pub result: T,
}

/// One page of a paginated listing, with the server's total record count.
#[derive(Debug, Clone)]
pub struct PaginationResult<T> {
    pub data: T,
    pub total: u64,
}

/// A remote-assigned record identity.
#[derive(Debug, Clone, PartialEq)]
pub struct ObjectId {
    pub oid: String,
}

/// How a finished proof reaches the chain: by hand or batched automatically.
#[derive(Debug, Clone, Copy, PartialEq, Eq, Structural)]
pub enum ProofSubmitMode {
    Manual,
    Auto,
}

impl ProofSubmitMode {
    /// The display label of the variant.
    pub open spec fn label_spec(self) -> Seq<char> {
        match self {
            ProofSubmitMode::Manual => "Manual"@,
            ProofSubmitMode::Auto => "Auto"@,
        }
    }

    pub fn label(&self) -> (r: &'static str)
        ensures
            r@ == self.label_spec(),
    {
        match self {
            ProofSubmitMode::Manual => "Manual",
            ProofSubmitMode::Auto => "Auto",
        }
    }

    /// Parses a display label; an unrecognized label matches no variant.
    pub fn from_label(s: &str) -> (r: Option<ProofSubmitMode>)
        ensures
            match r {
                Some(t) => s@ == t.label_spec(),
                None => forall|t: ProofSubmitMode| s@ != t.label_spec(),
            },
    {
        if str_eq(s, "Manual") {
            Some(ProofSubmitMode::Manual)
        } else if str_eq(s, "Auto") {
            Some(ProofSubmitMode::Auto)
        } else {
            proof {
                assert forall|t: ProofSubmitMode| s@ != t.label_spec() by {
                    match t {
                        ProofSubmitMode::Manual => {},
                        ProofSubmitMode::Auto => {},
                    }
                }
            }
            None
        }
    }

    /// Law: no two variants share a label.
    pub proof fn lemma_labels_injective(a: ProofSubmitMode, b: ProofSubmitMode)
        requires
            a.label_spec() == b.label_spec(),
        ensures
            a == b,
    {
        reveal_strlit("Manual");
        reveal_strlit("Auto");
        assert("Manual"@.len() == 6);
        assert("Auto"@.len() == 4);
        assert("Manual"@ != "Auto"@);
    }

    /// Law: rendering a variant's label and parsing it back yields the same
    /// variant, for every variant.
    pub fn label_round_trip(t: ProofSubmitMode) -> (r: Option<ProofSubmitMode>)
        ensures
            r == Some(t),
    {
        let r = ProofSubmitMode::from_label(ProofSubmitMode::label(&t));
        proof {
            match r {
                Some(u) => ProofSubmitMode::lemma_labels_injective(u, t),
                None => {},
            }
        }
        r
    }
}

/// Where a task's batched proof stands in the auto-submission pipeline.
#[derive(Debug, Clone, Copy, PartialEq, Eq, Structural)]
pub enum AutoSubmitStatus {
    Round1,
    Round2,
    Batched,
    RegisteredProof,
    Failed,
}

impl AutoSubmitStatus {
    /// The display label of the variant.
    pub open spec fn label_spec(self) -> Seq<char> {
        match self {
            AutoSubmitStatus::Round1 => "Round1"@,
            AutoSubmitStatus::Round2 => "Round2"@,
            AutoSubmitStatus::Batched => "Batched"@,
            AutoSubmitStatus::RegisteredProof => "RegisteredProof"@,
            AutoSubmitStatus::Failed => "Failed"@,
        }
    }

    pub fn label(&self) -> (r: &'static str)
        ensures
            r@ == self.label_spec(),
    {
        match self {
            AutoSubmitStatus::Round1 => "Round1",
            AutoSubmitStatus::Round2 => "Round2",
            AutoSubmitStatus::Batched => "Batched",
            AutoSubmitStatus::RegisteredProof => "RegisteredProof",
            AutoSubmitStatus::Failed => "Failed",
        }
    }

    /// Parses a display label; an unrecognized label matches no variant.
    pub fn from_label(s: &str) -> (r: Option<AutoSubmitStatus>)
        ensures
            match r {
                Some(t) => s@ == t.label_spec(),
                None => forall|t: AutoSubmitStatus| s@ != t.label_spec(),
            },
    {
        if str_eq(s, "Round1") {
            Some(AutoSubmitStatus::Round1)
        } else if str_eq(s, "Round2") {
            Some(AutoSubmitStatus::Round2)
        } else if str_eq(s, "Batched") {
            Some(AutoSubmitStatus::Batched)
        } else if str_eq(s, "RegisteredProof") {
            Some(AutoSubmitStatus::RegisteredProof)
        } else if str_eq(s, "Failed") {
            Some(AutoSubmitStatus::Failed)
        } else {
            proof {
                assert forall|t: AutoSubmitStatus| s@ != t.label_spec() by {
                    match t {
                        AutoSubmitStatus::Round1 => {},
                        AutoSubmitStatus::Round2 => {},
                        AutoSubmitStatus::Batched => {},
                        AutoSubmitStatus::RegisteredProof => {},
                        AutoSubmitStatus::Failed => {},
                    }
                }
            }
            None
        }
    }

    /// Law: no two variants share a label.
    pub proof fn lemma_labels_injective(a: AutoSubmitStatus, b: AutoSubmitStatus)
        requires
            a.label_spec() == b.label_spec(),
        ensures
            a == b,
    {
        reveal_strlit("Round1");
        reveal_strlit("Round2");
        reveal_strlit("Batched");
        reveal_strlit("RegisteredProof");
        reveal_strlit("Failed");
        assert("Round1"@.len() == 6);
        assert("Round2"@.len() == 6);
        assert("Batched"@.len() == 7);
        assert("RegisteredProof"@.len() == 15);
        assert("Failed"@.len() == 6);
        assert("Round1"@[5] == '1' && "Round2"@[5] == '2');
        assert("Round1"@[0] == 'R' && "Failed"@[0] == 'F');
        assert("Round2"@[0] == 'R' && "Failed"@[0] == 'F');
        assert("Round1"@ != "Round2"@);
        assert("Round1"@ != "Batched"@);
        assert("Round1"@ != "RegisteredProof"@);
        assert("Round1"@ != "Failed"@);
        assert("Round2"@ != "Batched"@);
        assert("Round2"@ != "RegisteredProof"@);
        assert("Round2"@ != "Failed"@);
        assert("Batched"@ != "RegisteredProof"@);
        assert("Batched"@ != "Failed"@);
        assert("RegisteredProof"@ != "Failed"@);
    }

    /// Law: rendering a variant's label and parsing it back yields the same
    /// variant, for every variant.
    pub fn label_round_trip(t: AutoSubmitStatus) -> (r: Option<AutoSubmitStatus>)
        ensures
            r == Some(t),
    {
        let r = AutoSubmitStatus::from_label(AutoSubmitStatus::label(&t));
        proof {
            match r {
                Some(u) => AutoSubmitStatus::lemma_labels_injective(u, t),
                None => {},
            }
        }
        r
    }
}


/// The lifecycle status of a task.
#[derive(Debug, Clone, Copy, PartialEq, Eq, Structural)]
pub enum TaskStatus {
    Pending,
    Processing,
    DryRunSuccess,
    DryRunFailed,
    Done,
    Fail,
    Unprovable,
    Stale,
}

impl TaskStatus {
    /// The display label of the variant.
    pub open spec fn label_spec(self) -> Seq<char> {
        match self {
            TaskStatus::Pending => "Pending"@,
            TaskStatus::Processing => "Processing"@,
            TaskStatus::DryRunSuccess => "DryRunSuccess"@,
            TaskStatus::DryRunFailed => "DryRunFailed"@,
            TaskStatus::Done => "Done"@,
            TaskStatus::Fail => "Fail"@,
            TaskStatus::Unprovable => "Unprovable"@,
            TaskStatus::Stale => "Stale"@,
        }
    }

    pub fn label(&self) -> (r: &'static str)
        ensures
            r@ == self.label_spec(),
    {
        match self {
            TaskStatus::Pending => "Pending",
            TaskStatus::Processing => "Processing",
            TaskStatus::DryRunSuccess => "DryRunSuccess",
            TaskStatus::DryRunFailed => "DryRunFailed",
            TaskStatus::Done => "Done",
            TaskStatus::Fail => "Fail",
            TaskStatus::Unprovable => "Unprovable",
            TaskStatus::Stale => "Stale",
        }
    }

    /// Parses a display label; an unrecognized label matches no variant.
    pub fn from_label(s: &str) -> (r: Option<TaskStatus>)
        ensures
            match r {
                Some(t) => s@ == t.label_spec(),
                None => forall|t: TaskStatus| s@ != t.label_spec(),
            },
    {
        if str_eq(s, "Pending") {
            Some(TaskStatus::Pending)
        } else if str_eq(s, "Processing") {
            Some(TaskStatus::Processing)
        } else if str_eq(s, "DryRunSuccess") {
            Some(TaskStatus::DryRunSuccess)
        } else if str_eq(s, "DryRunFailed") {
            Some(TaskStatus::DryRunFailed)
        } else if str_eq(s, "Done") {
            Some(TaskStatus::Done)
        } else if str_eq(s, "Fail") {
            Some(TaskStatus::Fail)
        } else if str_eq(s, "Unprovable") {
            Some(TaskStatus::Unprovable)
        } else if str_eq(s, "Stale") {
            Some(TaskStatus::Stale)
        } else {
            proof {
                assert forall|t: TaskStatus| s@ != t.label_spec() by {
                    match t {
                        TaskStatus::Pending => {},
                        TaskStatus::Processing => {},
                        TaskStatus::DryRunSuccess => {},
                        TaskStatus::DryRunFailed => {},
                        TaskStatus::Done => {},
                        TaskStatus::Fail => {},
                        TaskStatus::Unprovable => {},
                        TaskStatus::Stale => {},
                    }
                }
            }
            None
        }
    }

    /// Law: no two variants share a label.
    pub proof fn lemma_labels_injective(a: TaskStatus, b: TaskStatus)
        requires
            a.label_spec() == b.label_spec(),
        ensures
            a == b,
    {
        reveal_strlit("Pending");
        reveal_strlit("Processing");
        reveal_strlit("DryRunSuccess");
        reveal_strlit("DryRunFailed");
        reveal_strlit("Done");
        reveal_strlit("Fail");
        reveal_strlit("Unprovable");
        reveal_strlit("Stale");
        assert("Pending"@.len() == 7);
        assert("Processing"@.len() == 10);
        assert("DryRunSuccess"@.len() == 13);
        assert("DryRunFailed"@.len() == 12);
        assert("Done"@.len() == 4);
        assert("Fail"@.len() == 4);
        assert("Unprovable"@.len() == 10);
        assert("Stale"@.len() == 5);
        assert("Processing"@[0] == 'P' && "Unprovable"@[0] == 'U');
        assert("Done"@[0] == 'D' && "Fail"@[0] == 'F');
        assert("Pending"@ != "Processing"@);
        assert("Pending"@ != "DryRunSuccess"@);
        assert("Pending"@ != "DryRunFailed"@);
        assert("Pending"@ != "Done"@);
        assert("Pending"@ != "Fail"@);
        assert("Pending"@ != "Unprovable"@);
        assert("Pending"@ != "Stale"@);
        assert("Processing"@ != "DryRunSuccess"@);
        assert("Processing"@ != "DryRunFailed"@);
        assert("Processing"@ != "Done"@);
        assert("Processing"@ != "Fail"@);
        assert("Processing"@ != "Unprovable"@);
        assert("Processing"@ != "Stale"@);
        assert("DryRunSuccess"@ != "DryRunFailed"@);
        assert("DryRunSuccess"@ != "Done"@);
        assert("DryRunSuccess"@ != "Fail"@);
        assert("DryRunSuccess"@ != "Unprovable"@);
        assert("DryRunSuccess"@ != "Stale"@);
        assert("DryRunFailed"@ != "Done"@);
        assert("DryRunFailed"@ != "Fail"@);
        assert("DryRunFailed"@ != "Unprovable"@);
        assert("DryRunFailed"@ != "Stale"@);
        assert("Done"@ != "Fail"@);
        assert("Done"@ != "Unprovable"@);
        assert("Done"@ != "Stale"@);
        assert("Fail"@ != "Unprovable"@);
        assert("Fail"@ != "Stale"@);
        assert("Unprovable"@ != "Stale"@);
    }

    /// Law: rendering a variant's label and parsing it back yields the same
    /// variant, for every variant.
    pub fn label_round_trip(t: TaskStatus) -> (r: Option<TaskStatus>)
        ensures
            r == Some(t),
    {
        let r = TaskStatus::from_label(TaskStatus::label(&t));
        proof {
            match r {
                Some(u) => TaskStatus::lemma_labels_injective(u, t),
                None => {},
            }
        }
        r
    }
}


/// The kind of work a task asks of a prover.
#[derive(Debug, Clone, Copy, PartialEq, Eq, Structural)]
pub enum TaskType {
    Setup,
    Prove,
    Verify,
    Batch,
    Deploy,
    Reset,
}

impl TaskType {
    /// The display label of the variant.
    pub open spec fn label_spec(self) -> Seq<char> {
        match self {
            TaskType::Setup => "Setup"@,
            TaskType::Prove => "Prove"@,
            TaskType::Verify => "Verify"@,
            TaskType::Batch => "Batch"@,
            TaskType::Deploy => "Deploy"@,
            TaskType::Reset => "Reset"@,
        }
    }

    pub fn label(&self) -> (r: &'static str)
        ensures
            r@ == self.label_spec(),
    {
        match self {
            TaskType::Setup => "Setup",
            TaskType::Prove => "Prove",
            TaskType::Verify => "Verify",
            TaskType::Batch => "Batch",
            TaskType::Deploy => "Deploy",
            TaskType::Reset => "Reset",
        }
    }

    /// Parses a display label; an unrecognized label matches no variant.
    pub fn from_label(s: &str) -> (r: Option<TaskType>)
        ensures
            match r {
                Some(t) => s@ == t.label_spec(),
                None => forall|t: TaskType| s@ != t.label_spec(),
            },
    {
        if str_eq(s, "Setup") {
            Some(TaskType::Setup)
        } else if str_eq(s, "Prove") {
            Some(TaskType::Prove)
        } else if str_eq(s, "Verify") {
            Some(TaskType::Verify)
        } else if str_eq(s, "Batch") {
            Some(TaskType::Batch)
        } else if str_eq(s, "Deploy") {
            Some(TaskType::Deploy)
        } else if str_eq(s, "Reset") {
            Some(TaskType::Reset)
        } else {
            proof {
                assert forall|t: TaskType| s@ != t.label_spec() by {
                    match t {
                        TaskType::Setup => {},
                        TaskType::Prove => {},
                        TaskType::Verify => {},
                        TaskType::Batch => {},
                        TaskType::Deploy => {},
                        TaskType::Reset => {},
                    }
                }
            }
            None
        }
    }

    /// Law: no two variants share a label.
    pub proof fn lemma_labels_injective(a: TaskType, b: TaskType)
        requires
            a.label_spec() == b.label_spec(),
        ensures
            a == b,
    {
        reveal_strlit("Setup");
        reveal_strlit("Prove");
        reveal_strlit("Verify");
        reveal_strlit("Batch");
        reveal_strlit("Deploy");
        reveal_strlit("Reset");
        assert("Setup"@.len() == 5);
        assert("Prove"@.len() == 5);
        assert("Verify"@.len() == 6);
        assert("Batch"@.len() == 5);
        assert("Deploy"@.len() == 6);
        assert("Reset"@.len() == 5);
        assert("Setup"@[0] == 'S' && "Prove"@[0] == 'P');
        assert("Setup"@[0] == 'S' && "Batch"@[0] == 'B');
        assert("Setup"@[0] == 'S' && "Reset"@[0] == 'R');
        assert("Prove"@[0] == 'P' && "Batch"@[0] == 'B');
        assert("Prove"@[0] == 'P' && "Reset"@[0] == 'R');
        assert("Verify"@[0] == 'V' && "Deploy"@[0] == 'D');
        assert("Batch"@[0] == 'B' && "Reset"@[0] == 'R');
        assert("Setup"@ != "Prove"@);
        assert("Setup"@ != "Verify"@);
        assert("Setup"@ != "Batch"@);
        assert("Setup"@ != "Deploy"@);
        assert("Setup"@ != "Reset"@);
        assert("Prove"@ != "Verify"@);
        assert("Prove"@ != "Batch"@);
        assert("Prove"@ != "Deploy"@);
        assert("Prove"@ != "Reset"@);
        assert("Verify"@ != "Batch"@);
        assert("Verify"@ != "Deploy"@);
        assert("Verify"@ != "Reset"@);
        assert("Batch"@ != "Deploy"@);
        assert("Batch"@ != "Reset"@);
        assert("Deploy"@ != "Reset"@);
    }

    /// Law: rendering a variant's label and parsing it back yields the same
    /// variant, for every variant.
    pub fn label_round_trip(t: TaskType) -> (r: Option<TaskType>)
        ensures
            r == Some(t),
    {
        let r = TaskType::from_label(TaskType::label(&t));
        proof {
            match r {
                Some(u) => TaskType::lemma_labels_injective(u, t),
                None => {},
            }
        }
        r
    }
}


/// Whether a task's context blobs are compressed.
#[derive(Debug, Clone, Copy, PartialEq, Eq, Structural)]
pub enum CompressionType {
    Plain,
    GZip,
}

impl CompressionType {
    /// The display label of the variant.
    pub open spec fn label_spec(self) -> Seq<char> {
        match self {
            CompressionType::Plain => "None"@,
            CompressionType::GZip => "GZip"@,
        }
    }

    pub fn label(&self) -> (r: &'static str)
        ensures
            r@ == self.label_spec(),
    {
        match self {
            CompressionType::Plain => "None",
            CompressionType::GZip => "GZip",
        }
    }

    /// Parses a display label; an unrecognized label matches no variant.
    pub fn from_label(s: &str) -> (r: Option<CompressionType>)
        ensures
            match r {
                Some(t) => s@ == t.label_spec(),
                None => forall|t: CompressionType| s@ != t.label_spec(),
            },
    {
        if str_eq(s, "None") {
            Some(CompressionType::Plain)
        } else if str_eq(s, "GZip") {
            Some(CompressionType::GZip)
        } else {
            proof {
                assert forall|t: CompressionType| s@ != t.label_spec() by {
                    match t {
                        CompressionType::Plain => {},
                        CompressionType::GZip => {},
                    }
                }
            }
            None
        }
    }

    /// Law: no two variants share a label.
    pub proof fn lemma_labels_injective(a: CompressionType, b: CompressionType)
        requires
            a.label_spec() == b.label_spec(),
        ensures
            a == b,
    {
        reveal_strlit("None");
        reveal_strlit("GZip");
        assert("None"@.len() == 4);
        assert("GZip"@.len() == 4);
        assert("None"@[0] == 'N' && "GZip"@[0] == 'G');
        assert("None"@ != "GZip"@);
    }

    /// Law: rendering a variant's label and parsing it back yields the same
    /// variant, for every variant.
    pub fn label_round_trip(t: CompressionType) -> (r: Option<CompressionType>)
        ensures
            r == Some(t),
    {
        let r = CompressionType::from_label(CompressionType::label(&t));
        proof {
            match r {
                Some(u) => CompressionType::lemma_labels_injective(u, t),
                None => {},
            }
        }
        r
    }
}


/// Which execution context a task's inputs come from.
#[derive(Debug, Clone, Copy, PartialEq, Eq, Structural)]
pub enum InputContextType {
    Custom,
    ImageInitial,
    ImageCurrent,
}

impl InputContextType {
    /// The display label of the variant.
    pub open spec fn label_spec(self) -> Seq<char> {
        match self {
            InputContextType::Custom => "Custom"@,
            InputContextType::ImageInitial => "ImageInitial"@,
            InputContextType::ImageCurrent => "ImageCurrent"@,
        }
    }

    pub fn label(&self) -> (r: &'static str)
        ensures
            r@ == self.label_spec(),
    {
        match self {
            InputContextType::Custom => "Custom",
            InputContextType::ImageInitial => "ImageInitial",
            InputContextType::ImageCurrent => "ImageCurrent",
        }
    }

    /// Parses a display label; an unrecognized label matches no variant.
    pub fn from_label(s: &str) -> (r: Option<InputContextType>)
        ensures
            match r {
                Some(t) => s@ == t.label_spec(),
                None => forall|t: InputContextType| s@ != t.label_spec(),
            },
    {
        if str_eq(s, "Custom") {
            Some(InputContextType::Custom)
        } else if str_eq(s, "ImageInitial") {
            Some(InputContextType::ImageInitial)
        } else if str_eq(s, "ImageCurrent") {
            Some(InputContextType::ImageCurrent)
        } else {
            proof {
                assert forall|t: InputContextType| s@ != t.label_spec() by {
                    match t {
                        InputContextType::Custom => {},
                        InputContextType::ImageInitial => {},
                        InputContextType::ImageCurrent => {},
                    }
                }
            }
            None
        }
    }

    /// Law: no two variants share a label.
    pub proof fn lemma_labels_injective(a: InputContextType, b: InputContextType)
        requires
            a.label_spec() == b.label_spec(),
        ensures
            a == b,
    {
        reveal_strlit("Custom");
        reveal_strlit("ImageInitial");
        reveal_strlit("ImageCurrent");
        assert("Custom"@.len() == 6);
        assert("ImageInitial"@.len() == 12);
        assert("ImageCurrent"@.len() == 12);
        assert("ImageInitial"@[5] == 'I' && "ImageCurrent"@[5] == 'C');
        assert("Custom"@ != "ImageInitial"@);
        assert("Custom"@ != "ImageCurrent"@);
        assert("ImageInitial"@ != "ImageCurrent"@);
    }

    /// Law: rendering a variant's label and parsing it back yields the same
    /// variant, for every variant.
    pub fn label_round_trip(t: InputContextType) -> (r: Option<InputContextType>)
        ensures
            r == Some(t),
    {
        let r = InputContextType::from_label(InputContextType::label(&t));
        proof {
            match r {
                Some(u) => InputContextType::lemma_labels_injective(u, t),
                None => {},
            }
        }
        r
    }
}

impl TaskStatus {
    /// The color the cell renderer gives a status badge.  This is the
    /// renderer's map; `to_background_color` below is the record type's own,
    /// older map, and the two disagree on two variants.
    pub open spec fn badge_color_spec(self) -> Seq<char> {
        match self {
            TaskStatus::Pending => "#CA9B00"@,
            TaskStatus::Processing => "#CA9B00"@,
            TaskStatus::DryRunSuccess => "#CA9B00"@,
            TaskStatus::DryRunFailed => "#CA9B00"@,
            TaskStatus::Done => "#3E8166"@,
            TaskStatus::Fail => "#DD6B00"@,
            TaskStatus::Unprovable => "#894E50"@,
            TaskStatus::Stale => "#636363"@,
        }
    }

    pub fn badge_color(&self) -> (r: &'static str)
        ensures
            r@ == self.badge_color_spec(),
    {
        match self {
            TaskStatus::Pending => "#CA9B00",
            TaskStatus::Processing => "#CA9B00",
            TaskStatus::DryRunSuccess => "#CA9B00",
            TaskStatus::DryRunFailed => "#CA9B00",
            TaskStatus::Done => "#3E8166",
            TaskStatus::Fail => "#DD6B00",
            TaskStatus::Unprovable => "#894E50",
            TaskStatus::Stale => "#636363",
        }
    }

    /// The badge color each status renders with.
    pub open spec fn background_color_spec(self) -> Seq<char> {
        match self {
            TaskStatus::Pending => "#CA9B00"@,
            TaskStatus::Processing => "#CA9B00"@,
            TaskStatus::DryRunSuccess => "#CA9B00"@,
            TaskStatus::DryRunFailed => "#DD6B00"@,
            TaskStatus::Done => "#3E8166"@,
            TaskStatus::Fail => "#DD6B00"@,
            TaskStatus::Unprovable => "red"@,
            TaskStatus::Stale => "#636363"@,
        }
    }

    pub fn to_background_color(&self) -> (r: &'static str)
        ensures
            r@ == self.background_color_spec(),
    {
        match self {
            TaskStatus::Pending => "#CA9B00",
            TaskStatus::Processing => "#CA9B00",
            TaskStatus::DryRunSuccess => "#CA9B00",
            TaskStatus::DryRunFailed => "#DD6B00",
            TaskStatus::Done => "#3E8166",
            TaskStatus::Fail => "#DD6B00",
            TaskStatus::Unprovable => "red",
            TaskStatus::Stale => "#636363",
        }
    }
}

/// The list-view projection of a task: what the task tables show.
#[derive(Debug, Clone, PartialEq)]
pub struct ConciseTask {
    pub _id: ObjectId,
    pub user_address: String,
    pub md5: String,
    pub task_type: TaskType,
    pub status: TaskStatus,
    pub submit_time: String,
    pub process_started: Option<String>,
    pub process_finished: Option<String>,
    pub proof_submit_mode: Option<ProofSubmitMode>,
    pub auto_submit_status: Option<AutoSubmitStatus>,
}

/// On-chain verification metadata attached to a task.
#[derive(Debug, Clone, PartialEq)]
pub struct TaskVerificationData {
    pub static_file_checksum: Vec<u8>,
    pub verifier_contracts: Vec<VerifierContracts>,
}

/// The verifier contract addresses for one target chain.
#[derive(Debug, Clone, PartialEq)]
pub struct VerifierContracts {
    pub chain_id: u32,
    pub aggregator_verifier: String,
    pub batch_verifier: Option<String>,
    pub circuit_size: u32,
}

/// The batch queues a task's proof passed through.
#[derive(Debug, Clone, PartialEq)]
pub struct BatchProofData {
    pub round_1_batch_ids: Vec<AutoSubmitBatchData>,
    pub round_2_batch_ids: Vec<AutoSubmitBatchData>,
    pub final_proof_batch_ids: Vec<AutoSubmitBatchData>,
}

/// One batch-queue membership record: the queue entry and its target chain.
#[derive(Debug, Clone, PartialEq)]
pub struct AutoSubmitBatchData {
    pub id: String,
    pub chain_id: u32,
}

/// The detailed projection of a task: everything the task detail page shows.
#[derive(Debug, Clone, PartialEq)]
pub struct TaskView {
    pub user_address: String,
    pub node_address: Option<String>,
    pub _id: ObjectId,
    pub status: TaskStatus,
    pub md5: String,
    pub task_type: TaskType,
    pub public_inputs: Vec<String>,
    pub private_inputs: Vec<String>,
    pub single_proof: Vec<u8>,
    pub proof: Vec<u8>,
    pub batch_instances: Vec<u8>,
    pub shadow_instances: Vec<u8>,
    pub instances: Vec<u8>,
    pub aux: Vec<u8>,
    pub input_context: Vec<u8>,
    pub input_context_type: Option<InputContextType>,
    pub output_context: Vec<u8>,
    pub chain_id: Option<u32>,
    pub external_host_table: Vec<u8>,
    pub submit_time: String,
    pub process_started: Option<String>,
    pub process_finished: Option<String>,
    pub task_fee: Vec<u8>,
    pub status_message: Option<String>,
    pub internal_message: Option<String>,
    pub guest_statics: Option<u32>,
    pub task_verification_data: TaskVerificationData,
    pub debug_logs: Option<String>,
    pub proof_submit_mode: Option<ProofSubmitMode>,
    pub batch_proof_data: Option<BatchProofData>,
    pub auto_submit_status: Option<AutoSubmitStatus>,
    pub retries_left: u8,
    pub compression: CompressionType,
}

} // verus!
