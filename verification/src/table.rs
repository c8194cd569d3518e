//! The generic table model: a title, ordered column headers each carrying a
//! cell style, and rows of entries.  Concrete record lists implement
//! `TableLike`; the HTML layer renders any implementor the same way.
//!
//! A row longer than the header list does not fail the render: the surplus
//! columns fall back to the default raw style.

use crate::entry::Cell;
use crate::entry::CellV;
use crate::entry::RouteV;
use crate::entry::ZkEntry;
use crate::entry::ZkEntryV;
use crate::records::AutoSubmitProof;
use crate::records::ProverNode;
use crate::records::Round1Info;
use crate::records::Round2Info;
use crate::strutil::UnwrapOrNA;
use crate::task::ConciseTask;
use crate::task::TaskStatus;
use crate::time::timestamp_formatted;
use crate::time::TimestampStyle;
use vstd::prelude::*;

verus! {

/// The rendering treatment a column declares for its cells.
#[derive(Debug, Clone, Copy, PartialEq, Eq, Structural)]
pub enum CellStyle {
    TaskLink,
    ShortLink,
    ImageLink,
    Raw,
    Timestamp,
    RoundColoredBox,
}

/// One column header: its caption and the style of its cells.
#[derive(Debug, Clone, PartialEq)]
pub struct HeaderType {
    pub name: String,
    pub style: CellStyle,
}

impl Default for HeaderType {
    /// The fallback header: an unknown caption and the raw style.
    fn default() -> (r: Self)
        ensures
            r.name@ == "Unknown"@,
            r.style == CellStyle::Raw,
    {
        HeaderType { name: String::from_str("Unknown"), style: CellStyle::Raw }
    }
}

/// Builds headers from caption-and-style pairs.
pub fn into_header_type(inp: Vec<(&str, CellStyle)>) -> (r: Vec<HeaderType>)
    ensures
        r@.len() == inp@.len(),
        forall|j: int|
            0 <= j < r@.len() ==> r@[j].name@ == inp@[j].0@ && r@[j].style == inp@[j].1,
{
    let mut r: Vec<HeaderType> = Vec::new();
    let mut i: usize = 0;
    while i < inp.len()
        invariant
            i <= inp@.len(),
            r@.len() == i,
            forall|j: int|
                0 <= j < i ==> r@[j].name@ == inp@[j].0@ && r@[j].style == inp@[j].1,
        decreases inp@.len() - i,
    {
        let (name, style) = inp[i];
        r.push(HeaderType { name: String::from_str(name), style });
        i += 1;
    }
    r
}

/// The style a column index renders with: the declared one, or the raw
/// fallback where the index exceeds the header list.
pub open spec fn style_at(headers: Seq<HeaderType>, j: int) -> CellStyle {
    if 0 <= j < headers.len() {
        headers[j].style
    } else {
        CellStyle::Raw
    }
}

/// The header a column index uses: the declared one where it exists, the
/// default otherwise — never a failure.
pub fn header_for(headers: &Vec<HeaderType>, i: usize) -> (r: HeaderType)
    ensures
        i < headers@.len() ==> r == headers@[i as int],
        i >= headers@.len() ==> r.name@ == "Unknown"@ && r.style == CellStyle::Raw,
{
    if i < headers.len() {
        let h = &headers[i];
        HeaderType { name: h.name.clone(), style: h.style }
    } else {
        HeaderType::default()
    }
}

/// What a style renders a text value to.  The link styles all lead to the
/// task route; the badge style colors by the status the text names, and
/// degrades to plain text when it names none; a timestamp's local rendering
/// is stated only by shape.
pub open spec fn styled_cell_matches(style: CellStyle, content: Seq<char>, c: CellV) -> bool {
    match style {
        CellStyle::TaskLink | CellStyle::ShortLink | CellStyle::ImageLink => c == CellV::Link {
            route: RouteV::TaskDetails { id: content },
            text: content,
            style: crate::entry::AddressStyle::Dashboard,
        },
        CellStyle::Raw => c == CellV::Text(content),
        CellStyle::Timestamp => c is Text,
        CellStyle::RoundColoredBox => {
            if exists|s: TaskStatus| content == s.label_spec() {
                c matches CellV::Badge { color, text } && text == content && (exists|s: TaskStatus|
                    content == s.label_spec() && color == s.badge_color_spec())
            } else {
                c == CellV::Text(content)
            }
        },
    }
}

/// Renders one text value under a column style, exactly as
/// `styled_cell_matches` states.
pub fn make_cell(style: CellStyle, content: &str) -> (r: Cell)
    ensures
        styled_cell_matches(style, content@, r@),
{
    match style {
        CellStyle::TaskLink | CellStyle::ShortLink | CellStyle::ImageLink => Cell::Link {
            route: crate::entry::Route::TaskDetails { id: String::from_str(content) },
            text: String::from_str(content),
            style: crate::entry::AddressStyle::Dashboard,
        },
        CellStyle::Raw => Cell::Text(String::from_str(content)),
        CellStyle::Timestamp => Cell::Text(timestamp_formatted(content, TimestampStyle::Full)),
        CellStyle::RoundColoredBox => match TaskStatus::from_label(content) {
            Some(st) => Cell::Badge {
                color: String::from_str(st.badge_color()),
                text: String::from_str(content),
            },
            None => Cell::Text(String::from_str(content)),
        },
    }
}

/// Renders one row of text values against the headers: every cell takes its
/// column's declared style, and a surplus cell falls back to the raw style
/// rather than failing.
pub fn render_row(headers: &Vec<HeaderType>, row: &Vec<String>) -> (r: Vec<Cell>)
    ensures
        r@.len() == row@.len(),
        forall|j: int|
            0 <= j < r@.len() ==> styled_cell_matches(style_at(headers@, j), row@[j]@, r@[j]@),
{
    let mut r: Vec<Cell> = Vec::new();
    let mut i: usize = 0;
    while i < row.len()
        invariant
            i <= row@.len(),
            r@.len() == i,
            forall|j: int|
                0 <= j < i ==> styled_cell_matches(style_at(headers@, j), row@[j]@, r@[j]@),
        decreases row@.len() - i,
    {
        let h = header_for(headers, i);
        r.push(make_cell(h.style, row[i].as_str()));
        i += 1;
    }
    r
}

/// The character sequences a list of static captions holds.
pub open spec fn captions_view(v: Seq<&str>) -> Seq<Seq<char>> {
    v.map_values(|s: &str| s@)
}

/// The entry shapes a table of rows holds.
pub open spec fn rows_view(v: Seq<Vec<ZkEntry>>) -> Seq<Seq<ZkEntryV>> {
    v.map_values(|row: Vec<ZkEntry>| row@.map_values(|e: ZkEntry| e@))
}

/// A record list that can stand in the generic table: a title, headers, and
/// one row of entries per record, each pinned by a spec-level description.
pub trait TableLike {
    /// The table's title.
    spec fn title_spec(&self) -> Seq<char>;

    /// The column captions.
    spec fn headers_spec(&self) -> Seq<Seq<char>>;

    /// The entries of every row.
    spec fn rows_spec(&self) -> Seq<Seq<ZkEntryV>>;

    fn title(&self) -> (r: &'static str)
        ensures
            r@ == self.title_spec(),
    ;

    fn headers(&self) -> (r: Vec<&'static str>)
        ensures
            captions_view(r@) == self.headers_spec(),
    ;

    fn rows(&self) -> (r: Vec<Vec<ZkEntry>>)
        ensures
            rows_view(r@) == self.rows_spec(),
    ;
}

/// The task-history row of one task.
pub open spec fn concise_task_row(t: ConciseTask) -> Seq<ZkEntryV> {
    seq![
        ZkEntryV::MaybeAddress(
            Some(t._id.oid@),
            crate::entry::AddressStyle::Dashboard,
            crate::entry::AddressKind::Task,
        ),
        ZkEntryV::Address(
            t.md5@,
            crate::entry::AddressStyle::Dashboard,
            crate::entry::AddressKind::Image,
        ),
        ZkEntryV::Address(
            t.user_address@,
            crate::entry::AddressStyle::Dashboard,
            crate::entry::AddressKind::User,
        ),
        ZkEntryV::TaskType(t.task_type),
        ZkEntryV::Timestamp(Some(t.submit_time@), TimestampStyle::Simple),
        ZkEntryV::TaskStatus(t.status),
    ]
}

impl TableLike for Vec<ConciseTask> {
    open spec fn title_spec(&self) -> Seq<char> {
        "Task History"@
    }

    open spec fn headers_spec(&self) -> Seq<Seq<char>> {
        seq!["Task Id"@, "Application Image"@, "Published By"@, "Type"@, "Submit At"@, "Status"@]
    }

    open spec fn rows_spec(&self) -> Seq<Seq<ZkEntryV>> {
        self@.map_values(|t: ConciseTask| concise_task_row(t))
    }

    fn title(&self) -> (r: &'static str) {
        "Task History"
    }

    fn headers(&self) -> (r: Vec<&'static str>) {
        let mut v: Vec<&'static str> = Vec::new();
        v.push("Task Id");
        v.push("Application Image");
        v.push("Published By");
        v.push("Type");
        v.push("Submit At");
        v.push("Status");
        proof {
            assert(captions_view(v@) =~= self.headers_spec());
        }
        v
    }

    fn rows(&self) -> (r: Vec<Vec<ZkEntry>>) {
        let mut r: Vec<Vec<ZkEntry>> = Vec::new();
        let mut i: usize = 0;
        while i < self.len()
            invariant
                i <= self@.len(),
                r@.len() == i,
                forall|j: int|
                    0 <= j < i ==> r@[j]@.map_values(|e: ZkEntry| e@) == concise_task_row(
                        self@[j],
                    ),
            decreases self@.len() - i,
        {
            let t = &self[i];
            let mut row: Vec<ZkEntry> = Vec::new();
            row.push(
                ZkEntry::MaybeAddress(
                    Some(t._id.oid.clone()),
                    crate::entry::AddressStyle::Dashboard,
                    crate::entry::AddressKind::Task,
                ),
            );
            row.push(
                ZkEntry::Address(
                    t.md5.clone(),
                    crate::entry::AddressStyle::Dashboard,
                    crate::entry::AddressKind::Image,
                ),
            );
            row.push(
                ZkEntry::Address(
                    t.user_address.clone(),
                    crate::entry::AddressStyle::Dashboard,
                    crate::entry::AddressKind::User,
                ),
            );
            row.push(ZkEntry::TaskType(t.task_type));
            row.push(ZkEntry::Timestamp(Some(t.submit_time.clone()), TimestampStyle::Simple));
            row.push(ZkEntry::TaskStatus(t.status));
            proof {
                assert(row@.map_values(|e: ZkEntry| e@) =~= concise_task_row(self@[i as int]));
            }
            r.push(row);
            i += 1;
        }
        proof {
            assert(rows_view(r@) =~= self.rows_spec());
        }
        r
    }
}

/// The prover-list row of one node.
pub open spec fn prover_node_row(n: ProverNode) -> Seq<ZkEntryV> {
    seq![
        ZkEntryV::Address(
            n.address@,
            crate::entry::AddressStyle::Dashboard,
            crate::entry::AddressKind::Node,
        ),
        ZkEntryV::Raw(crate::strutil::dec_string(n.statistics.successful_tasks as nat)),
        ZkEntryV::Raw(crate::strutil::dec_string(n.statistics.failed_tasks as nat)),
        ZkEntryV::Raw(crate::strutil::dec_string(n.statistics.total_tasks as nat)),
        ZkEntryV::Raw(
            match n.statistics.proof_timing_stats {
                Some(t) => crate::records::fixed4_string(t.latest_time_taken_e4 as nat),
                None => crate::strutil::na_text(),
            },
        ),
        ZkEntryV::Timestamp(
            match n.last_attempted_task {
                Some(t) => Some(t.timestamp@),
                None => None,
            },
            TimestampStyle::Full,
        ),
    ]
}

impl TableLike for Vec<ProverNode> {
    open spec fn title_spec(&self) -> Seq<char> {
        "Prover List"@
    }

    open spec fn headers_spec(&self) -> Seq<Seq<char>> {
        seq![
            "Top Node Addresses"@,
            "Successful Tasks"@,
            "Failed Tasks"@,
            "Total Tasks"@,
            "Last Proof Time"@,
            "Last Proof Timestamp"@,
        ]
    }

    open spec fn rows_spec(&self) -> Seq<Seq<ZkEntryV>> {
        self@.map_values(|n: ProverNode| prover_node_row(n))
    }

    fn title(&self) -> (r: &'static str) {
        "Prover List"
    }

    fn headers(&self) -> (r: Vec<&'static str>) {
        let mut v: Vec<&'static str> = Vec::new();
        v.push("Top Node Addresses");
        v.push("Successful Tasks");
        v.push("Failed Tasks");
        v.push("Total Tasks");
        v.push("Last Proof Time");
        v.push("Last Proof Timestamp");
        proof {
            assert(captions_view(v@) =~= self.headers_spec());
        }
        v
    }

    fn rows(&self) -> (r: Vec<Vec<ZkEntry>>) {
        let mut r: Vec<Vec<ZkEntry>> = Vec::new();
        let mut i: usize = 0;
        while i < self.len()
            invariant
                i <= self@.len(),
                r@.len() == i,
                forall|j: int|
                    0 <= j < i ==> r@[j]@.map_values(|e: ZkEntry| e@) == prover_node_row(
                        self@[j],
                    ),
            decreases self@.len() - i,
        {
            let n = &self[i];
            let mut row: Vec<ZkEntry> = Vec::new();
            row.push(
                ZkEntry::Address(
                    n.address.clone(),
                    crate::entry::AddressStyle::Dashboard,
                    crate::entry::AddressKind::Node,
                ),
            );
            row.push(ZkEntry::Raw(crate::strutil::u64_to_string(n.statistics.successful_tasks)));
            row.push(ZkEntry::Raw(crate::strutil::u64_to_string(n.statistics.failed_tasks)));
            row.push(ZkEntry::Raw(crate::strutil::u64_to_string(n.statistics.total_tasks)));
            let timing = match &n.statistics.proof_timing_stats {
                Some(t) => crate::records::fixed4_label(t.latest_time_taken_e4),
                None => String::from_str("N/A"),
            };
            row.push(ZkEntry::Raw(timing));
            let last_ts = match &n.last_attempted_task {
                Some(t) => Some(t.timestamp.clone()),
                None => None,
            };
            row.push(ZkEntry::Timestamp(last_ts, TimestampStyle::Full));
            proof {
                assert(row@.map_values(|e: ZkEntry| e@) =~= prover_node_row(self@[i as int]));
            }
            r.push(row);
            i += 1;
        }
        proof {
            assert(rows_view(r@) =~= self.rows_spec());
        }
        r
    }
}

/// The batch-history row of one auto-submitted proof or first-round record:
/// the three listings share this shape.
pub open spec fn batch_row(
    _id: Option<Seq<char>>,
    status: crate::task::AutoSubmitStatus,
    batch_started: Option<Seq<char>>,
    chain_id: u32,
    batch_finished: Option<Seq<char>>,
) -> Seq<ZkEntryV> {
    seq![
        ZkEntryV::MaybeAddress(
            _id,
            crate::entry::AddressStyle::Dashboard,
            crate::entry::AddressKind::Task,
        ),
        ZkEntryV::Raw(status.label_spec()),
        ZkEntryV::Timestamp(batch_started, TimestampStyle::Full),
        ZkEntryV::Raw(crate::strutil::dec_string(chain_id as nat)),
        ZkEntryV::Timestamp(batch_finished, TimestampStyle::Full),
    ]
}

impl TableLike for Vec<AutoSubmitProof> {
    open spec fn title_spec(&self) -> Seq<char> {
        "Auto Submit Proof Task History"@
    }

    open spec fn headers_spec(&self) -> Seq<Seq<char>> {
        seq![
            "Proof Task ID"@,
            "Batch Status"@,
            "Target Proof Submitted"@,
            "Network"@,
            "Batch Finished"@,
        ]
    }

    open spec fn rows_spec(&self) -> Seq<Seq<ZkEntryV>> {
        self@.map_values(
            |p: AutoSubmitProof| batch_row(
                match p._id {
                    Some(id) => Some(id.oid@),
                    None => None,
                },
                p.status,
                match p.batch_started {
                    Some(s) => Some(s@),
                    None => None,
                },
                p.auto_submit_network_chain_id,
                match p.batch_finished {
                    Some(s) => Some(s@),
                    None => None,
                },
            ),
        )
    }

    fn title(&self) -> (r: &'static str) {
        "Auto Submit Proof Task History"
    }

    fn headers(&self) -> (r: Vec<&'static str>) {
        let mut v: Vec<&'static str> = Vec::new();
        v.push("Proof Task ID");
        v.push("Batch Status");
        v.push("Target Proof Submitted");
        v.push("Network");
        v.push("Batch Finished");
        proof {
            assert(captions_view(v@) =~= self.headers_spec());
        }
        v
    }

    fn rows(&self) -> (r: Vec<Vec<ZkEntry>>) {
        let mut r: Vec<Vec<ZkEntry>> = Vec::new();
        let mut i: usize = 0;
        while i < self.len()
            invariant
                i <= self@.len(),
                r@.len() == i,
                forall|j: int|
                    0 <= j < i ==> r@[j]@.map_values(|e: ZkEntry| e@) == self.rows_spec()[j],
            decreases self@.len() - i,
        {
            let p = &self[i];
            let mut row: Vec<ZkEntry> = Vec::new();
            let id = match &p._id {
                Some(id) => Some(id.oid.clone()),
                None => None,
            };
            row.push(
                ZkEntry::MaybeAddress(
                    id,
                    crate::entry::AddressStyle::Dashboard,
                    crate::entry::AddressKind::Task,
                ),
            );
            row.push(ZkEntry::Raw(String::from_str(p.status.label())));
            row.push(ZkEntry::Timestamp(p.batch_started.clone(), TimestampStyle::Full));
            row.push(
                ZkEntry::Raw(crate::strutil::u64_to_string(p.auto_submit_network_chain_id as u64)),
            );
            row.push(ZkEntry::Timestamp(p.batch_finished.clone(), TimestampStyle::Full));
            proof {
                assert(row@.map_values(|e: ZkEntry| e@) =~= self.rows_spec()[i as int]);
            }
            r.push(row);
            i += 1;
        }
        proof {
            assert(rows_view(r@) =~= self.rows_spec());
        }
        r
    }
}

impl TableLike for Vec<Round1Info> {
    open spec fn title_spec(&self) -> Seq<char> {
        "Round 1 Proof History"@
    }

    open spec fn headers_spec(&self) -> Seq<Seq<char>> {
        seq![
            "Round 1 Proof ID"@,
            "Batch Status"@,
            "Target Proof Submitted"@,
            "Network"@,
            "Batch Finished"@,
        ]
    }

    open spec fn rows_spec(&self) -> Seq<Seq<ZkEntryV>> {
        self@.map_values(
            |p: Round1Info| batch_row(
                match p._id {
                    Some(id) => Some(id.oid@),
                    None => None,
                },
                p.status,
                match p.batch_started {
                    Some(s) => Some(s@),
                    None => None,
                },
                p.auto_submit_network_chain_id,
                match p.batch_finished {
                    Some(s) => Some(s@),
                    None => None,
                },
            ),
        )
    }

    fn title(&self) -> (r: &'static str) {
        "Round 1 Proof History"
    }

    fn headers(&self) -> (r: Vec<&'static str>) {
        let mut v: Vec<&'static str> = Vec::new();
        v.push("Round 1 Proof ID");
        v.push("Batch Status");
        v.push("Target Proof Submitted");
        v.push("Network");
        v.push("Batch Finished");
        proof {
            assert(captions_view(v@) =~= self.headers_spec());
        }
        v
    }

    fn rows(&self) -> (r: Vec<Vec<ZkEntry>>) {
        let mut r: Vec<Vec<ZkEntry>> = Vec::new();
        let mut i: usize = 0;
        while i < self.len()
            invariant
                i <= self@.len(),
                r@.len() == i,
                forall|j: int|
                    0 <= j < i ==> r@[j]@.map_values(|e: ZkEntry| e@) == self.rows_spec()[j],
            decreases self@.len() - i,
        {
            let p = &self[i];
            let mut row: Vec<ZkEntry> = Vec::new();
            let id = match &p._id {
                Some(id) => Some(id.oid.clone()),
                None => None,
            };
            row.push(
                ZkEntry::MaybeAddress(
                    id,
                    crate::entry::AddressStyle::Dashboard,
                    crate::entry::AddressKind::Task,
                ),
            );
            row.push(ZkEntry::Raw(String::from_str(p.status.label())));
            row.push(ZkEntry::Timestamp(p.batch_started.clone(), TimestampStyle::Full));
            row.push(
                ZkEntry::Raw(crate::strutil::u64_to_string(p.auto_submit_network_chain_id as u64)),
            );
            row.push(ZkEntry::Timestamp(p.batch_finished.clone(), TimestampStyle::Full));
            proof {
                assert(row@.map_values(|e: ZkEntry| e@) =~= self.rows_spec()[i as int]);
            }
            r.push(row);
            i += 1;
        }
        proof {
            assert(rows_view(r@) =~= self.rows_spec());
        }
        r
    }
}

/// The second-round history row of one record.
pub open spec fn round2_row(p: Round2Info) -> Seq<ZkEntryV> {
    seq![
        ZkEntryV::MaybeAddress(
            match p._id {
                Some(id) => Some(id.oid@),
                None => None,
            },
            crate::entry::AddressStyle::Dashboard,
            crate::entry::AddressKind::Task,
        ),
        ZkEntryV::Timestamp(
            match p.batched_time {
                Some(s) => Some(s@),
                None => None,
            },
            TimestampStyle::Full,
        ),
        ZkEntryV::Raw(
            match p.registered_tx_hash {
                Some(h) => h@,
                None => crate::strutil::na_text(),
            },
        ),
    ]
}

impl TableLike for Vec<Round2Info> {
    open spec fn title_spec(&self) -> Seq<char> {
        "Round 2 Proof History"@
    }

    open spec fn headers_spec(&self) -> Seq<Seq<char>> {
        seq!["Round 2 Proof ID"@, "Batch Finished At"@, "Aggregator Verifier"@]
    }

    open spec fn rows_spec(&self) -> Seq<Seq<ZkEntryV>> {
        self@.map_values(|p: Round2Info| round2_row(p))
    }

    fn title(&self) -> (r: &'static str) {
        "Round 2 Proof History"
    }

    fn headers(&self) -> (r: Vec<&'static str>) {
        let mut v: Vec<&'static str> = Vec::new();
        v.push("Round 2 Proof ID");
        v.push("Batch Finished At");
        v.push("Aggregator Verifier");
        proof {
            assert(captions_view(v@) =~= self.headers_spec());
        }
        v
    }

    fn rows(&self) -> (r: Vec<Vec<ZkEntry>>) {
        let mut r: Vec<Vec<ZkEntry>> = Vec::new();
        let mut i: usize = 0;
        while i < self.len()
            invariant
                i <= self@.len(),
                r@.len() == i,
                forall|j: int|
                    0 <= j < i ==> r@[j]@.map_values(|e: ZkEntry| e@) == round2_row(self@[j]),
            decreases self@.len() - i,
        {
            let p = &self[i];
            let mut row: Vec<ZkEntry> = Vec::new();
            let id = match &p._id {
                Some(id) => Some(id.oid.clone()),
                None => None,
            };
            row.push(
                ZkEntry::MaybeAddress(
                    id,
                    crate::entry::AddressStyle::Dashboard,
                    crate::entry::AddressKind::Task,
                ),
            );
            row.push(ZkEntry::Timestamp(p.batched_time.clone(), TimestampStyle::Full));
            row.push(ZkEntry::Raw(p.registered_tx_hash.unwrap_or_na()));
            proof {
                assert(row@.map_values(|e: ZkEntry| e@) =~= round2_row(self@[i as int]));
            }
            r.push(row);
            i += 1;
        }
        proof {
            assert(rows_view(r@) =~= self.rows_spec());
        }
        r
    }
}

} // verus!
