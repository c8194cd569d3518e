//! The tagged cell model: one scalar field of a record plus a declared
//! style becomes one renderable cell.  This is the closed variant type that
//! lets generic table and card code zip per-column styles against per-row
//! values without per-record rendering code.
//!
//! Rendering never fails: an absent or malformed value renders as the
//! placeholder text instead.

use crate::codec::bytes_to_hex_chunks;
use crate::codec::hex_bytes;
use crate::codec::hex_chunk_strings;
use crate::codec::hex_encode;
use crate::records::ImageChecksum;
use crate::strutil::na_text;
use crate::strutil::split_lines;
use crate::strutil::split_lines_exec;
use crate::strutil::strings_view;
use crate::task::TaskStatus;
use crate::task::TaskType;
use crate::time::timestamp_formatted;
use crate::time::utc_parse;
use crate::time::TimestampStyle;
use vstd::prelude::*;

verus! {

/// Which detail page an address-like value links to, and how it is
/// abbreviated: the `Prefixed` kinds carry a wordy prefix in their text.
#[derive(Debug, Clone, Copy, PartialEq, Eq, Structural)]
pub enum AddressKind {
    User,
    Image,
    PrefixedImage,
    Node,
    Task,
    PrefixedTask,
}

/// Where an address-like cell stands: compact in a dashboard listing, or
/// spelled out on a detail page.
#[derive(Debug, Clone, Copy, PartialEq, Eq, Structural)]
pub enum AddressStyle {
    Dashboard,
    Detailed,
}

/// A client-side navigation target.
#[derive(Debug, Clone, PartialEq)]
pub enum Route {
    Dashboard,
    TaskDetails { id: String },
    ImageDetails { id: String },
    NodeDetails { id: String },
    UserDetails { id: String },
}

/// The mathematical shape of a `Route`.
pub enum RouteV {
    Dashboard,
    TaskDetails { id: Seq<char> },
    ImageDetails { id: Seq<char> },
    NodeDetails { id: Seq<char> },
    UserDetails { id: Seq<char> },
}

impl View for Route {
    type V = RouteV;

    open spec fn view(&self) -> RouteV {
        match self {
            Route::Dashboard => RouteV::Dashboard,
            Route::TaskDetails { id } => RouteV::TaskDetails { id: id@ },
            Route::ImageDetails { id } => RouteV::ImageDetails { id: id@ },
            Route::NodeDetails { id } => RouteV::NodeDetails { id: id@ },
            Route::UserDetails { id } => RouteV::UserDetails { id: id@ },
        }
    }
}

/// One scalar value of a record, tagged with how to render it.
#[derive(Debug, Clone, PartialEq)]
pub enum ZkEntry {
    Raw(String),
    Empty,
    LongInput(Vec<String>),
    Logs(Option<String>),
    Address(String, AddressStyle, AddressKind),
    MaybeAddress(Option<String>, AddressStyle, AddressKind),
    Timestamp(Option<String>, TimestampStyle),
    DownloadButton(String),
    Bytes(Vec<u8>, Option<usize>),
    Checksum(Option<ImageChecksum>),
    TaskType(TaskType),
    TaskStatus(TaskStatus),
}

/// The mathematical shape of a `ZkEntry`.
pub enum ZkEntryV {
    Raw(Seq<char>),
    Empty,
    LongInput(Seq<Seq<char>>),
    Logs(Option<Seq<char>>),
    Address(Seq<char>, AddressStyle, AddressKind),
    MaybeAddress(Option<Seq<char>>, AddressStyle, AddressKind),
    Timestamp(Option<Seq<char>>, TimestampStyle),
    DownloadButton(Seq<char>),
    Bytes(Seq<u8>, Option<usize>),
    Checksum(Option<(Seq<u8>, Seq<u8>)>),
    TaskType(TaskType),
    TaskStatus(TaskStatus),
}

impl View for ZkEntry {
    type V = ZkEntryV;

    open spec fn view(&self) -> ZkEntryV {
        match self {
            ZkEntry::Raw(s) => ZkEntryV::Raw(s@),
            ZkEntry::Empty => ZkEntryV::Empty,
            ZkEntry::LongInput(v) => ZkEntryV::LongInput(strings_view(v@)),
            ZkEntry::Logs(l) => ZkEntryV::Logs(
                match l {
                    Some(s) => Some(s@),
                    None => None,
                },
            ),
            ZkEntry::Address(a, st, k) => ZkEntryV::Address(a@, *st, *k),
            ZkEntry::MaybeAddress(a, st, k) => ZkEntryV::MaybeAddress(
                match a {
                    Some(s) => Some(s@),
                    None => None,
                },
                *st,
                *k,
            ),
            ZkEntry::Timestamp(t, st) => ZkEntryV::Timestamp(
                match t {
                    Some(s) => Some(s@),
                    None => None,
                },
                *st,
            ),
            ZkEntry::DownloadButton(id) => ZkEntryV::DownloadButton(id@),
            ZkEntry::Bytes(b, c) => ZkEntryV::Bytes(b@, *c),
            ZkEntry::Checksum(c) => ZkEntryV::Checksum(
                match c {
                    Some(ck) => Some((ck.x@, ck.y@)),
                    None => None,
                },
            ),
            ZkEntry::TaskType(t) => ZkEntryV::TaskType(*t),
            ZkEntry::TaskStatus(s) => ZkEntryV::TaskStatus(*s),
        }
    }
}

impl Default for ZkEntry {
    /// The default entry is the empty one: it renders as the placeholder.
    fn default() -> (r: Self)
        ensures
            r == ZkEntry::Empty,
    {
        ZkEntry::Empty
    }
}

/// A rendered cell: the closed set of fragments the HTML layer lays out.
#[derive(Debug, Clone, PartialEq)]
pub enum Cell {
    /// Plain centered text.
    Text(String),
    /// A scrollable run of text spans.
    Scroll(Vec<String>),
    /// A client-side link showing `text`.
    Link { route: Route, text: String, style: AddressStyle },
    /// Text on a colored badge.
    Badge { color: String, text: String },
    /// The download trigger for a record's external data.
    Download,
}

/// The mathematical shape of a `Cell`.
pub enum CellV {
    Text(Seq<char>),
    Scroll(Seq<Seq<char>>),
    Link { route: RouteV, text: Seq<char>, style: AddressStyle },
    Badge { color: Seq<char>, text: Seq<char> },
    Download,
}

impl View for Cell {
    type V = CellV;

    open spec fn view(&self) -> CellV {
        match self {
            Cell::Text(s) => CellV::Text(s@),
            Cell::Scroll(v) => CellV::Scroll(strings_view(v@)),
            Cell::Link { route, text, style } => CellV::Link {
                route: route@,
                text: text@,
                style: *style,
            },
            Cell::Badge { color, text } => CellV::Badge { color: color@, text: text@ },
            Cell::Download => CellV::Download,
        }
    }
}

/// The detail route an address kind links to.
pub open spec fn route_of(kind: AddressKind, id: Seq<char>) -> RouteV {
    match kind {
        AddressKind::User => RouteV::UserDetails { id },
        AddressKind::Image => RouteV::ImageDetails { id },
        AddressKind::PrefixedImage => RouteV::ImageDetails { id },
        AddressKind::Node => RouteV::NodeDetails { id },
        AddressKind::Task => RouteV::TaskDetails { id },
        AddressKind::PrefixedTask => RouteV::TaskDetails { id },
    }
}

/// The abbreviation of an application hash, where it is long enough for
/// one; a shorter value stands as it is.
pub open spec fn short_md5(s: Seq<char>) -> Seq<char> {
    if s.len() >= 7 {
        s.subrange(0, 7) + "..."@ + s.subrange(s.len() - 6, s.len() as int)
    } else {
        s
    }
}

/// The abbreviation of an account address, where it is long enough for one.
pub open spec fn short_address(s: Seq<char>) -> Seq<char> {
    if s.len() >= 8 {
        s.subrange(0, 8) + "..."@ + s.subrange(s.len() - 4, s.len() as int)
    } else {
        s
    }
}

/// The text an address cell shows: user addresses abbreviate in dashboard
/// style, the prefixed kinds carry their wordy prefix, everything else
/// stands as it is.
pub open spec fn address_text(a: Seq<char>, style: AddressStyle, kind: AddressKind) -> Seq<char> {
    match kind {
        AddressKind::User => match style {
            AddressStyle::Dashboard => short_address(a),
            AddressStyle::Detailed => a,
        },
        AddressKind::PrefixedImage => "MD5 "@ + short_md5(a),
        AddressKind::PrefixedTask => "Task ID "@ + a,
        _ => a,
    }
}

/// The cell an address entry renders to.
pub open spec fn address_cell(a: Seq<char>, style: AddressStyle, kind: AddressKind) -> CellV {
    CellV::Link { route: route_of(kind, a), text: address_text(a, style, kind), style }
}

/// What each entry renders to.  A timestamp's text depends on the machine's
/// time zone, so of a parseable one only the fragment's shape is stated.
pub open spec fn cell_matches(e: ZkEntryV, c: CellV) -> bool {
    match e {
        ZkEntryV::Raw(s) => c == CellV::Text(s),
        ZkEntryV::Empty => c == CellV::Text(na_text()),
        ZkEntryV::LongInput(v) => c == CellV::Scroll(v),
        ZkEntryV::Logs(l) => match l {
            Some(s) => c == CellV::Scroll(split_lines(s)),
            None => c == CellV::Text(na_text()),
        },
        ZkEntryV::Address(a, style, kind) => c == address_cell(a, style, kind),
        ZkEntryV::MaybeAddress(a, style, kind) => match a {
            Some(s) => c == address_cell(s, style, kind),
            None => c == CellV::Text(na_text()),
        },
        ZkEntryV::Timestamp(t, style) => match t {
            Some(s) => {
                &&& c is Text
                &&& utc_parse(s) is None ==> c == CellV::Text(na_text())
            },
            None => c == CellV::Text(na_text()),
        },
        ZkEntryV::DownloadButton(_) => c == CellV::Download,
        ZkEntryV::Bytes(b, chunksize) => {
            if chunksize matches Some(z) && z == 0 {
                c == CellV::Text(na_text())
            } else {
                c == CellV::Scroll(hex_chunk_strings(b, chunksize))
            }
        },
        ZkEntryV::Checksum(ck) => match ck {
            Some(xy) => c == CellV::Scroll(
                seq!["0x"@ + hex_bytes(xy.0), "0x"@ + hex_bytes(xy.1)],
            ),
            None => c == CellV::Scroll(seq!["NA"@, "NA"@]),
        },
        ZkEntryV::TaskType(t) => c == CellV::Text(t.label_spec()),
        ZkEntryV::TaskStatus(s) => c == CellV::Badge {
            color: s.badge_color_spec(),
            text: s.label_spec(),
        },
    }
}

impl ZkEntry {
    /// Renders the entry into its cell, exactly as `cell_matches` states;
    /// no input fails, absent and malformed values render the placeholder.
    pub fn into_cell(self) -> (r: Cell)
        ensures
            cell_matches(self@, r@),
    {
        match self {
            ZkEntry::Raw(s) => Cell::Text(s),
            ZkEntry::Empty => Cell::Text(String::from_str("N/A")),
            ZkEntry::LongInput(v) => Cell::Scroll(v),
            ZkEntry::Logs(l) => match l {
                Some(s) => Cell::Scroll(split_lines_exec(s.as_str())),
                None => Cell::Text(String::from_str("N/A")),
            },
            ZkEntry::Address(a, style, kind) => Self::render_address(a, style, kind),
            ZkEntry::MaybeAddress(a, style, kind) => match a {
                Some(s) => Self::render_address(s, style, kind),
                None => Cell::Text(String::from_str("N/A")),
            },
            ZkEntry::Timestamp(t, style) => match t {
                Some(s) => Cell::Text(timestamp_formatted(s.as_str(), style)),
                None => Cell::Text(String::from_str("N/A")),
            },
            ZkEntry::DownloadButton(_) => Cell::Download,
            ZkEntry::Bytes(b, chunksize) => {
                let zero_chunk = match chunksize {
                    Some(z) => z == 0,
                    None => false,
                };
                if zero_chunk {
                    Cell::Text(String::from_str("N/A"))
                } else {
                    let chunks = bytes_to_hex_chunks(b.as_slice(), chunksize);
                    proof {
                        assert(strings_view(chunks@) =~= hex_chunk_strings(b@, chunksize));
                    }
                    Cell::Scroll(chunks)
                }
            },
            ZkEntry::Checksum(ck) => match ck {
                Some(xy) => {
                    proof {
                        reveal_strlit("0x");
                    }
                    let x = String::from_str("0x").concat(hex_encode(xy.x.as_slice()).as_str());
                    let y = String::from_str("0x").concat(hex_encode(xy.y.as_slice()).as_str());
                    let mut v: Vec<String> = Vec::new();
                    v.push(x);
                    v.push(y);
                    proof {
                        assert(strings_view(v@) =~= seq![
                            "0x"@ + hex_bytes(xy.x@),
                            "0x"@ + hex_bytes(xy.y@),
                        ]);
                    }
                    Cell::Scroll(v)
                },
                None => {
                    let mut v: Vec<String> = Vec::new();
                    v.push(String::from_str("NA"));
                    v.push(String::from_str("NA"));
                    proof {
                        assert(strings_view(v@) =~= seq!["NA"@, "NA"@]);
                    }
                    Cell::Scroll(v)
                },
            },
            ZkEntry::TaskType(t) => Cell::Text(String::from_str(t.label())),
            ZkEntry::TaskStatus(s) => Cell::Badge {
                color: String::from_str(s.badge_color()),
                text: String::from_str(s.label()),
            },
        }
    }

    fn render_address(a: String, style: AddressStyle, kind: AddressKind) -> (r: Cell)
        ensures
            r@ == address_cell(a@, style, kind),
    {
        let text: String = match kind {
            AddressKind::User => match style {
                AddressStyle::Dashboard => {
                    if a.as_str().unicode_len() >= 8 {
                        crate::strutil::shorten_address(a.clone())
                    } else {
                        a.clone()
                    }
                },
                AddressStyle::Detailed => a.clone(),
            },
            AddressKind::PrefixedImage => {
                let short = if a.as_str().unicode_len() >= 7 {
                    crate::strutil::shorten_md5(a.clone())
                } else {
                    a.clone()
                };
                String::from_str("MD5 ").concat(short.as_str())
            },
            AddressKind::PrefixedTask => String::from_str("Task ID ").concat(a.as_str()),
            _ => a.clone(),
        };
        let route = match kind {
            AddressKind::User => Route::UserDetails { id: a },
            AddressKind::Image => Route::ImageDetails { id: a },
            AddressKind::PrefixedImage => Route::ImageDetails { id: a },
            AddressKind::Node => Route::NodeDetails { id: a },
            AddressKind::Task => Route::TaskDetails { id: a },
            AddressKind::PrefixedTask => Route::TaskDetails { id: a },
        };
        Cell::Link { route, text, style }
    }
}

} // verus!
