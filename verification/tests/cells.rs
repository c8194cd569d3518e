use zkp_explorer::entry::AddressKind;
use zkp_explorer::entry::AddressStyle;
use zkp_explorer::entry::Cell;
use zkp_explorer::entry::Route;
use zkp_explorer::entry::ZkEntry;
use zkp_explorer::records::ImageChecksum;
use zkp_explorer::table::header_for;
use zkp_explorer::table::into_header_type;
use zkp_explorer::table::make_cell;
use zkp_explorer::table::render_row;
use zkp_explorer::table::CellStyle;
use zkp_explorer::table::HeaderType;
use zkp_explorer::task::TaskStatus;
use zkp_explorer::task::TaskType;
use zkp_explorer::time::TimestampStyle;

#[test]
fn raw_and_empty_cells() {
    assert_eq!(
        ZkEntry::Raw("hello".to_string()).into_cell(),
        Cell::Text("hello".to_string())
    );
    assert_eq!(ZkEntry::Empty.into_cell(), Cell::Text("N/A".to_string()));
    assert_eq!(ZkEntry::default(), ZkEntry::Empty);
}

#[test]
fn log_cells_split_lines() {
    assert_eq!(
        ZkEntry::Logs(Some("first\nsecond".to_string())).into_cell(),
        Cell::Scroll(vec!["first".to_string(), "second".to_string()])
    );
    assert_eq!(ZkEntry::Logs(None).into_cell(), Cell::Text("N/A".to_string()));
}

#[test]
fn address_cells_link_and_abbreviate() {
    let addr = "0x1234567890abcdef1234567890abcdef12345678".to_string();
    let cell = ZkEntry::Address(addr.clone(), AddressStyle::Dashboard, AddressKind::User)
        .into_cell();
    assert_eq!(
        cell,
        Cell::Link {
            route: Route::UserDetails { id: addr.clone() },
            text: "0x123456...5678".to_string(),
            style: AddressStyle::Dashboard,
        }
    );
    let cell = ZkEntry::Address(addr.clone(), AddressStyle::Detailed, AddressKind::User)
        .into_cell();
    assert_eq!(
        cell,
        Cell::Link {
            route: Route::UserDetails { id: addr.clone() },
            text: addr.clone(),
            style: AddressStyle::Detailed,
        }
    );
    let md5 = "0123456789abcdef0123456789abcdef".to_string();
    let cell = ZkEntry::Address(md5.clone(), AddressStyle::Detailed, AddressKind::PrefixedImage)
        .into_cell();
    assert_eq!(
        cell,
        Cell::Link {
            route: Route::ImageDetails { id: md5.clone() },
            text: "MD5 0123456...abcdef".to_string(),
            style: AddressStyle::Detailed,
        }
    );
    let id = "507f1f77bcf86cd799439011".to_string();
    let cell = ZkEntry::Address(id.clone(), AddressStyle::Dashboard, AddressKind::PrefixedTask)
        .into_cell();
    assert_eq!(
        cell,
        Cell::Link {
            route: Route::TaskDetails { id: id.clone() },
            text: format!("Task ID {id}"),
            style: AddressStyle::Dashboard,
        }
    );
    assert_eq!(
        ZkEntry::MaybeAddress(None, AddressStyle::Dashboard, AddressKind::Node).into_cell(),
        Cell::Text("N/A".to_string())
    );
}

#[test]
fn byte_cells_render_hex_chunks() {
    assert_eq!(
        ZkEntry::Bytes(vec![0x00, 0x1A], Some(8)).into_cell(),
        Cell::Scroll(vec!["0x1A00".to_string()])
    );
    assert_eq!(
        ZkEntry::Bytes(vec![0xFF, 0x00], Some(1)).into_cell(),
        Cell::Scroll(vec!["0xFF".to_string(), "0x0".to_string()])
    );
    // A declared chunk size of zero cannot be honoured; the cell degrades.
    assert_eq!(
        ZkEntry::Bytes(vec![1, 2], Some(0)).into_cell(),
        Cell::Text("N/A".to_string())
    );
}

#[test]
fn checksum_cells() {
    let ck = ImageChecksum { x: vec![0xAB], y: vec![0x01, 0xFF] };
    assert_eq!(
        ZkEntry::Checksum(Some(ck)).into_cell(),
        Cell::Scroll(vec!["0xab".to_string(), "0x01ff".to_string()])
    );
    assert_eq!(
        ZkEntry::Checksum(None).into_cell(),
        Cell::Scroll(vec!["NA".to_string(), "NA".to_string()])
    );
}

#[test]
fn enum_cells() {
    assert_eq!(
        ZkEntry::TaskType(TaskType::Prove).into_cell(),
        Cell::Text("Prove".to_string())
    );
    assert_eq!(
        ZkEntry::TaskStatus(TaskStatus::Done).into_cell(),
        Cell::Badge { color: "#3E8166".to_string(), text: "Done".to_string() }
    );
    // The badge map, not the record type's: a failed dry run keeps the
    // pending color, and an unprovable task its own dark red.
    assert_eq!(
        ZkEntry::TaskStatus(TaskStatus::DryRunFailed).into_cell(),
        Cell::Badge { color: "#CA9B00".to_string(), text: "DryRunFailed".to_string() }
    );
    assert_eq!(
        ZkEntry::TaskStatus(TaskStatus::Unprovable).into_cell(),
        Cell::Badge { color: "#894E50".to_string(), text: "Unprovable".to_string() }
    );
    assert_eq!(
        ZkEntry::DownloadButton("id".to_string()).into_cell(),
        Cell::Download
    );
}

#[test]
fn timestamp_cells() {
    assert_eq!(
        ZkEntry::Timestamp(None, TimestampStyle::Full).into_cell(),
        Cell::Text("N/A".to_string())
    );
    assert_eq!(
        ZkEntry::Timestamp(Some("garbage".to_string()), TimestampStyle::Full).into_cell(),
        Cell::Text("N/A".to_string())
    );
    match ZkEntry::Timestamp(Some("2024-01-02T03:04:05Z".to_string()), TimestampStyle::Full)
        .into_cell()
    {
        Cell::Text(s) => assert_ne!(s, "N/A"),
        other => panic!("timestamp rendered as {other:?}"),
    }
}

#[test]
fn surplus_columns_fall_back_to_raw() {
    let headers = into_header_type(vec![("Status", CellStyle::RoundColoredBox)]);
    let row = vec!["Done".to_string(), "extra".to_string(), "more".to_string()];
    let cells = render_row(&headers, &row);
    assert_eq!(cells.len(), 3);
    assert_eq!(
        cells[0],
        Cell::Badge { color: "#3E8166".to_string(), text: "Done".to_string() }
    );
    // Columns past the header list render raw rather than failing.
    assert_eq!(cells[1], Cell::Text("extra".to_string()));
    assert_eq!(cells[2], Cell::Text("more".to_string()));
}

#[test]
fn missing_header_is_the_default() {
    let headers = into_header_type(vec![("Id", CellStyle::TaskLink)]);
    let h = header_for(&headers, 0);
    assert_eq!(h.name, "Id");
    let h = header_for(&headers, 5);
    assert_eq!(h.name, "Unknown");
    assert_eq!(h.style, CellStyle::Raw);
    let d = HeaderType::default();
    assert_eq!(d.name, "Unknown");
    assert_eq!(d.style, CellStyle::Raw);
}

#[test]
fn styled_cells() {
    assert_eq!(make_cell(CellStyle::Raw, "x"), Cell::Text("x".to_string()));
    assert_eq!(
        make_cell(CellStyle::TaskLink, "abc"),
        Cell::Link {
            route: Route::TaskDetails { id: "abc".to_string() },
            text: "abc".to_string(),
            style: AddressStyle::Dashboard,
        }
    );
    assert_eq!(
        make_cell(CellStyle::RoundColoredBox, "Stale"),
        Cell::Badge { color: "#636363".to_string(), text: "Stale".to_string() }
    );
    // A badge for text that names no status degrades to plain text.
    assert_eq!(
        make_cell(CellStyle::RoundColoredBox, "Bogus"),
        Cell::Text("Bogus".to_string())
    );
}
