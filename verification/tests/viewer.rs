use table_viewer::grid::{
    alignment, clip_cell, display_rows, header_alignment, header_label, render, scroll_extent,
    type_tag, visible_range, Align, GridFrame, RenderOutput, Viewport, MAX_DISPLAY_ROWS,
};
use table_viewer::reader::{
    dispatch, extension_of, separator, Format, IngestError, DELIMITED_HAS_HEADER,
    SCHEMA_SAMPLE_ROWS,
};
use table_viewer::session::Session;
use table_viewer::table::{Column, ColumnType, Table};

fn column(name: &str, ctype: ColumnType, cells: &[&str]) -> Column {
    Column {
        name: name.to_string(),
        ctype,
        cells: cells.iter().map(|c| c.to_string()).collect(),
    }
}

fn small_table() -> Table {
    Table::new(vec![
        column("id", ColumnType::Numeric, &["1", "2"]),
        column("name", ColumnType::Textual, &["Alice", "Bob"]),
        column("score", ColumnType::Numeric, &["9.5", "7.0"]),
    ])
    .expect("columns of equal length")
}

fn viewport() -> Viewport {
    Viewport { scroll: 0, height: 640, row_height: 16, max_chars: 40 }
}

fn check_exclusive(s: &Session) {
    assert!(!(s.table_ref().is_some() && s.error_ref().is_some()));
}

// --- dispatch ---

#[test]
fn dispatch_selects_each_decoder_exactly_once() {
    assert_eq!(dispatch("data.csv"), Ok(Format::Csv));
    assert_eq!(dispatch("data.tsv"), Ok(Format::Tsv));
    assert_eq!(dispatch("data.avro"), Ok(Format::Avro));
    assert_eq!(dispatch("data.parquet"), Ok(Format::Parquet));
}

#[test]
fn dispatch_is_case_insensitive() {
    assert_eq!(dispatch("DATA.CSV"), Ok(Format::Csv));
    assert_eq!(dispatch("x.Tsv"), Ok(Format::Tsv));
    assert_eq!(dispatch("x.AVRO"), Ok(Format::Avro));
    assert_eq!(dispatch("archive.Parquet"), Ok(Format::Parquet));
}

#[test]
fn dispatch_rejects_unknown_extension_naming_it() {
    assert_eq!(
        dispatch("report.xlsx"),
        Err(IngestError::UnsupportedFormat("xlsx".to_string()))
    );
    assert_eq!(
        dispatch("notes.txt"),
        Err(IngestError::UnsupportedFormat("txt".to_string()))
    );
}

#[test]
fn dispatch_rejects_missing_extension() {
    assert_eq!(
        dispatch("noext"),
        Err(IngestError::UnsupportedFormat(String::new()))
    );
    assert_eq!(
        dispatch(".gitignore"),
        Err(IngestError::UnsupportedFormat(String::new()))
    );
    assert_eq!(
        dispatch("dir.d/file"),
        Err(IngestError::UnsupportedFormat(String::new()))
    );
    assert_eq!(
        dispatch(""),
        Err(IngestError::UnsupportedFormat(String::new()))
    );
}

#[test]
fn dispatch_rejects_trailing_dot_with_empty_extension() {
    assert_eq!(
        dispatch("foo."),
        Err(IngestError::UnsupportedFormat(String::new()))
    );
}

#[test]
fn extension_takes_last_dot_of_last_component() {
    assert_eq!(extension_of("a/b/c.tar.gz"), Some("gz".to_string()));
    assert_eq!(extension_of("a.b/c"), None);
    assert_eq!(extension_of("a/.hidden"), None);
    assert_eq!(extension_of("a/.hidden.csv"), Some("csv".to_string()));
}

#[test]
fn delimited_decoder_configuration() {
    assert_eq!(separator(Format::Csv), Some(b','));
    assert_eq!(separator(Format::Tsv), Some(b'\t'));
    assert_eq!(separator(Format::Avro), None);
    assert_eq!(separator(Format::Parquet), None);
    assert_eq!(SCHEMA_SAMPLE_ROWS, 3);
    assert!(DELIMITED_HAS_HEADER);
}

#[test]
fn error_messages() {
    let u = IngestError::UnsupportedFormat("xlsx".to_string());
    assert_eq!(u.message(), "unsupported file extension: xlsx");
    let d = IngestError::DecodeError("bad magic number".to_string());
    assert_eq!(d.message(), "bad magic number");
}

// --- table ---

#[test]
fn table_accepts_equal_columns_in_order() {
    let t = small_table();
    assert_eq!(t.width(), 3);
    assert_eq!(t.height(), 2);
    assert_eq!(t.col(0).name, "id");
    assert_eq!(t.col(1).name, "name");
    assert_eq!(t.col(2).name, "score");
    assert_eq!(t.cell(0, 1), "Alice");
    assert_eq!(t.cell(1, 2), "7.0");
}

#[test]
fn table_rejects_ragged_columns() {
    let t = Table::new(vec![
        column("a", ColumnType::Numeric, &["1", "2"]),
        column("b", ColumnType::Textual, &["x"]),
    ]);
    assert!(t.is_none());
}

#[test]
fn table_with_no_columns_is_empty() {
    let t = Table::new(Vec::new()).expect("no columns, no mismatch");
    assert_eq!(t.width(), 0);
    assert_eq!(t.height(), 0);
}

// --- grid policy ---

#[test]
fn numeric_columns_right_align_all_others_left() {
    assert_eq!(alignment(ColumnType::Numeric), Align::Right);
    assert_eq!(alignment(ColumnType::Textual), Align::Left);
    assert_eq!(alignment(ColumnType::Temporal), Align::Left);
    assert_eq!(alignment(ColumnType::Boolean), Align::Left);
    assert_eq!(alignment(ColumnType::Other), Align::Left);
    assert_eq!(header_alignment(), Align::Center);
}

#[test]
fn row_display_is_capped_at_1000() {
    assert_eq!(MAX_DISPLAY_ROWS, 1000);
    assert_eq!(display_rows(5), 5);
    assert_eq!(display_rows(1000), 1000);
    assert_eq!(display_rows(1001), 1000);
    assert_eq!(display_rows(50_000), 1000);
}

#[test]
fn clipping_keeps_short_text_whole() {
    assert_eq!(clip_cell("short", 10), "short");
    assert_eq!(clip_cell("abcdef", 6), "abcdef");
    assert_eq!(clip_cell("", 1), "");
}

#[test]
fn clipping_cuts_long_text_with_single_trailing_ellipsis() {
    let clipped = clip_cell("hello world", 5);
    assert_eq!(clipped, "hell…");
    assert_eq!(clipped.chars().count(), 5);
    assert_eq!(clipped.chars().filter(|c| *c == '…').count(), 1);
    assert!(!clipped.contains('\n'));
}

#[test]
fn header_labels_show_name_and_type_tag() {
    assert_eq!(type_tag(ColumnType::Numeric), "numeric");
    assert_eq!(header_label("id", ColumnType::Numeric), "id\n[numeric]");
    assert_eq!(header_label("when", ColumnType::Temporal), "when\n[temporal]");
}

#[test]
fn visible_range_covers_exactly_the_overlapping_rows() {
    // viewport [35, 75): rows 2..=4 at height 16 intersect it
    assert_eq!(visible_range(35, 40, 16, 1000), (2, 5));
    // aligned start shows exactly the rows in view
    assert_eq!(visible_range(32, 32, 16, 1000), (2, 4));
    // empty viewport at an aligned offset shows nothing
    assert_eq!(visible_range(32, 0, 16, 1000), (2, 2));
    // an empty table shows nothing
    assert_eq!(visible_range(0, 640, 16, 0), (0, 0));
    // the range never passes the row cap
    assert_eq!(visible_range(0, usize::MAX, 16, 1000), (0, 1000));
}

#[test]
fn extent_is_rows_times_row_height() {
    assert_eq!(scroll_extent(1000, 16), 16000);
    assert_eq!(scroll_extent(0, 16), 0);
}

// --- session ---

#[test]
fn new_session_is_idle() {
    let s = Session::new();
    assert!(s.table_ref().is_none());
    assert!(s.error_ref().is_none());
    assert!(s.source_ref().is_none());
    assert!(!s.is_pending());
}

#[test]
fn empty_path_clears_table_and_error() {
    let mut s = Session::new();
    let req = s.submit("report.xlsx".to_string());
    assert!(req.is_none());
    assert!(s.error_ref().is_some());
    check_exclusive(&s);
    let req = s.submit(String::new());
    assert!(req.is_none());
    assert!(s.table_ref().is_none());
    assert!(s.error_ref().is_none());
    assert!(s.source_ref().is_none());
    check_exclusive(&s);
}

#[test]
fn loaded_and_error_states_stay_exclusive() {
    let mut s = Session::new();
    check_exclusive(&s);
    let req = s.submit("data.csv".to_string()).expect("csv dispatches");
    assert_eq!(req.format, Format::Csv);
    check_exclusive(&s);
    s.resolve(Ok(small_table()));
    check_exclusive(&s);
    assert!(s.table_ref().is_some());
    let _ = s.submit("data.csv".to_string()).expect("csv dispatches");
    check_exclusive(&s);
    s.resolve(Err("boom".to_string()));
    check_exclusive(&s);
    assert!(s.error_ref().is_some());
}

#[test]
fn scenario_open_csv_shows_typed_grid() {
    let mut s = Session::new();
    let req = s.submit("data.csv".to_string()).expect("csv dispatches");
    assert_eq!(req.format, Format::Csv);
    assert_eq!(req.path, "data.csv");
    s.resolve(Ok(small_table()));
    assert!(s.error_ref().is_none());
    let out = render(&s, &viewport());
    let g: GridFrame = match out {
        RenderOutput::Grid(g) => g,
        _ => panic!("a loaded table renders as a grid"),
    };
    assert_eq!(g.total_rows, 2);
    assert_eq!(g.first_row, 0);
    assert_eq!(g.rows.len(), 2);
    assert_eq!(g.aligns, vec![Align::Right, Align::Left, Align::Right]);
    assert_eq!(
        g.headers,
        vec!["id\n[numeric]", "name\n[textual]", "score\n[numeric]"]
    );
    assert_eq!(g.rows[0], vec!["1", "Alice", "9.5"]);
    assert_eq!(g.rows[1], vec!["2", "Bob", "7.0"]);
}

#[test]
fn scenario_unsupported_extension_fails_without_decoding() {
    let mut s = Session::new();
    let req = s.submit("report.xlsx".to_string());
    assert!(req.is_none(), "no decode request: no file is opened");
    assert_eq!(
        *s.error_ref(),
        Some(IngestError::UnsupportedFormat("xlsx".to_string()))
    );
    assert!(s.table_ref().is_none());
}

#[test]
fn scenario_corrupt_avro_shows_decoder_message_verbatim() {
    let mut s = Session::new();
    let req = s.submit("data.avro".to_string()).expect("avro dispatches");
    assert_eq!(req.format, Format::Avro);
    s.resolve(Err("avro: bad magic".to_string()));
    assert_eq!(
        *s.error_ref(),
        Some(IngestError::DecodeError("avro: bad magic".to_string()))
    );
    let out = render(&s, &viewport());
    match out {
        RenderOutput::ErrorText(m) => assert_eq!(m, "avro: bad magic"),
        _ => panic!("a failed session renders its error text"),
    }
}

#[test]
fn scenario_million_rows_render_at_most_row_999() {
    let cells: Vec<String> = (0..1_000_000).map(|i: u64| i.to_string()).collect();
    let t = Table::new(vec![Column {
        name: "n".to_string(),
        ctype: ColumnType::Numeric,
        cells,
    }])
    .expect("one column");
    assert_eq!(t.height(), 1_000_000);
    let mut s = Session::new();
    s.submit("big.parquet".to_string()).expect("parquet dispatches");
    s.resolve(Ok(t));
    // scrolled to the very bottom of the capped extent
    let row_height = 16;
    let view_height = 64;
    let extent = scroll_extent(1000, row_height);
    let vp = Viewport {
        scroll: extent - view_height,
        height: view_height,
        row_height,
        max_chars: 40,
    };
    let g = match render(&s, &vp) {
        RenderOutput::Grid(g) => g,
        _ => panic!("a loaded table renders as a grid"),
    };
    assert_eq!(g.total_rows, 1000);
    assert_eq!(g.first_row + g.rows.len(), 1000);
    let last = g.rows.last().expect("bottom rows are in view");
    assert_eq!(last[0], "999");
}

#[test]
fn scenario_resubmitting_same_path_decodes_again() {
    let mut s = Session::new();
    let mut decoder_invocations = 0;
    let req1 = s.submit("data.csv".to_string());
    if req1.is_some() {
        decoder_invocations += 1;
        s.resolve(Ok(small_table()));
    }
    assert!(s.table_ref().is_some());
    let req2 = s.submit("data.csv".to_string());
    assert!(
        s.table_ref().is_none(),
        "a fresh submission drops the loaded table before decoding"
    );
    if req2.is_some() {
        decoder_invocations += 1;
        s.resolve(Ok(small_table()));
    }
    assert_eq!(decoder_invocations, 2);
    let (r1, r2) = (req1.unwrap(), req2.unwrap());
    assert_eq!(r1.format, r2.format);
    assert_eq!(r1.path, r2.path);
}

#[test]
fn idle_session_renders_blank() {
    let s = Session::new();
    assert!(matches!(render(&s, &viewport()), RenderOutput::Blank));
    let mut s = Session::new();
    s.submit(String::new());
    assert!(matches!(render(&s, &viewport()), RenderOutput::Blank));
}
