use grid_kernel::backcast_profiles::{
    archive_workbook, col_index_from_ref, detect_year, pick_workbook_entry, sheet_csv_file_name, escape_csv, parse_cell_attrs, parse_usize, resolve_sheet_specs, sanitize_name,
    shared_strings_from_xml, sheet_csv_lines, sheet_specs_from_xml, workbook_shared_strings, workbook_sheet_csv,
    workbook_sheet_specs, year_scan_is_safe, SharedStringsReader, SheetCsvWriter, XmlEvent,
};
use std::io::Write;
use grid_kernel::sced_offer_chain::{format_record_key, parse_error_message, ParseError, RecordKey, VerifyCode};

fn start(name: &str, attrs: &[(&str, &str)]) -> XmlEvent {
    XmlEvent::Start(name.to_string(), attrs.iter().map(|(k, v)| format!(" {k}=\"{v}\"")).collect::<Vec<_>>().concat())
}

fn end(name: &str) -> XmlEvent {
    XmlEvent::End(name.to_string())
}

#[test]
fn year_is_first_four_digits() {
    assert_eq!(detect_year("ERCOT-Backcasted-Load-Profiles-2023.zip"), Some("2023".to_string()));
    assert_eq!(detect_year("abc123"), None);
    assert_eq!(detect_year("x12345"), Some("1234".to_string()));
}

#[test]
fn csv_fields_are_quoted_when_needed() {
    assert_eq!(escape_csv("plain"), "plain");
    assert_eq!(escape_csv("a,b"), "\"a,b\"");
    assert_eq!(escape_csv("say \"x\""), "\"say \"\"x\"\"\"");
    assert_eq!(escape_csv("line\nbreak"), "\"line\nbreak\"");
}

#[test]
fn column_references() {
    assert_eq!(col_index_from_ref("A1"), 1);
    assert_eq!(col_index_from_ref("Z9"), 26);
    assert_eq!(col_index_from_ref("aa3"), 27);
    assert_eq!(col_index_from_ref("12"), 1);
    assert_eq!(col_index_from_ref("XFD1"), 16384);
}

#[test]
fn sheet_names_are_sanitized() {
    assert_eq!(sanitize_name("Load Profile (2023)"), "Load_Profile__2023_");
    assert_eq!(sanitize_name(""), "sheet");
    assert_eq!(sanitize_name("a.b-c_d"), "a.b-c_d");
}

#[test]
fn usize_parsing_matches_std() {
    for s in ["0", "42", "+7", "", "+", "-1", "1a", "18446744073709551616"] {
        assert_eq!(parse_usize(s), s.parse::<usize>().ok(), "{s}");
    }
}

#[test]
fn cell_attributes() {
    let attrs = vec![("r".to_string(), "C5".to_string()), ("t".to_string(), "s".to_string())];
    assert_eq!(parse_cell_attrs(&attrs), (3, "s".to_string()));
    assert_eq!(parse_cell_attrs(&vec![]), (1, String::new()));
}

#[test]
fn sheet_events_become_csv_lines() {
    let shared = vec!["hello".to_string(), "a,b".to_string()];
    let mut w = SheetCsvWriter::new();
    let events = vec![
        start("row", &[]),
        start("c", &[("r", "A1"), ("t", "s")]),
        start("v", &[]),
        XmlEvent::Text("1".to_string()),
        end("v"),
        end("c"),
        start("c", &[("r", "C1")]),
        start("v", &[]),
        XmlEvent::Text("3.5".to_string()),
        end("v"),
        end("c"),
        end("row"),
        start("row", &[]),
        end("row"),
    ];
    let mut lines = Vec::new();
    for ev in &events {
        if let Some(l) = w.on_event(ev, &shared).unwrap() {
            lines.push(l);
        }
    }
    assert_eq!(lines, vec!["\"a,b\",,3.5\n".to_string(), "\n".to_string()]);
    assert_eq!(w.stats(), (2, 3));
}

#[test]
fn shared_strings_join_text_runs() {
    let mut r = SharedStringsReader::new();
    for ev in [
        start("si", &[]),
        start("t", &[]),
        XmlEvent::Text("ab".to_string()),
        end("t"),
        start("t", &[]),
        XmlEvent::Text("cd".to_string()),
        end("t"),
        end("si"),
        XmlEvent::Text("ignored".to_string()),
        start("si", &[]),
        end("si"),
    ] {
        r.on_event(&ev).unwrap();
    }
    assert_eq!(r.into_strings(), vec!["abcd".to_string(), String::new()]);
}

#[test]
fn worksheet_parts_resolve_through_relationships() {
    let rels = vec![
        vec![("Id".to_string(), "rId1".to_string()), ("Target".to_string(), "worksheets\\sheet1.xml".to_string())],
        vec![("Id".to_string(), "rId2".to_string()), ("Target".to_string(), "styles.xml".to_string())],
    ];
    let sheets = vec![
        vec![("name".to_string(), "Load".to_string()), ("r:id".to_string(), "rId1".to_string())],
        vec![("name".to_string(), "Styles".to_string()), ("r:id".to_string(), "rId2".to_string())],
    ];
    let specs = resolve_sheet_specs(&rels, &sheets);
    assert_eq!(specs.len(), 1);
    assert_eq!(specs[0].name, "Load");
    assert_eq!(specs[0].path, "xl/worksheets/sheet1.xml");
}

#[test]
fn operator_messages() {
    assert_eq!(
        parse_error_message(&ParseError::InvalidNumeric("price1_urs".to_string(), "x".to_string())),
        "invalid numeric field 'price1_urs' with value 'x'"
    );
    assert_eq!(
        parse_error_message(&ParseError::DuplicatePrimaryKey("t".to_string(), true, "r".to_string(), "o".to_string())),
        "duplicate primary key detected (t,true,r,o)"
    );
    assert_eq!(VerifyCode::RecordCountMismatch.as_code_str(), "RECORD_COUNT_MISMATCH");
    let key = RecordKey {
        scd_timestamp: "t".to_string(),
        repeat_hour_flag: false,
        resource_name: "r".to_string(),
        offer_type: "o".to_string(),
    };
    assert_eq!(format_record_key(&key), "(t,false,r,o)");
}

#[test]
fn year_detection_in_non_ascii_names() {
    assert_eq!(detect_year("2026_\u{e9}.zip"), Some("2026".to_string()));
    assert_eq!(detect_year("\u{e9}"), None);
    assert_eq!(detect_year("\u{e9}\u{e9}"), None);
    assert!(year_scan_is_safe("2026_\u{e9}.zip"));
    assert!(year_scan_is_safe("\u{e9}\u{e9}"));
    assert!(year_scan_is_safe("ERCOT-2023.zip"));
    assert!(!year_scan_is_safe("a\u{e9}12345"));
}

const SHEET_XML: &str = "<worksheet><sheetData>\
<row r=\"1\"><c r=\"A1\" t=\"s\"><v>1</v></c><c r=\"B1\"/><c r=\"C1\"><v>3.5</v></c></row>\
<row r=\"2\"><c r=\"B2\" t=\"inlineStr\"><is><t>x &amp; y</t></is></c></row>\
</sheetData></worksheet>";

#[test]
fn worksheet_xml_becomes_csv_lines() {
    let shared = vec!["hello".to_string(), "a,b".to_string()];
    let (lines, rows, cols) = sheet_csv_lines(SHEET_XML, &shared).unwrap().unwrap();
    assert_eq!(lines, vec!["\"a,b\",,3.5\n".to_string(), ",x & y\n".to_string()]);
    assert_eq!((rows, cols), (2, 3));
}

#[test]
fn worksheet_xml_errors_are_reported() {
    let shared = vec![];
    assert!(matches!(sheet_csv_lines("<row><c><v>1</c></row>", &shared), Some(Err(_))));
    let unknown_entity = "<row><c r=\"A1\"><v>&bogus;</v></c></row>";
    assert!(matches!(sheet_csv_lines(unknown_entity, &shared), Some(Err(_))));
    let outside_cell = "<row>&bogus;<c r=\"A1\"><v>1</v></c></row>";
    assert_eq!(sheet_csv_lines(outside_cell, &shared).unwrap().unwrap().0, vec!["1\n".to_string()]);
    let huge = "<row><c r=\"ZZZZZZZZZZZZZZZZZZZZ1\"><v>1</v></c></row>";
    assert!(sheet_csv_lines(huge, &shared).is_none());
}

#[test]
fn shared_strings_xml_joins_runs() {
    let xml = "<sst><si><t>ab</t><r><t>c&lt;d</t></r></si><si><t/></si><si><t>&#65;</t></si></sst>";
    assert_eq!(
        shared_strings_from_xml(xml).unwrap(),
        vec!["abc<d".to_string(), String::new(), "A".to_string()]
    );
}

const WORKBOOK_XML: &str = "<workbook><sheets>\
<sheet name=\"Load\" sheetId=\"1\" r:id=\"rId1\"/>\
<sheet name=\"Other\" sheetId=\"2\" r:id=\"rId2\"/>\
</sheets></workbook>";
const RELS_XML: &str = "<Relationships>\
<Relationship Id=\"rId1\" Target=\"worksheets/sheet1.xml\"/>\
<Relationship Id=\"rId2\" Target=\"styles.xml\"/>\
</Relationships>";

#[test]
fn workbook_xml_names_its_worksheets() {
    let specs = sheet_specs_from_xml(WORKBOOK_XML, RELS_XML).unwrap();
    assert_eq!(specs.len(), 1);
    assert_eq!(specs[0].name, "Load");
    assert_eq!(specs[0].path, "xl/worksheets/sheet1.xml");
    assert!(sheet_specs_from_xml(WORKBOOK_XML, "<a></b>").is_err());
}

fn xlsx_bytes(with_shared: bool) -> Vec<u8> {
    let mut zip = zip::ZipWriter::new(std::io::Cursor::new(Vec::new()));
    let options = zip::write::SimpleFileOptions::default().compression_method(zip::CompressionMethod::Stored);
    let mut parts = vec![
        ("xl/workbook.xml", WORKBOOK_XML),
        ("xl/_rels/workbook.xml.rels", RELS_XML),
        ("xl/worksheets/sheet1.xml", SHEET_XML),
    ];
    if with_shared {
        parts.push(("xl/sharedStrings.xml", "<sst><si><t>hello</t></si><si><t>a,b</t></si></sst>"));
    }
    for (name, text) in parts {
        zip.start_file(name, options).unwrap();
        zip.write_all(text.as_bytes()).unwrap();
    }
    zip.finish().unwrap().into_inner()
}

#[test]
fn workbook_bytes_are_read_part_by_part() {
    let xlsx = xlsx_bytes(true);
    let shared = workbook_shared_strings(&xlsx).unwrap();
    assert_eq!(shared, vec!["hello".to_string(), "a,b".to_string()]);
    let specs = workbook_sheet_specs(&xlsx).unwrap();
    assert_eq!(specs[0].path, "xl/worksheets/sheet1.xml");
    let (lines, rows, cols) = workbook_sheet_csv(&xlsx, &specs[0].path, &shared).unwrap().unwrap();
    assert_eq!(lines[0], "\"a,b\",,3.5\n");
    assert_eq!((rows, cols), (2, 3));
    assert!(matches!(workbook_sheet_csv(&xlsx, "xl/worksheets/missing.xml", &shared), Some(Err(_))));
}

#[test]
fn workbook_without_shared_strings_has_none() {
    let xlsx = xlsx_bytes(false);
    assert!(workbook_shared_strings(&xlsx).unwrap().is_empty());
    assert!(workbook_sheet_specs(b"not a zip").is_err());
}

#[test]
fn workbook_entry_is_first_xlsx_name() {
    let names: Vec<String> =
        ["readme.txt", "b/Profiles.XLSX", "a/profiles.xlsx", "z.xlsx.bak"].iter().map(|s| s.to_string()).collect();
    assert_eq!(pick_workbook_entry(&names), Some("a/profiles.xlsx".to_string()));
    let none: Vec<String> = vec!["x.csv".to_string(), "xlsx".to_string()];
    assert_eq!(pick_workbook_entry(&none), None);
    let upper: Vec<String> = vec!["b.xlsx".to_string(), "B.xlsx".to_string()];
    assert_eq!(pick_workbook_entry(&upper), Some("B.xlsx".to_string()));
}

fn zip_of(parts: &[(&str, &[u8])]) -> Vec<u8> {
    let mut zip = zip::ZipWriter::new(std::io::Cursor::new(Vec::new()));
    let options = zip::write::SimpleFileOptions::default().compression_method(zip::CompressionMethod::Stored);
    for (name, data) in parts {
        zip.start_file(*name, options).unwrap();
        zip.write_all(data).unwrap();
    }
    zip.finish().unwrap().into_inner()
}

#[test]
fn archive_yields_its_first_workbook() {
    let xlsx = xlsx_bytes(true);
    let archive = zip_of(&[("notes.txt", b"hi"), ("b/Second.XLSX", b"other"), ("a/profiles.xlsx", &xlsx)]);
    let (name, data) = archive_workbook(&archive).unwrap();
    assert_eq!(name, "a/profiles.xlsx");
    assert_eq!(data, xlsx);
    assert_eq!(workbook_sheet_specs(&data).unwrap()[0].name, "Load");
}

#[test]
fn archive_without_workbook_is_refused() {
    let archive = zip_of(&[("notes.txt", b"hi")]);
    assert_eq!(archive_workbook(&archive).unwrap_err(), "No .xlsx entry found in backcast archive");
    assert!(archive_workbook(b"not a zip").is_err());
}

#[test]
fn sheet_csv_file_names() {
    assert_eq!(sheet_csv_file_name(1, "Load Profile (2023)"), "01_Load_Profile__2023_.csv");
    assert_eq!(sheet_csv_file_name(12, ""), "12_sheet.csv");
    assert_eq!(sheet_csv_file_name(123, "a"), "123_a.csv");
    assert_eq!(sheet_csv_file_name(0, "a"), "00_a.csv");
}
