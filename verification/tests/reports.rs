//! Texts of types and inspection reports.

use eck::errors::EnkryptitError;
use eck::inspect::{
    encrypted_archive_report, encrypted_file_report, format_nonce, format_option, format_option_to_kb,
    plain_file_report, plain_folder_report, to_kb, Detection, InspectionReport, ReportView, ValueStyle,
};
use eck::metadatas::{FolderMetadata, MetaDatas};
use eck::text::decimal;
use eck::types::{CompressionType, KeyParams, KeyType, ParallelismType};

#[test]
fn type_texts() {
    assert_eq!(KeyType::FromFile.to_string(), "from file");
    assert_eq!(KeyType::Pwd256([0xAB; 16]).to_string(), format!("hashed password, with the following salt : {}", "ab".repeat(16)));
    assert_eq!(CompressionType::Xz.to_string(), "Xz (slowest but most efficient)");
    assert_eq!(ParallelismType::MultiThread(12).description(), "MultiThreading with 12 threads");
    assert_eq!(ParallelismType::Single.to_string(), "SingleThread");
    assert_eq!(KeyParams::Os.to_type(), KeyType::FromOS);
    assert_eq!(KeyParams::PassWord.to_type(), KeyType::Password);
}

#[test]
fn decimal_texts() {
    assert_eq!(decimal(0), "0");
    assert_eq!(decimal(1024), "1024");
    assert_eq!(decimal(u64::MAX), u64::MAX.to_string());
}

#[test]
fn formatting_helpers() {
    assert_eq!(to_kb(2047), 1);
    assert_eq!(format_option(&None), "Not Found");
    assert_eq!(format_option(&Some("x".to_string())), "x");
    assert_eq!(format_option_to_kb(Some(5 * 1024 + 3)), "5");
    assert_eq!(format_option_to_kb(None), "Not Found");
    assert_eq!(format_nonce(&Some([0x0F; 24])), "0f".repeat(24));
    assert_eq!(format_nonce(&None), "Not Found");
}

fn lines(view: &ReportView) -> Vec<(String, String, ValueStyle)> {
    match view {
        ReportView::Shown { title, lines, .. } => {
            assert_eq!(title, "Inspection Report");
            lines.iter().map(|l| (l.label.clone(), l.value.clone(), l.style)).collect()
        }
        ReportView::Failed => panic!("report failed"),
    }
}

#[test]
fn empty_report_fails() {
    let r = InspectionReport::Folder { name: None, directory: None, size: None, permissions: None };
    assert!(matches!(r.display(), ReportView::Failed));
}

#[test]
fn folder_report_lines() {
    let r = InspectionReport::Folder {
        name: Some("docs".to_string()),
        directory: Some("/home".to_string()),
        size: Some(4096),
        permissions: Some(0o40755),
    };
    let l = lines(&r.display());
    assert_eq!(l[0], ("Type".to_string(), "Plaintext Folder (Not encrypted with Enkryptit!)".to_string(), ValueStyle::Plain));
    assert_eq!(l[3], ("Size".to_string(), "4".to_string(), ValueStyle::Kib));
    assert_eq!(l[4], ("Permissions".to_string(), "drwxr-xr-x".to_string(), ValueStyle::Plain));
    assert_eq!(l.len(), 5);
}

#[test]
fn bad_permission_is_reported_as_problem() {
    let r = InspectionReport::Folder { name: Some("d".to_string()), directory: None, size: None, permissions: Some(0o7777777) };
    match r.display() {
        ReportView::Shown { lines, problems, .. } => {
            assert_eq!(lines.len(), 4);
            assert_eq!(problems.len(), 1);
            assert_eq!(
                problems[0],
                "the mode that was provided is not valid 6 digit decimal number that can be parsed correctly into octal mode :7777777"
            );
        }
        ReportView::Failed => panic!("report failed"),
    }
}

#[test]
fn encrypted_file_report_lines() {
    let meta = MetaDatas::new(KeyType::FromFile, CompressionType::Zstd, [1; 24]);
    let r = encrypted_file_report(Some("a.encky".to_string()), None, Some(2048), 3, Some(meta), None);
    let l = lines(&r.display());
    assert_eq!(l[1], ("Version".to_string(), "3".to_string(), ValueStyle::Accent));
    assert_eq!(l[5], ("Compression type".to_string(), "Zstd (Balanced)".to_string(), ValueStyle::Accent));
    assert_eq!(l[6].1, "Not Found");
    assert_eq!(l[7].1, "from file");
    assert_eq!(l[8].1, "01".repeat(24));
}

#[test]
fn encrypted_archive_report_counts_entries() {
    let r = encrypted_archive_report(None, None, None, 2, Some(FolderMetadata::new(KeyType::Password)));
    match &r {
        InspectionReport::EncryptedArchive { entries_number, keytype, .. } => {
            assert_eq!(*entries_number, Some(0));
            assert_eq!(*keytype, Some(KeyType::Password));
        }
        _ => panic!("wrong report"),
    }
    let l = lines(&r.display());
    assert_eq!(l[5], ("Entries number".to_string(), "0".to_string(), ValueStyle::Accent));
}

#[test]
fn plain_file_report_extension_fallback() {
    let r = plain_file_report(None, None, None, None, Detection::Unknown, Some("txt".to_string()), None, None);
    match r {
        InspectionReport::PlaintextFile { extension, mime_extension, .. } => {
            assert_eq!(extension, Some("txt".to_string()));
            assert_eq!(mime_extension, None);
        }
        _ => panic!("wrong report"),
    }
    let r = plain_file_report(None, None, None, None, Detection::Failed, Some("txt".to_string()), None, None);
    assert!(matches!(r.display(), ReportView::Failed));
    let r = plain_file_report(
        None,
        None,
        None,
        None,
        Detection::Known { extension: "png".to_string(), mime_type: "image/png".to_string() },
        Some("txt".to_string()),
        Some(CompressionType::NoComp),
        None,
    );
    let l = lines(&r.display());
    assert_eq!(l[0].2, ValueStyle::Warning);
    assert_eq!(l[4], ("Shown extension".to_string(), "png".to_string(), ValueStyle::Plain));
    assert_eq!(l[5], ("Real extension".to_string(), "image/png".to_string(), ValueStyle::Accent));
    assert_eq!(l[6].1, "No compression");
}

#[test]
fn plain_folder_report_needs_name_and_parent() {
    assert_eq!(
        plain_folder_report("/", None, None, 0, None).err(),
        Some(EnkryptitError::PathIsIncorrect("/".to_string()))
    );
    assert!(plain_folder_report("/a", Some("a".to_string()), Some("/".to_string()), 0, None).is_ok());
}
