//! The inspection report of an object, and what showing it prints.
use vstd::prelude::*;
use crate::errors::EnkryptitError;
use crate::metadatas::{FolderMetadata, MetaDatas};
use crate::text::{decimal, hex_encode, hex_lower_digits, spec_decimal, spec_hex_lower};
use crate::types::{
    compression_text, key_type_text, parallelism_text, CompressionType, KeyType, ParallelismType,
    Version,
};

verus! {

/// What an inspection found out about an object; every field that could
/// not be determined is `None`.
#[derive(Debug, Clone)]
pub enum InspectionReport {
    PlaintextFile {
        name: Option<String>,
        directory: Option<String>,
        size: Option<u64>,
        permissions: Option<u32>,
        extension: Option<String>,
        mime_extension: Option<String>,
        predicted_compression_type: Option<CompressionType>,
        predicted_parallelism_type: Option<ParallelismType>,
    },
    Folder {
        name: Option<String>,
        directory: Option<String>,
        size: Option<u64>,
        permissions: Option<u32>,
    },
    EncryptedFile {
        name: Option<String>,
        directory: Option<String>,
        size: Option<u64>,
        version: Version,
        compression_type: Option<CompressionType>,
        predicted_parallelism_type: Option<ParallelismType>,
        keytype: Option<KeyType>,
        nonce: Option<[u8; 24]>,
    },
    EncryptedArchive {
        name: Option<String>,
        directory: Option<String>,
        size: Option<u64>,
        version: Version,
        entries_number: Option<u64>,
        keytype: Option<KeyType>,
    },
}

/// How a value of a report is emphasised.
#[derive(Debug, Clone, Copy, PartialEq, Eq, Structural)]
pub enum ValueStyle {
    Plain,
    Accent,
    Warning,
    Kib,
}

/// One labelled value of a report.
#[derive(Debug, Clone)]
pub struct ReportLine {
    pub label: String,
    pub value: String,
    pub style: ValueStyle,
}

/// The text of one report line, as a triple of plain values.
pub open spec fn line_view(l: ReportLine) -> (Seq<char>, Seq<char>, ValueStyle) {
    (l.label@, l.value@, l.style)
}

/// What showing a report prints.
#[derive(Debug, Clone)]
pub enum ReportView {
    /// Nothing could be found: an inspection error is shown instead.
    Failed,
    /// A titled list of lines; `problems` holds the messages of the values
    /// that could not be rendered.
    Shown { title: String, lines: Vec<ReportLine>, problems: Vec<String> },
}

/// Text shown for a value that could not be determined.
pub open spec fn not_found() -> Seq<char> {
    "Not Found"@
}

/// Size in kibibytes, rounded down.
pub fn to_kb(size: u64) -> (res: u64)
    ensures
        res == size / 1024,
{
    size / 1024
}

/// Text shown for an optional text value.
pub open spec fn spec_format_option(value: Option<String>) -> Seq<char> {
    match value {
        Some(v) => v@,
        None => not_found(),
    }
}

/// A text value, or `Not Found`.
pub fn format_option(value: &Option<String>) -> (res: String)
    ensures
        res@ == spec_format_option(*value),
{
    match value {
        Some(v) => v.clone(),
        None => String::from_str("Not Found"),
    }
}

/// Text shown for an optional number.
pub open spec fn spec_format_number(value: Option<u64>) -> Seq<char> {
    match value {
        Some(v) => spec_decimal(v as nat),
        None => not_found(),
    }
}

/// A number in decimal, or `Not Found`.
pub fn format_number(value: Option<u64>) -> (res: String)
    ensures
        res@ == spec_format_number(value),
{
    match value {
        Some(v) => decimal(v),
        None => String::from_str("Not Found"),
    }
}

/// Text shown for an optional size, in whole kibibytes.
pub open spec fn spec_format_option_to_kb(value: Option<u64>) -> Seq<char> {
    match value {
        Some(v) => spec_decimal((v / 1024) as nat),
        None => not_found(),
    }
}

/// A size in whole kibibytes, or `Not Found`.
pub fn format_option_to_kb(value: Option<u64>) -> (res: String)
    ensures
        res@ == spec_format_option_to_kb(value),
{
    match value {
        Some(v) => decimal(to_kb(v)),
        None => String::from_str("Not Found"),
    }
}

/// Text shown for an optional nonce.
pub open spec fn spec_format_nonce(value: Option<[u8; 24]>) -> Seq<char> {
    match value {
        Some(v) => spec_hex_lower(v@),
        None => not_found(),
    }
}

/// A nonce in lowercase hexadecimal, or `Not Found`.
pub fn format_nonce(value: &Option<[u8; 24]>) -> (res: String)
    ensures
        res@ == spec_format_nonce(*value),
{
    match value {
        Some(v) => hex_encode(v),
        None => String::from_str("Not Found"),
    }
}

/// Text shown for an optional compression type.
pub open spec fn spec_format_compression(value: Option<CompressionType>) -> Seq<char> {
    match value {
        Some(v) => compression_text(v),
        None => not_found(),
    }
}

/// A compression type, or `Not Found`.
pub fn format_compression(value: Option<CompressionType>) -> (res: String)
    ensures
        res@ == spec_format_compression(value),
{
    match value {
        Some(v) => v.to_string(),
        None => String::from_str("Not Found"),
    }
}

/// Text shown for an optional parallelism type.
pub open spec fn spec_format_parallelism(value: Option<ParallelismType>) -> Seq<char> {
    match value {
        Some(v) => parallelism_text(v),
        None => not_found(),
    }
}

/// A parallelism type, or `Not Found`.
pub fn format_parallelism(value: Option<ParallelismType>) -> (res: String)
    ensures
        res@ == spec_format_parallelism(value),
{
    match value {
        Some(v) => v.to_string(),
        None => String::from_str("Not Found"),
    }
}

/// Text shown for an optional key type.
pub open spec fn spec_format_key_type(value: Option<KeyType>) -> Seq<char> {
    match value {
        Some(v) => key_type_text(v),
        None => not_found(),
    }
}

/// A key type, or `Not Found`.
pub fn format_key_type(value: &Option<KeyType>) -> (res: String)
    ensures
        res@ == spec_format_key_type(*value),
{
    match value {
        Some(v) => v.to_string(),
        None => String::from_str("Not Found"),
    }
}

/// File-kind symbol of the three leading octal digits of a mode.
pub open spec fn file_type_symbol(kind: u32) -> char {
    if kind == 32 {
        'd'
    } else if kind == 80 {
        'l'
    } else if kind == 16 {
        'c'
    } else if kind == 48 {
        'b'
    } else if kind == 8 {
        'p'
    } else if kind == 96 {
        's'
    } else {
        '-'
    }
}

/// `rwx` rendering of one octal permission digit.
pub open spec fn permission_triplet(d: u32) -> Seq<char> {
    seq![
        if d >= 4 { 'r' } else { '-' },
        if d % 4 >= 2 { 'w' } else { '-' },
        if d % 2 == 1 { 'x' } else { '-' },
    ]
}

/// `ls`-style rendering of a mode such as `-rw-r--r--`.
pub open spec fn spec_permission_text(mode: u32) -> Seq<char> {
    seq![file_type_symbol(mode / 512)] + permission_triplet((mode / 64) % 8) + permission_triplet(
        (mode / 8) % 8,
    ) + permission_triplet(mode % 8)
}

/// Octal digits of a number, most significant first.
pub open spec fn spec_octal(n: nat) -> Seq<char>
    decreases n,
{
    if n < 8 {
        seq![hex_lower_digits()[n as int]]
    } else {
        spec_octal(n / 8).push(hex_lower_digits()[(n % 8) as int])
    }
}

/// Message that refuses a mode with more than six octal digits.
pub open spec fn permission_error_text(mode: u32) -> Seq<char> {
    "the mode that was provided is not valid 6 digit decimal number that can be parsed correctly into octal mode :"@
        + spec_octal(mode as nat)
}

/// `fmodeparser::FullPermission::new` followed by its `to_string`: renders
/// a mode that has at most six octal digits as a file-kind symbol followed
/// by the `rwx` triplets of user, group and other; a longer mode is refused
/// with the error's message, which quotes the mode's octal digits.
#[verifier::external_body]
pub(crate) fn permission_text(mode: u32) -> (res: Result<String, String>)
    ensures
        res is Ok <==> mode < 262144,
        res matches Ok(s) ==> s@ == spec_permission_text(mode),
        res matches Err(m) ==> m@ == permission_error_text(mode),
{
    match fmodeparser::FullPermission::new(mode) {
        Ok(permission) => Ok(permission.to_string()),
        Err(e) => Err(e.to_string()),
    }
}

/// The text of a line from a label, a value and a style.
pub open spec fn line(label: Seq<char>, value: Seq<char>, style: ValueStyle) -> (Seq<char>, Seq<char>, ValueStyle) {
    (label, value, style)
}

fn push_line(lines: &mut Vec<ReportLine>, label: &str, value: String, style: ValueStyle)
    ensures
        final(lines)@.map_values(|l: ReportLine| line_view(l)) == old(lines)@.map_values(|l: ReportLine| line_view(l)).push(
            line(label@, value@, style),
        ),
{
    let ghost before = lines@;
    lines.push(ReportLine { label: String::from_str(label), value, style });
    proof {
        assert(lines@.map_values(|l: ReportLine| line_view(l)) =~= before.map_values(|l: ReportLine| line_view(l)).push(
            line(label@, value@, style),
        ));
    }
}

/// The permission line of a report, or the message that replaces it.
pub open spec fn permission_line(mode: u32) -> Result<(Seq<char>, Seq<char>, ValueStyle), ()> {
    if mode < 262144 {
        Ok(line("Permissions"@, spec_permission_text(mode), ValueStyle::Plain))
    } else {
        Err(())
    }
}

/// Lines that a report shows before its permissions.
pub open spec fn head_lines(r: InspectionReport) -> Seq<(Seq<char>, Seq<char>, ValueStyle)> {
    match r {
        InspectionReport::PlaintextFile { name, directory, size, .. } => Seq::empty()
            .push(line("Type"@, "Plaintext File (Not encrypted with Enkryptit!)"@, ValueStyle::Warning))
            .push(line("Name"@, spec_format_option(name), ValueStyle::Plain))
            .push(line("Directory"@, spec_format_option(directory), ValueStyle::Plain))
            .push(line("Size"@, spec_format_option_to_kb(size), ValueStyle::Kib)),
        InspectionReport::Folder { name, directory, size, .. } => Seq::empty()
            .push(line("Type"@, "Plaintext Folder (Not encrypted with Enkryptit!)"@, ValueStyle::Plain))
            .push(line("Name"@, spec_format_option(name), ValueStyle::Plain))
            .push(line("Directory"@, spec_format_option(directory), ValueStyle::Plain))
            .push(line("Size"@, spec_format_option_to_kb(size), ValueStyle::Kib)),
        InspectionReport::EncryptedFile {
            name,
            directory,
            size,
            version,
            compression_type,
            predicted_parallelism_type,
            keytype,
            nonce,
        } => Seq::empty()
            .push(line("Type"@, "File encrypted with Enkryptit!"@, ValueStyle::Plain))
            .push(line("Version"@, spec_decimal(version as nat), ValueStyle::Accent))
            .push(line("Name"@, spec_format_option(name), ValueStyle::Plain))
            .push(line("Directory"@, spec_format_option(directory), ValueStyle::Plain))
            .push(line("Size"@, spec_format_option_to_kb(size), ValueStyle::Kib))
            .push(line("Compression type"@, spec_format_compression(compression_type), ValueStyle::Accent))
            .push(line("Recommended parallelism type (for decrypting)"@, spec_format_parallelism(predicted_parallelism_type), ValueStyle::Accent))
            .push(line("Key Type"@, spec_format_key_type(keytype), ValueStyle::Accent))
            .push(line("Nonce"@, spec_format_nonce(nonce), ValueStyle::Accent)),
        InspectionReport::EncryptedArchive { name, directory, size, version, entries_number, keytype } => Seq::empty()
            .push(line("Type"@, "Folder (Archive) encrypted with Enkryptit!"@, ValueStyle::Plain))
            .push(line("Version"@, spec_decimal(version as nat), ValueStyle::Accent))
            .push(line("Name"@, spec_format_option(name), ValueStyle::Plain))
            .push(line("Directory"@, spec_format_option(directory), ValueStyle::Plain))
            .push(line("Size"@, spec_format_option_to_kb(size), ValueStyle::Kib))
            .push(line("Entries number"@, spec_format_number(entries_number), ValueStyle::Accent))
            .push(line("Key Type"@, spec_format_key_type(keytype), ValueStyle::Accent)),
    }
}

/// The permissions a report carries, when it carries any.
pub open spec fn report_permissions(r: InspectionReport) -> Option<u32> {
    match r {
        InspectionReport::PlaintextFile { permissions, .. } => permissions,
        InspectionReport::Folder { permissions, .. } => permissions,
        _ => None,
    }
}

/// Lines that a report shows after its permissions.
pub open spec fn tail_lines(r: InspectionReport) -> Seq<(Seq<char>, Seq<char>, ValueStyle)> {
    match r {
        InspectionReport::PlaintextFile {
            extension,
            mime_extension,
            predicted_compression_type,
            predicted_parallelism_type,
            ..
        } => Seq::empty()
            .push(line("Shown extension"@, spec_format_option(extension), ValueStyle::Plain))
            .push(line("Real extension"@, spec_format_option(mime_extension), ValueStyle::Accent))
            .push(line("Recommanded compression type  (for encryption)"@, spec_format_compression(predicted_compression_type), ValueStyle::Accent))
            .push(line("Recommanded parallelism type (for encryption)"@, spec_format_parallelism(predicted_parallelism_type), ValueStyle::Accent)),
        _ => Seq::empty(),
    }
}

/// Whether nothing at all could be found about the object.
pub open spec fn is_empty_report(r: InspectionReport) -> bool {
    match r {
        InspectionReport::PlaintextFile {
            name,
            directory,
            size,
            permissions,
            extension,
            mime_extension,
            predicted_compression_type,
            predicted_parallelism_type,
        } => name is None && directory is None && size is None && permissions is None && extension is None
            && mime_extension is None && predicted_compression_type is None && predicted_parallelism_type is None,
        InspectionReport::Folder { name, directory, size, permissions } => name is None && directory is None
            && size is None && permissions is None,
        InspectionReport::EncryptedFile {
            name,
            directory,
            size,
            compression_type,
            predicted_parallelism_type,
            keytype,
            nonce,
            ..
        } => name is None && directory is None && size is None && keytype is None && nonce is None
            && compression_type is None && predicted_parallelism_type is None,
        InspectionReport::EncryptedArchive { name, directory, size, entries_number, keytype, .. } => name is None
            && directory is None && size is None && keytype is None && entries_number is None,
    }
}

/// All the lines a non-empty report shows.
pub open spec fn report_lines(r: InspectionReport) -> Seq<(Seq<char>, Seq<char>, ValueStyle)> {
    match report_permissions(r) {
        Some(mode) => match permission_line(mode) {
            Ok(l) => head_lines(r).push(l) + tail_lines(r),
            Err(_) => head_lines(r) + tail_lines(r),
        },
        None => head_lines(r) + tail_lines(r),
    }
}

/// Whether rendering the permissions of a report fails.
pub open spec fn permission_fails(r: InspectionReport) -> bool {
    match report_permissions(r) {
        Some(mode) => mode >= 262144,
        None => false,
    }
}

impl InspectionReport {
    /// What showing the report prints: the inspection error when nothing was
    /// found, the titled lines of the report otherwise.
    pub fn display(&self) -> (res: ReportView)
        ensures
            is_empty_report(*self) <==> res is Failed,
            res matches ReportView::Shown { title, lines, problems } ==> {
                &&& title@ == "Inspection Report"@
                &&& lines@.map_values(|l: ReportLine| line_view(l)) == report_lines(*self)
                &&& (problems@.len() == 1 <==> permission_fails(*self))
                &&& problems@.len() <= 1
                &&& permission_fails(*self) ==> problems@[0]@ == permission_error_text(report_permissions(*self)->0)
            },
    {
        if self.is_empty() {
            return ReportView::Failed;
        }
        let mut lines: Vec<ReportLine> = Vec::new();
        let mut problems: Vec<String> = Vec::new();
        proof {
            assert(lines@.map_values(|l: ReportLine| line_view(l)) =~= Seq::empty());
        }
        match self {
            InspectionReport::PlaintextFile { name, directory, size, .. } => {
                push_line(&mut lines, "Type", String::from_str("Plaintext File (Not encrypted with Enkryptit!)"), ValueStyle::Warning);
                push_line(&mut lines, "Name", format_option(name), ValueStyle::Plain);
                push_line(&mut lines, "Directory", format_option(directory), ValueStyle::Plain);
                push_line(&mut lines, "Size", format_option_to_kb(*size), ValueStyle::Kib);
            },
            InspectionReport::Folder { name, directory, size, .. } => {
                push_line(&mut lines, "Type", String::from_str("Plaintext Folder (Not encrypted with Enkryptit!)"), ValueStyle::Plain);
                push_line(&mut lines, "Name", format_option(name), ValueStyle::Plain);
                push_line(&mut lines, "Directory", format_option(directory), ValueStyle::Plain);
                push_line(&mut lines, "Size", format_option_to_kb(*size), ValueStyle::Kib);
            },
            InspectionReport::EncryptedFile {
                name,
                directory,
                size,
                version,
                compression_type,
                predicted_parallelism_type,
                keytype,
                nonce,
            } => {
                push_line(&mut lines, "Type", String::from_str("File encrypted with Enkryptit!"), ValueStyle::Plain);
                push_line(&mut lines, "Version", decimal(*version as u64), ValueStyle::Accent);
                push_line(&mut lines, "Name", format_option(name), ValueStyle::Plain);
                push_line(&mut lines, "Directory", format_option(directory), ValueStyle::Plain);
                push_line(&mut lines, "Size", format_option_to_kb(*size), ValueStyle::Kib);
                push_line(&mut lines, "Compression type", format_compression(*compression_type), ValueStyle::Accent);
                push_line(&mut lines, "Recommended parallelism type (for decrypting)", format_parallelism(*predicted_parallelism_type), ValueStyle::Accent);
                push_line(&mut lines, "Key Type", format_key_type(keytype), ValueStyle::Accent);
                push_line(&mut lines, "Nonce", format_nonce(nonce), ValueStyle::Accent);
            },
            InspectionReport::EncryptedArchive { name, directory, size, version, entries_number, keytype } => {
                push_line(&mut lines, "Type", String::from_str("Folder (Archive) encrypted with Enkryptit!"), ValueStyle::Plain);
                push_line(&mut lines, "Version", decimal(*version as u64), ValueStyle::Accent);
                push_line(&mut lines, "Name", format_option(name), ValueStyle::Plain);
                push_line(&mut lines, "Directory", format_option(directory), ValueStyle::Plain);
                push_line(&mut lines, "Size", format_option_to_kb(*size), ValueStyle::Kib);
                push_line(&mut lines, "Entries number", format_number(*entries_number), ValueStyle::Accent);
                push_line(&mut lines, "Key Type", format_key_type(keytype), ValueStyle::Accent);
            },
        }
        let ghost head = lines@.map_values(|l: ReportLine| line_view(l));
        assert(head == head_lines(*self));
        let permissions = match self {
            InspectionReport::PlaintextFile { permissions, .. } => *permissions,
            InspectionReport::Folder { permissions, .. } => *permissions,
            _ => None,
        };
        match permissions {
            Some(mode) => match permission_text(mode) {
                Ok(text) => push_line(&mut lines, "Permissions", text, ValueStyle::Plain),
                Err(message) => problems.push(message),
            },
            None => {},
        }
        let ghost middle = lines@.map_values(|l: ReportLine| line_view(l));
        match self {
            InspectionReport::PlaintextFile {
                extension,
                mime_extension,
                predicted_compression_type,
                predicted_parallelism_type,
                ..
            } => {
                push_line(&mut lines, "Shown extension", format_option(extension), ValueStyle::Plain);
                push_line(&mut lines, "Real extension", format_option(mime_extension), ValueStyle::Accent);
                push_line(&mut lines, "Recommanded compression type  (for encryption)", format_compression(*predicted_compression_type), ValueStyle::Accent);
                push_line(&mut lines, "Recommanded parallelism type (for encryption)", format_parallelism(*predicted_parallelism_type), ValueStyle::Accent);
                assert(lines@.map_values(|l: ReportLine| line_view(l)) =~= middle + tail_lines(*self));
            },
            _ => {
                assert(lines@.map_values(|l: ReportLine| line_view(l)) =~= middle + tail_lines(*self));
            },
        }
        ReportView::Shown { title: String::from_str("Inspection Report"), lines, problems }
    }

    /// Whether nothing at all could be found about the object.
    pub fn is_empty(&self) -> (res: bool)
        ensures
            res == is_empty_report(*self),
    {
        match self {
            InspectionReport::PlaintextFile {
                name,
                directory,
                size,
                permissions,
                extension,
                mime_extension,
                predicted_compression_type,
                predicted_parallelism_type,
            } => name.is_none() && directory.is_none() && size.is_none() && permissions.is_none()
                && extension.is_none() && mime_extension.is_none() && predicted_compression_type.is_none()
                && predicted_parallelism_type.is_none(),
            InspectionReport::Folder { name, directory, size, permissions } => name.is_none()
                && directory.is_none() && size.is_none() && permissions.is_none(),
            InspectionReport::EncryptedFile {
                name,
                directory,
                size,
                compression_type,
                predicted_parallelism_type,
                keytype,
                nonce,
                ..
            } => name.is_none() && directory.is_none() && size.is_none() && keytype.is_none() && nonce.is_none()
                && compression_type.is_none() && predicted_parallelism_type.is_none(),
            InspectionReport::EncryptedArchive { name, directory, size, entries_number, keytype, .. } => name.is_none()
                && directory.is_none() && size.is_none() && keytype.is_none() && entries_number.is_none(),
        }
    }
}

/// What file-type detection found for a plain file.
#[derive(Debug, Clone)]
pub enum Detection {
    /// The content matched a known type: its extension and MIME type.
    Known { extension: String, mime_type: String },
    /// The content matched no known type.
    Unknown,
    /// The file could not be read for detection.
    Failed,
}

/// Report of a plain file. The shown extension is the detected one; when
/// the content matched no known type it falls back to the extension of
/// the path; when detection failed there is none.
pub fn plain_file_report(
    name: Option<String>,
    directory: Option<String>,
    size: Option<u64>,
    permissions: Option<u32>,
    detection: Detection,
    path_extension: Option<String>,
    predicted_compression_type: Option<CompressionType>,
    predicted_parallelism_type: Option<ParallelismType>,
) -> (res: InspectionReport)
    ensures
        res matches InspectionReport::PlaintextFile { name: n, directory: d, size: sz, permissions: p, extension, mime_extension, predicted_compression_type: c, predicted_parallelism_type: q } && {
            &&& n == name && d == directory && sz == size && p == permissions
            &&& c == predicted_compression_type && q == predicted_parallelism_type
            &&& match detection {
                Detection::Known { extension: e, mime_type: m } => extension == Some(e) && mime_extension == Some(m),
                Detection::Unknown => extension == path_extension && mime_extension is None,
                Detection::Failed => extension is None && mime_extension is None,
            }
        },
{
    let (extension, mime_extension) = match detection {
        Detection::Known { extension, mime_type } => (Some(extension), Some(mime_type)),
        Detection::Unknown => (path_extension, None),
        Detection::Failed => (None, None),
    };
    InspectionReport::PlaintextFile {
        name,
        directory,
        size,
        permissions,
        extension,
        mime_extension,
        predicted_compression_type,
        predicted_parallelism_type,
    }
}

/// Report of a plain folder; a path without a name or without a parent is
/// refused.
pub fn plain_folder_report(
    path: &str,
    name: Option<String>,
    directory: Option<String>,
    size: u64,
    permissions: Option<u32>,
) -> (res: Result<InspectionReport, EnkryptitError>)
    ensures
        name is Some && directory is Some <==> res is Ok,
        res matches Ok(r) ==> r == (InspectionReport::Folder { name, directory, size: Some(size), permissions }),
        res matches Err(e) ==> e matches EnkryptitError::PathIsIncorrect(p) && p@ == path@,
{
    if name.is_none() || directory.is_none() {
        return Err(EnkryptitError::PathIsIncorrect(String::from_str(path)));
    }
    Ok(InspectionReport::Folder { name, directory, size: Some(size), permissions })
}

/// Report of an encrypted file from what its metadata (when it could be
/// decoded) says.
pub fn encrypted_file_report(
    name: Option<String>,
    directory: Option<String>,
    size: Option<u64>,
    version: Version,
    meta: Option<MetaDatas>,
    predicted_parallelism_type: Option<ParallelismType>,
) -> (res: InspectionReport)
    ensures
        res matches InspectionReport::EncryptedFile { name: n, directory: d, size: sz, version: v, compression_type, predicted_parallelism_type: q, keytype, nonce } && {
            &&& n == name && d == directory && sz == size && v == version && q == predicted_parallelism_type
            &&& match meta {
                Some(m) => compression_type == Some(m.compression) && keytype == Some(m.key_type) && nonce == Some(m.nonce),
                None => compression_type is None && keytype is None && nonce is None,
            }
        },
{
    let (compression_type, keytype, nonce) = match meta {
        Some(m) => (Some(m.compression), Some(m.key_type), Some(m.nonce)),
        None => (None, None, None),
    };
    InspectionReport::EncryptedFile {
        name,
        directory,
        size,
        version,
        compression_type,
        predicted_parallelism_type,
        keytype,
        nonce,
    }
}

/// Report of a folder archive from what its metadata (when it could be
/// decoded) says: the number of entries and the key type.
pub fn encrypted_archive_report(
    name: Option<String>,
    directory: Option<String>,
    size: Option<u64>,
    version: Version,
    folder_meta: Option<FolderMetadata>,
) -> (res: InspectionReport)
    ensures
        res matches InspectionReport::EncryptedArchive { name: n, directory: d, size: sz, version: v, entries_number, keytype } && {
            &&& n == name && d == directory && sz == size && v == version
            &&& match folder_meta {
                Some(m) => entries_number == Some(m.entries@.len() as u64) && keytype == Some(m.key_type),
                None => entries_number is None && keytype is None,
            }
        },
{
    let (entries_number, keytype) = match folder_meta {
        Some(m) => (Some(m.entries.len() as u64), Some(m.key_type)),
        None => (None, None),
    };
    InspectionReport::EncryptedArchive { name, directory, size, version, entries_number, keytype }
}

/// No other line of a report is labelled `Size`.
proof fn lemma_other_labels_not_size()
    ensures
        "Type"@ != "Size"@,
        "Name"@ != "Size"@,
        "Directory"@ != "Size"@,
        "Version"@ != "Size"@,
        "Compression type"@ != "Size"@,
        "Recommended parallelism type (for decrypting)"@ != "Size"@,
        "Key Type"@ != "Size"@,
        "Nonce"@ != "Size"@,
        "Entries number"@ != "Size"@,
        "Permissions"@ != "Size"@,
        "Shown extension"@ != "Size"@,
        "Real extension"@ != "Size"@,
        "Recommanded compression type  (for encryption)"@ != "Size"@,
        "Recommanded parallelism type (for encryption)"@ != "Size"@,
{
    reveal_strlit("Type");
    reveal_strlit("Name");
    reveal_strlit("Directory");
    reveal_strlit("Version");
    reveal_strlit("Compression type");
    reveal_strlit("Recommended parallelism type (for decrypting)");
    reveal_strlit("Key Type");
    reveal_strlit("Nonce");
    reveal_strlit("Entries number");
    reveal_strlit("Permissions");
    reveal_strlit("Shown extension");
    reveal_strlit("Real extension");
    reveal_strlit("Recommanded compression type  (for encryption)");
    reveal_strlit("Recommanded parallelism type (for encryption)");
    reveal_strlit("Size");
    assert("Type"@ != "Size"@) by { assert("Type"@[0] != "Size"@[0]); }
    assert("Name"@ != "Size"@) by { assert("Name"@[0] != "Size"@[0]); }
    assert("Directory"@ != "Size"@) by { assert("Directory"@.len() != "Size"@.len()); }
    assert("Version"@ != "Size"@) by { assert("Version"@.len() != "Size"@.len()); }
    assert("Compression type"@ != "Size"@) by { assert("Compression type"@.len() != "Size"@.len()); }
    assert("Recommended parallelism type (for decrypting)"@ != "Size"@) by { assert("Recommended parallelism type (for decrypting)"@.len() != "Size"@.len()); }
    assert("Key Type"@ != "Size"@) by { assert("Key Type"@.len() != "Size"@.len()); }
    assert("Nonce"@ != "Size"@) by { assert("Nonce"@.len() != "Size"@.len()); }
    assert("Entries number"@ != "Size"@) by { assert("Entries number"@.len() != "Size"@.len()); }
    assert("Permissions"@ != "Size"@) by { assert("Permissions"@.len() != "Size"@.len()); }
    assert("Shown extension"@ != "Size"@) by { assert("Shown extension"@.len() != "Size"@.len()); }
    assert("Real extension"@ != "Size"@) by { assert("Real extension"@.len() != "Size"@.len()); }
    assert("Recommanded compression type  (for encryption)"@ != "Size"@) by { assert("Recommanded compression type  (for encryption)"@.len() != "Size"@.len()); }
    assert("Recommanded parallelism type (for encryption)"@ != "Size"@) by { assert("Recommanded parallelism type (for encryption)"@.len() != "Size"@.len()); }
}

/// The size of the object a report is about, when it is known.
pub open spec fn report_size(r: InspectionReport) -> Option<u64> {
    match r {
        InspectionReport::PlaintextFile { size, .. } => size,
        InspectionReport::Folder { size, .. } => size,
        InspectionReport::EncryptedFile { size, .. } => size,
        InspectionReport::EncryptedArchive { size, .. } => size,
    }
}

/// Every report shows the size of its object in whole kibibytes: it has a
/// line labelled `Size`, and every such line shows the size divided by
/// 1024 and rounded down (or `Not Found`), styled as kibibytes.
pub proof fn lemma_size_shown_in_kib(r: InspectionReport)
    ensures
        exists|i: int| 0 <= i < report_lines(r).len() && #[trigger] report_lines(r)[i].0 == "Size"@,
        forall|i: int| 0 <= i < report_lines(r).len() && #[trigger] report_lines(r)[i].0 == "Size"@ ==> report_lines(r)[i] == (
            "Size"@,
            match report_size(r) {
                Some(s) => spec_decimal((s / 1024) as nat),
                None => "Not Found"@,
            },
            ValueStyle::Kib,
        ),
{
    lemma_other_labels_not_size();
    let lines = report_lines(r);
    let h = head_lines(r);
    let t = tail_lines(r);
    let k: int = match r {
        InspectionReport::PlaintextFile { .. } | InspectionReport::Folder { .. } => 3,
        _ => 4,
    };
    let a = match report_permissions(r) {
        Some(mode) => match permission_line(mode) {
            Ok(l) => h.push(l),
            Err(_) => h,
        },
        None => h,
    };
    assert(lines == a + t);
    assert(k < h.len());
    assert(lines[k] == h[k]);
    assert(report_lines(r)[k].0 == "Size"@);
    assert forall|i: int| 0 <= i < lines.len() && #[trigger] lines[i].0 == "Size"@ implies i == k by {
        if i < h.len() {
            assert(lines[i] == h[i]);
        } else if i < a.len() {
            assert(lines[i] == a[i]);
        } else {
            assert(lines[i] == t[i - a.len()]);
        }
    }
}

} // verus!
