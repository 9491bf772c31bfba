//! What the command line and the terminal interface decide: outcomes of a
//! treatment, and the meaning of each menu choice.
use vstd::prelude::*;
use crate::errors::EnkryptitError;
use crate::inspect::InspectionReport;
use crate::text::{chars_of, same_text, text_of};
use crate::types::{CompressionType, KeyParams};

verus! {

/// The outcome of treating or inspecting one object.
#[derive(Debug)]
pub enum Output {
    Error { error: EnkryptitError },
    Success { message: String },
    InspectionReport(InspectionReport),
    CorruptedFile,
}

/// Whether an outcome reports the given success message, or the given
/// error.
pub open spec fn case_output(outcome: Result<String, EnkryptitError>, what: Seq<char>, res: Output) -> bool {
    match outcome {
        Ok(path) => res matches Output::Success { message } && message@ == what + " at "@ + path@ + " !"@,
        Err(e) => res == (Output::Error { error: e }),
    }
}

fn success_at(what: &str, path: &str) -> (res: Output)
    ensures
        res matches Output::Success { message } && message@ == what@ + " at "@ + path@ + " !"@,
{
    let mut message = String::from_str(what);
    message.append(" at ");
    message.append(path);
    message.append(" !");
    Output::Success { message }
}

/// Outcome of encrypting a file, from the path it was written to or the
/// error that stopped it.
pub fn encrypt_file_case(outcome: Result<String, EnkryptitError>) -> (res: Output)
    ensures
        case_output(outcome, "file was encrypted"@, res),
{
    match outcome {
        Ok(path) => success_at("file was encrypted", path.as_str()),
        Err(e) => Output::Error { error: e },
    }
}

/// Outcome of decrypting a file.
pub fn decrypt_file_case(outcome: Result<String, EnkryptitError>) -> (res: Output)
    ensures
        case_output(outcome, "file was decrypted"@, res),
{
    match outcome {
        Ok(path) => success_at("file was decrypted", path.as_str()),
        Err(e) => Output::Error { error: e },
    }
}

/// Outcome of encrypting a folder.
pub fn encrypt_folder_case(outcome: Result<String, EnkryptitError>) -> (res: Output)
    ensures
        case_output(outcome, "folder was encrypted"@, res),
{
    match outcome {
        Ok(path) => success_at("folder was encrypted", path.as_str()),
        Err(e) => Output::Error { error: e },
    }
}

/// Outcome of decrypting a folder.
pub fn decrypt_folder_case(outcome: Result<String, EnkryptitError>) -> (res: Output)
    ensures
        case_output(outcome, "folder was decrypted"@, res),
{
    match outcome {
        Ok(path) => success_at("folder was decrypted", path.as_str()),
        Err(e) => Output::Error { error: e },
    }
}

/// The actions of the main menu of the terminal interface (leaving is
/// handled by the menu itself).
#[derive(Debug, Clone, Copy, PartialEq, Eq, Structural)]
pub enum EnkryptitTuiAction {
    EncryptObject,
    LaunchParams,
    ShowHelp,
    Browse,
}

impl EnkryptitTuiAction {
    /// The action behind a main-menu label, if any.
    pub fn from_str(value: &str) -> (res: Option<EnkryptitTuiAction>)
        ensures
            res == (if value@ == "Encrypt/Decrypt file/folder"@ {
                Some(EnkryptitTuiAction::EncryptObject)
            } else if value@ == "Parameters"@ {
                Some(EnkryptitTuiAction::LaunchParams)
            } else if value@ == "Help"@ {
                Some(EnkryptitTuiAction::ShowHelp)
            } else if value@ == "Browse"@ {
                Some(EnkryptitTuiAction::Browse)
            } else {
                None
            }),
    {
        if same_text(value, "Encrypt/Decrypt file/folder") {
            Some(EnkryptitTuiAction::EncryptObject)
        } else if same_text(value, "Parameters") {
            Some(EnkryptitTuiAction::LaunchParams)
        } else if same_text(value, "Help") {
            Some(EnkryptitTuiAction::ShowHelp)
        } else if same_text(value, "Browse") {
            Some(EnkryptitTuiAction::Browse)
        } else {
            None
        }
    }
}

/// The compression chosen in the parameters menu; an unknown label keeps
/// the balanced default, Zstd.
pub fn compression_from_menu(choice: &str) -> (res: CompressionType)
    ensures
        res == (if choice@ == "Auto (automatically choosed by Enkryptit!)"@ {
            CompressionType::Auto
        } else if choice@ == "Zstd (balanced)"@ {
            CompressionType::Zstd
        } else if choice@ == "Lz4 (fastest)"@ {
            CompressionType::Lz4
        } else if choice@ == "Xz (best compression)"@ {
            CompressionType::Xz
        } else if choice@ == "No compression"@ {
            CompressionType::NoComp
        } else {
            CompressionType::Zstd
        }),
{
    if same_text(choice, "Auto (automatically choosed by Enkryptit!)") {
        CompressionType::Auto
    } else if same_text(choice, "Zstd (balanced)") {
        CompressionType::Zstd
    } else if same_text(choice, "Lz4 (fastest)") {
        CompressionType::Lz4
    } else if same_text(choice, "Xz (best compression)") {
        CompressionType::Xz
    } else if same_text(choice, "No compression") {
        CompressionType::NoComp
    } else {
        CompressionType::Zstd
    }
}

/// The key source chosen in the parameters menu; an unknown label means a
/// password.
pub fn key_params_from_menu(choice: &str) -> (res: KeyParams)
    ensures
        res == (if choice@ == "Password (Argon2id)"@ {
            KeyParams::PassWord
        } else if choice@ == "OS Keyring"@ {
            KeyParams::Os
        } else if choice@ == "Key File"@ {
            KeyParams::File
        } else {
            KeyParams::PassWord
        }),
{
    if same_text(choice, "Password (Argon2id)") {
        KeyParams::PassWord
    } else if same_text(choice, "OS Keyring") {
        KeyParams::Os
    } else if same_text(choice, "Key File") {
        KeyParams::File
    } else {
        KeyParams::PassWord
    }
}

/// Whether the parallelism chosen in the parameters menu asks for a
/// thread count (`MultiThread`); any other label means single-threaded.
pub fn menu_asks_thread_count(choice: &str) -> (res: bool)
    ensures
        res == (choice@ == "MultiThread"@),
{
    same_text(choice, "MultiThread")
}

/// The entries of the parameters menu.
#[derive(Debug, Clone, Copy, PartialEq, Eq, Structural)]
pub enum ParamsMenuAction {
    ChangeCompression,
    ChangeKeyType,
    ChangeParallelism,
    ShowCurrent,
    Back,
}

/// The parameters-menu entry behind a label, if any.
pub fn params_menu_action(choice: &str) -> (res: Option<ParamsMenuAction>)
    ensures
        res == (if choice@ == "Change compression type"@ {
            Some(ParamsMenuAction::ChangeCompression)
        } else if choice@ == "Change key type"@ {
            Some(ParamsMenuAction::ChangeKeyType)
        } else if choice@ == "Change parallelism type"@ {
            Some(ParamsMenuAction::ChangeParallelism)
        } else if choice@ == "Show current parameters"@ {
            Some(ParamsMenuAction::ShowCurrent)
        } else if choice@ == "Back to main menu"@ {
            Some(ParamsMenuAction::Back)
        } else {
            None
        }),
{
    if same_text(choice, "Change compression type") {
        Some(ParamsMenuAction::ChangeCompression)
    } else if same_text(choice, "Change key type") {
        Some(ParamsMenuAction::ChangeKeyType)
    } else if same_text(choice, "Change parallelism type") {
        Some(ParamsMenuAction::ChangeParallelism)
    } else if same_text(choice, "Show current parameters") {
        Some(ParamsMenuAction::ShowCurrent)
    } else if same_text(choice, "Back to main menu") {
        Some(ParamsMenuAction::Back)
    } else {
        None
    }
}

/// The entries of the browse menu.
#[derive(Debug, Clone, Copy, PartialEq, Eq, Structural)]
pub enum BrowseMenuAction {
    Files,
    Folders,
    FilesAndFolders,
    Back,
}

/// The browse-menu entry behind a label, if any.
pub fn browse_menu_action(choice: &str) -> (res: Option<BrowseMenuAction>)
    ensures
        res == (if choice@ == "Browse Files"@ {
            Some(BrowseMenuAction::Files)
        } else if choice@ == "Browse Folders"@ {
            Some(BrowseMenuAction::Folders)
        } else if choice@ == "Browse both Files & Folders"@ {
            Some(BrowseMenuAction::FilesAndFolders)
        } else if choice@ == "Back to main menu"@ {
            Some(BrowseMenuAction::Back)
        } else {
            None
        }),
{
    if same_text(choice, "Browse Files") {
        Some(BrowseMenuAction::Files)
    } else if same_text(choice, "Browse Folders") {
        Some(BrowseMenuAction::Folders)
    } else if same_text(choice, "Browse both Files & Folders") {
        Some(BrowseMenuAction::FilesAndFolders)
    } else if same_text(choice, "Back to main menu") {
        Some(BrowseMenuAction::Back)
    } else {
        None
    }
}

/// The entries of the menu shown for chosen objects.
#[derive(Debug, Clone, Copy, PartialEq, Eq, Structural)]
pub enum TreatmentMenuAction {
    EncryptOrDecrypt,
    Inspect,
    GoBack,
}

/// The treatment-menu entry behind a label, if any.
pub fn treatment_menu_action(choice: &str) -> (res: Option<TreatmentMenuAction>)
    ensures
        res == (if choice@ == "Encrypt/Decrypt"@ {
            Some(TreatmentMenuAction::EncryptOrDecrypt)
        } else if choice@ == "Inspect"@ {
            Some(TreatmentMenuAction::Inspect)
        } else if choice@ == "Go Back"@ {
            Some(TreatmentMenuAction::GoBack)
        } else {
            None
        }),
{
    if same_text(choice, "Encrypt/Decrypt") {
        Some(TreatmentMenuAction::EncryptOrDecrypt)
    } else if same_text(choice, "Inspect") {
        Some(TreatmentMenuAction::Inspect)
    } else if same_text(choice, "Go Back") {
        Some(TreatmentMenuAction::GoBack)
    } else {
        None
    }
}

/// The objects picked when browsing both: the folders first, then the
/// files.
pub fn merge_picks(folders: Vec<String>, files: Vec<String>) -> (res: Vec<String>)
    ensures
        res@ == folders@ + files@,
{
    let mut objects = folders;
    let mut rest = files;
    objects.append(&mut rest);
    objects
}

/// Path of the archive written next to an encrypted file.
pub fn encrypted_path_for(original: &str) -> (res: String)
    ensures
        res@ == original@ + ".encky"@,
{
    let mut s = String::from_str(original);
    s.append(".encky");
    s
}

/// Whether a path names an archive: it ends with `.encky`.
pub open spec fn is_archive_path(path: Seq<char>) -> bool {
    path.len() >= 6 && path.subrange(path.len() - 6, path.len() as int) == ".encky"@
}

/// Path that decrypting an archive restores: the archive's path without
/// its `.encky` suffix; `None` when the path has no such suffix.
pub fn decrypted_path_for(archive: &str) -> (res: Option<String>)
    ensures
        is_archive_path(archive@) <==> res is Some,
        res matches Some(p) ==> p@ + ".encky"@ == archive@,
{
    let chars = chars_of(archive);
    let n = chars.len();
    let suffix = chars_of(".encky");
    proof {
        reveal_strlit(".encky");
        assert(suffix@.len() == 6);
    }
    if n < 6 {
        return None;
    }
    let mut i: usize = 0;
    while i < 6
        invariant
            chars@ == archive@,
            suffix@ == ".encky"@,
            suffix@.len() == 6,
            n == chars@.len(),
            n >= 6,
            0 <= i <= 6,
            forall|j: int| 0 <= j < i ==> chars@[n - 6 + j] == suffix@[j],
        decreases 6 - i,
    {
        if chars[n - 6 + i] != suffix[i] {
            proof {
                assert(archive@.subrange(n - 6, n as int)[i as int] != ".encky"@[i as int]);
            }
            return None;
        }
        i = i + 1;
    }
    proof {
        assert(archive@.subrange(n - 6, n as int) =~= ".encky"@);
    }
    let mut stem: Vec<char> = Vec::new();
    let mut k: usize = 0;
    while k < n - 6
        invariant
            chars@ == archive@,
            n == chars@.len(),
            n >= 6,
            0 <= k <= n - 6,
            stem@ == chars@.subrange(0, k as int),
        decreases n - 6 - k,
    {
        stem.push(chars[k]);
        k = k + 1;
        proof {
            assert(stem@ =~= chars@.subrange(0, k as int));
        }
    }
    let res = text_of(&stem);
    proof {
        assert(res@ + ".encky"@ =~= archive@);
    }
    Some(res)
}

/// The archive written for a path is recognised as an archive, and
/// decrypting it restores that very path.
pub proof fn lemma_archive_path_roundtrip(path: Seq<char>, restored: Seq<char>)
    requires
        restored + ".encky"@ == path + ".encky"@,
    ensures
        is_archive_path(path + ".encky"@),
        restored == path,
{
    reveal_strlit(".encky");
    let a = path + ".encky"@;
    assert(a.subrange(a.len() - 6, a.len() as int) =~= ".encky"@);
    assert(restored.len() == path.len());
    assert forall|i: int| 0 <= i < path.len() implies restored[i] == path[i] by {
        let e = ".encky"@;
        assert((restored + e)[i] == (path + e)[i]);
        assert((restored + e)[i] == restored[i]);
        assert((path + e)[i] == path[i]);
    }
    assert(restored =~= path);
}

/// Answers of an interactive front end.
pub trait TuiInput {
    /// Shows a single-choice menu and returns the chosen label.
    fn select(&mut self, message: &str, choices: &[&str]) -> Result<String, EnkryptitError>;

    /// Prompts for free-form text.
    fn text(&mut self, message: &str, help_message: &str) -> Result<String, EnkryptitError>;

    /// Prompts for a thread count.
    fn custom_counter(&mut self, message: &str) -> Result<u8, EnkryptitError>;

    /// Lets the user pick files, returning their paths.
    fn pick_files(&mut self, title: &str) -> Vec<String>;

    /// Lets the user pick folders, returning their paths.
    fn pick_folders(&mut self, title: &str) -> Vec<String>;
}

} // verus!
