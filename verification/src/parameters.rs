//! The user parameters: their defaults, and how their textual settings are
//! read.
use vstd::prelude::*;
use crate::text::{
    ascii_lower, chars_of, lower_text, lowercase, parse_u8, same_text, spec_parse_u8, spec_strip_prefix,
    spec_trim, strip_prefix, text_of, trim,
};
use crate::types::{CompressionType, KeyParams, ParallelismType};

verus! {

/// Memory cost of the password hash, in KiB (128 MiB).
pub const ARGON2_MEMORY_COST: u32 = 131072;

/// Number of passes of the password hash.
pub const ARGON2_ITERATIONS: u32 = 3;

/// Degree of parallelism of the password hash.
pub const ARGON2_PARALLELISM: u32 = 1;

/// Thread count used when `multi` is given without a count.
pub const DEFAULT_THREADS: u8 = 4;

/// The persisted parameters: key source, compression and parallelism.
#[derive(Debug, Clone, Copy, PartialEq, Eq, Structural)]
pub struct EnkryptitParams {
    pub key_params: KeyParams,
    pub compression: CompressionType,
    pub parallelism: ParallelismType,
}

impl EnkryptitParams {
    /// Parameters made of the given settings.
    pub fn new(key_params: KeyParams, compression: CompressionType, parallelism: ParallelismType) -> (res: Self)
        ensures
            res.key_params == key_params,
            res.compression == compression,
            res.parallelism == parallelism,
    {
        EnkryptitParams { key_params, compression, parallelism }
    }
}

/// The parameters in force when none were saved, or when the saved ones
/// cannot be read: password keys, Zstd compression and automatic
/// parallelism.
pub open spec fn default_params() -> EnkryptitParams {
    EnkryptitParams {
        key_params: KeyParams::PassWord,
        compression: CompressionType::Zstd,
        parallelism: ParallelismType::Auto,
    }
}

impl Default for EnkryptitParams {
    fn default() -> (res: Self)
        ensures
            res == default_params(),
    {
        EnkryptitParams {
            key_params: KeyParams::PassWord,
            compression: CompressionType::Zstd,
            parallelism: ParallelismType::Auto,
        }
    }
}

/// The thread-count part of a lowercased parallelism setting: `None` when
/// the setting names no multithreaded mode, `Some(None)` for a plain
/// `multi` or `multithread`, `Some(Some(count))` for `multi:<count>` or
/// `multi <count>`.
pub open spec fn spec_thread_count_part(lower: Seq<char>) -> Option<Option<Seq<char>>> {
    if spec_strip_prefix(lower, "multi:"@) is Some {
        Some(Some(spec_strip_prefix(lower, "multi:"@)->0))
    } else if spec_strip_prefix(lower, "multi "@) is Some {
        Some(Some(spec_strip_prefix(lower, "multi "@)->0))
    } else if lower == "multi"@ || lower == "multithread"@ {
        Some(None)
    } else {
        None
    }
}

/// The parallelism denoted by a lowercased setting, or the message that
/// rejects it (`value` is the setting as the user gave it).
pub open spec fn spec_parse_parallelism_lowered(lower: Seq<char>, value: Seq<char>) -> Result<ParallelismType, Seq<char>> {
    if lower == "single"@ || lower == "no"@ || lower == "none"@ {
        Ok(ParallelismType::Single)
    } else if lower == "auto"@ || lower == "automatic"@ {
        Ok(ParallelismType::Auto)
    } else {
        match spec_thread_count_part(lower) {
            None => Err(
                "Unknown parallelism: "@ + value + ". Expected `single`, `multi` or `multi:<threads>`"@,
            ),
            Some(None) => Ok(ParallelismType::MultiThread(DEFAULT_THREADS)),
            Some(Some(count)) => match spec_parse_u8(spec_trim(count)) {
                None => Err("Invalid thread count: `"@ + count + "`"@),
                Some(n) => if n == 0 {
                    Err("The number of threads must be greater than 0"@)
                } else {
                    Ok(ParallelismType::MultiThread(n))
                },
            },
        }
    }
}

/// The parallelism denoted by a setting, or the message that rejects it.
pub open spec fn spec_parse_parallelism(value: Seq<char>) -> Result<ParallelismType, Seq<char>> {
    spec_parse_parallelism_lowered(lower_text(value), value)
}

/// A rejection message as plain characters.
pub open spec fn message_view(r: Result<ParallelismType, String>) -> Result<ParallelismType, Seq<char>> {
    match r {
        Ok(p) => Ok(p),
        Err(m) => Err(m@),
    }
}

fn concat3(a: &str, b: &str, c: &str) -> (res: String)
    ensures
        res@ == a@ + b@ + c@,
{
    let mut s = String::from_str(a);
    s.append(b);
    s.append(c);
    s
}

/// Reads a parallelism setting that has already been lowercased: `single`,
/// `no` or `none`; `auto` or `automatic`; `multi` or `multithread` (four
/// threads); `multi:<n>` or `multi <n>` with `n` a thread count from 1 to
/// 255 (white space around `n` is ignored). `value` is the setting as
/// given, quoted in the message of an unknown setting.
pub fn parse_parallelism_lowered(lower: &str, value: &str) -> (res: Result<ParallelismType, String>)
    ensures
        message_view(res) == spec_parse_parallelism_lowered(lower@, value@),
{
    if same_text(lower, "single") || same_text(lower, "no") || same_text(lower, "none") {
        return Ok(ParallelismType::Single);
    }
    if same_text(lower, "auto") || same_text(lower, "automatic") {
        return Ok(ParallelismType::Auto);
    }
    let chars = chars_of(lower);
    let count: Option<Vec<char>> = match strip_prefix(&chars, "multi:") {
        Some(rest) => Some(rest),
        None => match strip_prefix(&chars, "multi ") {
            Some(rest) => Some(rest),
            None => {
                if same_text(lower, "multi") || same_text(lower, "multithread") {
                    None
                } else {
                    return Err(concat3(
                        "Unknown parallelism: ",
                        value,
                        ". Expected `single`, `multi` or `multi:<threads>`",
                    ));
                }
            },
        },
    };
    let threads: u8 = match count {
        Some(digits) => match parse_u8(&trim(&digits)) {
            Some(n) => n,
            None => {
                let shown = text_of(&digits);
                return Err(concat3("Invalid thread count: `", shown.as_str(), "`"));
            },
        },
        None => DEFAULT_THREADS,
    };
    if threads == 0 {
        return Err(String::from_str("The number of threads must be greater than 0"));
    }
    Ok(ParallelismType::MultiThread(threads))
}

/// Reads a parallelism setting, ignoring case: see
/// [`parse_parallelism_lowered`] for the accepted forms.
pub fn parse_parallelism(value: &str) -> (res: Result<ParallelismType, String>)
    ensures
        message_view(res) == spec_parse_parallelism(value@),
{
    let lower = lowercase(value);
    parse_parallelism_lowered(lower.as_str(), value)
}

/// The compression named by a lowercased setting.
pub open spec fn spec_compression_setting(lower: Seq<char>) -> Option<CompressionType> {
    if lower == "zstd"@ || lower == "1"@ {
        Some(CompressionType::Zstd)
    } else if lower == "lz4"@ || lower == "2"@ {
        Some(CompressionType::Lz4)
    } else if lower == "xz"@ || lower == "3"@ {
        Some(CompressionType::Xz)
    } else if lower == "none"@ || lower == "no"@ || lower == "4"@ {
        Some(CompressionType::NoComp)
    } else if lower == "auto"@ || lower == "a"@ || lower == "5"@ {
        Some(CompressionType::Auto)
    } else {
        None
    }
}

/// The compression named by a lowercased setting: `zstd`, `lz4`, `xz`,
/// `none` (or `no`), `auto` (or `a`), or their menu numbers 1 to 5.
pub fn compression_setting(lower: &str) -> (res: Option<CompressionType>)
    ensures
        res == spec_compression_setting(lower@),
{
    if same_text(lower, "zstd") || same_text(lower, "1") {
        Some(CompressionType::Zstd)
    } else if same_text(lower, "lz4") || same_text(lower, "2") {
        Some(CompressionType::Lz4)
    } else if same_text(lower, "xz") || same_text(lower, "3") {
        Some(CompressionType::Xz)
    } else if same_text(lower, "none") || same_text(lower, "no") || same_text(lower, "4") {
        Some(CompressionType::NoComp)
    } else if same_text(lower, "auto") || same_text(lower, "a") || same_text(lower, "5") {
        Some(CompressionType::Auto)
    } else {
        None
    }
}

/// The key source named by a lowercased setting.
pub open spec fn spec_key_setting(lower: Seq<char>) -> Option<KeyParams> {
    if lower == "password"@ || lower == "pwd"@ || lower == "1"@ {
        Some(KeyParams::PassWord)
    } else if lower == "os"@ || lower == "2"@ {
        Some(KeyParams::Os)
    } else if lower == "file"@ || lower == "3"@ {
        Some(KeyParams::File)
    } else {
        None
    }
}

/// The key source named by a lowercased setting: `password` (or `pwd`),
/// `os`, `file`, or their menu numbers 1 to 3.
pub fn key_setting(lower: &str) -> (res: Option<KeyParams>)
    ensures
        res == spec_key_setting(lower@),
{
    if same_text(lower, "password") || same_text(lower, "pwd") || same_text(lower, "1") {
        Some(KeyParams::PassWord)
    } else if same_text(lower, "os") || same_text(lower, "2") {
        Some(KeyParams::Os)
    } else if same_text(lower, "file") || same_text(lower, "3") {
        Some(KeyParams::File)
    } else {
        None
    }
}

/// The parameters after the requested changes, applied in the order
/// compression, key source, parallelism; the first setting that is not
/// understood rejects the whole update with its message.
pub open spec fn spec_apply_param_updates(
    params: EnkryptitParams,
    compression: Option<Seq<char>>,
    key_type: Option<Seq<char>>,
    parallelism: Option<Seq<char>>,
) -> Result<EnkryptitParams, Seq<char>> {
    let after_compression = match compression {
        None => Ok(params),
        Some(c) => match spec_compression_setting(lower_text(c)) {
            Some(t) => Ok(EnkryptitParams { compression: t, ..params }),
            None => Err("Unknown compression: "@ + lower_text(c)),
        },
    };
    let after_key = match after_compression {
        Err(m) => Err(m),
        Ok(p) => match key_type {
            None => Ok(p),
            Some(k) => match spec_key_setting(lower_text(k)) {
                Some(kp) => Ok(EnkryptitParams { key_params: kp, ..p }),
                None => Err("Unknown key type: "@ + lower_text(k)),
            },
        },
    };
    match after_key {
        Err(m) => Err(m),
        Ok(p) => match parallelism {
            None => Ok(p),
            Some(v) => match spec_parse_parallelism(v) {
                Ok(par) => Ok(EnkryptitParams { parallelism: par, ..p }),
                Err(m) => Err(m),
            },
        },
    }
}

/// A text setting as plain characters.
pub open spec fn setting_view(s: Option<String>) -> Option<Seq<char>> {
    match s {
        Some(v) => Some(v@),
        None => None,
    }
}

/// The parameters or the rejection message as plain values.
pub open spec fn update_view(r: Result<EnkryptitParams, String>) -> Result<EnkryptitParams, Seq<char>> {
    match r {
        Ok(p) => Ok(p),
        Err(m) => Err(m@),
    }
}

fn prefixed(prefix: &str, rest: &str) -> (res: String)
    ensures
        res@ == prefix@ + rest@,
{
    let mut s = String::from_str(prefix);
    s.append(rest);
    s
}

/// Applies the settings given on the command line to the current
/// parameters; settings are read ignoring case.
pub fn apply_param_updates(
    params: EnkryptitParams,
    compression: Option<String>,
    key_type: Option<String>,
    parallelism: Option<String>,
) -> (res: Result<EnkryptitParams, String>)
    ensures
        update_view(res) == spec_apply_param_updates(
            params,
            setting_view(compression),
            setting_view(key_type),
            setting_view(parallelism),
        ),
{
    let mut updated = params;
    match &compression {
        Some(c) => {
            let lower = lowercase(c.as_str());
            match compression_setting(lower.as_str()) {
                Some(t) => updated.compression = t,
                None => return Err(prefixed("Unknown compression: ", lower.as_str())),
            }
        },
        None => {},
    }
    match &key_type {
        Some(k) => {
            let lower = lowercase(k.as_str());
            match key_setting(lower.as_str()) {
                Some(kp) => updated.key_params = kp,
                None => return Err(prefixed("Unknown key type: ", lower.as_str())),
            }
        },
        None => {},
    }
    match &parallelism {
        Some(v) => match parse_parallelism(v.as_str()) {
            Ok(par) => updated.parallelism = par,
            Err(m) => return Err(m),
        },
        None => {},
    }
    Ok(updated)
}

/// An accepted parallelism setting never asks for zero threads.
pub proof fn lemma_parsed_thread_count_positive(value: Seq<char>)
    ensures
        spec_parse_parallelism(value) matches Ok(ParallelismType::MultiThread(n)) ==> n > 0,
{
}

/// Repeated updates of the compression keep the other settings, and the
/// last one wins: after an accepted update, a second update gives what
/// that second update alone would give.
pub proof fn lemma_last_compression_wins(params: EnkryptitParams, first: Seq<char>, second: Seq<char>)
    ensures
        spec_apply_param_updates(params, Some(first), None, None) matches Ok(p1) ==> {
            &&& p1.key_params == params.key_params
            &&& p1.parallelism == params.parallelism
            &&& spec_apply_param_updates(p1, Some(second), None, None) == spec_apply_param_updates(
                params,
                Some(second),
                None,
                None,
            )
        },
{
}

/// Every documented compression name, and its menu number, reads as its
/// own algorithm, whatever the case of its letters: updating the
/// parameters with it sets that compression and keeps the rest.
pub proof fn lemma_compression_names(params: EnkryptitParams, setting: Seq<char>)
    requires
        vstd::utf8::is_ascii_chars(setting),
    ensures
        ascii_lower(setting) == "zstd"@ ==> spec_apply_param_updates(params, Some(setting), None, None) == Ok::<EnkryptitParams, Seq<char>>(
            (EnkryptitParams { key_params: params.key_params, compression: CompressionType::Zstd, parallelism: params.parallelism }),
        ),
        ascii_lower(setting) == "1"@ ==> spec_apply_param_updates(params, Some(setting), None, None) == Ok::<EnkryptitParams, Seq<char>>(
            (EnkryptitParams { key_params: params.key_params, compression: CompressionType::Zstd, parallelism: params.parallelism }),
        ),
        ascii_lower(setting) == "lz4"@ ==> spec_apply_param_updates(params, Some(setting), None, None) == Ok::<EnkryptitParams, Seq<char>>(
            (EnkryptitParams { key_params: params.key_params, compression: CompressionType::Lz4, parallelism: params.parallelism }),
        ),
        ascii_lower(setting) == "2"@ ==> spec_apply_param_updates(params, Some(setting), None, None) == Ok::<EnkryptitParams, Seq<char>>(
            (EnkryptitParams { key_params: params.key_params, compression: CompressionType::Lz4, parallelism: params.parallelism }),
        ),
        ascii_lower(setting) == "xz"@ ==> spec_apply_param_updates(params, Some(setting), None, None) == Ok::<EnkryptitParams, Seq<char>>(
            (EnkryptitParams { key_params: params.key_params, compression: CompressionType::Xz, parallelism: params.parallelism }),
        ),
        ascii_lower(setting) == "3"@ ==> spec_apply_param_updates(params, Some(setting), None, None) == Ok::<EnkryptitParams, Seq<char>>(
            (EnkryptitParams { key_params: params.key_params, compression: CompressionType::Xz, parallelism: params.parallelism }),
        ),
        ascii_lower(setting) == "none"@ ==> spec_apply_param_updates(params, Some(setting), None, None) == Ok::<EnkryptitParams, Seq<char>>(
            (EnkryptitParams { key_params: params.key_params, compression: CompressionType::NoComp, parallelism: params.parallelism }),
        ),
        ascii_lower(setting) == "no"@ ==> spec_apply_param_updates(params, Some(setting), None, None) == Ok::<EnkryptitParams, Seq<char>>(
            (EnkryptitParams { key_params: params.key_params, compression: CompressionType::NoComp, parallelism: params.parallelism }),
        ),
        ascii_lower(setting) == "4"@ ==> spec_apply_param_updates(params, Some(setting), None, None) == Ok::<EnkryptitParams, Seq<char>>(
            (EnkryptitParams { key_params: params.key_params, compression: CompressionType::NoComp, parallelism: params.parallelism }),
        ),
        ascii_lower(setting) == "auto"@ ==> spec_apply_param_updates(params, Some(setting), None, None) == Ok::<EnkryptitParams, Seq<char>>(
            (EnkryptitParams { key_params: params.key_params, compression: CompressionType::Auto, parallelism: params.parallelism }),
        ),
        ascii_lower(setting) == "a"@ ==> spec_apply_param_updates(params, Some(setting), None, None) == Ok::<EnkryptitParams, Seq<char>>(
            (EnkryptitParams { key_params: params.key_params, compression: CompressionType::Auto, parallelism: params.parallelism }),
        ),
        ascii_lower(setting) == "5"@ ==> spec_apply_param_updates(params, Some(setting), None, None) == Ok::<EnkryptitParams, Seq<char>>(
            (EnkryptitParams { key_params: params.key_params, compression: CompressionType::Auto, parallelism: params.parallelism }),
        ),
{
    reveal_strlit("1");
    reveal_strlit("2");
    reveal_strlit("3");
    reveal_strlit("4");
    reveal_strlit("5");
    reveal_strlit("a");
    reveal_strlit("auto");
    reveal_strlit("lz4");
    reveal_strlit("no");
    reveal_strlit("none");
    reveal_strlit("xz");
    reveal_strlit("zstd");
    if vstd::utf8::is_ascii_chars(setting) {
        assert(crate::text::lower_text(setting) == ascii_lower(setting));
    }
    if ascii_lower(setting) == "zstd"@ {
    }
    if ascii_lower(setting) == "1"@ {
            assert("1"@ != "zstd"@) by { assert("1"@.len() != "zstd"@.len()); }
    }
    if ascii_lower(setting) == "lz4"@ {
            assert("lz4"@ != "zstd"@) by { assert("lz4"@.len() != "zstd"@.len()); }
            assert("lz4"@ != "1"@) by { assert("lz4"@.len() != "1"@.len()); }
    }
    if ascii_lower(setting) == "2"@ {
            assert("2"@ != "zstd"@) by { assert("2"@.len() != "zstd"@.len()); }
            assert("2"@ != "1"@) by { assert("2"@[0] != "1"@[0]); }
            assert("2"@ != "lz4"@) by { assert("2"@.len() != "lz4"@.len()); }
    }
    if ascii_lower(setting) == "xz"@ {
            assert("xz"@ != "zstd"@) by { assert("xz"@.len() != "zstd"@.len()); }
            assert("xz"@ != "1"@) by { assert("xz"@.len() != "1"@.len()); }
            assert("xz"@ != "lz4"@) by { assert("xz"@.len() != "lz4"@.len()); }
            assert("xz"@ != "2"@) by { assert("xz"@.len() != "2"@.len()); }
    }
    if ascii_lower(setting) == "3"@ {
            assert("3"@ != "zstd"@) by { assert("3"@.len() != "zstd"@.len()); }
            assert("3"@ != "1"@) by { assert("3"@[0] != "1"@[0]); }
            assert("3"@ != "lz4"@) by { assert("3"@.len() != "lz4"@.len()); }
            assert("3"@ != "2"@) by { assert("3"@[0] != "2"@[0]); }
            assert("3"@ != "xz"@) by { assert("3"@.len() != "xz"@.len()); }
    }
    if ascii_lower(setting) == "none"@ {
            assert("none"@ != "zstd"@) by { assert("none"@[0] != "zstd"@[0]); }
            assert("none"@ != "1"@) by { assert("none"@.len() != "1"@.len()); }
            assert("none"@ != "lz4"@) by { assert("none"@.len() != "lz4"@.len()); }
            assert("none"@ != "2"@) by { assert("none"@.len() != "2"@.len()); }
            assert("none"@ != "xz"@) by { assert("none"@.len() != "xz"@.len()); }
            assert("none"@ != "3"@) by { assert("none"@.len() != "3"@.len()); }
    }
    if ascii_lower(setting) == "no"@ {
            assert("no"@ != "zstd"@) by { assert("no"@.len() != "zstd"@.len()); }
            assert("no"@ != "1"@) by { assert("no"@.len() != "1"@.len()); }
            assert("no"@ != "lz4"@) by { assert("no"@.len() != "lz4"@.len()); }
            assert("no"@ != "2"@) by { assert("no"@.len() != "2"@.len()); }
            assert("no"@ != "xz"@) by { assert("no"@[0] != "xz"@[0]); }
            assert("no"@ != "3"@) by { assert("no"@.len() != "3"@.len()); }
            assert("no"@ != "none"@) by { assert("no"@.len() != "none"@.len()); }
    }
    if ascii_lower(setting) == "4"@ {
            assert("4"@ != "zstd"@) by { assert("4"@.len() != "zstd"@.len()); }
            assert("4"@ != "1"@) by { assert("4"@[0] != "1"@[0]); }
            assert("4"@ != "lz4"@) by { assert("4"@.len() != "lz4"@.len()); }
            assert("4"@ != "2"@) by { assert("4"@[0] != "2"@[0]); }
            assert("4"@ != "xz"@) by { assert("4"@.len() != "xz"@.len()); }
            assert("4"@ != "3"@) by { assert("4"@[0] != "3"@[0]); }
            assert("4"@ != "none"@) by { assert("4"@.len() != "none"@.len()); }
            assert("4"@ != "no"@) by { assert("4"@.len() != "no"@.len()); }
    }
    if ascii_lower(setting) == "auto"@ {
            assert("auto"@ != "zstd"@) by { assert("auto"@[0] != "zstd"@[0]); }
            assert("auto"@ != "1"@) by { assert("auto"@.len() != "1"@.len()); }
            assert("auto"@ != "lz4"@) by { assert("auto"@.len() != "lz4"@.len()); }
            assert("auto"@ != "2"@) by { assert("auto"@.len() != "2"@.len()); }
            assert("auto"@ != "xz"@) by { assert("auto"@.len() != "xz"@.len()); }
            assert("auto"@ != "3"@) by { assert("auto"@.len() != "3"@.len()); }
            assert("auto"@ != "none"@) by { assert("auto"@[0] != "none"@[0]); }
            assert("auto"@ != "no"@) by { assert("auto"@.len() != "no"@.len()); }
            assert("auto"@ != "4"@) by { assert("auto"@.len() != "4"@.len()); }
    }
    if ascii_lower(setting) == "a"@ {
            assert("a"@ != "zstd"@) by { assert("a"@.len() != "zstd"@.len()); }
            assert("a"@ != "1"@) by { assert("a"@[0] != "1"@[0]); }
            assert("a"@ != "lz4"@) by { assert("a"@.len() != "lz4"@.len()); }
            assert("a"@ != "2"@) by { assert("a"@[0] != "2"@[0]); }
            assert("a"@ != "xz"@) by { assert("a"@.len() != "xz"@.len()); }
            assert("a"@ != "3"@) by { assert("a"@[0] != "3"@[0]); }
            assert("a"@ != "none"@) by { assert("a"@.len() != "none"@.len()); }
            assert("a"@ != "no"@) by { assert("a"@.len() != "no"@.len()); }
            assert("a"@ != "4"@) by { assert("a"@[0] != "4"@[0]); }
            assert("a"@ != "auto"@) by { assert("a"@.len() != "auto"@.len()); }
    }
    if ascii_lower(setting) == "5"@ {
            assert("5"@ != "zstd"@) by { assert("5"@.len() != "zstd"@.len()); }
            assert("5"@ != "1"@) by { assert("5"@[0] != "1"@[0]); }
            assert("5"@ != "lz4"@) by { assert("5"@.len() != "lz4"@.len()); }
            assert("5"@ != "2"@) by { assert("5"@[0] != "2"@[0]); }
            assert("5"@ != "xz"@) by { assert("5"@.len() != "xz"@.len()); }
            assert("5"@ != "3"@) by { assert("5"@[0] != "3"@[0]); }
            assert("5"@ != "none"@) by { assert("5"@.len() != "none"@.len()); }
            assert("5"@ != "no"@) by { assert("5"@.len() != "no"@.len()); }
            assert("5"@ != "4"@) by { assert("5"@[0] != "4"@[0]); }
            assert("5"@ != "auto"@) by { assert("5"@.len() != "auto"@.len()); }
            assert("5"@ != "a"@) by { assert("5"@[0] != "a"@[0]); }
    }
}

/// Every documented key-type name, and its menu number, reads as its key
/// source, whatever the case of its letters: updating the parameters with
/// it sets that key source and keeps the rest.
pub proof fn lemma_key_type_names(params: EnkryptitParams, setting: Seq<char>)
    requires
        vstd::utf8::is_ascii_chars(setting),
    ensures
        ascii_lower(setting) == "password"@ ==> spec_apply_param_updates(params, None, Some(setting), None) == Ok::<EnkryptitParams, Seq<char>>(
            (EnkryptitParams { key_params: KeyParams::PassWord, compression: params.compression, parallelism: params.parallelism }),
        ),
        ascii_lower(setting) == "pwd"@ ==> spec_apply_param_updates(params, None, Some(setting), None) == Ok::<EnkryptitParams, Seq<char>>(
            (EnkryptitParams { key_params: KeyParams::PassWord, compression: params.compression, parallelism: params.parallelism }),
        ),
        ascii_lower(setting) == "1"@ ==> spec_apply_param_updates(params, None, Some(setting), None) == Ok::<EnkryptitParams, Seq<char>>(
            (EnkryptitParams { key_params: KeyParams::PassWord, compression: params.compression, parallelism: params.parallelism }),
        ),
        ascii_lower(setting) == "os"@ ==> spec_apply_param_updates(params, None, Some(setting), None) == Ok::<EnkryptitParams, Seq<char>>(
            (EnkryptitParams { key_params: KeyParams::Os, compression: params.compression, parallelism: params.parallelism }),
        ),
        ascii_lower(setting) == "2"@ ==> spec_apply_param_updates(params, None, Some(setting), None) == Ok::<EnkryptitParams, Seq<char>>(
            (EnkryptitParams { key_params: KeyParams::Os, compression: params.compression, parallelism: params.parallelism }),
        ),
        ascii_lower(setting) == "file"@ ==> spec_apply_param_updates(params, None, Some(setting), None) == Ok::<EnkryptitParams, Seq<char>>(
            (EnkryptitParams { key_params: KeyParams::File, compression: params.compression, parallelism: params.parallelism }),
        ),
        ascii_lower(setting) == "3"@ ==> spec_apply_param_updates(params, None, Some(setting), None) == Ok::<EnkryptitParams, Seq<char>>(
            (EnkryptitParams { key_params: KeyParams::File, compression: params.compression, parallelism: params.parallelism }),
        ),
{
    reveal_strlit("1");
    reveal_strlit("2");
    reveal_strlit("3");
    reveal_strlit("file");
    reveal_strlit("os");
    reveal_strlit("password");
    reveal_strlit("pwd");
    if vstd::utf8::is_ascii_chars(setting) {
        assert(crate::text::lower_text(setting) == ascii_lower(setting));
    }
    if ascii_lower(setting) == "password"@ {
    }
    if ascii_lower(setting) == "pwd"@ {
            assert("pwd"@ != "password"@) by { assert("pwd"@.len() != "password"@.len()); }
    }
    if ascii_lower(setting) == "1"@ {
            assert("1"@ != "password"@) by { assert("1"@.len() != "password"@.len()); }
            assert("1"@ != "pwd"@) by { assert("1"@.len() != "pwd"@.len()); }
    }
    if ascii_lower(setting) == "os"@ {
            assert("os"@ != "password"@) by { assert("os"@.len() != "password"@.len()); }
            assert("os"@ != "pwd"@) by { assert("os"@.len() != "pwd"@.len()); }
            assert("os"@ != "1"@) by { assert("os"@.len() != "1"@.len()); }
    }
    if ascii_lower(setting) == "2"@ {
            assert("2"@ != "password"@) by { assert("2"@.len() != "password"@.len()); }
            assert("2"@ != "pwd"@) by { assert("2"@.len() != "pwd"@.len()); }
            assert("2"@ != "1"@) by { assert("2"@[0] != "1"@[0]); }
            assert("2"@ != "os"@) by { assert("2"@.len() != "os"@.len()); }
    }
    if ascii_lower(setting) == "file"@ {
            assert("file"@ != "password"@) by { assert("file"@.len() != "password"@.len()); }
            assert("file"@ != "pwd"@) by { assert("file"@.len() != "pwd"@.len()); }
            assert("file"@ != "1"@) by { assert("file"@.len() != "1"@.len()); }
            assert("file"@ != "os"@) by { assert("file"@.len() != "os"@.len()); }
            assert("file"@ != "2"@) by { assert("file"@.len() != "2"@.len()); }
    }
    if ascii_lower(setting) == "3"@ {
            assert("3"@ != "password"@) by { assert("3"@.len() != "password"@.len()); }
            assert("3"@ != "pwd"@) by { assert("3"@.len() != "pwd"@.len()); }
            assert("3"@ != "1"@) by { assert("3"@[0] != "1"@[0]); }
            assert("3"@ != "os"@) by { assert("3"@.len() != "os"@.len()); }
            assert("3"@ != "2"@) by { assert("3"@[0] != "2"@[0]); }
            assert("3"@ != "file"@) by { assert("3"@.len() != "file"@.len()); }
    }
}

} // verus!
