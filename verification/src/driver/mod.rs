pub mod manifest;

use vstd::prelude::*;
use std::path::PathBuf;
use crate::compiler::diagnostics::{Diagnostic, EditorLocation, Severity};
use crate::compiler::strings::{self, concat3, str_eq};
use vstd::string::StringSliceAdditionalSpecFns;
use crate::frontend;
use crate::ir;

verus! {

/// A set of source files compiled in one dialect and, where it has one, one language.
#[derive(Clone, Debug)]
pub struct Target {
    pub name: String,
    pub files: Vec<String>,
    pub language: Option<ir::Language>,
    pub language_config: frontend::LanguageSettings,
    pub dialect: ir::Dialect,
    pub dialect_config: frontend::DialectConfig,
    pub encoding: strings::Encoding,
}

/// An output built from targets.
pub struct Product {
    pub format: String,
    pub targets: Option<Vec<String>>,
}

/// A role that entries can take, by its label.
pub struct Role {
    pub label: String,
}

/// A property that entries can have, by its label.
pub struct Property {
    pub label: String,
}

/// The C settings of the compiler.
pub struct CLanguageSettings {
    pub sema_gen: frontend::c::sema_gen::Config,
}

/// A Doxygen command that the configuration defines: its parameters, and its actions by name.
pub struct DoxygenCommand {
    pub name: String,
    pub parameters: Vec<String>,
    pub actions: Vec<(String, DoxygenAction)>,
}

/// An action of a configured Doxygen command; it holds nothing yet.
pub struct DoxygenAction {}

/// The Doxygen settings of the compiler: the commands that the configuration defines.
pub struct DoxygenSettings {
    pub commands: Vec<DoxygenCommand>,
}

/// Where the compiler works.
pub struct Config {
    pub base_path: PathBuf,
}

#[verifier::external_type_specification]
#[verifier::external_body]
pub struct ExPatternError(glob::PatternError);

#[verifier::external_type_specification]
#[verifier::external_body]
pub struct ExGlobError(glob::GlobError);

#[verifier::external_type_specification]
#[verifier::external_body]
pub struct ExJoinError(tokio::task::JoinError);

#[verifier::external_type_specification]
#[verifier::external_body]
pub struct ExIoError(std::io::Error);

/// Why a target could not be compiled.
pub enum TargetError {
    InvalidGlobPattern(String, String, glob::PatternError),
    Glob(String, String, glob::GlobError),
    UnsupportedDialect(ir::Dialect, String),
    UnsupportedLanguage(ir::Language, String),
    InvalidTargetConfiguration(String),
    Concurrency(tokio::task::JoinError),
    UnreadableFile(PathBuf, String, std::io::Error),
}

impl TargetError {
    /// Every target error is an error.
    pub fn severity(&self) -> (r: Severity)
        ensures
            r == Severity::Error,
    {
        Severity::Error
    }
}

impl<L: EditorLocation> Diagnostic<L> for TargetError {
    fn severity(&self) -> (r: Severity)
        ensures
            r == Severity::Error,
    {
        TargetError::severity(self)
    }
}

/// A path that is relative on every platform: it is empty, or it starts with neither `/` nor
/// `\\` and has no `:` as its second character (so it has no root, no drive and no other
/// Windows prefix).
pub open spec fn plainly_relative(path: Seq<char>) -> bool {
    path.len() == 0 || (path[0] != '/' && path[0] != '\\' && !(path.len() >= 2 && path[1] == ':'))
}

/// Whether a path is absolute on this platform (`Path::is_absolute`). Its documentation: on
/// Unix a path is absolute where it starts with the root, on Windows where it has a prefix (a
/// drive such as `c:`, or one that starts with `\\`) and starts with the root. Stated: a path
/// that is relative on every platform is not absolute; what holds of other paths differs
/// between platforms and is not stated.
#[verifier::external_body]
fn path_is_absolute(path: &str) -> (r: bool)
    ensures
        plainly_relative(path@) ==> !r,
{
    std::path::Path::new(path).is_absolute()
}

impl Target {
    /// The glob pattern of a file entry: the entry itself where it is an absolute path, and the
    /// entry after the base path otherwise.
    pub fn glob_pattern(base: &str, file: &str) -> (r: String)
        ensures
            r@ == file@ || r@ == base@ + file@,
            plainly_relative(file@) ==> r@ == base@ + file@,
    {
        if path_is_absolute(file) {
            String::from_str(file)
        } else {
            let mut s = String::from_str(base);
            s.append(file);
            s
        }
    }

    /// Checks that the target's language can be compiled: a target without a language compiles
    /// nothing, C is supported, and any other language is refused.
    pub fn check_language(&self) -> (r: Result<(), TargetError>)
        ensures
            match self.language {
                None => r is Ok,
                Some(ir::Language::C) => r is Ok,
                Some(l) => r matches Err(TargetError::UnsupportedLanguage(e, n)) && e == l && n@ == self.name@,
            },
    {
        match self.language {
            None => Ok(()),
            Some(ir::Language::C) => Ok(()),
            Some(language) => Err(TargetError::UnsupportedLanguage(language, self.name.clone())),
        }
    }

    /// Checks that the target's dialect can be compiled: only Doxygen is supported.
    pub fn check_dialect(&self) -> (r: Result<(), TargetError>)
        ensures
            self.dialect == ir::Dialect::Doxygen ==> r is Ok,
            self.dialect != ir::Dialect::Doxygen ==> (r matches Err(TargetError::UnsupportedDialect(d, n))
                && d == self.dialect && n@ == self.name@),
    {
        match self.dialect {
            ir::Dialect::Doxygen => Ok(()),
            dialect => Err(TargetError::UnsupportedDialect(dialect, self.name.clone())),
        }
    }
}

/// The formats a manifest may be written in.
#[derive(Clone, Copy, Debug, PartialEq, Eq, Structural)]
pub enum ManifestFormat {
    JSON,
    StrictYAML,
    TOML,
}

/// The keyword of a manifest format.
pub open spec fn spec_manifest_format_keyword(f: ManifestFormat) -> Seq<char> {
    match f {
        ManifestFormat::JSON => "json"@,
        ManifestFormat::StrictYAML => "yaml"@,
        ManifestFormat::TOML => "toml"@,
    }
}

/// The manifest format a name (such as a file extension) stands for.
pub open spec fn spec_manifest_format_from_str(s: Seq<char>) -> Option<ManifestFormat> {
    if s == "json"@ || s == "JSON"@ {
        Some(ManifestFormat::JSON)
    } else if s == "yml"@ || s == "yaml"@ || s == "YAML"@ {
        Some(ManifestFormat::StrictYAML)
    } else if s == "toml"@ || s == "TOML"@ {
        Some(ManifestFormat::TOML)
    } else {
        None
    }
}

impl ManifestFormat {
    /// The format's keyword, as messages name it.
    pub fn keyword(&self) -> (r: &'static str)
        ensures
            r@ == spec_manifest_format_keyword(*self),
    {
        match self {
            ManifestFormat::JSON => "json",
            ManifestFormat::StrictYAML => "yaml",
            ManifestFormat::TOML => "toml",
        }
    }

    /// The format a name stands for; any other name is refused with a message.
    pub fn from_str(s: &str) -> (r: Result<ManifestFormat, String>)
        ensures
            match spec_manifest_format_from_str(s@) {
                Some(f) => r == Ok::<ManifestFormat, String>(f),
                None => r matches Err(m) && m@ == "Unknown and unsupported manifest format '"@ + s@ + "'"@,
            },
    {
        if str_eq(s, "json") || str_eq(s, "JSON") {
            Ok(ManifestFormat::JSON)
        } else if str_eq(s, "yml") || str_eq(s, "yaml") || str_eq(s, "YAML") {
            Ok(ManifestFormat::StrictYAML)
        } else if str_eq(s, "toml") || str_eq(s, "TOML") {
            Ok(ManifestFormat::TOML)
        } else {
            Err(concat3("Unknown and unsupported manifest format '", s, "'"))
        }
    }
}

/// Where a manifest is looked for when none is named, in order: `doc.json`, then `doc.json`
/// and `doc.yaml` under `doc`, `docs` and `Documentation`, the formats the manifest is read in.
pub open spec fn spec_well_known_config_paths() -> Seq<Seq<char>> {
    seq!["doc.json"@, "doc/doc.json"@, "docs/doc.json"@, "Documentation/doc.json"@,
        "doc/doc.yaml"@, "docs/doc.yaml"@, "Documentation/doc.yaml"@]
}

/// Where a manifest is looked for when none is named, in order.
pub fn well_known_config_paths() -> (r: Vec<&'static str>)
    ensures
        r@.map_values(|p: &str| p@) == spec_well_known_config_paths(),
{
    let r = vec!["doc.json", "doc/doc.json", "docs/doc.json", "Documentation/doc.json",
        "doc/doc.yaml", "docs/doc.yaml", "Documentation/doc.yaml"];
    assert(r@.map_values(|p: &str| p@) =~= spec_well_known_config_paths());
    r
}

/// The first of the well-known manifest paths that exists, given for each whether it exists.
pub fn try_well_known_config_paths(exists: &Vec<bool>) -> (r: Option<&'static str>)
    requires
        exists@.len() == 7,
    ensures
        match r {
            Some(p) => exists|k: int| 0 <= k < 7 && exists@[k] && p@ == spec_well_known_config_paths()[k]
                && forall|j: int| 0 <= j < k ==> !exists@[j],
            None => forall|j: int| 0 <= j < 7 ==> !exists@[j],
        },
{
    let paths = well_known_config_paths();
    assert(paths@.len() == paths@.map_values(|p: &str| p@).len());
    let mut k: usize = 0;
    while k < 7
        invariant
            paths@.map_values(|p: &str| p@) == spec_well_known_config_paths(),
            paths@.len() == 7,
            exists@.len() == 7,
            k <= 7,
            forall|j: int| 0 <= j < k ==> !exists@[j],
        decreases 7 - k,
    {
        if exists[k] {
            assert(paths@.map_values(|p: &str| p@)[k as int] == paths@[k as int]@);
            return Some(paths[k]);
        }
        k = k + 1;
    }
    None
}

/// Why a manifest's bytes could not be read as text.
pub enum ManifestDecodingError {
    /// The bytes are not valid UTF-16; the message says why.
    TranscodingFailure(String),
    /// The bytes are not valid UTF-8.
    EncodingError,
}

/// The text that UTF-16 bytes of the given byte order decode to, where they are valid.
pub uninterp spec fn utf16_decoded(data: Seq<u8>, little_endian: bool) -> Option<Seq<char>>;

/// `encoding::all::UTF_16LE` (or `UTF_16BE`) `.decode(data, DecoderTrap::Strict)`: the text the
/// bytes decode to, or a message where they are not valid UTF-16; which message is not stated.
#[verifier::external_body]
fn decode_utf16(data: &[u8], little_endian: bool) -> (r: Result<String, String>)
    ensures
        r is Ok <==> utf16_decoded(data@, little_endian) is Some,
        r matches Ok(s) ==> utf16_decoded(data@, little_endian) == Some(s@),
{
    let codec: encoding::EncodingRef = if little_endian { encoding::all::UTF_16LE } else { encoding::all::UTF_16BE };
    codec.decode(data, encoding::DecoderTrap::Strict).map_err(|e| e.into_owned())
}

/// `std::str::from_utf8`: the text where the bytes are valid UTF-8.
#[verifier::external_body]
fn utf8_text(data: &[u8]) -> (r: Option<&str>)
    ensures
        r is Some <==> vstd::utf8::valid_utf8(data@),
        r matches Some(s) ==> s.spec_bytes() == data@,
{
    std::str::from_utf8(data).ok()
}

/// The text of a manifest's bytes in the given encoding.
pub fn decode_manifest(data: &[u8], encoding: strings::Encoding) -> (r: Result<String, ManifestDecodingError>)
    ensures
        encoding == strings::Encoding::UTF8 ==> (r is Ok <==> vstd::utf8::valid_utf8(data@))
            && (r matches Ok(s) ==> s@.len() >= 0 && vstd::utf8::encode_utf8(s@) == data@)
            && (r is Err ==> r matches Err(ManifestDecodingError::EncodingError)),
        encoding matches strings::Encoding::UTF16(e) ==> {
            let le = e == strings::Endianness::LittleEndian;
            &&& (r is Ok <==> utf16_decoded(data@, le) is Some)
            &&& (r matches Ok(s) ==> utf16_decoded(data@, le) == Some(s@))
            &&& (r is Err ==> r matches Err(ManifestDecodingError::TranscodingFailure(_)))
        },
{
    match encoding {
        strings::Encoding::UTF8 => match utf8_text(data) {
            Some(s) => Ok(s.to_string()),
            None => Err(ManifestDecodingError::EncodingError),
        },
        strings::Encoding::UTF16(e) => {
            let le = match e {
                strings::Endianness::LittleEndian => true,
                strings::Endianness::BigEndian => false,
            };
            match decode_utf16(data, le) {
                Ok(s) => Ok(s),
                Err(m) => Err(ManifestDecodingError::TranscodingFailure(m)),
            }
        },
    }
}

} // verus!

