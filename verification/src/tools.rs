//! External tools: their versions, and how a downloaded archive is unpacked.

use vstd::prelude::*;
use crate::fs_path::FilePath;
use crate::text::{
    decimal, ends_with, lemma_decimal_denotes, lemma_split_append, lemma_split_separator, names_view,
    parse_u32, parsed_u32, push_decimal, split, split_str, str_contains, str_ends_with,
};

verus! {

/// The version of a tool: two numbers, and a third where the tool has one.
#[derive(Debug, Clone, PartialEq, Eq, PartialOrd, Ord)]
pub struct Version {
    pub mayor: u32,
    pub minor: u32,
    pub patch: Option<u32>,
}

/// Why a text is no version.
#[derive(Debug, Clone, Copy, PartialEq, Eq, Structural)]
pub enum VersionError {
    /// The text has fewer than two or more than three parts.
    Format,
    /// The first part is no number.
    Mayor,
    /// The second part is no number.
    Minor,
    /// The third part is no number.
    Patch,
}

/// The version that `s` denotes: two or three numbers with a dot between
/// them.
pub open spec fn parsed_version(s: Seq<char>) -> Result<Version, VersionError> {
    let parts = split(s, '.');
    if !(2 <= parts.len() <= 3) {
        Err(VersionError::Format)
    } else if parsed_u32(parts[0]) is None {
        Err(VersionError::Mayor)
    } else if parsed_u32(parts[1]) is None {
        Err(VersionError::Minor)
    } else if parts.len() == 3 && parsed_u32(parts[2]) is None {
        Err(VersionError::Patch)
    } else {
        Ok(
            Version {
                mayor: parsed_u32(parts[0])->Some_0,
                minor: parsed_u32(parts[1])->Some_0,
                patch: if parts.len() == 3 {
                    parsed_u32(parts[2])
                } else {
                    None
                },
            },
        )
    }
}

impl VersionError {
    /// The text that describes the error.
    pub open spec fn description(self) -> Seq<char> {
        match self {
            VersionError::Format => "invalid string, expected 2 or 3 numbers"@,
            VersionError::Mayor => "invalid `mayor` in version string"@,
            VersionError::Minor => "invalid `minor` in version string"@,
            VersionError::Patch => "invalid `patch` in version string"@,
        }
    }

    /// The text that describes the error.
    pub fn message(&self) -> (text: String)
        ensures
            text@ == self.description(),
    {
        match self {
            VersionError::Format => "invalid string, expected 2 or 3 numbers".to_owned(),
            VersionError::Mayor => "invalid `mayor` in version string".to_owned(),
            VersionError::Minor => "invalid `minor` in version string".to_owned(),
            VersionError::Patch => "invalid `patch` in version string".to_owned(),
        }
    }
}

impl Version {
    /// The version in writing: the numbers in decimal, with a dot between them.
    pub open spec fn text(self) -> Seq<char> {
        decimal(self.mayor as nat) + seq!['.'] + decimal(self.minor as nat) + match self.patch {
            Some(patch) => seq!['.'] + decimal(patch as nat),
            None => Seq::empty(),
        }
    }

    /// The version with the given numbers.
    pub fn new(mayor: u32, minor: u32, patch: Option<u32>) -> (v: Version)
        ensures
            v == (Version { mayor, minor, patch }),
    {
        Version { mayor, minor, patch }
    }

    /// The version in writing, as `1.2` or `1.2.3`.
    pub fn to_string(&self) -> (s: String)
        ensures
            s@ == self.text(),
    {
        let mut s = String::new();
        push_decimal(&mut s, self.mayor);
        s.push('.');
        push_decimal(&mut s, self.minor);
        match self.patch {
            Some(patch) => {
                s.push('.');
                push_decimal(&mut s, patch);
            },
            None => {},
        }
        assert(s@ =~= self.text());
        s
    }

    /// The version that `s` denotes.
    pub fn parse(s: &str) -> (r: Result<Version, VersionError>)
        ensures
            r == parsed_version(s@),
    {
        let parts = split_str(s, '.');
        if parts.len() < 2 || parts.len() > 3 {
            return Err(VersionError::Format);
        }
        assert(names_view(parts@)[0] == parts@[0]@);
        assert(names_view(parts@)[1] == parts@[1]@);
        let mayor = match parse_u32(parts[0].as_str()) {
            Some(n) => n,
            None => {
                return Err(VersionError::Mayor);
            },
        };
        let minor = match parse_u32(parts[1].as_str()) {
            Some(n) => n,
            None => {
                return Err(VersionError::Minor);
            },
        };
        let patch = if parts.len() == 3 {
            assert(names_view(parts@)[2] == parts@[2]@);
            match parse_u32(parts[2].as_str()) {
                Some(n) => Some(n),
                None => {
                    return Err(VersionError::Patch);
                },
            }
        } else {
            None
        };
        Ok(Version::new(mayor, minor, patch))
    }
}

/// A version in writing is read back as that version.
pub proof fn law_version_text_parses_back(v: Version)
    ensures
        parsed_version(v.text()) == Ok::<Version, VersionError>(v),
{
    let a = decimal(v.mayor as nat);
    let b = decimal(v.minor as nat);
    lemma_decimal_denotes(v.mayor as nat);
    lemma_decimal_denotes(v.minor as nat);
    let none = Seq::<char>::empty();
    // the first number
    assert(split(none, '.') =~= seq![none]);
    lemma_split_append(none, a, '.');
    assert(none + a =~= a);
    assert(split(a, '.') =~= seq![a]);
    // the dot and the second number
    lemma_split_separator(a, '.');
    assert(a.push('.') =~= a + seq!['.']);
    lemma_split_append(a + seq!['.'], b, '.');
    let two = a + seq!['.'] + b;
    assert(none + b =~= b);
    assert(split(two, '.') =~= seq![a, b]);
    match v.patch {
        Some(patch) => {
            let c = decimal(patch as nat);
            lemma_decimal_denotes(patch as nat);
            lemma_split_separator(two, '.');
            assert(two.push('.') =~= two + seq!['.']);
            lemma_split_append(two + seq!['.'], c, '.');
            assert(none + c =~= c);
            assert(v.text() =~= two + seq!['.'] + c);
            assert(split(v.text(), '.') =~= seq![a, b, c]);
        },
        None => {
            assert(v.text() =~= two);
        },
    }
}

impl std::str::FromStr for Version {
    type Err = VersionError;

    /// The version that `s` denotes: two or three numbers with a dot between
    /// them. A text of another shape is refused, with the part that is at
    /// fault.
    fn from_str(s: &str) -> (r: Result<Version, VersionError>)
        ensures
            r == parsed_version(s@),
    {
        Version::parse(s)
    }
}

/// How a tool is to be loaded.
#[derive(Debug)]
pub struct LoadOptions {
    /// The version wanted; the tool's default where none is given.
    pub version: Option<Version>,
    /// Where the tool is installed; the cache directory where none is given.
    pub install_dir: Option<FilePath>,
}

impl LoadOptions {
    /// The version to load: the one these options name, else `default`.
    pub fn version_or(&self, default: Version) -> (v: Version)
        ensures
            v == match self.version {
                Some(named) => named,
                None => default,
            },
    {
        match &self.version {
            Some(named) => Version { mayor: named.mayor, minor: named.minor, patch: named.patch },
            None => default,
        }
    }
}

impl Default for LoadOptions {
    /// The default version, in the cache directory.
    fn default() -> (o: LoadOptions)
        ensures
            o.version is None,
            o.install_dir is None,
    {
        LoadOptions { version: None, install_dir: None }
    }
}

/// An external tool.
pub trait Tool: Sized {
    /// Name of the executable binary of this tool.
    fn binary_name() -> String;

    /// Returns the default version of this tool.
    fn default_version() -> Version;

    /// Returns the arguments used to execute the test command of this tool.
    fn test_version_args() -> Vec<String>;

    /// Parses the version of this tool from what its test command printed.
    fn parse_version(s: &str) -> Result<Version, VersionError>;

    /// Additional files to include when loading this tool.
    fn additional_files() -> Vec<String>;

    /// Returns the path to the executable.
    fn binary_path(&self) -> &FilePath;
}

/// Where a tool is taken from.
#[derive(Debug, Clone, Copy, PartialEq, Eq, Structural)]
pub enum ToolSource {
    /// The cache holds the wanted version.
    Cache,
    /// The tool is downloaded and installed.
    Install,
}

/// Where a tool is taken from, given the version wanted and the version that
/// the cache holds, if any: from the cache where the two are the same, else by
/// installing it.
pub fn tool_source(wanted: &Version, cached: Option<&Version>) -> (r: ToolSource)
    ensures
        r == ToolSource::Cache <==> (cached matches Some(have) && same_version(*have, *wanted)),
        r == ToolSource::Install <==> !(cached matches Some(have) && same_version(*have, *wanted)),
{
    match cached {
        Some(have) => if versions_equal(have, wanted) {
            ToolSource::Cache
        } else {
            ToolSource::Install
        },
        None => ToolSource::Install,
    }
}

/// Whether two versions have the same numbers.
pub open spec fn same_version(a: Version, b: Version) -> bool {
    a.mayor == b.mayor && a.minor == b.minor && a.patch == b.patch
}

/// Whether two versions have the same numbers.
pub fn versions_equal(a: &Version, b: &Version) -> (r: bool)
    ensures
        r == same_version(*a, *b),
{
    a.mayor == b.mayor && a.minor == b.minor && match (a.patch, b.patch) {
        (Some(x), Some(y)) => x == y,
        (None, None) => true,
        _ => false,
    }
}

/// The compressed file.
#[derive(Debug)]
pub struct Compressed(pub String);

/// A decompressor for a file.
#[derive(Debug)]
pub enum Decompressor {
    /// A `tar.gz` decompressor
    TarGz(Compressed),
    /// A `zip` decompressor.
    Zip(Compressed),
    /// No decompression just copies the files.
    Copy(Compressed),
}

/// Why there is no decompressor for a file.
#[derive(Debug, Clone, Copy, PartialEq, Eq, Structural)]
pub enum DecompressError {
    /// The file does not exist.
    Missing,
    /// The file has an extension that no decompressor takes.
    Unsupported,
}

/// The ways in which a file is unpacked.
#[derive(Debug, Clone, Copy, PartialEq, Eq, Structural)]
pub enum ArchiveKind {
    TarGz,
    Zip,
    Copy,
}

/// How the file at `path` is unpacked, going by its name: as `tar.gz` or as
/// `zip` by its ending; copied as it is where the name holds no dot; not at
/// all where it holds one otherwise.
pub open spec fn archive_kind(path: Seq<char>) -> Option<ArchiveKind> {
    if ends_with(path, ".tar.gz"@) {
        Some(ArchiveKind::TarGz)
    } else if ends_with(path, ".zip"@) {
        Some(ArchiveKind::Zip)
    } else if path.contains('.') {
        None
    } else {
        Some(ArchiveKind::Copy)
    }
}

impl DecompressError {
    /// The text that describes the error.
    pub open spec fn description(self) -> Seq<char> {
        match self {
            DecompressError::Missing => "file don't exists"@,
            DecompressError::Unsupported => "no decompressor for the file"@,
        }
    }

    /// The text that describes the error.
    pub fn message(&self) -> (text: String)
        ensures
            text@ == self.description(),
    {
        match self {
            DecompressError::Missing => "file don't exists".to_owned(),
            DecompressError::Unsupported => "no decompressor for the file".to_owned(),
        }
    }
}

impl Decompressor {
    /// The way in which this decompressor unpacks.
    pub open spec fn kind(self) -> ArchiveKind {
        match self {
            Decompressor::TarGz(_) => ArchiveKind::TarGz,
            Decompressor::Zip(_) => ArchiveKind::Zip,
            Decompressor::Copy(_) => ArchiveKind::Copy,
        }
    }

    /// The path of the file that this decompressor unpacks.
    pub open spec fn file(self) -> Seq<char> {
        match self {
            Decompressor::TarGz(c) => c.0@,
            Decompressor::Zip(c) => c.0@,
            Decompressor::Copy(c) => c.0@,
        }
    }

    /// Gets a decompressor for the file at `file_path`, which the caller found
    /// to exist or not. A file without extension gets a decompressor that just
    /// copies the contents.
    pub fn get(file_path: &str, exists: bool) -> (r: Result<Option<Decompressor>, DecompressError>)
        ensures
            !exists ==> r == Err::<Option<Decompressor>, DecompressError>(DecompressError::Missing),
            exists && archive_kind(file_path@) is None ==> r == Err::<
                Option<Decompressor>,
                DecompressError,
            >(DecompressError::Unsupported),
            exists && archive_kind(file_path@) is Some ==> (r matches Ok(Some(d)) && d.kind()
                == archive_kind(file_path@)->Some_0 && d.file() == file_path@),
    {
        if !exists {
            return Err(DecompressError::Missing);
        }
        let compressed = Compressed(file_path.to_owned());
        if str_ends_with(file_path, ".tar.gz") {
            Ok(Some(Decompressor::TarGz(compressed)))
        } else if str_ends_with(file_path, ".zip") {
            Ok(Some(Decompressor::Zip(compressed)))
        } else if str_contains(file_path, '.') {
            Err(DecompressError::Unsupported)
        } else {
            Ok(Some(Decompressor::Copy(compressed)))
        }
    }
}

/// The name under which the file at `url` is stored: what follows the last
/// slash, or all of it where there is none.
pub open spec fn url_file_name(url: Seq<char>) -> Seq<char> {
    split(url, '/').last()
}

/// The name under which the file at `url` is stored.
pub fn file_name_of_url(url: &str) -> (name: String)
    ensures
        name@ == url_file_name(url@),
{
    let mut parts = split_str(url, '/');
    let ghost all = names_view(parts@);
    match parts.pop() {
        Some(last) => {
            assert(last@ == all.last());
            last
        },
        None => String::new(),
    }
}

} // verus!
