//! Shared schema types of the launcher: loaders, Modrinth requests and
//! results, Forge version fragments, instance configuration, and the
//! version-manifest vocabulary. Network-facing serialization of these
//! types lives outside the library.

use vstd::prelude::*;
use vstd::string::*;
use crate::strutil::str_eq;

verus! {

// ---------------------------------------------------------------------
// Loaders
// ---------------------------------------------------------------------

/// A mod loader an instance can be built on.
#[derive(Clone, Copy, Debug, PartialEq, Eq, Structural, Hash)]
pub enum Loader {
    Vanilla,
    Fabric,
    Forge,
    NeoForge,
    Unknown,
}

pub open spec fn loader_name_spec(l: Loader) -> Seq<char> {
    match l {
        Loader::Vanilla => "Vanilla"@,
        Loader::Fabric => "Fabric"@,
        Loader::Forge => "Forge"@,
        Loader::NeoForge => "NeoForge"@,
        Loader::Unknown => "Unknown"@,
    }
}

pub open spec fn loader_from_name_spec(s: Seq<char>) -> Loader {
    if s == "Vanilla"@ || s == "vanilla"@ {
        Loader::Vanilla
    } else if s == "Fabric"@ || s == "fabric"@ {
        Loader::Fabric
    } else if s == "Forge"@ || s == "forge"@ {
        Loader::Forge
    } else if s == "NeoForge"@ || s == "neoforge"@ {
        Loader::NeoForge
    } else {
        Loader::Unknown
    }
}

impl Loader {
    /// The display name of the loader.
    pub fn name(self) -> (r: &'static str)
        ensures
            r@ == loader_name_spec(self),
    {
        match self {
            Loader::Vanilla => "Vanilla",
            Loader::Fabric => "Fabric",
            Loader::Forge => "Forge",
            Loader::NeoForge => "NeoForge",
            Loader::Unknown => "Unknown",
        }
    }

    /// The loader a display name (either case of its initial) stands for.
    pub fn from_name(s: &str) -> (r: Self)
        ensures
            r == loader_from_name_spec(s@),
    {
        if str_eq(s, "Vanilla") || str_eq(s, "vanilla") {
            Loader::Vanilla
        } else if str_eq(s, "Fabric") || str_eq(s, "fabric") {
            Loader::Fabric
        } else if str_eq(s, "Forge") || str_eq(s, "forge") {
            Loader::Forge
        } else if str_eq(s, "NeoForge") || str_eq(s, "neoforge") {
            Loader::NeoForge
        } else {
            Loader::Unknown
        }
    }

    /// The Modrinth loader facet this loader corresponds to.
    pub fn as_modrinth_loader(self) -> (r: ModrinthLoader)
        ensures
            r == (match self {
                Loader::Vanilla => ModrinthLoader::Unknown,
                Loader::Fabric => ModrinthLoader::Fabric,
                Loader::Forge => ModrinthLoader::Forge,
                Loader::NeoForge => ModrinthLoader::NeoForge,
                Loader::Unknown => ModrinthLoader::Unknown,
            }),
    {
        match self {
            Loader::Vanilla => ModrinthLoader::Unknown,
            Loader::Fabric => ModrinthLoader::Fabric,
            Loader::Forge => ModrinthLoader::Forge,
            Loader::NeoForge => ModrinthLoader::NeoForge,
            Loader::Unknown => ModrinthLoader::Unknown,
        }
    }
}

// ---------------------------------------------------------------------
// Modrinth vocabulary
// ---------------------------------------------------------------------

/// Why a Modrinth request failed.
#[derive(Clone, Debug, PartialEq, Eq)]
pub enum ModrinthError {
    ClientRequestError,
    DeserializeError,
    ModrinthResponse(ModrinthErrorResponse),
    NonOK(u16),
}

/// The structured error body Modrinth returns.
#[derive(Clone, Debug, PartialEq, Eq)]
pub struct ModrinthErrorResponse {
    pub error: String,
    pub description: String,
}

/// A request the frontend can make against Modrinth.
#[derive(Clone, Debug, PartialEq, Eq, PartialOrd, Ord, Hash)]
pub enum ModrinthRequest {
    Search(ModrinthSearchRequest),
    ProjectVersions(ModrinthProjectVersionsRequest),
}

/// A Modrinth project search.
#[derive(Clone, Debug, PartialEq, Eq, PartialOrd, Ord, Hash)]
pub struct ModrinthSearchRequest {
    pub query: Option<String>,
    pub facets: Option<String>,
    pub index: ModrinthSearchIndex,
    pub offset: usize,
    pub limit: usize,
}

/// The versions of one Modrinth project.
#[derive(Clone, Debug, PartialEq, Eq, PartialOrd, Ord, Hash)]
pub struct ModrinthProjectVersionsRequest {
    pub project_id: String,
}

/// The order search results come back in.
#[derive(Clone, Copy, Debug, PartialEq, Eq, PartialOrd, Ord, Hash)]
pub enum ModrinthSearchIndex {
    Relevance,
    Downloads,
    Follows,
    Newest,
    Updated,
}

/// Whether a project is needed on a given side.
#[derive(Clone, Copy, Debug, PartialEq, Eq, Structural)]
pub enum ModrinthSideRequirement {
    Required,
    Optional,
    Unsupported,
    Unknown,
}

/// What kind of content a Modrinth project is.
#[derive(Clone, Copy, Debug, PartialEq, Eq, Structural)]
pub enum ModrinthProjectType {
    Mod,
    ModPack,
    ResourcePack,
    Shader,
    Other,
}

impl ModrinthProjectType {
    /// The project type as Modrinth spells it.
    pub fn as_str(&self) -> (r: &'static str)
        ensures
            r@ == (match self {
                ModrinthProjectType::Mod => "mod"@,
                ModrinthProjectType::ModPack => "modpack"@,
                ModrinthProjectType::ResourcePack => "resourcepack"@,
                ModrinthProjectType::Shader => "shader"@,
                ModrinthProjectType::Other => "other"@,
            }),
    {
        match self {
            ModrinthProjectType::Mod => "mod",
            ModrinthProjectType::ModPack => "modpack",
            ModrinthProjectType::ResourcePack => "resourcepack",
            ModrinthProjectType::Shader => "shader",
            ModrinthProjectType::Other => "other",
        }
    }
}

/// A loader facet as Modrinth knows them.
#[derive(Clone, Copy, Debug, PartialEq, Eq, Structural, Hash)]
pub enum ModrinthLoader {
    Fabric,
    Forge,
    NeoForge,
    Minecraft,
    Iris,
    Optifine,
    Canvas,
    Unknown,
}

pub open spec fn modrinth_loader_name_spec(l: ModrinthLoader) -> Seq<char> {
    match l {
        ModrinthLoader::Fabric => "Fabric"@,
        ModrinthLoader::Forge => "Forge"@,
        ModrinthLoader::NeoForge => "NeoForge"@,
        ModrinthLoader::Minecraft => "Minecraft"@,
        ModrinthLoader::Iris => "Iris"@,
        ModrinthLoader::Optifine => "Optifine"@,
        ModrinthLoader::Canvas => "Canvas"@,
        ModrinthLoader::Unknown => "Unknown"@,
    }
}

pub open spec fn modrinth_loader_from_name_spec(s: Seq<char>) -> ModrinthLoader {
    if s == "Fabric"@ || s == "fabric"@ {
        ModrinthLoader::Fabric
    } else if s == "Forge"@ || s == "forge"@ {
        ModrinthLoader::Forge
    } else if s == "NeoForge"@ || s == "neoforge"@ {
        ModrinthLoader::NeoForge
    } else if s == "Minecraft"@ || s == "minecraft"@ {
        ModrinthLoader::Minecraft
    } else if s == "Iris"@ || s == "iris"@ {
        ModrinthLoader::Iris
    } else if s == "Optifine"@ || s == "optifine"@ {
        ModrinthLoader::Optifine
    } else if s == "Canvas"@ || s == "canvas"@ {
        ModrinthLoader::Canvas
    } else {
        ModrinthLoader::Unknown
    }
}

impl ModrinthLoader {
    /// The display name of the loader facet.
    pub fn name(self) -> (r: &'static str)
        ensures
            r@ == modrinth_loader_name_spec(self),
    {
        match self {
            Self::Fabric => "Fabric",
            Self::Forge => "Forge",
            Self::NeoForge => "NeoForge",
            Self::Minecraft => "Minecraft",
            Self::Iris => "Iris",
            Self::Optifine => "Optifine",
            Self::Canvas => "Canvas",
            Self::Unknown => "Unknown",
        }
    }

    /// The loader facet a display name stands for.
    pub fn from_name(s: &str) -> (r: Self)
        ensures
            r == modrinth_loader_from_name_spec(s@),
    {
        if str_eq(s, "Fabric") || str_eq(s, "fabric") {
            Self::Fabric
        } else if str_eq(s, "Forge") || str_eq(s, "forge") {
            Self::Forge
        } else if str_eq(s, "NeoForge") || str_eq(s, "neoforge") {
            Self::NeoForge
        } else if str_eq(s, "Minecraft") || str_eq(s, "minecraft") {
            Self::Minecraft
        } else if str_eq(s, "Iris") || str_eq(s, "iris") {
            Self::Iris
        } else if str_eq(s, "Optifine") || str_eq(s, "optifine") {
            Self::Optifine
        } else if str_eq(s, "Canvas") || str_eq(s, "canvas") {
            Self::Canvas
        } else {
            Self::Unknown
        }
    }
}

/// The release channel of a project version.
#[derive(Clone, Copy, Debug, PartialEq, Eq, Structural)]
pub enum ModrinthVersionType {
    Release,
    Beta,
    Alpha,
    Other,
}

/// The listing status of a project version.
#[derive(Clone, Copy, Debug, PartialEq, Eq, Structural)]
pub enum ModrinthVersionStatus {
    Listed,
    Archived,
    Draft,
    Unlisted,
    Scheduled,
    Unknown,
}

/// One downloadable file of a project version.
#[derive(Clone, Debug, PartialEq, Eq)]
pub struct ModrinthFile {
    pub hashes: ModrinthHashes,
    pub url: String,
    pub filename: String,
    pub primary: bool,
    pub size: usize,
}

/// The hashes Modrinth reports for a file.
#[derive(Clone, Debug, PartialEq, Eq)]
pub struct ModrinthHashes {
    pub sha1: String,
}

// ---------------------------------------------------------------------
// Version manifest vocabulary
// ---------------------------------------------------------------------

/// The channel of a Minecraft version in the version manifest.
#[derive(Clone, Copy, Debug, PartialEq, Eq, Structural)]
pub enum MinecraftVersionType {
    Release,
    Snapshot,
    OldBeta,
    OldAlpha,
}

// ---------------------------------------------------------------------
// Java runtime vocabulary
// ---------------------------------------------------------------------

/// Rollout state of a Mojang-provided Java runtime component.
#[derive(Clone, Copy, Debug, PartialEq, Eq, Structural)]
pub struct JavaRuntimeComponentAvailability {
    pub group: u32,
    pub progress: u32,
}

// ---------------------------------------------------------------------
// Instance configuration
// ---------------------------------------------------------------------

pub const DEFAULT_MEMORY_MIN: u32 = 512;

pub const DEFAULT_MEMORY_MAX: u32 = 4096;

/// Memory limits of an instance's JVM, in megabytes.
#[derive(Clone, Copy, Debug, PartialEq, Eq, Structural)]
pub struct InstanceMemoryConfiguration {
    pub enabled: bool,
    pub min: u32,
    pub max: u32,
}

impl Default for InstanceMemoryConfiguration {
    fn default() -> (r: Self)
        ensures
            !r.enabled,
            r.min == DEFAULT_MEMORY_MIN,
            r.max == DEFAULT_MEMORY_MAX,
    {
        InstanceMemoryConfiguration { enabled: false, min: DEFAULT_MEMORY_MIN, max: DEFAULT_MEMORY_MAX }
    }
}

/// Whether a stored memory configuration carries no information beyond
/// the defaults (and so need not be written out).
pub fn is_default_memory_configuration(config: &Option<InstanceMemoryConfiguration>) -> (r: bool)
    ensures
        r == (match config {
            Some(c) => !c.enabled && c.min == DEFAULT_MEMORY_MIN && c.max == DEFAULT_MEMORY_MAX,
            None => true,
        }),
{
    if let Some(config) = config {
        !config.enabled && config.min == DEFAULT_MEMORY_MIN && config.max == DEFAULT_MEMORY_MAX
    } else {
        true
    }
}

/// Extra JVM flags of an instance.
#[derive(Clone, Debug, PartialEq, Eq)]
pub struct InstanceJvmFlagsConfiguration {
    pub enabled: bool,
    pub flags: String,
}

pub open spec fn is_blank_char(c: char) -> bool {
    c == ' ' || c == '\t' || c == '\n' || c == '\r'
}

pub open spec fn is_ascii_blank(s: Seq<char>) -> bool {
    forall|i: int| 0 <= i < s.len() ==> is_blank_char(#[trigger] s[i])
}

/// Whether a string slice holds nothing but ASCII whitespace.
fn is_blank_str(s: &str) -> (r: bool)
    ensures
        r == is_ascii_blank(s@),
{
    let l = s.unicode_len();
    let mut i: usize = 0;
    while i < l
        invariant
            i <= l,
            l == s@.len(),
            forall|j: int| 0 <= j < i ==> is_blank_char(#[trigger] s@[j]),
        decreases l - i,
    {
        let c = s.get_char(i);
        if !(c == ' ' || c == '\t' || c == '\n' || c == '\r') {
            proof {
                assert(!is_blank_char(s@[i as int]));
            }
            return false;
        }
        i = i + 1;
    }
    true
}

/// Whether a stored flags configuration carries no information: disabled
/// and nothing but ASCII whitespace in the flags.
pub fn is_default_jvm_flags_configuration(config: &Option<InstanceJvmFlagsConfiguration>) -> (r:
    bool)
    ensures
        r == (match config {
            Some(c) => !c.enabled && is_ascii_blank(c.flags@),
            None => true,
        }),
{
    match config {
        Some(c) => !c.enabled && is_blank_str(c.flags.as_str()),
        None => true,
    }
}

/// A custom Java binary for an instance.
#[derive(Clone, Debug, PartialEq, Eq)]
pub struct InstanceJvmBinaryConfiguration {
    pub enabled: bool,
    pub path: Option<String>,
}

/// Whether a stored binary configuration carries no information.
pub fn is_default_jvm_binary_configuration(config: &Option<InstanceJvmBinaryConfiguration>) -> (r:
    bool)
    ensures
        r == (match config {
            Some(c) => !c.enabled && c.path is None,
            None => true,
        }),
{
    if let Some(config) = config {
        !config.enabled && config.path.is_none()
    } else {
        true
    }
}

// ---------------------------------------------------------------------
// Forge version fragments
// ---------------------------------------------------------------------

/// Sided values in a Forge install profile.
#[derive(Clone, Debug, PartialEq, Eq)]
pub struct ForgeSidedData {
    pub client: String,
    pub server: String,
}

/// Which side a Forge processor runs on.
#[derive(Clone, Copy, Debug, PartialEq, Eq, Structural)]
pub enum ForgeSide {
    Client,
    Server,
}

/// One fragment of a version string, ordered so that named pre-release
/// fragments sort before arbitrary strings and numbers compare by value.
#[derive(Clone, Debug, PartialEq, Eq, PartialOrd, Ord)]
pub enum VersionFragment {
    Alpha,
    Beta,
    Snapshot,
    String(String),
    Number(usize),
}

pub open spec fn is_version_separator(c: char) -> bool {
    c == '.' || c == '-' || c == '+'
}

/// Index of the first separator in `s`, or `s.len()` if there is none.
pub open spec fn first_separator(s: Seq<char>) -> int
    decreases s.len(),
{
    if s.len() == 0 {
        0
    } else if is_version_separator(s[0]) {
        0
    } else {
        1 + first_separator(s.skip(1))
    }
}

proof fn lemma_first_separator_is(s: Seq<char>, i: int)
    requires
        0 <= i <= s.len(),
        forall|j: int| 0 <= j < i ==> !is_version_separator(s[j]),
        i < s.len() ==> is_version_separator(s[i]),
    ensures
        first_separator(s) == i,
    decreases s.len(),
{
    if s.len() != 0 && !is_version_separator(s[0]) {
        assert forall|j: int| 0 <= j < i - 1 implies !is_version_separator(s.skip(1)[j]) by {
            assert(s.skip(1)[j] == s[j + 1]);
        }
        if i - 1 < s.skip(1).len() {
            assert(s.skip(1)[i - 1] == s[i]);
        }
        lemma_first_separator_is(s.skip(1), i - 1);
    }
}

/// The fragments of a version string: the pieces between `.`, `-` and
/// `+` separators, in order, empty pieces included.
pub open spec fn split_version(s: Seq<char>) -> Seq<Seq<char>>
    decreases s.len(),
{
    let k = first_separator(s);
    if 0 <= k && k < s.len() {
        seq![s.take(k)] + split_version(s.skip(k + 1))
    } else {
        seq![s]
    }
}

pub open spec fn is_digit(c: char) -> bool {
    48 <= c as u32 && c as u32 <= 57
}

pub open spec fn all_digits(s: Seq<char>) -> bool {
    forall|i: int| 0 <= i < s.len() ==> is_digit(#[trigger] s[i])
}

/// The number a digit string denotes.
pub open spec fn digits_value(s: Seq<char>) -> int
    decreases s.len(),
{
    if s.len() == 0 {
        0
    } else {
        digits_value(s.drop_last()) * 10 + (s.last() as u32 - 48)
    }
}

/// The digit part of a fragment: everything after an optional leading
/// plus sign.
pub open spec fn number_body(s: Seq<char>) -> Seq<char> {
    if s.len() > 0 && s[0] == '+' {
        s.skip(1)
    } else {
        s
    }
}

/// Whether a fragment parses as a `usize`: an optional leading plus,
/// then at least one digit, denoting a value that fits.
pub open spec fn parses_as_usize(s: Seq<char>) -> bool {
    number_body(s).len() > 0 && all_digits(number_body(s)) && digits_value(number_body(s))
        <= usize::MAX as int
}

proof fn lemma_digits_nonneg(s: Seq<char>)
    requires
        all_digits(s),
    ensures
        digits_value(s) >= 0,
    decreases s.len(),
{
    if s.len() > 0 {
        assert(all_digits(s.drop_last())) by {
            assert(forall|i: int|
                0 <= i < s.drop_last().len() ==> #[trigger] s.drop_last()[i] == s[i]);
        }
        lemma_digits_nonneg(s.drop_last());
    }
}

proof fn lemma_digits_prefix_le(s: Seq<char>, j: int)
    requires
        all_digits(s),
        0 <= j <= s.len(),
    ensures
        digits_value(s.take(j)) <= digits_value(s),
    decreases s.len() - j,
{
    assert(all_digits(s.take(j))) by {
        assert(forall|i: int| 0 <= i < j ==> #[trigger] s.take(j)[i] == s[i]);
    }
    if j < s.len() {
        assert(s.take(j + 1).drop_last() =~= s.take(j));
        assert(s.take(j + 1).last() == s[j]);
        lemma_digits_nonneg(s.take(j));
        lemma_digits_prefix_le(s, j + 1);
    } else {
        assert(s.take(j) =~= s);
    }
}

/// ASCII lowering of one character.
pub open spec fn lower_char(c: char) -> char {
    if 65 <= c as u32 && c as u32 <= 90 {
        ((c as u32 + 32) as u8) as char
    } else {
        c
    }
}

/// ASCII-case-insensitive equality.
pub open spec fn eq_ignore_case(a: Seq<char>, b: Seq<char>) -> bool {
    a.len() == b.len() && forall|i: int|
        0 <= i < a.len() ==> lower_char(#[trigger] a[i]) == lower_char(b[i])
}

fn eq_ignore_ascii_case_str(a: &str, b: &str) -> (r: bool)
    ensures
        r == eq_ignore_case(a@, b@),
{
    let la = a.unicode_len();
    let lb = b.unicode_len();
    if la != lb {
        return false;
    }
    let mut i: usize = 0;
    while i < la
        invariant
            i <= la,
            la == a@.len(),
            la == b@.len(),
            forall|j: int| 0 <= j < i ==> lower_char(#[trigger] a@[j]) == lower_char(b@[j]),
        decreases la - i,
    {
        let ca = a.get_char(i);
        let cb = b.get_char(i);
        let ua = ca as u32;
        let ub = cb as u32;
        let la_c = if 65 <= ua && ua <= 90 {
            ((ua + 32) as u8) as char
        } else {
            ca
        };
        let lb_c = if 65 <= ub && ub <= 90 {
            ((ub + 32) as u8) as char
        } else {
            cb
        };
        if la_c != lb_c {
            return false;
        }
        i = i + 1;
    }
    true
}

/// Parse a fragment as `usize`: an optional leading plus, then digits.
fn parse_usize(s: &str) -> (r: Option<usize>)
    ensures
        parses_as_usize(s@) ==> (r matches Some(n) && n as int == digits_value(number_body(s@))),
        !parses_as_usize(s@) ==> r is None,
{
    let l = s.unicode_len();
    let start: usize = if l > 0 && s.get_char(0) == '+' {
        1
    } else {
        0
    };
    let ghost body = number_body(s@);
    proof {
        assert(body =~= s@.subrange(start as int, l as int));
    }
    if start == l {
        return None;
    }
    let mut acc: usize = 0;
    let mut i = start;
    proof {
        assert(body.take(0) =~= Seq::<char>::empty());
    }
    while i < l
        invariant
            start <= i <= l,
            l == s@.len(),
            body == number_body(s@),
            body == s@.subrange(start as int, l as int),
            all_digits(body.take(i - start)),
            acc as int == digits_value(body.take(i - start)),
        decreases l - i,
    {
        let c = s.get_char(i);
        let u = c as u32;
        proof {
            assert(body[i - start] == s@[i as int]);
        }
        if !(48 <= u && u <= 57) {
            proof {
                if parses_as_usize(s@) {
                    assert(is_digit(body[i - start]));
                }
            }
            return None;
        }
        let d = (u - 48) as usize;
        proof {
            assert(body.take(i - start + 1).drop_last() =~= body.take(i - start));
            assert(body.take(i - start + 1).last() == body[i - start]);
            assert(all_digits(body.take(i - start + 1))) by {
                assert(forall|j: int|
                    0 <= j < i - start + 1 ==> #[trigger] body.take(i - start + 1)[j] == body.take(
                        i - start,
                    ).push(body[i - start])[j]);
            }
        }
        if acc > (usize::MAX - d) / 10 {
            proof {
                lemma_digits_nonneg(body.take(i - start + 1));
                assert(digits_value(body.take(i - start + 1)) == acc * 10 + d);
                assert(digits_value(body.take(i - start + 1)) > usize::MAX as int) by (nonlinear_arith)
                    requires
                        acc > (usize::MAX - d) / 10,
                        d <= 9,
                        digits_value(body.take(i - start + 1)) == acc * 10 + d,
                        acc >= 0,
                        usize::MAX >= 9,
                ;
                if parses_as_usize(s@) {
                    lemma_digits_prefix_le(body, i - start + 1);
                }
            }
            return None;
        }
        proof {
            assert(acc * 10 + d <= usize::MAX as int) by (nonlinear_arith)
                requires
                    acc <= (usize::MAX - d) / 10,
                    d <= 9,
                    acc >= 0,
            ;
        }
        acc = acc * 10 + d;
        i = i + 1;
    }
    proof {
        assert(body.take(l - start) =~= body);
    }
    Some(acc)
}

/// Whether a fragment value matches what the piece of text classifies
/// to: a number if it parses as one, a named pre-release fragment on a
/// case-insensitive match, the text itself otherwise.
pub open spec fn fragment_matches(f: VersionFragment, s: Seq<char>) -> bool {
    if parses_as_usize(s) {
        f matches VersionFragment::Number(n) && n as int == digits_value(number_body(s))
    } else if eq_ignore_case(s, "alpha"@) {
        f == VersionFragment::Alpha
    } else if eq_ignore_case(s, "beta"@) {
        f == VersionFragment::Beta
    } else if eq_ignore_case(s, "snapshot"@) {
        f == VersionFragment::Snapshot
    } else {
        f matches VersionFragment::String(t) && t@ == s
    }
}

fn classify_fragment(s: &str) -> (f: VersionFragment)
    ensures
        fragment_matches(f, s@),
{
    if let Some(n) = parse_usize(s) {
        VersionFragment::Number(n)
    } else if eq_ignore_ascii_case_str(s, "alpha") {
        VersionFragment::Alpha
    } else if eq_ignore_ascii_case_str(s, "beta") {
        VersionFragment::Beta
    } else if eq_ignore_ascii_case_str(s, "snapshot") {
        VersionFragment::Snapshot
    } else {
        VersionFragment::String(String::from_str(s))
    }
}

impl VersionFragment {
    /// Split a version string at `.`, `-` and `+` and classify each
    /// piece.
    pub fn string_to_parts(version: &str) -> (r: Vec<VersionFragment>)
        ensures
            r@.len() == split_version(version@).len(),
            forall|i: int|
                0 <= i < r@.len() ==> fragment_matches(#[trigger] r@[i], split_version(version@)[i]),
    {
        let l = version.unicode_len();
        let mut out: Vec<VersionFragment> = Vec::new();
        let mut i: usize = 0;
        let ghost mut processed: Seq<Seq<char>> = Seq::empty();
        proof {
            assert(version@.skip(0) =~= version@);
            assert(processed + split_version(version@.skip(0)) =~= split_version(version@));
        }
        loop
            invariant_except_break
                split_version(version@) == processed + split_version(version@.skip(i as int)),
            invariant
                i <= l,
                l == version@.len(),
                out@.len() == processed.len(),
                forall|j: int|
                    0 <= j < out@.len() ==> fragment_matches(#[trigger] out@[j], processed[j]),
            ensures
                out@.len() == split_version(version@).len(),
                forall|j: int|
                    0 <= j < out@.len() ==> fragment_matches(
                        #[trigger] out@[j],
                        split_version(version@)[j],
                    ),
            decreases l - i + 1,
        {
            let ghost rem = version@.skip(i as int);
            let mut k = i;
            while k < l
                invariant
                    i <= k <= l,
                    l == version@.len(),
                    forall|j: int|
                        i <= j < k ==> !is_version_separator(#[trigger] version@[j]),
                ensures
                    i <= k <= l,
                    l == version@.len(),
                    forall|j: int|
                        i <= j < k ==> !is_version_separator(#[trigger] version@[j]),
                    k < l ==> is_version_separator(version@[k as int]),
                decreases l - k,
            {
                let c = version.get_char(k);
                if c == '.' || c == '-' || c == '+' {
                    break;
                }
                k = k + 1;
            }
            proof {
                assert forall|j: int| 0 <= j < k - i implies !is_version_separator(rem[j]) by {
                    assert(rem[j] == version@[i + j]);
                }
                if k - i < rem.len() {
                    assert(rem[k - i] == version@[k as int]);
                }
                lemma_first_separator_is(rem, k - i);
                assert(rem.take(k - i) =~= version@.subrange(i as int, k as int));
            }
            let comp = version.substring_char(i, k);
            let frag = classify_fragment(comp);
            out.push(frag);
            proof {
                processed = processed.push(comp@);
            }
            if k < l {
                proof {
                    assert(split_version(rem) == seq![rem.take(k - i)] + split_version(
                        rem.skip(k - i + 1),
                    ));
                    assert(rem.skip(k - i + 1) =~= version@.skip(k as int + 1));
                    assert(split_version(version@) =~= processed + split_version(
                        version@.skip(k as int + 1),
                    ));
                }
                i = k + 1;
            } else {
                proof {
                    assert(split_version(rem) =~= seq![rem]);
                    assert(rem.take(k - i) =~= rem);
                    assert(processed =~= split_version(version@));
                }
                break;
            }
        }
        out
    }
}

// ---------------------------------------------------------------------
// Maven manifests
// ---------------------------------------------------------------------

/// The Forge versions listed by its Maven repository.
#[derive(Clone, Debug, PartialEq, Eq)]
pub struct ForgeMavenManifest(pub Vec<String>);

/// The NeoForge versions listed by its Maven repository.
#[derive(Clone, Debug, PartialEq, Eq)]
pub struct NeoforgeMavenManifest(pub Vec<String>);

} // verus!
