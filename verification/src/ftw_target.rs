//! The platform registry: the closed set of supported platforms, the
//! deterministic mapping from each platform to its toolchain attributes
//! (compiler triple, library prefix and extension, application extension,
//! export-preset family name), the identifier parser, and the normalization
//! of caller-supplied target lists.

use crate::ftw_error::FtwError;
use crate::strings::{ascii_lowercase, lower_chars, str_eq};
use crate::traits::{ToAppExt, ToCliArg, ToExportName, ToLibExt, ToLibPrefix};
use vstd::prelude::*;

verus! {

/// A supported platform.  The default platform is `WindowsX86_64Msvc`.
#[derive(Clone, Copy, Debug, PartialEq, Eq, Structural, Hash, PartialOrd, Ord)]
pub enum FtwTarget {
    AndroidLinuxAarch64,
    AndroidLinuxArmV7,
    AndroidLinuxX86,
    AndroidLinuxX86_64,
    IosAarch64,
    LinuxX86,
    LinuxX86_64,
    MacOsX86_64,
    MacOsAarch64,
    WindowsX86Gnu,
    WindowsX86Msvc,
    WindowsX86_64Gnu,
    WindowsX86_64Msvc,
}

impl FtwTarget {
    pub fn is(self, target: FtwTarget) -> (r: bool)
        ensures
            r == (self == target),
    {
        self == target
    }

    /// Whether this platform can host a headless Linux server build.  Every
    /// platform but Linux x86-64 is rejected as unsupported.
    pub fn is_linux_server(self) -> (r: Result<bool, FtwError>)
        ensures
            self == FtwTarget::LinuxX86_64 ==> r == Ok::<bool, FtwError>(true),
            self != FtwTarget::LinuxX86_64 ==> r == Err::<bool, FtwError>(
                FtwError::UnsupportedTarget,
            ),
    {
        if self.is(FtwTarget::LinuxX86_64) {
            Ok(true)
        } else {
            Err(FtwError::UnsupportedTarget)
        }
    }

    /// Whether the platform belongs to the Android family.
    pub open spec fn is_android_spec(self) -> bool {
        self == FtwTarget::AndroidLinuxAarch64 || self == FtwTarget::AndroidLinuxArmV7 || self
            == FtwTarget::AndroidLinuxX86 || self == FtwTarget::AndroidLinuxX86_64
    }

    pub fn is_android(self) -> (r: bool)
        ensures
            r == self.is_android_spec(),
    {
        matches!(
            self,
            FtwTarget::AndroidLinuxAarch64
                | FtwTarget::AndroidLinuxArmV7
                | FtwTarget::AndroidLinuxX86
                | FtwTarget::AndroidLinuxX86_64
        )
    }

    /// Whether the platform belongs to the Windows family.
    pub open spec fn is_windows_spec(self) -> bool {
        self == FtwTarget::WindowsX86Gnu || self == FtwTarget::WindowsX86Msvc || self
            == FtwTarget::WindowsX86_64Gnu || self == FtwTarget::WindowsX86_64Msvc
    }

    pub fn is_windows(self) -> (r: bool)
        ensures
            r == self.is_windows_spec(),
    {
        matches!(
            self,
            FtwTarget::WindowsX86Gnu
                | FtwTarget::WindowsX86Msvc
                | FtwTarget::WindowsX86_64Gnu
                | FtwTarget::WindowsX86_64Msvc
        )
    }

    pub fn is_ios(self) -> (r: bool)
        ensures
            r == (self == FtwTarget::IosAarch64),
    {
        matches!(self, FtwTarget::IosAarch64)
    }

    /// Whether the platform is 32-bit desktop Linux.
    pub fn is_linux(self) -> (r: bool)
        ensures
            r == (self == FtwTarget::LinuxX86),
    {
        matches!(self, FtwTarget::LinuxX86)
    }

    pub fn is_linux_x86_64(self) -> (r: bool)
        ensures
            r == (self == FtwTarget::LinuxX86_64),
    {
        matches!(self, FtwTarget::LinuxX86_64)
    }

    /// Whether the platform belongs to the macOS family.
    pub open spec fn is_macos_spec(self) -> bool {
        self == FtwTarget::MacOsX86_64 || self == FtwTarget::MacOsAarch64
    }

    pub fn is_macos(self) -> (r: bool)
        ensures
            r == self.is_macos_spec(),
    {
        matches!(self, FtwTarget::MacOsX86_64 | FtwTarget::MacOsAarch64)
    }

    /// The platform's name as shown to the user: its compiler triple.
    pub open spec fn display_name_spec(&self) -> Seq<char> {
        self.cli_arg_spec()
    }

    /// The platform's name as shown to the user: its compiler triple.
    pub fn display_name(&self) -> (r: String)
        ensures
            r@ == self.display_name_spec(),
    {
        self.to_cli_arg()
    }

    /// The position of the platform in the canonical order, used to sort and
    /// de-duplicate target lists deterministically.
    pub open spec fn rank_spec(self) -> int {
        match self {
            FtwTarget::AndroidLinuxAarch64 => 0,
            FtwTarget::AndroidLinuxArmV7 => 1,
            FtwTarget::AndroidLinuxX86 => 2,
            FtwTarget::AndroidLinuxX86_64 => 3,
            FtwTarget::IosAarch64 => 4,
            FtwTarget::LinuxX86 => 5,
            FtwTarget::LinuxX86_64 => 6,
            FtwTarget::MacOsX86_64 => 7,
            FtwTarget::MacOsAarch64 => 8,
            FtwTarget::WindowsX86Gnu => 9,
            FtwTarget::WindowsX86Msvc => 10,
            FtwTarget::WindowsX86_64Gnu => 11,
            FtwTarget::WindowsX86_64Msvc => 12,
        }
    }

    /// The position of the platform in the canonical order.
    pub fn rank(self) -> (r: u8)
        ensures
            r as int == self.rank_spec(),
    {
        match self {
            FtwTarget::AndroidLinuxAarch64 => 0,
            FtwTarget::AndroidLinuxArmV7 => 1,
            FtwTarget::AndroidLinuxX86 => 2,
            FtwTarget::AndroidLinuxX86_64 => 3,
            FtwTarget::IosAarch64 => 4,
            FtwTarget::LinuxX86 => 5,
            FtwTarget::LinuxX86_64 => 6,
            FtwTarget::MacOsX86_64 => 7,
            FtwTarget::MacOsAarch64 => 8,
            FtwTarget::WindowsX86Gnu => 9,
            FtwTarget::WindowsX86Msvc => 10,
            FtwTarget::WindowsX86_64Gnu => 11,
            FtwTarget::WindowsX86_64Msvc => 12,
        }
    }

    /// Every supported platform, in canonical order.
    pub open spec fn all_spec() -> Seq<FtwTarget> {
        seq![
            FtwTarget::AndroidLinuxAarch64,
            FtwTarget::AndroidLinuxArmV7,
            FtwTarget::AndroidLinuxX86,
            FtwTarget::AndroidLinuxX86_64,
            FtwTarget::IosAarch64,
            FtwTarget::LinuxX86,
            FtwTarget::LinuxX86_64,
            FtwTarget::MacOsX86_64,
            FtwTarget::MacOsAarch64,
            FtwTarget::WindowsX86Gnu,
            FtwTarget::WindowsX86Msvc,
            FtwTarget::WindowsX86_64Gnu,
            FtwTarget::WindowsX86_64Msvc,
        ]
    }

    /// Every supported platform, in canonical order.
    pub fn all() -> (r: Vec<FtwTarget>)
        ensures
            r@ == FtwTarget::all_spec(),
    {
        let mut v: Vec<FtwTarget> = Vec::new();
        v.push(FtwTarget::AndroidLinuxAarch64);
        v.push(FtwTarget::AndroidLinuxArmV7);
        v.push(FtwTarget::AndroidLinuxX86);
        v.push(FtwTarget::AndroidLinuxX86_64);
        v.push(FtwTarget::IosAarch64);
        v.push(FtwTarget::LinuxX86);
        v.push(FtwTarget::LinuxX86_64);
        v.push(FtwTarget::MacOsX86_64);
        v.push(FtwTarget::MacOsAarch64);
        v.push(FtwTarget::WindowsX86Gnu);
        v.push(FtwTarget::WindowsX86Msvc);
        v.push(FtwTarget::WindowsX86_64Gnu);
        v.push(FtwTarget::WindowsX86_64Msvc);
        proof {
            assert(v@ =~= FtwTarget::all_spec());
        }
        v
    }

    /// Whether an identifier (already folded to lower case) names a supported
    /// platform.
    pub open spec fn is_known_identifier(id: Seq<char>) -> bool {
        ||| id == "android-aarch64"@
        ||| id == "android-arm"@
        ||| id == "android-x86"@
        ||| id == "android-x86_64"@
        ||| id == "ios-aarch64"@
        ||| id == "linux-x86"@
        ||| id == "linux-x86_64"@
        ||| id == "macos-x86_64"@
        ||| id == "macos-aarch64"@
        ||| id == "windows-x86-gnu"@
        ||| id == "windows-x86"@
        ||| id == "windows-x86-msvc"@
        ||| id == "windows-x86_64-gnu"@
        ||| id == "windows-x86_64"@
        ||| id == "windows-x86_64-msvc"@
    }

    /// The platform a lower-case identifier names.
    pub open spec fn resolve_spec(id: Seq<char>) -> Result<FtwTarget, FtwError> {
        if id == "android-aarch64"@ {
            Ok(FtwTarget::AndroidLinuxAarch64)
        } else if id == "android-arm"@ {
            Ok(FtwTarget::AndroidLinuxArmV7)
        } else if id == "android-x86"@ {
            Ok(FtwTarget::AndroidLinuxX86)
        } else if id == "android-x86_64"@ {
            Ok(FtwTarget::AndroidLinuxX86_64)
        } else if id == "ios-aarch64"@ {
            Ok(FtwTarget::IosAarch64)
        } else if id == "linux-x86"@ {
            Ok(FtwTarget::LinuxX86)
        } else if id == "linux-x86_64"@ {
            Ok(FtwTarget::LinuxX86_64)
        } else if id == "macos-x86_64"@ {
            Ok(FtwTarget::MacOsX86_64)
        } else if id == "macos-aarch64"@ {
            Ok(FtwTarget::MacOsAarch64)
        } else if id == "windows-x86-gnu"@ {
            Ok(FtwTarget::WindowsX86Gnu)
        } else if id == "windows-x86"@ || id == "windows-x86-msvc"@ {
            Ok(FtwTarget::WindowsX86Msvc)
        } else if id == "windows-x86_64-gnu"@ {
            Ok(FtwTarget::WindowsX86_64Gnu)
        } else if id == "windows-x86_64"@ || id == "windows-x86_64-msvc"@ {
            Ok(FtwTarget::WindowsX86_64Msvc)
        } else {
            Err(FtwError::UnsupportedTarget)
        }
    }

    /// The platform an identifier resolves to, compared without regard to
    /// letter case.
    pub open spec fn parse_spec(s: Seq<char>) -> Result<FtwTarget, FtwError> {
        FtwTarget::resolve_spec(lower_chars(s))
    }

    /// Parses a platform identifier; rejects every identifier outside the
    /// known set, and never falls back silently.
    pub fn from_str(s: &str) -> (r: Result<FtwTarget, FtwError>)
        ensures
            r == FtwTarget::parse_spec(s@),
    {
        let lowered = ascii_lowercase(s);
        let id = lowered.as_str();
        if str_eq(id, "android-aarch64") {
            Ok(FtwTarget::AndroidLinuxAarch64)
        } else if str_eq(id, "android-arm") {
            Ok(FtwTarget::AndroidLinuxArmV7)
        } else if str_eq(id, "android-x86") {
            Ok(FtwTarget::AndroidLinuxX86)
        } else if str_eq(id, "android-x86_64") {
            Ok(FtwTarget::AndroidLinuxX86_64)
        } else if str_eq(id, "ios-aarch64") {
            Ok(FtwTarget::IosAarch64)
        } else if str_eq(id, "linux-x86") {
            Ok(FtwTarget::LinuxX86)
        } else if str_eq(id, "linux-x86_64") {
            Ok(FtwTarget::LinuxX86_64)
        } else if str_eq(id, "macos-x86_64") {
            Ok(FtwTarget::MacOsX86_64)
        } else if str_eq(id, "macos-aarch64") {
            Ok(FtwTarget::MacOsAarch64)
        } else if str_eq(id, "windows-x86-gnu") {
            Ok(FtwTarget::WindowsX86Gnu)
        } else if str_eq(id, "windows-x86") || str_eq(id, "windows-x86-msvc") {
            Ok(FtwTarget::WindowsX86Msvc)
        } else if str_eq(id, "windows-x86_64-gnu") {
            Ok(FtwTarget::WindowsX86_64Gnu)
        } else if str_eq(id, "windows-x86_64") || str_eq(id, "windows-x86_64-msvc") {
            Ok(FtwTarget::WindowsX86_64Msvc)
        } else {
            Err(FtwError::UnsupportedTarget)
        }
    }

    /// The platform an identifier resolves to where a caller asked for the
    /// documented fallback: an unrecognized identifier yields the default
    /// platform.
    pub open spec fn parse_or_default_spec(s: Seq<char>) -> FtwTarget {
        match FtwTarget::parse_spec(s) {
            Ok(t) => t,
            Err(_) => FtwTarget::WindowsX86_64Msvc,
        }
    }

    /// Resolves a platform identifier, falling back to the default platform
    /// on any unrecognized identifier.
    pub fn parse_or_default(s: &str) -> (r: FtwTarget)
        ensures
            r == FtwTarget::parse_or_default_spec(s@),
    {
        match FtwTarget::from_str(s) {
            Ok(t) => t,
            Err(_) => FtwTarget::WindowsX86_64Msvc,
        }
    }
}

impl ToCliArg for FtwTarget {
    open spec fn cli_arg_spec(&self) -> Seq<char> {
        match self {
            FtwTarget::AndroidLinuxAarch64 => "aarch64-linux-android"@,
            FtwTarget::AndroidLinuxArmV7 => "armv7-linux-androideabi"@,
            FtwTarget::AndroidLinuxX86 => "i686-linux-android"@,
            FtwTarget::AndroidLinuxX86_64 => "x86_64-linux-android"@,
            FtwTarget::IosAarch64 => "aarch64-apple-ios"@,
            FtwTarget::LinuxX86 => "i686-unknown-linux-gnu"@,
            FtwTarget::LinuxX86_64 => "x86_64-unknown-linux-gnu"@,
            FtwTarget::MacOsX86_64 => "x86_64-apple-darwin"@,
            FtwTarget::MacOsAarch64 => "aarch64-apple-darwin"@,
            FtwTarget::WindowsX86Gnu => "i686-pc-windows-gnu"@,
            FtwTarget::WindowsX86Msvc => "i686-pc-windows-msvc"@,
            FtwTarget::WindowsX86_64Gnu => "x86_64-pc-windows-gnu"@,
            FtwTarget::WindowsX86_64Msvc => "x86_64-pc-windows-msvc"@,
        }
    }

    fn to_cli_arg(&self) -> (r: String) {
        match self {
            FtwTarget::AndroidLinuxAarch64 => "aarch64-linux-android".to_owned(),
            FtwTarget::AndroidLinuxArmV7 => "armv7-linux-androideabi".to_owned(),
            FtwTarget::AndroidLinuxX86 => "i686-linux-android".to_owned(),
            FtwTarget::AndroidLinuxX86_64 => "x86_64-linux-android".to_owned(),
            FtwTarget::IosAarch64 => "aarch64-apple-ios".to_owned(),
            FtwTarget::LinuxX86 => "i686-unknown-linux-gnu".to_owned(),
            FtwTarget::LinuxX86_64 => "x86_64-unknown-linux-gnu".to_owned(),
            FtwTarget::MacOsX86_64 => "x86_64-apple-darwin".to_owned(),
            FtwTarget::MacOsAarch64 => "aarch64-apple-darwin".to_owned(),
            FtwTarget::WindowsX86Gnu => "i686-pc-windows-gnu".to_owned(),
            FtwTarget::WindowsX86Msvc => "i686-pc-windows-msvc".to_owned(),
            FtwTarget::WindowsX86_64Gnu => "x86_64-pc-windows-gnu".to_owned(),
            FtwTarget::WindowsX86_64Msvc => "x86_64-pc-windows-msvc".to_owned(),
        }
    }
}

impl ToExportName for FtwTarget {
    open spec fn export_name_spec(&self) -> Seq<char> {
        if self.is_android_spec() {
            "Android"@
        } else if self == FtwTarget::IosAarch64 {
            "iOS"@
        } else if self == FtwTarget::LinuxX86 || self == FtwTarget::LinuxX86_64 {
            "Linux/X11"@
        } else if self.is_macos_spec() {
            "Mac OSX"@
        } else {
            "Windows Desktop"@
        }
    }

    fn to_export_name(&self) -> (r: String) {
        if self.is_android() {
            "Android".to_owned()
        } else if self.is_ios() {
            "iOS".to_owned()
        } else if self.is_linux() || self.is_linux_x86_64() {
            "Linux/X11".to_owned()
        } else if self.is_macos() {
            "Mac OSX".to_owned()
        } else {
            "Windows Desktop".to_owned()
        }
    }
}

impl ToAppExt for FtwTarget {
    open spec fn app_ext_spec(&self) -> Seq<char> {
        if self == FtwTarget::LinuxX86 {
            ""@
        } else if self == FtwTarget::LinuxX86_64 {
            ".x86_64"@
        } else if self.is_android_spec() {
            ".apk"@
        } else if self.is_macos_spec() || self == FtwTarget::IosAarch64 {
            ".zip"@
        } else {
            ".exe"@
        }
    }

    fn to_app_ext(&self) -> (r: String) {
        if self.is_linux() {
            "".to_owned()
        } else if self.is_linux_x86_64() {
            ".x86_64".to_owned()
        } else if self.is_android() {
            ".apk".to_owned()
        } else if self.is_macos() || self.is_ios() {
            ".zip".to_owned()
        } else {
            ".exe".to_owned()
        }
    }
}

impl ToLibExt for FtwTarget {
    open spec fn lib_ext_spec(&self) -> Seq<char> {
        if self.is_android_spec() || self == FtwTarget::LinuxX86 || self == FtwTarget::LinuxX86_64 {
            "so"@
        } else if self.is_windows_spec() {
            "dll"@
        } else if self == FtwTarget::IosAarch64 {
            "a"@
        } else {
            "dylib"@
        }
    }

    fn to_lib_ext(&self) -> (r: String) {
        if self.is_android() || self.is_linux() || self.is_linux_x86_64() {
            "so".to_owned()
        } else if self.is_windows() {
            "dll".to_owned()
        } else if self.is_ios() {
            "a".to_owned()
        } else {
            "dylib".to_owned()
        }
    }
}

impl ToLibPrefix for FtwTarget {
    open spec fn lib_prefix_spec(&self) -> Seq<char> {
        if self.is_windows_spec() {
            ""@
        } else {
            "lib"@
        }
    }

    fn to_lib_prefix(&self) -> (r: String) {
        if self.is_windows() {
            "".to_owned()
        } else {
            "lib".to_owned()
        }
    }
}

impl Default for FtwTarget {
    /// The default platform is `WindowsX86_64Msvc`.
    fn default() -> (r: Self)
        ensures
            r == FtwTarget::WindowsX86_64Msvc,
    {
        FtwTarget::WindowsX86_64Msvc
    }
}

/// The reference table of toolchain attributes, keyed by the canonical
/// platform identifier: triple, library prefix, library extension,
/// application extension, export family name.  Identifiers outside the known
/// set have no row.
pub open spec fn reference_attributes(id: Seq<char>) -> (
    Seq<char>,
    Seq<char>,
    Seq<char>,
    Seq<char>,
    Seq<char>,
) {
    if id == "android-aarch64"@ {
        ("aarch64-linux-android"@, "lib"@, "so"@, ".apk"@, "Android"@)
    } else if id == "android-arm"@ {
        ("armv7-linux-androideabi"@, "lib"@, "so"@, ".apk"@, "Android"@)
    } else if id == "android-x86"@ {
        ("i686-linux-android"@, "lib"@, "so"@, ".apk"@, "Android"@)
    } else if id == "android-x86_64"@ {
        ("x86_64-linux-android"@, "lib"@, "so"@, ".apk"@, "Android"@)
    } else if id == "ios-aarch64"@ {
        ("aarch64-apple-ios"@, "lib"@, "a"@, ".zip"@, "iOS"@)
    } else if id == "linux-x86"@ {
        ("i686-unknown-linux-gnu"@, "lib"@, "so"@, ""@, "Linux/X11"@)
    } else if id == "linux-x86_64"@ {
        ("x86_64-unknown-linux-gnu"@, "lib"@, "so"@, ".x86_64"@, "Linux/X11"@)
    } else if id == "macos-x86_64"@ {
        ("x86_64-apple-darwin"@, "lib"@, "dylib"@, ".zip"@, "Mac OSX"@)
    } else if id == "macos-aarch64"@ {
        ("aarch64-apple-darwin"@, "lib"@, "dylib"@, ".zip"@, "Mac OSX"@)
    } else if id == "windows-x86-gnu"@ {
        ("i686-pc-windows-gnu"@, ""@, "dll"@, ".exe"@, "Windows Desktop"@)
    } else if id == "windows-x86"@ || id == "windows-x86-msvc"@ {
        ("i686-pc-windows-msvc"@, ""@, "dll"@, ".exe"@, "Windows Desktop"@)
    } else if id == "windows-x86_64-gnu"@ {
        ("x86_64-pc-windows-gnu"@, ""@, "dll"@, ".exe"@, "Windows Desktop"@)
    } else {
        ("x86_64-pc-windows-msvc"@, ""@, "dll"@, ".exe"@, "Windows Desktop"@)
    }
}

/// Resolving any identifier of the known set succeeds, and the resolved
/// platform's attributes are exactly the reference table's row for that
/// identifier.
pub proof fn lemma_resolve_known(s: Seq<char>)
    requires
        FtwTarget::is_known_identifier(lower_chars(s)),
    ensures
        FtwTarget::parse_spec(s) is Ok,
        ({
            let t = FtwTarget::parse_spec(s)->Ok_0;
            (t.cli_arg_spec(), t.lib_prefix_spec(), t.lib_ext_spec(), t.app_ext_spec(),
            t.export_name_spec()) == reference_attributes(lower_chars(s))
        }),
{
}

/// Resolving any identifier outside the known set fails with
/// `UnsupportedTarget`; the registry never falls back silently.
pub proof fn lemma_resolve_unknown(s: Seq<char>)
    requires
        !FtwTarget::is_known_identifier(lower_chars(s)),
    ensures
        FtwTarget::parse_spec(s) == Err::<FtwTarget, FtwError>(FtwError::UnsupportedTarget),
{
}

/// The length of a platform's compiler triple.
spec fn triple_len(t: FtwTarget) -> int {
    match t {
        FtwTarget::AndroidLinuxAarch64 => 21,
        FtwTarget::AndroidLinuxArmV7 => 23,
        FtwTarget::AndroidLinuxX86 => 18,
        FtwTarget::AndroidLinuxX86_64 => 20,
        FtwTarget::IosAarch64 => 17,
        FtwTarget::LinuxX86 => 22,
        FtwTarget::LinuxX86_64 => 24,
        FtwTarget::MacOsX86_64 => 19,
        FtwTarget::MacOsAarch64 => 20,
        FtwTarget::WindowsX86Gnu => 19,
        FtwTarget::WindowsX86Msvc => 20,
        FtwTarget::WindowsX86_64Gnu => 21,
        FtwTarget::WindowsX86_64Msvc => 22,
    }
}

/// The first character of a platform's compiler triple.  Together with the
/// triple's length it distinguishes every platform from every other.
spec fn triple_head(t: FtwTarget) -> char {
    match t {
        FtwTarget::AndroidLinuxAarch64 => 'a',
        FtwTarget::AndroidLinuxArmV7 => 'a',
        FtwTarget::AndroidLinuxX86 => 'i',
        FtwTarget::AndroidLinuxX86_64 => 'x',
        FtwTarget::IosAarch64 => 'a',
        FtwTarget::LinuxX86 => 'i',
        FtwTarget::LinuxX86_64 => 'x',
        FtwTarget::MacOsX86_64 => 'x',
        FtwTarget::MacOsAarch64 => 'a',
        FtwTarget::WindowsX86Gnu => 'i',
        FtwTarget::WindowsX86Msvc => 'i',
        FtwTarget::WindowsX86_64Gnu => 'x',
        FtwTarget::WindowsX86_64Msvc => 'x',
    }
}

proof fn lemma_triple_shape(t: FtwTarget)
    ensures
        t.cli_arg_spec().len() == triple_len(t),
        t.cli_arg_spec()[0] == triple_head(t),
{
    reveal_strlit("aarch64-linux-android");
    reveal_strlit("armv7-linux-androideabi");
    reveal_strlit("i686-linux-android");
    reveal_strlit("x86_64-linux-android");
    reveal_strlit("aarch64-apple-ios");
    reveal_strlit("i686-unknown-linux-gnu");
    reveal_strlit("x86_64-unknown-linux-gnu");
    reveal_strlit("x86_64-apple-darwin");
    reveal_strlit("aarch64-apple-darwin");
    reveal_strlit("i686-pc-windows-gnu");
    reveal_strlit("i686-pc-windows-msvc");
    reveal_strlit("x86_64-pc-windows-gnu");
    reveal_strlit("x86_64-pc-windows-msvc");
}

/// No two distinct platforms share a compiler triple: the mapping from
/// platform to toolchain naming is deterministic and collision-free.
pub proof fn lemma_cli_arg_injective(a: FtwTarget, b: FtwTarget)
    requires
        a.cli_arg_spec() == b.cli_arg_spec(),
    ensures
        a == b,
{
    lemma_triple_shape(a);
    lemma_triple_shape(b);
    assert(triple_len(a) == triple_len(b));
    assert(triple_head(a) == triple_head(b));
}

/// No two distinct platforms share a position in the canonical order.
pub proof fn lemma_rank_injective(a: FtwTarget, b: FtwTarget)
    requires
        a.rank_spec() == b.rank_spec(),
    ensures
        a == b,
{
}

/// Whether a target sequence is strictly ascending in the canonical order
/// (which also means it holds no duplicates).
pub open spec fn strictly_sorted(s: Seq<FtwTarget>) -> bool {
    forall|i: int, j: int|
        0 <= i < j < s.len() ==> #[trigger] s[i].rank_spec() < #[trigger] s[j].rank_spec()
}

fn insert_sorted(v: &mut Vec<FtwTarget>, t: FtwTarget)
    requires
        strictly_sorted(old(v)@),
    ensures
        strictly_sorted(final(v)@),
        forall|x: FtwTarget| #[trigger]
            final(v)@.contains(x) <==> (old(v)@.contains(x) || x == t),
{
    let mut i: usize = 0;
    while i < v.len() && v[i].rank() < t.rank()
        invariant
            strictly_sorted(v@),
            v@ == old(v)@,
            0 <= i <= v.len(),
            forall|k: int| 0 <= k < i ==> #[trigger] v@[k].rank_spec() < t.rank_spec(),
        decreases v.len() - i,
    {
        i += 1;
    }
    if i < v.len() && v[i].rank() == t.rank() {
        proof {
            lemma_rank_injective(v@[i as int], t);
            assert(v@.contains(t)) by {
                assert(v@[i as int] == t);
            }
        }
    } else {
        proof {
            assert forall|k: int| i <= k < v@.len() implies t.rank_spec()
                < #[trigger] v@[k].rank_spec() by {
                assert(t.rank_spec() <= v@[i as int].rank_spec());
                assert(t.rank_spec() != v@[i as int].rank_spec());
                if k > i {
                    assert(v@[i as int].rank_spec() < v@[k].rank_spec());
                }
            }
        }
        let ghost pre = v@;
        v.insert(i, t);
        proof {
            assert forall|x: FtwTarget| #[trigger] v@.contains(x) implies (pre.contains(x) || x
                == t) by {
                let k = choose|k: int| 0 <= k < v@.len() && v@[k] == x;
                if k < i {
                    assert(pre[k] == x);
                } else if k > i {
                    assert(pre[k - 1] == x);
                }
            }
            assert forall|x: FtwTarget| (pre.contains(x) || x == t) implies #[trigger] v@.contains(
                x,
            ) by {
                if x == t {
                    assert(v@[i as int] == x);
                } else {
                    let k = choose|k: int| 0 <= k < pre.len() && pre[k] == x;
                    if k < i {
                        assert(v@[k] == x);
                    } else {
                        assert(v@[k + 1] == x);
                    }
                }
            }
        }
    }
}

/// Normalizes a caller-supplied target list: each entry resolves to a
/// platform (an unrecognized or blank entry resolves to the default
/// platform), and the result is sorted in canonical order with duplicates
/// collapsed.
pub fn parse_targets(items: &Vec<String>) -> (r: Vec<FtwTarget>)
    ensures
        strictly_sorted(r@),
        forall|i: int, j: int| 0 <= i < j < r@.len() ==> #[trigger] r@[i] != #[trigger] r@[j],
        forall|x: FtwTarget| #[trigger]
            r@.contains(x) <==> (exists|k: int|
                0 <= k < items@.len() && FtwTarget::parse_or_default_spec(
                    #[trigger] items@[k]@,
                ) == x),
{
    let mut out: Vec<FtwTarget> = Vec::new();
    let mut idx: usize = 0;
    while idx < items.len()
        invariant
            0 <= idx <= items@.len(),
            strictly_sorted(out@),
            forall|x: FtwTarget| #[trigger]
                out@.contains(x) <==> (exists|k: int|
                    0 <= k < idx && FtwTarget::parse_or_default_spec(#[trigger] items@[k]@) == x),
        decreases items@.len() - idx,
    {
        let t = FtwTarget::parse_or_default(items[idx].as_str());
        insert_sorted(&mut out, t);
        idx += 1;
    }
    proof {
        assert forall|i: int, j: int| 0 <= i < j < out@.len() implies #[trigger] out@[i]
            != #[trigger] out@[j] by {
            assert(out@[i].rank_spec() < out@[j].rank_spec());
        }
    }
    out
}

} // verus!
