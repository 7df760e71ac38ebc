//! The system half of a tuple: operating system, environment, and the versions of each.

use vstd::prelude::*;

use crate::abi::ObjectFormat;
use crate::text::{dec, push_dec, push_str, string_of};
use core::cmp::Ordering;
use vstd::std_specs::cmp::PartialOrdSpecImpl;

verus! {

/// An operating system, in the sense of whose kernel defines the syscall interface, the object
/// format and the start files. Android is `Linux` with [`Env::Android`].
#[derive(Debug, Clone, Copy, PartialEq, Eq, PartialOrd, Ord, Hash, Structural)]
pub enum Os {
    /// Linux.
    Linux,
    /// macOS.
    MacOs,
    /// iOS, a different OS from macOS.
    IOs,
    /// Windows, either environment.
    Windows,
    /// FreeBSD 14 and later.
    FreeBsd,
    /// NetBSD 10.1 and later.
    NetBsd,
    /// OpenBSD.
    OpenBsd,
    /// illumos.
    Illumos,
    /// WASI, whose preview number lives in the OS version.
    Wasi,
    /// No operating system: the kernel target and the embedded target.
    Freestanding,
}

/// The canonical name of an OS, without its version.
pub open spec fn os_name(os: Os) -> Seq<char> {
    match os {
        Os::Linux => "linux"@,
        Os::MacOs => "macos"@,
        Os::IOs => "ios"@,
        Os::Windows => "windows"@,
        Os::FreeBsd => "freebsd"@,
        Os::NetBsd => "netbsd"@,
        Os::OpenBsd => "openbsd"@,
        Os::Illumos => "illumos"@,
        Os::Wasi => "wasi"@,
        Os::Freestanding => "none"@,
    }
}

impl Os {
    /// The object format of this OS, and `None` for freestanding, whose format follows the
    /// architecture.
    pub open spec fn spec_object_format(self) -> Option<ObjectFormat> {
        match self {
            Os::Linux | Os::FreeBsd | Os::NetBsd | Os::OpenBsd | Os::Illumos => Some(
                ObjectFormat::Elf,
            ),
            Os::MacOs | Os::IOs => Some(ObjectFormat::MachO),
            Os::Windows => Some(ObjectFormat::Coff),
            Os::Wasi => Some(ObjectFormat::Wasm),
            Os::Freestanding => None,
        }
    }

    /// Whether this is one of the Darwin systems.
    pub open spec fn spec_is_darwin(self) -> bool {
        self is MacOs || self is IOs
    }

    /// The environment used when the tuple does not name one: `gnu` on Linux and on Windows.
    pub open spec fn spec_default_env(self) -> Env {
        match self {
            Os::Linux | Os::Windows => Env::Gnu,
            _ => Env::Absent,
        }
    }

    /// Whether an OS version in the tuple means something here: Darwin and WASI.
    pub open spec fn spec_takes_version(self) -> bool {
        self is MacOs || self is IOs || self is Wasi
    }

    /// The canonical name, without the version.
    pub fn as_str(self) -> (r: &'static str)
        ensures
            r@ == os_name(self),
    {
        match self {
            Os::Linux => "linux",
            Os::MacOs => "macos",
            Os::IOs => "ios",
            Os::Windows => "windows",
            Os::FreeBsd => "freebsd",
            Os::NetBsd => "netbsd",
            Os::OpenBsd => "openbsd",
            Os::Illumos => "illumos",
            Os::Wasi => "wasi",
            Os::Freestanding => "none",
        }
    }

    /// The object format this OS uses: ELF on Linux, the BSDs and illumos, Mach-O on Darwin,
    /// COFF on Windows, wasm on WASI, and none of its own when freestanding.
    pub fn object_format(self) -> (r: Option<ObjectFormat>)
        ensures
            r == self.spec_object_format(),
    {
        match self {
            Os::Linux | Os::FreeBsd | Os::NetBsd | Os::OpenBsd | Os::Illumos => Some(
                ObjectFormat::Elf,
            ),
            Os::MacOs | Os::IOs => Some(ObjectFormat::MachO),
            Os::Windows => Some(ObjectFormat::Coff),
            Os::Wasi => Some(ObjectFormat::Wasm),
            Os::Freestanding => None,
        }
    }

    /// Whether this is one of the Darwin systems.
    pub fn is_darwin(self) -> (r: bool)
        ensures
            r == self.spec_is_darwin(),
    {
        matches!(self, Os::MacOs | Os::IOs)
    }

    /// Whether a program on this OS is linked against a libc that the tuple names, which is
    /// Linux only.
    pub fn has_selectable_libc(self) -> (r: bool)
        ensures
            r == (self is Linux),
    {
        matches!(self, Os::Linux)
    }

    /// The environment used when the tuple does not name one. Windows defaults to `gnu`,
    /// because mingw-w64 is the one that can be shipped.
    pub fn default_env(self) -> (r: Env)
        ensures
            r == self.spec_default_env(),
    {
        match self {
            Os::Linux => Env::Gnu,
            Os::Windows => Env::Gnu,
            _ => Env::Absent,
        }
    }

    /// Whether an OS version in the tuple means something here.
    pub fn takes_version(self) -> (r: bool)
        ensures
            r == self.spec_takes_version(),
    {
        matches!(self, Os::MacOs | Os::IOs | Os::Wasi)
    }
}

/// The environment component of a tuple: the C library on Linux, the ABI variant on Darwin,
/// and both at once on Windows.
#[derive(Debug, Clone, Copy, PartialEq, Eq, PartialOrd, Ord, Hash, Structural)]
pub enum Env {
    /// No environment component.
    Absent,
    /// glibc.
    Gnu,
    /// musl.
    Musl,
    /// The Microsoft toolchain.
    Msvc,
    /// Bionic, with an API level rather than a libc version.
    Android,
    /// A Darwin simulator ABI.
    Simulator,
    /// Mac Catalyst.
    MacAbi,
}

/// The canonical name of an environment, without the version and without any ABI suffix.
pub open spec fn env_name(e: Env) -> Seq<char> {
    match e {
        Env::Absent => ""@,
        Env::Gnu => "gnu"@,
        Env::Musl => "musl"@,
        Env::Msvc => "msvc"@,
        Env::Android => "android"@,
        Env::Simulator => "simulator"@,
        Env::MacAbi => "macabi"@,
    }
}

impl Default for Env {
    fn default() -> (r: Env)
        ensures
            r == Env::Absent,
    {
        Env::Absent
    }
}

impl Env {
    /// Whether this environment is a C library whose version the tuple may pin.
    pub open spec fn spec_is_libc(self) -> bool {
        self is Gnu || self is Musl || self is Msvc || self is Android
    }

    /// The canonical name, without the version and without any ABI suffix.
    pub fn as_str(self) -> (r: &'static str)
        ensures
            r@ == env_name(self),
    {
        match self {
            Env::Absent => "",
            Env::Gnu => "gnu",
            Env::Musl => "musl",
            Env::Msvc => "msvc",
            Env::Android => "android",
            Env::Simulator => "simulator",
            Env::MacAbi => "macabi",
        }
    }

    /// Whether this environment is a C library whose version the tuple may pin.
    pub fn is_libc(self) -> (r: bool)
        ensures
            r == self.spec_is_libc(),
    {
        matches!(self, Env::Gnu | Env::Musl | Env::Msvc | Env::Android)
    }

    /// Whether a fully static link is supported: musl, no environment, and MSVC.
    pub fn supports_static_link(self) -> (r: bool)
        ensures
            r == (self is Musl || self is Absent || self is Msvc),
    {
        matches!(self, Env::Musl | Env::Absent | Env::Msvc)
    }

    /// Whether a version attached to this environment is an API level, which is Android only.
    pub fn version_is_api_level(self) -> (r: bool)
        ensures
            r == (self is Android),
    {
        matches!(self, Env::Android)
    }
}

/// A version attached to an OS or to an environment.
///
/// Minor and patch are optional and absent is not zero: `13` and `13.0` format differently and
/// compare equal by [`Version::at_least`].
#[derive(Debug, Clone, Copy, PartialEq, Eq, Hash)]
pub struct Version {
    major: u32,
    minor: Option<u32>,
    patch: Option<u32>,
}

/// A version as its three parts, each absent part `None`.
pub type VersionView = (u32, Option<u32>, Option<u32>);

impl View for Version {
    type V = VersionView;

    closed spec fn view(&self) -> VersionView {
        (self.major, self.minor, self.patch)
    }
}

/// Whether a version can be constructed: a patch only beside a minor.
pub open spec fn version_wf(v: VersionView) -> bool {
    v.2 is Some ==> v.1 is Some
}

/// The three parts with absent ones read as zero, which is the form to compare in.
pub open spec fn version_triple(v: VersionView) -> (u32, u32, u32) {
    (
        v.0,
        match v.1 {
            Some(m) => m,
            None => 0,
        },
        match v.2 {
            Some(p) => p,
            None => 0,
        },
    )
}

/// Whether `a` is at least `b`, comparing the zero filled forms lexicographically.
pub open spec fn triple_at_least(a: (u32, u32, u32), b: (u32, u32, u32)) -> bool {
    if a.0 != b.0 {
        a.0 > b.0
    } else if a.1 != b.1 {
        a.1 > b.1
    } else {
        a.2 >= b.2
    }
}

/// How a version is written: the major part, then each part that is present after a dot.
pub open spec fn version_text(v: VersionView) -> Seq<char> {
    match v.1 {
        None => dec(v.0 as nat),
        Some(minor) => match v.2 {
            None => dec(v.0 as nat) + "."@ + dec(minor as nat),
            Some(patch) => dec(v.0 as nat) + "."@ + dec(minor as nat) + "."@ + dec(patch as nat),
        },
    }
}

/// The LLVM spelling of a version, which always has three parts.
pub open spec fn version_llvm_text(v: VersionView) -> Seq<char> {
    let t = version_triple(v);
    dec(t.0 as nat) + "."@ + dec(t.1 as nat) + "."@ + dec(t.2 as nat)
}

impl Version {
    /// A version with only a major component.
    pub fn major(major: u32) -> (r: Version)
        ensures
            r@ == (major, None::<u32>, None::<u32>),
    {
        Version { major, minor: None, patch: None }
    }

    /// A two component version, which is what a glibc version is.
    pub fn new(major: u32, minor: u32) -> (r: Version)
        ensures
            r@ == (major, Some(minor), None::<u32>),
    {
        Version { major, minor: Some(minor), patch: None }
    }

    /// A three component version, which is what an SDK version is.
    pub fn full(major: u32, minor: u32, patch: u32) -> (r: Version)
        ensures
            r@ == (major, Some(minor), Some(patch)),
    {
        Version { major, minor: Some(minor), patch: Some(patch) }
    }

    /// The major component.
    pub fn major_part(self) -> (r: u32)
        ensures
            r == self@.0,
    {
        self.major
    }

    /// The minor component, if the tuple gave one.
    pub fn minor_part(self) -> (r: Option<u32>)
        ensures
            r == self@.1,
    {
        self.minor
    }

    /// The patch component, if the tuple gave one.
    pub fn patch_part(self) -> (r: Option<u32>)
        ensures
            r == self@.2,
    {
        self.patch
    }

    /// The version as a three component tuple with absent components read as zero.
    pub fn to_triple(self) -> (r: (u32, u32, u32))
        ensures
            r == version_triple(self@),
    {
        let minor = match self.minor {
            Some(m) => m,
            None => 0,
        };
        let patch = match self.patch {
            Some(p) => p,
            None => 0,
        };
        (self.major, minor, patch)
    }

    /// Whether this version is at least `other`, comparing on the zero filled form.
    pub fn at_least(self, other: Version) -> (r: bool)
        ensures
            r == triple_at_least(version_triple(self@), version_triple(other@)),
    {
        let (a0, a1, a2) = self.to_triple();
        let (b0, b1, b2) = other.to_triple();
        if a0 != b0 {
            return a0 > b0;
        }
        if a1 != b1 {
            return a1 > b1;
        }
        a2 >= b2
    }

    /// The LLVM spelling, which always has three components: `13.0.0` rather than `13`.
    pub fn to_llvm_string(self) -> (s: String)
        ensures
            s@ == version_llvm_text(self@),
    {
        let (major, minor, patch) = self.to_triple();
        let mut v: Vec<char> = Vec::new();
        push_dec(&mut v, major);
        push_str(&mut v, ".");
        push_dec(&mut v, minor);
        push_str(&mut v, ".");
        push_dec(&mut v, patch);
        string_of(&v)
    }

    /// Append how this version is written.
    pub fn push_text(self, v: &mut Vec<char>)
        ensures
            final(v)@ == old(v)@ + version_text(self@),
    {
        let ghost start = v@;
        push_dec(v, self.major);
        if let Some(minor) = self.minor {
            push_str(v, ".");
            push_dec(v, minor);
            if let Some(patch) = self.patch {
                push_str(v, ".");
                push_dec(v, patch);
                assert(v@ =~= start + (dec(self.major as nat) + "."@ + dec(minor as nat) + "."@
                    + dec(patch as nat)));
            } else {
                assert(v@ =~= start + (dec(self.major as nat) + "."@ + dec(minor as nat)));
            }
        }
    }

    /// How the version is written: `13`, `13.0` or `13.0.1`, keeping the parts it was given.
    pub fn to_string(&self) -> (s: String)
        ensures
            s@ == version_text(self@),
    {
        let mut v: Vec<char> = Vec::new();
        self.push_text(&mut v);
        string_of(&v)
    }
}

/// How two zero filled versions order, lexicographically.
pub open spec fn triple_order(a: (u32, u32, u32), b: (u32, u32, u32)) -> Ordering {
    if a.0 != b.0 {
        if a.0 < b.0 {
            Ordering::Less
        } else {
            Ordering::Greater
        }
    } else if a.1 != b.1 {
        if a.1 < b.1 {
            Ordering::Less
        } else {
            Ordering::Greater
        }
    } else if a.2 != b.2 {
        if a.2 < b.2 {
            Ordering::Less
        } else {
            Ordering::Greater
        }
    } else {
        Ordering::Equal
    }
}

/// Versions order by their zero filled parts, so `13` and `13.0` compare equal while still
/// formatting differently.
impl PartialOrd for Version {
    fn partial_cmp(&self, other: &Version) -> (r: Option<Ordering>) {
        let a = self.to_triple();
        let b = other.to_triple();
        let o = if a.0 != b.0 {
            if a.0 < b.0 {
                Ordering::Less
            } else {
                Ordering::Greater
            }
        } else if a.1 != b.1 {
            if a.1 < b.1 {
                Ordering::Less
            } else {
                Ordering::Greater
            }
        } else if a.2 != b.2 {
            if a.2 < b.2 {
                Ordering::Less
            } else {
                Ordering::Greater
            }
        } else {
            Ordering::Equal
        };
        Some(o)
    }
}

impl PartialOrdSpecImpl for Version {
    open spec fn obeys_partial_cmp_spec() -> bool {
        true
    }

    open spec fn partial_cmp_spec(&self, other: &Version) -> Option<Ordering> {
        Some(triple_order(version_triple(self@), version_triple(other@)))
    }
}

/// A version is at least another exactly when it does not order before it.
pub proof fn at_least_is_not_less(a: VersionView, b: VersionView)
    ensures
        triple_at_least(version_triple(a), version_triple(b)) <==> triple_order(
            version_triple(a),
            version_triple(b),
        ) != Ordering::Less,
{
}

} // verus!
