//! What goes wrong when a tuple is read, and what the user is told about it.

use vstd::prelude::*;

use crate::abi::{abi_name, Abi};
use crate::arch::{arch_name, endian_name, sub_arch_name, Arch, Endian, SubArch};
use crate::os::{env_name, os_name, Env, Os};
use crate::text::{push_chars, push_str, string_of};

verus! {

/// A tuple that could not be read, or that was read and does not describe a machine. Every
/// variant names the component it is unhappy about.
#[derive(Debug, Clone, PartialEq, Eq)]
pub enum Error {
    /// The tuple was empty or all separators.
    Empty,
    /// The leading component is not an architecture we know.
    UnknownArch(String),
    /// The OS component is not an OS we know.
    UnknownOs(String),
    /// The environment component is not an environment we know.
    UnknownEnv(String),
    /// Components were left over after the environment was read, quoted.
    Trailing(Vec<String>),
    /// A version was attached to a component and could not be read as one.
    BadVersion {
        /// The component the version was attached to.
        component: &'static str,
        /// What was found where a version was expected.
        found: String,
    },
    /// A sub-architecture was named that does not belong to the architecture.
    SubArchMismatch {
        /// The architecture that was named.
        arch: Arch,
        /// The baseline that does not belong to it.
        sub_arch: SubArch,
    },
    /// A byte order was named that the architecture does not have.
    EndianUnsupported {
        /// The architecture that was named.
        arch: Arch,
        /// The byte order it does not have.
        endian: Endian,
    },
    /// An environment was named that the OS does not have.
    EnvMismatch {
        /// The OS that was named.
        os: Os,
        /// The environment it does not have.
        env: Env,
    },
    /// A float ABI was named for an architecture that has one calling convention.
    AbiMismatch {
        /// The architecture that was named.
        arch: Arch,
        /// The ABI it cannot select.
        abi: Abi,
    },
    /// A version was attached to a component that does not take one.
    VersionNotAccepted {
        /// The component the version was attached to.
        component: &'static str,
    },
}

/// An [`Error`] with its text as sequences of characters.
pub ghost enum ErrorView {
    Empty,
    UnknownArch(Seq<char>),
    UnknownOs(Seq<char>),
    UnknownEnv(Seq<char>),
    Trailing(Seq<Seq<char>>),
    BadVersion { component: Seq<char>, found: Seq<char> },
    SubArchMismatch { arch: Arch, sub_arch: SubArch },
    EndianUnsupported { arch: Arch, endian: Endian },
    EnvMismatch { os: Os, env: Env },
    AbiMismatch { arch: Arch, abi: Abi },
    VersionNotAccepted { component: Seq<char> },
}

impl View for Error {
    type V = ErrorView;

    open spec fn view(&self) -> ErrorView {
        match self {
            Error::Empty => ErrorView::Empty,
            Error::UnknownArch(s) => ErrorView::UnknownArch(s@),
            Error::UnknownOs(s) => ErrorView::UnknownOs(s@),
            Error::UnknownEnv(s) => ErrorView::UnknownEnv(s@),
            Error::Trailing(rest) => ErrorView::Trailing(rest@.map_values(|s: String| s@)),
            Error::BadVersion { component, found } => ErrorView::BadVersion {
                component: component@,
                found: found@,
            },
            Error::SubArchMismatch { arch, sub_arch } => ErrorView::SubArchMismatch {
                arch: *arch,
                sub_arch: *sub_arch,
            },
            Error::EndianUnsupported { arch, endian } => ErrorView::EndianUnsupported {
                arch: *arch,
                endian: *endian,
            },
            Error::EnvMismatch { os, env } => ErrorView::EnvMismatch { os: *os, env: *env },
            Error::AbiMismatch { arch, abi } => ErrorView::AbiMismatch { arch: *arch, abi: *abi },
            Error::VersionNotAccepted { component } => ErrorView::VersionNotAccepted {
                component: component@,
            },
        }
    }
}

/// The leftover components, each quoted, the first after a space and the rest after a comma.
pub open spec fn quoted_list(parts: Seq<Seq<char>>) -> Seq<char>
    decreases parts.len(),
{
    if parts.len() == 0 {
        Seq::empty()
    } else {
        quoted_list(parts.drop_last()) + (if parts.len() == 1 {
            " `"@
        } else {
            ", `"@
        }) + parts.last() + "`"@
    }
}

/// The message for an error, which names the component that was wrong.
pub open spec fn error_message(e: ErrorView) -> Seq<char> {
    match e {
        ErrorView::Empty => "empty target tuple"@,
        ErrorView::UnknownArch(found) => "unknown architecture `"@ + found + "`"@,
        ErrorView::UnknownOs(found) => "unknown operating system `"@ + found + "`"@,
        ErrorView::UnknownEnv(found) => "unknown environment `"@ + found + "`"@,
        ErrorView::Trailing(rest) => "unexpected trailing component"@ + (if rest.len() > 1 {
            "s"@
        } else {
            ""@
        }) + quoted_list(rest),
        ErrorView::BadVersion { component, found } => "`"@ + found
            + "` is not a version for the "@ + component + " component"@,
        ErrorView::SubArchMismatch { arch, sub_arch } => "`"@ + sub_arch_name(sub_arch)
            + "` is not a baseline of `"@ + arch_name(arch) + "`"@,
        ErrorView::EndianUnsupported { arch, endian } => "`"@ + arch_name(arch) + "` has no "@
            + endian_name(endian) + " endian mode"@,
        ErrorView::EnvMismatch { os, env } => "`"@ + os_name(os) + "` has no `"@ + env_name(env)
            + "` environment"@,
        ErrorView::AbiMismatch { arch, abi } => "`"@ + arch_name(arch)
            + "` has one calling convention and cannot select `"@ + abi_name(abi) + "`"@,
        ErrorView::VersionNotAccepted { component } => "the "@ + component
            + " component does not take a version"@,
    }
}

/// Append the characters of a `String`.
fn push_string(v: &mut Vec<char>, s: &String)
    ensures
        final(v)@ == old(v)@ + s@,
{
    push_str(v, s.as_str());
}

impl Error {
    /// The message shown to the user, which names the component that was wrong.
    pub fn to_string(&self) -> (s: String)
        ensures
            s@ == error_message(self@),
    {
        let mut v: Vec<char> = Vec::new();
        match self {
            Error::Empty => {
                push_str(&mut v, "empty target tuple");
            },
            Error::UnknownArch(found) => {
                push_str(&mut v, "unknown architecture `");
                push_string(&mut v, found);
                push_str(&mut v, "`");
            },
            Error::UnknownOs(found) => {
                push_str(&mut v, "unknown operating system `");
                push_string(&mut v, found);
                push_str(&mut v, "`");
            },
            Error::UnknownEnv(found) => {
                push_str(&mut v, "unknown environment `");
                push_string(&mut v, found);
                push_str(&mut v, "`");
            },
            Error::Trailing(rest) => {
                push_str(&mut v, "unexpected trailing component");
                if rest.len() > 1 {
                    push_str(&mut v, "s");
                } else {
                    push_str(&mut v, "");
                }
                let ghost head = v@;
                let ghost parts = rest@.map_values(|s: String| s@);
                let mut i: usize = 0;
                while i < rest.len()
                    invariant
                        i <= rest@.len(),
                        parts == rest@.map_values(|s: String| s@),
                        v@ == head + quoted_list(parts.take(i as int)),
                    decreases rest@.len() - i,
                {
                    if i == 0 {
                        push_str(&mut v, " `");
                    } else {
                        push_str(&mut v, ", `");
                    }
                    push_string(&mut v, &rest[i]);
                    push_str(&mut v, "`");
                    proof {
                        let next = parts.take(i as int + 1);
                        assert(next.drop_last() =~= parts.take(i as int));
                        assert(next.last() == rest@[i as int]@);
                    }
                    i = i + 1;
                    assert(v@ =~= head + quoted_list(parts.take(i as int)));
                }
                assert(parts.take(rest@.len() as int) =~= parts);
            },
            Error::BadVersion { component, found } => {
                push_str(&mut v, "`");
                push_string(&mut v, found);
                push_str(&mut v, "` is not a version for the ");
                push_str(&mut v, component);
                push_str(&mut v, " component");
            },
            Error::SubArchMismatch { arch, sub_arch } => {
                push_str(&mut v, "`");
                push_str(&mut v, sub_arch.as_str());
                push_str(&mut v, "` is not a baseline of `");
                push_str(&mut v, arch.as_str());
                push_str(&mut v, "`");
            },
            Error::EndianUnsupported { arch, endian } => {
                push_str(&mut v, "`");
                push_str(&mut v, arch.as_str());
                push_str(&mut v, "` has no ");
                push_str(&mut v, endian.as_str());
                push_str(&mut v, " endian mode");
            },
            Error::EnvMismatch { os, env } => {
                push_str(&mut v, "`");
                push_str(&mut v, os.as_str());
                push_str(&mut v, "` has no `");
                push_str(&mut v, env.as_str());
                push_str(&mut v, "` environment");
            },
            Error::AbiMismatch { arch, abi } => {
                push_str(&mut v, "`");
                push_str(&mut v, arch.as_str());
                push_str(&mut v, "` has one calling convention and cannot select `");
                push_str(&mut v, abi.as_str());
                push_str(&mut v, "`");
            },
            Error::VersionNotAccepted { component } => {
                push_str(&mut v, "the ");
                push_str(&mut v, component);
                push_str(&mut v, " component does not take a version");
            },
        }
        proof {
            assert(v@ =~= error_message(self@));
        }
        string_of(&v)
    }
}

} // verus!
