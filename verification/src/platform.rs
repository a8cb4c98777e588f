//! The engines, operating systems, architectures and build variants that the
//! runtime knows, and the names by which callers refer to them.

use crate::text::{lowercase, same_text, unicode_lowercase};
use vstd::prelude::*;
use vstd::string::*;

verus! {

/// Which inference engine is managed.
#[derive(Clone, Copy, Debug, PartialEq, Eq, Structural)]
pub enum ServerKind {
    LlamaCpp,
    Ollama,
}

/// The operating system an asset is built for.
#[derive(Clone, Copy, Debug, PartialEq, Eq, Structural)]
pub enum Os {
    Windows,
    Macos,
    Linux,
}

/// The processor architecture of a host.
#[derive(Clone, Copy, Debug, PartialEq, Eq, Structural)]
pub enum Arch {
    X86_64,
    Aarch64,
    Other,
}

/// The compute backend a build of a server is made for.
#[derive(Clone, Copy, Debug, PartialEq, Eq, Structural)]
pub enum Variant {
    Cpu,
    CpuArm,
    Cuda12,
    HipRadeon,
    Vulkan,
}

/// The engine that goes by `name`.
pub open spec fn server_named(name: Seq<char>) -> Option<ServerKind> {
    if name == "llama-cpp"@ {
        Some(ServerKind::LlamaCpp)
    } else if name == "ollama"@ {
        Some(ServerKind::Ollama)
    } else {
        None
    }
}

/// The operating system that goes by the canonical name `name`.
pub open spec fn os_named(name: Seq<char>) -> Option<Os> {
    if name == "windows"@ {
        Some(Os::Windows)
    } else if name == "macos"@ {
        Some(Os::Macos)
    } else if name == "linux"@ {
        Some(Os::Linux)
    } else {
        None
    }
}

/// The architecture that goes by `name`; every name that is neither of the
/// two known ones stands for some other architecture.
pub open spec fn arch_named(name: Seq<char>) -> Arch {
    if name == "x86_64"@ {
        Arch::X86_64
    } else if name == "aarch64"@ {
        Arch::Aarch64
    } else {
        Arch::Other
    }
}

/// The variant with the tag `tag`; tags outside the list stand for nothing.
pub open spec fn variant_named(tag: Seq<char>) -> Option<Variant> {
    if tag == "cpu"@ {
        Some(Variant::Cpu)
    } else if tag == "cpu_arm"@ {
        Some(Variant::CpuArm)
    } else if tag == "cuda_12"@ {
        Some(Variant::Cuda12)
    } else if tag == "hip_radeon"@ {
        Some(Variant::HipRadeon)
    } else if tag == "vulkan"@ {
        Some(Variant::Vulkan)
    } else {
        None
    }
}

/// The canonical name for an operating system given in lowercase: the usual
/// aliases are folded, every other name stays as it is.
pub open spec fn canonical_os(lower: Seq<char>) -> Seq<char> {
    if lower == "windows"@ || lower == "win"@ || lower == "win32"@ {
        "windows"@
    } else if lower == "macos"@ || lower == "mac"@ || lower == "darwin"@ || lower == "osx"@ {
        "macos"@
    } else {
        lower
    }
}

/// Folds the aliases of an operating system name that is already lowercase.
pub fn canonical_os_name(lower: &str) -> (name: String)
    ensures
        name@ == canonical_os(lower@),
{
    if same_text(lower, "windows") || same_text(lower, "win") || same_text(lower, "win32") {
        String::from_str("windows")
    } else if same_text(lower, "macos") || same_text(lower, "mac") || same_text(lower, "darwin")
        || same_text(lower, "osx") {
        String::from_str("macos")
    } else {
        String::from_str(lower)
    }
}

/// The operating system to install for: the caller's choice, lowercased and
/// with aliases folded, or else the detected one as it is.
pub fn normalize_os(os_override: Option<&str>, detected: &str) -> (name: String)
    ensures
        name@ == match os_override {
            Some(o) => canonical_os(unicode_lowercase(o@)),
            None => detected@,
        },
{
    match os_override {
        Some(o) => {
            let lower = lowercase(o);
            canonical_os_name(lower.as_str())
        },
        None => String::from_str(detected),
    }
}

impl ServerKind {
    /// The name of the engine.
    pub open spec fn name_of(self) -> Seq<char> {
        match self {
            ServerKind::LlamaCpp => "llama-cpp"@,
            ServerKind::Ollama => "ollama"@,
        }
    }

    /// Looks an engine up by name.
    pub fn parse(name: &str) -> (kind: Option<ServerKind>)
        ensures
            kind == server_named(name@),
    {
        if same_text(name, "llama-cpp") {
            Some(ServerKind::LlamaCpp)
        } else if same_text(name, "ollama") {
            Some(ServerKind::Ollama)
        } else {
            None
        }
    }

    /// The name of the engine, as used in paths and requests.
    pub fn name(self) -> (name: String)
        ensures
            name@ == self.name_of(),
    {
        match self {
            ServerKind::LlamaCpp => String::from_str("llama-cpp"),
            ServerKind::Ollama => String::from_str("ollama"),
        }
    }
}

impl Os {
    /// Looks an operating system up by its canonical name.
    pub fn parse(name: &str) -> (os: Option<Os>)
        ensures
            os == os_named(name@),
    {
        if same_text(name, "windows") {
            Some(Os::Windows)
        } else if same_text(name, "macos") {
            Some(Os::Macos)
        } else if same_text(name, "linux") {
            Some(Os::Linux)
        } else {
            None
        }
    }
}

impl Arch {
    /// Looks an architecture up by name.
    pub fn parse(name: &str) -> (arch: Arch)
        ensures
            arch == arch_named(name@),
    {
        if same_text(name, "x86_64") {
            Arch::X86_64
        } else if same_text(name, "aarch64") {
            Arch::Aarch64
        } else {
            Arch::Other
        }
    }
}

impl Variant {
    /// The tag of the variant.
    pub open spec fn tag_of(self) -> Seq<char> {
        match self {
            Variant::Cpu => "cpu"@,
            Variant::CpuArm => "cpu_arm"@,
            Variant::Cuda12 => "cuda_12"@,
            Variant::HipRadeon => "hip_radeon"@,
            Variant::Vulkan => "vulkan"@,
        }
    }

    /// Whether builds of this variant run on ARM processors only.
    pub open spec fn is_arm_only(self) -> bool {
        self == Variant::CpuArm
    }

    /// Whether builds of this variant can offload work to a GPU.
    pub open spec fn is_gpu_capable(self) -> bool {
        self != Variant::Cpu && self != Variant::CpuArm
    }

    /// Looks a variant up by its tag.
    pub fn parse(tag: &str) -> (variant: Option<Variant>)
        ensures
            variant == variant_named(tag@),
    {
        if same_text(tag, "cpu") {
            Some(Variant::Cpu)
        } else if same_text(tag, "cpu_arm") {
            Some(Variant::CpuArm)
        } else if same_text(tag, "cuda_12") {
            Some(Variant::Cuda12)
        } else if same_text(tag, "hip_radeon") {
            Some(Variant::HipRadeon)
        } else if same_text(tag, "vulkan") {
            Some(Variant::Vulkan)
        } else {
            None
        }
    }

    /// The tag of the variant, as used in paths and requests.
    pub fn tag(self) -> (tag: &'static str)
        ensures
            tag@ == self.tag_of(),
    {
        match self {
            Variant::Cpu => "cpu",
            Variant::CpuArm => "cpu_arm",
            Variant::Cuda12 => "cuda_12",
            Variant::HipRadeon => "hip_radeon",
            Variant::Vulkan => "vulkan",
        }
    }
}

/// Looking a variant up by its own tag finds it again.
pub proof fn variant_tags_are_distinct(v: Variant)
    ensures
        variant_named(v.tag_of()) == Some(v),
{
    reveal_strlit("cpu");
    reveal_strlit("cpu_arm");
    reveal_strlit("cuda_12");
    reveal_strlit("hip_radeon");
    reveal_strlit("vulkan");
    assert("cpu"@.len() == 3);
    assert("cpu_arm"@.len() == 7);
    assert("cuda_12"@.len() == 7);
    assert("hip_radeon"@.len() == 10);
    assert("vulkan"@.len() == 6);
    assert("cuda_12"@[1] != "cpu_arm"@[1]);
}

/// Looking an engine up by its own name finds it again.
pub proof fn server_names_are_distinct(k: ServerKind)
    ensures
        server_named(k.name_of()) == Some(k),
{
    reveal_strlit("llama-cpp");
    reveal_strlit("ollama");
    assert("llama-cpp"@.len() == 9);
    assert("ollama"@.len() == 6);
}

} // verus!
