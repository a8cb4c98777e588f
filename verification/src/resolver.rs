//! The asset resolver: from engine, platform and variant to the URL of the
//! release asset to install. A pure mapping; nothing is fetched here.

use crate::links::{
    default_tag, linux_amd64_rocm_tgz, linux_amd64_tgz, linux_arm64_tgz, linux_tail,
    linux_tgz_url_with_tag, llama_asset, mac_dmg, mac_tail, mac_zip_url_with_tag, ollama_asset,
    win_arm64_zip, win_tail, win_x64_rocm_zip, win_x64_zip, win_zip_url_with_tag,
};
use crate::platform::{
    arch_named, os_named, server_named, variant_named, Arch, Os, ServerKind, Variant,
};
use crate::text::{contains_text, occurs_at};
use vstd::prelude::*;
use vstd::string::*;

verus! {

/// Why no asset could be named.
#[derive(Clone, Copy, Debug, PartialEq, Eq, Structural)]
pub enum ResolveError {
    /// The engine is not one of the managed ones.
    UnknownServer,
    /// There are no builds for the operating system.
    UnsupportedPlatform,
    /// The variant is not on the list, or the engine has no build of it for
    /// the operating system.
    UnsupportedVariant,
}

/// File-name tail of the llama.cpp build for a platform and variant, if
/// the table of that platform lists the variant.
pub open spec fn llama_tail(os: Os, variant: Variant) -> Option<Seq<char>> {
    match os {
        Os::Windows => win_tail(variant.tag_of()),
        Os::Macos => mac_tail(variant.tag_of()),
        Os::Linux => linux_tail(variant.tag_of()),
    }
}

/// File name of the Ollama asset for a platform and variant. Each system
/// has its own table, and a variant that the table does not list is refused:
/// Windows has the plain, the ARM and the ROCm build; Linux has the plain and
/// the ROCm build for x86-64 and one build for ARM, which serves both CPU
/// variants there, and nothing for any other architecture; macOS has a
/// single disk image, which serves both CPU variants.
pub open spec fn ollama_file(os: Os, arch: Arch, variant: Variant) -> Result<
    Seq<char>,
    ResolveError,
> {
    match os {
        Os::Windows => match variant {
            Variant::Cpu => Ok("ollama-windows-amd64.zip"@),
            Variant::CpuArm => Ok("ollama-windows-arm64.zip"@),
            Variant::HipRadeon => Ok("ollama-windows-amd64-rocm.zip"@),
            _ => Err(ResolveError::UnsupportedVariant),
        },
        Os::Linux => match arch {
            Arch::X86_64 => match variant {
                Variant::Cpu => Ok("ollama-linux-amd64.tgz"@),
                Variant::HipRadeon => Ok("ollama-linux-amd64-rocm.tgz"@),
                _ => Err(ResolveError::UnsupportedVariant),
            },
            Arch::Aarch64 => match variant {
                Variant::Cpu | Variant::CpuArm => Ok("ollama-linux-arm64.tgz"@),
                _ => Err(ResolveError::UnsupportedVariant),
            },
            Arch::Other => Err(ResolveError::UnsupportedPlatform),
        },
        Os::Macos => match variant {
            Variant::Cpu | Variant::CpuArm => Ok("Ollama.dmg"@),
            _ => Err(ResolveError::UnsupportedVariant),
        },
    }
}

/// The URL of the asset for a combination of engine, platform and variant;
/// `tag` is the llama.cpp release to take. Nothing is guessed: a
/// combination without an entry in the tables is refused.
pub open spec fn asset_for(
    kind: ServerKind,
    os: Os,
    arch: Arch,
    variant: Variant,
    tag: Seq<char>,
) -> Result<Seq<char>, ResolveError> {
    match kind {
        ServerKind::LlamaCpp => match llama_tail(os, variant) {
            Some(tail) => Ok(llama_asset(tag, tail)),
            None => Err(ResolveError::UnsupportedVariant),
        },
        ServerKind::Ollama => match ollama_file(os, arch, variant) {
            Ok(file) => Ok(ollama_asset(file)),
            Err(e) => Err(e),
        },
    }
}

/// The resolver on names: the engine is looked up first, then the operating
/// system, then the variant; the first unknown name decides the error.
pub open spec fn resolved_url(
    server: Seq<char>,
    os: Seq<char>,
    arch: Seq<char>,
    variant: Seq<char>,
    tag: Seq<char>,
) -> Result<Seq<char>, ResolveError> {
    match server_named(server) {
        None => Err(ResolveError::UnknownServer),
        Some(kind) => match os_named(os) {
            None => Err(ResolveError::UnsupportedPlatform),
            Some(o) => match variant_named(variant) {
                None => Err(ResolveError::UnsupportedVariant),
                Some(v) => asset_for(kind, o, arch_named(arch), v, tag),
            },
        },
    }
}

/// The mathematical form of a resolver result.
pub open spec fn url_view(r: Result<String, ResolveError>) -> Result<Seq<char>, ResolveError> {
    match r {
        Ok(url) => Ok(url@),
        Err(e) => Err(e),
    }
}

fn llama_result(r: Result<String, String>) -> (out: Result<String, ResolveError>)
    ensures
        url_view(out) == match r {
            Ok(url) => Ok::<Seq<char>, ResolveError>(url@),
            Err(_) => Err(ResolveError::UnsupportedVariant),
        },
{
    match r {
        Ok(url) => Ok(url),
        Err(_) => Err(ResolveError::UnsupportedVariant),
    }
}

/// Names the asset for a combination that is already in typed form.
pub fn asset_url_for(kind: ServerKind, os: Os, arch: Arch, variant: Variant, tag: &str) -> (r:
    Result<String, ResolveError>)
    ensures
        url_view(r) == asset_for(kind, os, arch, variant, tag@),
{
    match kind {
        ServerKind::LlamaCpp => match os {
            Os::Windows => llama_result(win_zip_url_with_tag(tag, variant.tag())),
            Os::Macos => llama_result(mac_zip_url_with_tag(tag, variant.tag())),
            Os::Linux => llama_result(linux_tgz_url_with_tag(tag, variant.tag())),
        },
        ServerKind::Ollama => match os {
            Os::Windows => match variant {
                Variant::Cpu => Ok(win_x64_zip()),
                Variant::CpuArm => Ok(win_arm64_zip()),
                Variant::HipRadeon => Ok(win_x64_rocm_zip()),
                _ => Err(ResolveError::UnsupportedVariant),
            },
            Os::Linux => match arch {
                Arch::X86_64 => match variant {
                    Variant::Cpu => Ok(linux_amd64_tgz()),
                    Variant::HipRadeon => Ok(linux_amd64_rocm_tgz()),
                    _ => Err(ResolveError::UnsupportedVariant),
                },
                Arch::Aarch64 => match variant {
                    Variant::Cpu | Variant::CpuArm => Ok(linux_arm64_tgz()),
                    _ => Err(ResolveError::UnsupportedVariant),
                },
                Arch::Other => Err(ResolveError::UnsupportedPlatform),
            },
            Os::Macos => match variant {
                Variant::Cpu | Variant::CpuArm => Ok(mac_dmg()),
                _ => Err(ResolveError::UnsupportedVariant),
            },
        },
    }
}

/// Resolves names to the URL of the asset of llama.cpp release `tag`, or of
/// the latest Ollama release.
pub fn resolve_asset_url_with_tag(
    server: &str,
    os: &str,
    arch: &str,
    variant: &str,
    tag: &str,
) -> (r: Result<String, ResolveError>)
    ensures
        url_view(r) == resolved_url(server@, os@, arch@, variant@, tag@),
{
    let kind = match ServerKind::parse(server) {
        Some(k) => k,
        None => {
            return Err(ResolveError::UnknownServer);
        },
    };
    let target = match Os::parse(os) {
        Some(o) => o,
        None => {
            return Err(ResolveError::UnsupportedPlatform);
        },
    };
    let build = match Variant::parse(variant) {
        Some(v) => v,
        None => {
            return Err(ResolveError::UnsupportedVariant);
        },
    };
    asset_url_for(kind, target, Arch::parse(arch), build, tag)
}

/// Resolves names to the URL of the asset to install, taking the pinned
/// llama.cpp release.
pub fn resolve_asset_url(server: &str, os: &str, arch: &str, variant: &str) -> (r: Result<
    String,
    ResolveError,
>)
    ensures
        url_view(r) == resolved_url(server@, os@, arch@, variant@, default_tag()),
{
    resolve_asset_url_with_tag(server, os, arch, variant, "b6134")
}

impl ResolveError {
    /// The text of the error.
    pub open spec fn message_of(self) -> Seq<char> {
        match self {
            ResolveError::UnknownServer => "Unknown server"@,
            ResolveError::UnsupportedPlatform => "Platform is not supported"@,
            ResolveError::UnsupportedVariant => "Invalid variant"@,
        }
    }

    /// The text of the error, as shown to the caller.
    pub fn message(self) -> (m: String)
        ensures
            m@ == self.message_of(),
    {
        match self {
            ResolveError::UnknownServer => String::from_str("Unknown server"),
            ResolveError::UnsupportedPlatform => String::from_str("Platform is not supported"),
            ResolveError::UnsupportedVariant => String::from_str("Invalid variant"),
        }
    }
}

/// The supported matrix, written out: which combinations of engine,
/// operating system, architecture and variant have an asset.
pub open spec fn in_matrix(kind: ServerKind, os: Os, arch: Arch, variant: Variant) -> bool {
    match kind {
        ServerKind::LlamaCpp => match os {
            Os::Windows => true,
            Os::Macos => variant == Variant::Cpu || variant == Variant::CpuArm || variant
                == Variant::Vulkan,
            Os::Linux => variant != Variant::CpuArm,
        },
        ServerKind::Ollama => match os {
            Os::Windows => variant == Variant::Cpu || variant == Variant::CpuArm || variant
                == Variant::HipRadeon,
            Os::Macos => variant == Variant::Cpu || variant == Variant::CpuArm,
            Os::Linux => (arch == Arch::X86_64 && (variant == Variant::Cpu || variant
                == Variant::HipRadeon)) || (arch == Arch::Aarch64 && (variant == Variant::Cpu
                || variant == Variant::CpuArm)),
        },
    }
}

/// The part of an asset's file name that tells the build of a combination
/// in the matrix from the other builds of the same engine.
pub open spec fn variant_token(kind: ServerKind, os: Os, arch: Arch, variant: Variant) -> Seq<
    char,
>
    recommends
        in_matrix(kind, os, arch, variant),
{
    match kind {
        ServerKind::LlamaCpp => match os {
            Os::Windows => match variant {
                Variant::Cpu => "cpu-x64"@,
                Variant::CpuArm => "cpu-arm64"@,
                Variant::Cuda12 => "cuda-12.4"@,
                Variant::HipRadeon => "hip-radeon"@,
                Variant::Vulkan => "vulkan"@,
            },
            Os::Macos => "macos-universal"@,
            Os::Linux => match variant {
                Variant::Cuda12 => "cuda-12.4"@,
                Variant::HipRadeon => "rocm"@,
                Variant::Vulkan => "vulkan"@,
                _ => "linux-x64"@,
            },
        },
        ServerKind::Ollama => match os {
            Os::Windows => match variant {
                Variant::CpuArm => "windows-arm64"@,
                Variant::HipRadeon => "windows-amd64-rocm"@,
                _ => "windows-amd64"@,
            },
            Os::Linux => if arch == Arch::Aarch64 {
                "linux-arm64"@
            } else if variant == Variant::HipRadeon {
                "linux-amd64-rocm"@
            } else {
                "linux-amd64"@
            },
            Os::Macos => "Ollama.dmg"@,
        },
    }
}

proof fn occurs_behind(head: Seq<char>, tail: Seq<char>, token: Seq<char>, at: int)
    requires
        occurs_at(tail, token, at),
    ensures
        contains_text(head + tail, token),
{
    assert((head + tail).subrange(head.len() + at, head.len() + at + token.len()) =~= tail.subrange(
        at,
        at + token.len(),
    ));
    assert(occurs_at(head + tail, token, head.len() + at));
}

/// Where in the tail of a llama.cpp file name the token of the build stands.
spec fn llama_token_offset(os: Os, variant: Variant) -> int {
    if os == Os::Linux && variant == Variant::Cpu {
        5
    } else if os == Os::Linux {
        11
    } else if os == Os::Macos {
        5
    } else {
        9
    }
}

proof fn llama_tables_are_the_matrix(os: Os, variant: Variant)
    ensures
        llama_tail(os, variant) is Some <==> in_matrix(
            ServerKind::LlamaCpp,
            os,
            Arch::Other,
            variant,
        ),
{
    crate::platform::variant_tags_are_distinct(variant);
    reveal_strlit("cpu");
    reveal_strlit("cpu_arm");
    reveal_strlit("cuda_12");
    reveal_strlit("hip_radeon");
    reveal_strlit("vulkan");
    assert("cpu"@.len() == 3 && "cpu_arm"@.len() == 7 && "cuda_12"@.len() == 7 && "hip_radeon"@.len()
        == 10 && "vulkan"@.len() == 6);
    assert("cuda_12"@[1] != "cpu_arm"@[1]);
}

proof fn llama_tail_names_variant(os: Os, variant: Variant)
    requires
        llama_tail(os, variant) is Some,
    ensures
        occurs_at(
            llama_tail(os, variant)->0,
            variant_token(ServerKind::LlamaCpp, os, Arch::Other, variant),
            llama_token_offset(os, variant),
        ),
{
    llama_tables_are_the_matrix(os, variant);
    crate::platform::variant_tags_are_distinct(variant);
    reveal_strlit("cpu");
    reveal_strlit("cpu_arm");
    reveal_strlit("cuda_12");
    reveal_strlit("hip_radeon");
    reveal_strlit("vulkan");
    assert("cpu"@.len() == 3 && "cpu_arm"@.len() == 7 && "cuda_12"@.len() == 7 && "hip_radeon"@.len()
        == 10 && "vulkan"@.len() == 6);
    assert("cuda_12"@[1] != "cpu_arm"@[1]);
    match os {
        Os::Windows => match variant {
            Variant::Cpu => {
                reveal_strlit("-bin-win-cpu-x64.zip");
                reveal_strlit("cpu-x64");
                assert("-bin-win-cpu-x64.zip"@.subrange(9, 16) =~= "cpu-x64"@);
            },
            Variant::CpuArm => {
                reveal_strlit("-bin-win-cpu-arm64.zip");
                reveal_strlit("cpu-arm64");
                assert("-bin-win-cpu-arm64.zip"@.subrange(9, 18) =~= "cpu-arm64"@);
            },
            Variant::Cuda12 => {
                reveal_strlit("-bin-win-cuda-12.4-x64.zip");
                reveal_strlit("cuda-12.4");
                assert("-bin-win-cuda-12.4-x64.zip"@.subrange(9, 18) =~= "cuda-12.4"@);
            },
            Variant::HipRadeon => {
                reveal_strlit("-bin-win-hip-radeon-x64.zip");
                reveal_strlit("hip-radeon");
                assert("-bin-win-hip-radeon-x64.zip"@.subrange(9, 19) =~= "hip-radeon"@);
            },
            Variant::Vulkan => {
                reveal_strlit("-bin-win-vulkan-x64.zip");
                assert("-bin-win-vulkan-x64.zip"@.subrange(9, 15) =~= "vulkan"@);
            },
        },
        Os::Macos => {
            reveal_strlit("-bin-macos-universal.zip");
            reveal_strlit("macos-universal");
            assert("-bin-macos-universal.zip"@.subrange(5, 20) =~= "macos-universal"@);
        },
        Os::Linux => match variant {
            Variant::Cpu => {
                reveal_strlit("-bin-linux-x64.tar.gz");
                reveal_strlit("linux-x64");
                assert("-bin-linux-x64.tar.gz"@.subrange(5, 14) =~= "linux-x64"@);
            },
            Variant::CpuArm => {},
            Variant::Cuda12 => {
                reveal_strlit("-bin-linux-cuda-12.4-x64.tar.gz");
                reveal_strlit("cuda-12.4");
                assert("-bin-linux-cuda-12.4-x64.tar.gz"@.subrange(11, 20) =~= "cuda-12.4"@);
            },
            Variant::HipRadeon => {
                reveal_strlit("-bin-linux-rocm-x64.tar.gz");
                reveal_strlit("rocm");
                assert("-bin-linux-rocm-x64.tar.gz"@.subrange(11, 15) =~= "rocm"@);
            },
            Variant::Vulkan => {
                reveal_strlit("-bin-linux-vulkan-x64.tar.gz");
                assert("-bin-linux-vulkan-x64.tar.gz"@.subrange(11, 17) =~= "vulkan"@);
            },
        },
    }
}

/// Where in an Ollama file name the token of the build stands.
spec fn ollama_token_offset(os: Os) -> int {
    if os == Os::Macos {
        0
    } else {
        7
    }
}

proof fn ollama_file_names_variant(os: Os, arch: Arch, variant: Variant)
    requires
        ollama_file(os, arch, variant) is Ok,
    ensures
        occurs_at(
            ollama_file(os, arch, variant)->Ok_0,
            variant_token(ServerKind::Ollama, os, arch, variant),
            ollama_token_offset(os),
        ),
{
    match os {
        Os::Windows => match variant {
            Variant::CpuArm => {
                reveal_strlit("ollama-windows-arm64.zip");
                reveal_strlit("windows-arm64");
                assert("ollama-windows-arm64.zip"@.subrange(7, 20) =~= "windows-arm64"@);
            },
            Variant::HipRadeon => {
                reveal_strlit("ollama-windows-amd64-rocm.zip");
                reveal_strlit("windows-amd64-rocm");
                assert("ollama-windows-amd64-rocm.zip"@.subrange(7, 25) =~= "windows-amd64-rocm"@);
            },
            _ => {
                reveal_strlit("ollama-windows-amd64.zip");
                reveal_strlit("windows-amd64");
                assert("ollama-windows-amd64.zip"@.subrange(7, 20) =~= "windows-amd64"@);
            },
        },
        Os::Linux => {
            if arch == Arch::Aarch64 {
                reveal_strlit("ollama-linux-arm64.tgz");
                reveal_strlit("linux-arm64");
                assert("ollama-linux-arm64.tgz"@.subrange(7, 18) =~= "linux-arm64"@);
            } else if variant == Variant::HipRadeon {
                reveal_strlit("ollama-linux-amd64-rocm.tgz");
                reveal_strlit("linux-amd64-rocm");
                assert("ollama-linux-amd64-rocm.tgz"@.subrange(7, 23) =~= "linux-amd64-rocm"@);
            } else {
                reveal_strlit("ollama-linux-amd64.tgz");
                reveal_strlit("linux-amd64");
                assert("ollama-linux-amd64.tgz"@.subrange(7, 18) =~= "linux-amd64"@);
            }
        },
        Os::Macos => {
            reveal_strlit("Ollama.dmg");
            assert("Ollama.dmg"@.subrange(0, 10) =~= "Ollama.dmg"@);
        },
    }
}

/// The resolver names an asset exactly for the combinations of the matrix,
/// and the URL of each holds the token of its build. Every other
/// combination is refused: as an unsupported platform where Ollama has no
/// Linux build for the architecture, as an unsupported variant everywhere
/// else.
pub proof fn resolved_url_names_the_variant(
    kind: ServerKind,
    os: Os,
    arch: Arch,
    variant: Variant,
    tag: Seq<char>,
)
    ensures
        asset_for(kind, os, arch, variant, tag) is Ok <==> in_matrix(kind, os, arch, variant),
        match asset_for(kind, os, arch, variant, tag) {
            Ok(url) => contains_text(url, variant_token(kind, os, arch, variant)),
            Err(e) => e == if kind == ServerKind::Ollama && os == Os::Linux && arch == Arch::Other {
                ResolveError::UnsupportedPlatform
            } else {
                ResolveError::UnsupportedVariant
            },
        },
{
    match kind {
        ServerKind::LlamaCpp => {
            llama_tables_are_the_matrix(os, variant);
            match llama_tail(os, variant) {
                Some(tail) => {
                    llama_tail_names_variant(os, variant);
                    let head = "https://github.com/ggml-org/llama.cpp/releases/download/"@ + tag
                        + "/llama-"@ + tag;
                    occurs_behind(
                        head,
                        tail,
                        variant_token(ServerKind::LlamaCpp, os, Arch::Other, variant),
                        llama_token_offset(os, variant),
                    );
                },
                None => {},
            }
        },
        ServerKind::Ollama => {
            match ollama_file(os, arch, variant) {
                Ok(file) => {
                    ollama_file_names_variant(os, arch, variant);
                    occurs_behind(
                        "https://github.com/ollama/ollama/releases/latest/download/"@,
                        file,
                        variant_token(kind, os, arch, variant),
                        ollama_token_offset(os),
                    );
                },
                Err(_) => {},
            }
        },
    }
}

/// Names outside the supported lists are refused, each with its own error:
/// an unknown operating system as an unsupported platform, an unknown
/// variant tag as an unsupported variant.
pub proof fn unknown_names_are_refused(
    server: Seq<char>,
    os: Seq<char>,
    arch: Seq<char>,
    variant: Seq<char>,
    tag: Seq<char>,
)
    requires
        server_named(server) is Some,
    ensures
        os_named(os) is None ==> resolved_url(server, os, arch, variant, tag) == Err::<
            Seq<char>,
            ResolveError,
        >(ResolveError::UnsupportedPlatform),
        os_named(os) is Some && variant_named(variant) is None ==> resolved_url(
            server,
            os,
            arch,
            variant,
            tag,
        ) == Err::<Seq<char>, ResolveError>(ResolveError::UnsupportedVariant),
        resolved_url(server, os, arch, variant, tag) matches Err(e) ==> e
            != ResolveError::UnknownServer,
{
}

} // verus!
