//! Planning an installation: everything that is fixed before the first byte
//! is fetched.

use crate::archive::{
    archive_format, format_of, runtime_dir, runtime_dir_of, temp_file_name, temp_name_of,
    ArchiveFormat,
};
use crate::platform::{canonical_os, normalize_os, ServerKind, Variant};
use crate::resolver::{resolve_asset_url, resolved_url, ResolveError};
use crate::links::default_tag;
use crate::text::unicode_lowercase;
use vstd::prelude::*;
use vstd::string::*;

verus! {

/// What an installation is going to do.
#[derive(Clone, Debug)]
pub struct InstallPlan {
    /// Where the artifact is fetched from.
    pub url: String,
    /// What kind of artifact it is.
    pub format: ArchiveFormat,
    /// The temp file of the download, relative to the data directory.
    pub temp_file: String,
    /// The install directory, relative to the data directory.
    pub target_dir: String,
}

/// Mathematical form of an [`InstallPlan`].
pub struct InstallModel {
    pub url: Seq<char>,
    pub format: ArchiveFormat,
    pub temp_file: Seq<char>,
    pub target_dir: Seq<char>,
}

impl View for InstallPlan {
    type V = InstallModel;

    open spec fn view(&self) -> InstallModel {
        InstallModel {
            url: self.url@,
            format: self.format,
            temp_file: self.temp_file@,
            target_dir: self.target_dir@,
        }
    }
}

/// The operating system that an installation is for.
pub open spec fn target_os(os_override: Option<Seq<char>>, detected: Seq<char>) -> Seq<char> {
    match os_override {
        Some(o) => canonical_os(unicode_lowercase(o)),
        None => detected,
    }
}

/// The plan for installing `server` in `variant`: the asset that the
/// resolver names, the format that its URL ends in, and the temp file and
/// install directory that belong to the pair of engine and variant.
pub open spec fn install_plan_of(
    server: Seq<char>,
    variant: Seq<char>,
    os: Seq<char>,
    arch: Seq<char>,
) -> Result<InstallModel, ResolveError> {
    match resolved_url(server, os, arch, variant, default_tag()) {
        Ok(url) => Ok(
            InstallModel {
                url,
                format: format_of(url),
                temp_file: temp_name_of(server, variant, format_of(url)),
                target_dir: runtime_dir_of(server, variant),
            },
        ),
        Err(e) => Err(e),
    }
}

/// Plans the installation of `server` in `variant` on a host whose
/// operating system and architecture were detected as given; `os_override`
/// installs for another system.
pub fn plan_install(
    server: &str,
    variant: &str,
    os_override: Option<&str>,
    detected_os: &str,
    arch: &str,
) -> (r: Result<InstallPlan, ResolveError>)
    ensures
        match r {
            Ok(plan) => install_plan_of(
                server@,
                variant@,
                target_os(
                    match os_override {
                        Some(o) => Some(o@),
                        None => None,
                    },
                    detected_os@,
                ),
                arch@,
            ) == Ok::<InstallModel, ResolveError>(plan@),
            Err(e) => install_plan_of(
                server@,
                variant@,
                target_os(
                    match os_override {
                        Some(o) => Some(o@),
                        None => None,
                    },
                    detected_os@,
                ),
                arch@,
            ) == Err::<InstallModel, ResolveError>(e),
        },
{
    let os = normalize_os(os_override, detected_os);
    match resolve_asset_url(server, os.as_str(), arch, variant) {
        Ok(url) => {
            let format = archive_format(url.as_str());
            let temp_file = temp_file_name(server, variant, format);
            let target_dir = runtime_dir(server, variant);
            Ok(InstallPlan { url, format, temp_file, target_dir })
        },
        Err(e) => Err(e),
    }
}

/// The answer of a successful installation.
pub fn install_succeeded() -> (m: String)
    ensures
        m@ == "Binaries installed successfully"@,
{
    String::from_str("Binaries installed successfully")
}

/// An installed server.
#[derive(Clone, Debug)]
pub struct InstalledServer {
    pub kind: ServerKind,
    pub variant: Variant,
    /// The install directory, relative to the data directory.
    pub install_dir: String,
    /// The executable, by its path of entry indices in the listing of the
    /// install directory.
    pub executable: Vec<usize>,
}

impl InstalledServer {
    /// Describes the server of `kind` and `variant` whose executable was
    /// found at `executable`.
    pub fn new(kind: ServerKind, variant: Variant, executable: Vec<usize>) -> (s: InstalledServer)
        ensures
            s.kind == kind,
            s.variant == variant,
            s.executable == executable,
            s.install_dir@ == runtime_dir_of(kind.name_of(), variant.tag_of()),
    {
        let name = kind.name();
        InstalledServer {
            kind,
            variant,
            install_dir: runtime_dir(name.as_str(), variant.tag()),
            executable,
        }
    }
}

/// Two installations of the same engine and variant use the same temp file
/// and the same install directory, whatever else differs between them.
pub proof fn install_places_depend_on_the_pair_alone(
    server: Seq<char>,
    variant: Seq<char>,
    os_a: Seq<char>,
    arch_a: Seq<char>,
    os_b: Seq<char>,
    arch_b: Seq<char>,
)
    requires
        install_plan_of(server, variant, os_a, arch_a) is Ok,
        install_plan_of(server, variant, os_b, arch_b) is Ok,
    ensures
        install_plan_of(server, variant, os_a, arch_a)->Ok_0.target_dir == install_plan_of(
            server,
            variant,
            os_b,
            arch_b,
        )->Ok_0.target_dir,
        install_plan_of(server, variant, os_a, arch_a)->Ok_0.format == install_plan_of(
            server,
            variant,
            os_b,
            arch_b,
        )->Ok_0.format ==> install_plan_of(server, variant, os_a, arch_a)->Ok_0.temp_file
            == install_plan_of(server, variant, os_b, arch_b)->Ok_0.temp_file,
{
}

/// An install directory belongs to one pair of engine and variant: two
/// pairs that share a directory are the same pair.
pub proof fn install_dirs_are_exclusive(
    kind_a: ServerKind,
    variant_a: Variant,
    kind_b: ServerKind,
    variant_b: Variant,
)
    requires
        runtime_dir_of(kind_a.name_of(), variant_a.tag_of()) == runtime_dir_of(
            kind_b.name_of(),
            variant_b.tag_of(),
        ),
    ensures
        kind_a == kind_b,
        variant_a == variant_b,
{
    reveal_strlit("runtime/");
    reveal_strlit("/");
    reveal_strlit("llama-cpp");
    reveal_strlit("ollama");
    reveal_strlit("cpu");
    reveal_strlit("cpu_arm");
    reveal_strlit("cuda_12");
    reveal_strlit("hip_radeon");
    reveal_strlit("vulkan");
    let a = runtime_dir_of(kind_a.name_of(), variant_a.tag_of());
    let b = runtime_dir_of(kind_b.name_of(), variant_b.tag_of());
    assert(a.len() == 10 + kind_a.name_of().len() + variant_a.tag_of().len());
    assert(b.len() == 10 + kind_b.name_of().len() + variant_b.tag_of().len());
    assert(a[8] == kind_a.name_of()[0]);
    assert(b[8] == kind_b.name_of()[0]);
    assert(kind_a == kind_b);
    let n = kind_a.name_of().len() as int;
    assert(a[9 + n + 1] == variant_a.tag_of()[1]);
    assert(b[9 + n + 1] == variant_b.tag_of()[1]);
}

} // verus!
