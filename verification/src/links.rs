//! Download locations of the release assets of both engines.
//!
//! Nothing here touches the network: each function only assembles the URL of
//! an asset from fixed templates.

use crate::text::same_text;
use vstd::prelude::*;
use vstd::string::*;

verus! {

/// The release tag of the llama.cpp builds that is used when none is given.
pub open spec fn default_tag() -> Seq<char> {
    "b6134"@
}

/// URL of the llama.cpp asset whose file name is `llama-<tag><tail>`.
pub open spec fn llama_asset(tag: Seq<char>, tail: Seq<char>) -> Seq<char> {
    "https://github.com/ggml-org/llama.cpp/releases/download/"@ + tag + "/llama-"@ + tag + tail
}

/// URL of the Ollama asset with the given file name, through the release
/// page's "latest" indirection.
pub open spec fn ollama_asset(name: Seq<char>) -> Seq<char> {
    "https://github.com/ollama/ollama/releases/latest/download/"@ + name
}

/// File-name tail of the Windows llama.cpp build for a variant tag.
pub open spec fn win_tail(variant: Seq<char>) -> Option<Seq<char>> {
    if variant == "cpu"@ {
        Some("-bin-win-cpu-x64.zip"@)
    } else if variant == "cpu_arm"@ {
        Some("-bin-win-cpu-arm64.zip"@)
    } else if variant == "cuda_12"@ {
        Some("-bin-win-cuda-12.4-x64.zip"@)
    } else if variant == "hip_radeon"@ {
        Some("-bin-win-hip-radeon-x64.zip"@)
    } else if variant == "vulkan"@ {
        Some("-bin-win-vulkan-x64.zip"@)
    } else {
        None
    }
}

/// File-name tail of the one macOS llama.cpp build, a universal archive.
pub open spec fn mac_universal_tail() -> Seq<char> {
    "-bin-macos-universal.zip"@
}

/// File-name tail of the macOS llama.cpp build for a variant tag: the
/// universal archive serves the variants that exist on macOS, and no other
/// variant has a build.
pub open spec fn mac_tail(variant: Seq<char>) -> Option<Seq<char>> {
    if variant == "cpu"@ || variant == "cpu_arm"@ || variant == "vulkan"@ {
        Some(mac_universal_tail())
    } else {
        None
    }
}

/// File-name tail of the Linux llama.cpp build for a variant tag.
pub open spec fn linux_tail(variant: Seq<char>) -> Option<Seq<char>> {
    if variant == "cpu"@ {
        Some("-bin-linux-x64.tar.gz"@)
    } else if variant == "cuda_12"@ {
        Some("-bin-linux-cuda-12.4-x64.tar.gz"@)
    } else if variant == "vulkan"@ {
        Some("-bin-linux-vulkan-x64.tar.gz"@)
    } else if variant == "hip_radeon"@ {
        Some("-bin-linux-rocm-x64.tar.gz"@)
    } else {
        None
    }
}

/// What a llama.cpp URL builder returns for an optional file-name tail.
pub open spec fn llama_url_result(
    r: Result<String, String>,
    tag: Seq<char>,
    tail: Option<Seq<char>>,
) -> bool {
    match tail {
        Some(t) => r matches Ok(url) && url@ == llama_asset(tag, t),
        None => r matches Err(e) && e@ == "Invalid variant"@,
    }
}

fn llama_url(tag: &str, tail: &str) -> (url: String)
    ensures
        url@ == llama_asset(tag@, tail@),
{
    let mut url = String::from_str("https://github.com/ggml-org/llama.cpp/releases/download/");
    url.append(tag);
    url.append("/llama-");
    url.append(tag);
    url.append(tail);
    url
}

fn invalid_variant() -> (r: Result<String, String>)
    ensures
        r matches Err(e) && e@ == "Invalid variant"@,
{
    Err(String::from_str("Invalid variant"))
}

/// URL of the Windows zip of llama.cpp release `tag` for `variant`.
pub fn win_zip_url_with_tag(tag: &str, variant: &str) -> (r: Result<String, String>)
    ensures
        llama_url_result(r, tag@, win_tail(variant@)),
{
    if same_text(variant, "cpu") {
        Ok(llama_url(tag, "-bin-win-cpu-x64.zip"))
    } else if same_text(variant, "cpu_arm") {
        Ok(llama_url(tag, "-bin-win-cpu-arm64.zip"))
    } else if same_text(variant, "cuda_12") {
        Ok(llama_url(tag, "-bin-win-cuda-12.4-x64.zip"))
    } else if same_text(variant, "hip_radeon") {
        Ok(llama_url(tag, "-bin-win-hip-radeon-x64.zip"))
    } else if same_text(variant, "vulkan") {
        Ok(llama_url(tag, "-bin-win-vulkan-x64.zip"))
    } else {
        invalid_variant()
    }
}

/// URL of the Windows zip of the default llama.cpp release for `variant`.
pub fn win_zip_url(variant: &str) -> (r: Result<String, String>)
    ensures
        llama_url_result(r, default_tag(), win_tail(variant@)),
{
    win_zip_url_with_tag("b6134", variant)
}

/// URL of the macOS zip of llama.cpp release `tag` for `variant`. The
/// archive is universal, so every variant that exists on macOS gets the same
/// URL; any other variant is refused.
pub fn mac_zip_url_with_tag(tag: &str, variant: &str) -> (r: Result<String, String>)
    ensures
        llama_url_result(r, tag@, mac_tail(variant@)),
{
    if same_text(variant, "cpu") || same_text(variant, "cpu_arm") || same_text(variant, "vulkan") {
        Ok(llama_url(tag, "-bin-macos-universal.zip"))
    } else {
        invalid_variant()
    }
}

/// URL of the macOS zip of the default llama.cpp release for `variant`.
pub fn mac_zip_url(variant: &str) -> (r: Result<String, String>)
    ensures
        llama_url_result(r, default_tag(), mac_tail(variant@)),
{
    mac_zip_url_with_tag("b6134", variant)
}

/// URL of the Linux tarball of llama.cpp release `tag` for `variant`.
pub fn linux_tgz_url_with_tag(tag: &str, variant: &str) -> (r: Result<String, String>)
    ensures
        llama_url_result(r, tag@, linux_tail(variant@)),
{
    if same_text(variant, "cpu") {
        Ok(llama_url(tag, "-bin-linux-x64.tar.gz"))
    } else if same_text(variant, "cuda_12") {
        Ok(llama_url(tag, "-bin-linux-cuda-12.4-x64.tar.gz"))
    } else if same_text(variant, "vulkan") {
        Ok(llama_url(tag, "-bin-linux-vulkan-x64.tar.gz"))
    } else if same_text(variant, "hip_radeon") {
        Ok(llama_url(tag, "-bin-linux-rocm-x64.tar.gz"))
    } else {
        invalid_variant()
    }
}

/// URL of the Linux tarball of the default llama.cpp release for `variant`.
pub fn linux_tgz_url(variant: &str) -> (r: Result<String, String>)
    ensures
        llama_url_result(r, default_tag(), linux_tail(variant@)),
{
    linux_tgz_url_with_tag("b6134", variant)
}

/// URL of the Ollama asset called `asset_name`.
pub fn asset_url(asset_name: &str) -> (url: String)
    ensures
        url@ == ollama_asset(asset_name@),
{
    let mut url = String::from_str("https://github.com/ollama/ollama/releases/latest/download/");
    url.append(asset_name);
    url
}

/// Ollama for Windows on x86-64.
pub fn win_x64_zip() -> (url: String)
    ensures
        url@ == ollama_asset("ollama-windows-amd64.zip"@),
{
    asset_url("ollama-windows-amd64.zip")
}

/// Ollama for Windows on x86-64 with ROCm support.
pub fn win_x64_rocm_zip() -> (url: String)
    ensures
        url@ == ollama_asset("ollama-windows-amd64-rocm.zip"@),
{
    asset_url("ollama-windows-amd64-rocm.zip")
}

/// Ollama for Windows on ARM64.
pub fn win_arm64_zip() -> (url: String)
    ensures
        url@ == ollama_asset("ollama-windows-arm64.zip"@),
{
    asset_url("ollama-windows-arm64.zip")
}

/// The Ollama installer for Windows.
pub fn win_setup_exe() -> (url: String)
    ensures
        url@ == ollama_asset("OllamaSetup.exe"@),
{
    asset_url("OllamaSetup.exe")
}

/// The Ollama disk image for macOS.
pub fn mac_dmg() -> (url: String)
    ensures
        url@ == ollama_asset("Ollama.dmg"@),
{
    asset_url("Ollama.dmg")
}

/// Ollama for Linux on x86-64.
pub fn linux_amd64_tgz() -> (url: String)
    ensures
        url@ == ollama_asset("ollama-linux-amd64.tgz"@),
{
    asset_url("ollama-linux-amd64.tgz")
}

/// Ollama for Linux on x86-64 with ROCm support.
pub fn linux_amd64_rocm_tgz() -> (url: String)
    ensures
        url@ == ollama_asset("ollama-linux-amd64-rocm.tgz"@),
{
    asset_url("ollama-linux-amd64-rocm.tgz")
}

/// Ollama for Linux on ARM64.
pub fn linux_arm64_tgz() -> (url: String)
    ensures
        url@ == ollama_asset("ollama-linux-arm64.tgz"@),
{
    asset_url("ollama-linux-arm64.tgz")
}

/// Ollama for Linux on ARM64 with JetPack 5.
pub fn linux_arm64_jetpack5_tgz() -> (url: String)
    ensures
        url@ == ollama_asset("ollama-linux-arm64-jetpack5.tgz"@),
{
    asset_url("ollama-linux-arm64-jetpack5.tgz")
}

/// Ollama for Linux on ARM64 with JetPack 6.
pub fn linux_arm64_jetpack6_tgz() -> (url: String)
    ensures
        url@ == ollama_asset("ollama-linux-arm64-jetpack6.tgz"@),
{
    asset_url("ollama-linux-arm64-jetpack6.tgz")
}

} // verus!
