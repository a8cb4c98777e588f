use inference_runtime::archive::ArchiveFormat;
use inference_runtime::events::{
    download_started, extraction_started, ProgressPayload, ProgressPhase,
};
use inference_runtime::install::{install_succeeded, plan_install, InstalledServer};
use inference_runtime::platform::{ServerKind, Variant};
use inference_runtime::resolver::ResolveError;

#[test]
fn plan_names_url_format_temp_file_and_directory() {
    let plan = plan_install("llama-cpp", "cuda_12", None, "windows", "x86_64").unwrap();
    assert_eq!(
        plan.url,
        "https://github.com/ggml-org/llama.cpp/releases/download/b6134/llama-b6134-bin-win-cuda-12.4-x64.zip"
    );
    assert_eq!(plan.format, ArchiveFormat::Zip);
    assert_eq!(plan.temp_file, "llama-cpp_cuda_12_temp.zip");
    assert_eq!(plan.target_dir, "runtime/llama-cpp/cuda_12/");

    let plan = plan_install("llama-cpp", "cpu", None, "linux", "x86_64").unwrap();
    assert_eq!(plan.format, ArchiveFormat::Tgz);
    assert_eq!(plan.temp_file, "llama-cpp_cpu_temp.tgz");

    let plan = plan_install("ollama", "cpu", None, "macos", "aarch64").unwrap();
    assert_eq!(plan.url, "https://github.com/ollama/ollama/releases/latest/download/Ollama.dmg");
    assert_eq!(plan.format, ArchiveFormat::Dmg);
    assert_eq!(plan.temp_file, "ollama_cpu_temp.dmg");
    assert_eq!(plan.target_dir, "runtime/ollama/cpu/");
}

#[test]
fn override_replaces_the_detected_system() {
    let plan = plan_install("ollama", "cpu", Some("WIN"), "linux", "x86_64").unwrap();
    assert_eq!(
        plan.url,
        "https://github.com/ollama/ollama/releases/latest/download/ollama-windows-amd64.zip"
    );
    let plan = plan_install("ollama", "hip_radeon", Some("Linux"), "windows", "x86_64").unwrap();
    assert_eq!(plan.format, ArchiveFormat::Tgz);
    assert_eq!(plan.temp_file, "ollama_hip_radeon_temp.tgz");
}

#[test]
fn second_installation_uses_the_same_places() {
    let first = plan_install("llama-cpp", "vulkan", None, "windows", "x86_64").unwrap();
    let second = plan_install("llama-cpp", "vulkan", Some("windows"), "linux", "aarch64").unwrap();
    assert_eq!(first.temp_file, second.temp_file);
    assert_eq!(first.target_dir, second.target_dir);
}

#[test]
fn refusals_come_from_the_resolver() {
    assert_eq!(
        plan_install("other", "cpu", None, "linux", "x86_64").unwrap_err(),
        ResolveError::UnknownServer
    );
    assert_eq!(
        plan_install("ollama", "cpu", Some("plan9"), "linux", "x86_64").unwrap_err(),
        ResolveError::UnsupportedPlatform
    );
    assert_eq!(
        plan_install("ollama", "cpu", None, "Linux", "x86_64").unwrap_err(),
        ResolveError::UnsupportedPlatform
    );
    assert_eq!(
        plan_install("llama-cpp", "tpu", None, "linux", "x86_64").unwrap_err(),
        ResolveError::UnsupportedVariant
    );
    assert_eq!(
        plan_install("ollama", "vulkan", None, "windows", "x86_64").unwrap_err(),
        ResolveError::UnsupportedVariant
    );
    assert_eq!(
        plan_install("ollama", "", None, "windows", "x86_64").unwrap_err(),
        ResolveError::UnsupportedVariant
    );
    assert_eq!(
        plan_install("llama-cpp", "cuda_12", None, "macos", "aarch64").unwrap_err(),
        ResolveError::UnsupportedVariant
    );
}

#[test]
fn installation_answers_with_a_fixed_text() {
    assert_eq!(install_succeeded(), "Binaries installed successfully");
}

#[test]
fn opening_reports() {
    let p = download_started();
    assert_eq!((p.progress, p.message.as_str()), (0, "Starting download... "));
    assert_eq!(p.phase(), ProgressPhase::Download);
    let p = extraction_started();
    assert_eq!((p.progress, p.message.as_str()), (50, "Extracting archive..."));
    assert_eq!(p.phase(), ProgressPhase::Extract);
    assert_eq!(ProgressPayload::new(49, "x").phase(), ProgressPhase::Download);
    assert_eq!(ProgressPayload::new(100, "x").phase(), ProgressPhase::Extract);
}

#[test]
fn installed_server_knows_its_directory() {
    let s = InstalledServer::new(ServerKind::Ollama, Variant::HipRadeon, vec![0, 2]);
    assert_eq!(s.kind, ServerKind::Ollama);
    assert_eq!(s.variant, Variant::HipRadeon);
    assert_eq!(s.install_dir, "runtime/ollama/hip_radeon/");
    assert_eq!(s.executable, vec![0, 2]);
}
