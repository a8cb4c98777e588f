use inference_runtime::fstree::FsNode;
use inference_runtime::installed::{
    executable_names, is_installed, ollama_launch, ollama_spawn_error, ollama_variant,
    INSTALLED_SEARCH_DEPTH, LAUNCH_SEARCH_DEPTH,
};
use inference_runtime::platform::{Os, ServerKind};

fn file(name: &str) -> FsNode {
    FsNode::File { name: Some(name.to_string()) }
}

fn nested(levels: usize, leaf: FsNode) -> Vec<FsNode> {
    let mut entries = vec![leaf];
    for _ in 0..levels {
        entries = vec![FsNode::Dir { entries }];
    }
    entries
}

#[test]
fn search_depths() {
    assert_eq!(INSTALLED_SEARCH_DEPTH, 5);
    assert_eq!(LAUNCH_SEARCH_DEPTH, 8);
}

#[test]
fn executable_names_by_engine_and_system() {
    assert_eq!(executable_names(ServerKind::LlamaCpp, Some(Os::Windows)), vec!["llama-server.exe"]);
    assert_eq!(executable_names(ServerKind::LlamaCpp, Some(Os::Linux)), vec!["llama-server"]);
    assert_eq!(executable_names(ServerKind::LlamaCpp, Some(Os::Macos)), vec!["llama-server"]);
    assert_eq!(executable_names(ServerKind::LlamaCpp, None), vec!["llama-server"]);
    assert_eq!(
        executable_names(ServerKind::Ollama, Some(Os::Windows)),
        vec!["ollama.exe", "ollama-windows-amd64.exe", "ollama-windows-arm64.exe"]
    );
    assert_eq!(executable_names(ServerKind::Ollama, Some(Os::Linux)), vec!["ollama"]);
    assert_eq!(executable_names(ServerKind::Ollama, Some(Os::Macos)), vec!["ollama"]);
}

#[test]
fn installed_means_an_executable_is_found() {
    let tree = nested(2, file("llama-server"));
    assert!(is_installed(ServerKind::LlamaCpp, Some(Os::Linux), &tree, false));
    assert!(is_installed(ServerKind::LlamaCpp, None, &tree, false));
    assert!(!is_installed(ServerKind::LlamaCpp, Some(Os::Windows), &tree, false));
    assert!(!is_installed(ServerKind::Ollama, Some(Os::Linux), &tree, false));
    assert!(!is_installed(ServerKind::LlamaCpp, Some(Os::Linux), &Vec::new(), true));
}

#[test]
fn installed_search_stops_at_its_depth() {
    assert!(is_installed(ServerKind::Ollama, Some(Os::Linux), &nested(4, file("ollama")), false));
    assert!(!is_installed(ServerKind::Ollama, Some(Os::Linux), &nested(5, file("ollama")), false));
}

#[test]
fn disk_image_counts_for_ollama_on_macos_only() {
    let empty = Vec::new();
    assert!(is_installed(ServerKind::Ollama, Some(Os::Macos), &empty, true));
    assert!(!is_installed(ServerKind::Ollama, Some(Os::Macos), &empty, false));
    assert!(is_installed(ServerKind::Ollama, Some(Os::Macos), &vec![file("ollama")], false));
    assert!(!is_installed(ServerKind::Ollama, Some(Os::Linux), &empty, true));
    assert!(!is_installed(ServerKind::Ollama, Some(Os::Windows), &empty, true));
}

#[test]
fn ollama_is_never_installed_on_an_unknown_system() {
    assert!(!is_installed(ServerKind::Ollama, None, &vec![file("ollama")], true));
}

#[test]
fn ollama_variant_defaults_to_cpu() {
    assert_eq!(ollama_variant(None), "cpu");
    assert_eq!(ollama_variant(Some("hip_radeon")), "hip_radeon");
}

#[test]
fn ollama_launch_prefers_the_installed_binary() {
    let plan = ollama_launch(Some("/d/ollama.exe"), Some("/d"));
    assert_eq!(plan.program, "/d/ollama.exe");
    assert_eq!(plan.working_dir.as_deref(), Some("/d"));
    assert_eq!(plan.args, vec!["serve"]);
    let plan = ollama_launch(Some("/d/ollama.exe"), None);
    assert_eq!(plan.working_dir, None);
    let plan = ollama_launch(None, Some("/d"));
    assert_eq!(plan.program, "ollama");
    assert_eq!(plan.working_dir, None);
    assert_eq!(plan.args, vec!["serve"]);
}

#[test]
fn ollama_spawn_error_text() {
    assert_eq!(
        ollama_spawn_error("not found"),
        "Ошибка запуска Ollama: not found. Убедитесь, что Ollama установлен и доступен в PATH или установите через 'Установка сервера'."
    );
}
