use inference_runtime::context::{
    forward_slashes, is_candidate, is_skip_dir, is_text_ext, rel_path, ContextBuilder,
    ContextLimits, FileDecision, DEFAULT_FILE_LIMIT, DEFAULT_MAX_FILES, DEFAULT_TOTAL_LIMIT,
};

#[test]
fn build_and_tool_directories_are_skipped() {
    for name in [
        "node_modules", "dist", "build", "out", "target", ".git", ".next", ".turbo", "vendor",
        ".idea", ".vscode",
    ] {
        assert!(is_skip_dir(name), "{}", name);
    }
    for name in ["src", "Target", "node_modules2", "", ".github", "docs"] {
        assert!(!is_skip_dir(name), "{}", name);
    }
}

#[test]
fn text_extensions_are_recognised() {
    let all = [
        "txt", "md", "markdown", "json", "jsonc", "yml", "yaml", "toml", "ini", "cfg", "conf",
        "js", "ts", "tsx", "jsx", "mjs", "cjs", "c", "cc", "cpp", "h", "hpp", "hh", "cs", "java",
        "kt", "kts", "go", "rs", "py", "rb", "php", "swift", "sql", "html", "xml", "svg", "css",
        "scss", "less", "sh", "bash", "bat", "ps1", "gradle", "properties", "gitignore",
        "gitattributes", "env", "dockerfile", "makefile", "cmake",
    ];
    assert_eq!(all.len(), 52);
    for ext in all {
        assert!(is_text_ext(ext), "{}", ext);
    }
    for ext in ["exe", "png", "RS", "", "gguf", "zip", "tx", "txtx"] {
        assert!(!is_text_ext(ext), "{}", ext);
    }
}

#[test]
fn candidates_are_told_by_their_lowercase_extension() {
    assert!(is_candidate(None));
    assert!(is_candidate(Some("rs")));
    assert!(is_candidate(Some("RS")));
    assert!(is_candidate(Some("Md")));
    assert!(!is_candidate(Some("png")));
    assert!(!is_candidate(Some("")));
    assert!(is_candidate(Some("\u{212a}t")));
}

#[test]
fn relative_paths_use_forward_slashes() {
    assert_eq!(forward_slashes("a\\b\\c.txt"), "a/b/c.txt");
    assert_eq!(forward_slashes("a/b"), "a/b");
    assert_eq!(forward_slashes(""), "");
    assert_eq!(rel_path("/root/project", "/root/project/src/main.rs"), "src/main.rs");
    assert_eq!(rel_path("/root/project", "/elsewhere/x.rs"), "/elsewhere/x.rs");
    assert_eq!(rel_path("/root/pro", "/root/project/x.rs"), "/root/project/x.rs");
    assert!(!rel_path("/r", "/r/a\\b").contains('\\'));
}

#[test]
fn limits_have_defaults() {
    let limits = ContextLimits::new(None, None, None);
    assert_eq!(limits.file_limit, 256 * 1024);
    assert_eq!(limits.total_limit, 1024 * 1024);
    assert_eq!(limits.max_files, 200);
    assert_eq!(DEFAULT_FILE_LIMIT, 256 * 1024);
    assert_eq!(DEFAULT_TOTAL_LIMIT, 1024 * 1024);
    assert_eq!(DEFAULT_MAX_FILES, 200);
    let limits = ContextLimits::new(Some(10), Some(20), Some(3));
    assert_eq!(limits, ContextLimits { file_limit: 10, total_limit: 20, max_files: 3 });
}

#[test]
fn empty_scan_holds_the_heading_only() {
    let builder = ContextBuilder::new(ContextLimits::new(None, None, None));
    assert_eq!(builder.finish().content, "### Context from folder\n\n");
}

#[test]
fn sections_are_fenced_and_labelled() {
    let mut builder = ContextBuilder::new(ContextLimits::new(None, None, None));
    builder.add("src/main.rs", Some("RS"), "fn main() {}");
    builder.add("README", None, "hello\n");
    builder.add("empty.txt", Some("txt"), "");
    assert_eq!(builder.used, 3);
    assert_eq!(builder.total, 18);
    assert_eq!(
        builder.finish().content,
        "### Context from folder\n\n[src/main.rs]\n```rs\nfn main() {}\n```\n\n[README]\n```text\nhello\n```\n\n[empty.txt]\n```txt\n\n```\n\n"
    );
}

#[test]
fn overlong_text_is_trimmed_at_a_character_boundary() {
    let mut builder = ContextBuilder::new(ContextLimits::new(Some(5), None, None));
    builder.add("a.txt", Some("txt"), "abcdefgh");
    builder.add("b.txt", Some("txt"), "abcdé!");
    builder.add("c.txt", Some("txt"), "ééé");
    builder.add("d.txt", Some("txt"), "12345");
    assert_eq!(
        builder.finish().content,
        "### Context from folder\n\n[a.txt]\n```txt\nabcde\n... [trimmed]\n```\n\n[b.txt]\n```txt\nabcd\n... [trimmed]\n```\n\n[c.txt]\n```txt\néé\n... [trimmed]\n```\n\n[d.txt]\n```txt\n12345\n```\n\n"
    );
}

#[test]
fn decisions_follow_the_limits_in_order() {
    let mut builder = ContextBuilder::new(ContextLimits::new(Some(10), Some(25), Some(3)));
    assert_eq!(builder.decide(None), FileDecision::Skip);
    assert_eq!(builder.decide(Some(11)), FileDecision::Skip);
    assert_eq!(builder.decide(Some(10)), FileDecision::Read);
    builder.add("a", None, "0123456789");
    assert_eq!(builder.decide(Some(10)), FileDecision::Read);
    builder.add("b", None, "0123456789");
    assert_eq!(builder.total, 20);
    assert_eq!(builder.decide(Some(6)), FileDecision::Stop);
    assert_eq!(builder.decide(Some(11)), FileDecision::Skip);
    assert_eq!(builder.decide(Some(5)), FileDecision::Read);
    builder.add("c", None, "01234");
    assert_eq!(builder.used, 3);
    assert_eq!(builder.decide(Some(0)), FileDecision::Stop);
    assert_eq!(builder.decide(None), FileDecision::Stop);
}

#[test]
fn sizes_that_overflow_end_the_scan() {
    let mut builder = ContextBuilder::new(ContextLimits::new(Some(u64::MAX), Some(u64::MAX), None));
    builder.add("a", None, "x");
    assert_eq!(builder.decide(Some(u64::MAX)), FileDecision::Stop);
    assert_eq!(builder.decide(Some(u64::MAX - 1)), FileDecision::Read);
}

#[test]
fn no_files_allowed_stops_at_once() {
    let builder = ContextBuilder::new(ContextLimits::new(None, None, Some(0)));
    assert_eq!(builder.decide(Some(1)), FileDecision::Stop);
}
