use inference_runtime::fstree::{find_first_with_names, FsNode};

fn file(name: &str) -> FsNode {
    FsNode::File { name: Some(name.to_string()) }
}

fn dir(entries: Vec<FsNode>) -> FsNode {
    FsNode::Dir { entries }
}

fn names(list: &[&str]) -> Vec<String> {
    list.iter().map(|n| n.to_string()).collect()
}

#[test]
fn file_at_the_top_is_found() {
    let tree = vec![file("readme.txt"), file("llama-server.exe")];
    assert_eq!(find_first_with_names(&tree, &names(&["llama-server.exe"]), 5), Some(vec![1]));
}

#[test]
fn names_match_without_regard_to_ascii_case() {
    let tree = vec![file("LLAMA-Server.EXE")];
    assert_eq!(find_first_with_names(&tree, &names(&["llama-server.exe"]), 1), Some(vec![0]));
    let tree = vec![file("llama-server.exe.bak")];
    assert_eq!(find_first_with_names(&tree, &names(&["llama-server.exe"]), 1), None);
}

#[test]
fn any_of_the_names_will_do() {
    let tree = vec![file("a"), file("ollama-windows-arm64.exe"), file("ollama.exe")];
    let wanted = names(&["ollama.exe", "ollama-windows-amd64.exe", "ollama-windows-arm64.exe"]);
    assert_eq!(find_first_with_names(&tree, &wanted, 5), Some(vec![1]));
}

#[test]
fn subdirectories_are_searched_where_they_are_listed() {
    let tree = vec![
        file("a.txt"),
        dir(vec![file("b.txt"), dir(vec![file("llama-server")])]),
        file("llama-server"),
    ];
    assert_eq!(find_first_with_names(&tree, &names(&["llama-server"]), 5), Some(vec![1, 1, 0]));
    let tree = vec![file("llama-server"), dir(vec![file("llama-server")])];
    assert_eq!(find_first_with_names(&tree, &names(&["llama-server"]), 5), Some(vec![0]));
}

#[test]
fn depth_bounds_the_search() {
    let tree = vec![dir(vec![dir(vec![file("llama-server")])])];
    let wanted = names(&["llama-server"]);
    assert_eq!(find_first_with_names(&tree, &wanted, 0), None);
    assert_eq!(find_first_with_names(&tree, &wanted, 1), None);
    assert_eq!(find_first_with_names(&tree, &wanted, 2), None);
    assert_eq!(find_first_with_names(&tree, &wanted, 3), Some(vec![0, 0, 0]));
    assert_eq!(find_first_with_names(&tree, &wanted, 255), Some(vec![0, 0, 0]));
}

#[test]
fn too_deep_match_gives_way_to_a_later_one() {
    let tree = vec![dir(vec![dir(vec![file("x")])]), dir(vec![file("x")])];
    assert_eq!(find_first_with_names(&tree, &names(&["x"]), 2), Some(vec![1, 0]));
    assert_eq!(find_first_with_names(&tree, &names(&["x"]), 3), Some(vec![0, 0, 0]));
}

#[test]
fn directories_and_other_entries_never_match() {
    let tree = vec![FsNode::Other, dir(vec![]), FsNode::File { name: None }];
    assert_eq!(find_first_with_names(&tree, &names(&["x"]), 5), None);
    assert_eq!(find_first_with_names(&Vec::new(), &names(&["x"]), 5), None);
    assert_eq!(find_first_with_names(&vec![file("x")], &Vec::new(), 5), None);
}
