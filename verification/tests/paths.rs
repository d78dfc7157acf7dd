use kanata_observer::stream::StreamProcessor;

fn resolved(script_path: &str) -> String {
    StreamProcessor::new(script_path).program().to_string()
}

#[test]
fn plain_paths_are_left_alone() {
    for path in ["", "/", "/opt/hook.sh", "relative/hook.sh", "a~/b", "/home/~", " ~/x"] {
        assert_eq!(resolved(path), path);
    }
}

#[test]
fn another_users_home_is_not_resolved() {
    assert_eq!(resolved("~other/hook.sh"), "~other/hook.sh");
    assert_eq!(resolved("~~"), "~~");
    assert_eq!(resolved("~.config"), "~.config");
}

#[test]
fn shorthand_keeps_the_rest_of_the_path() {
    let expanded = resolved("~/.config/kanata-observer/layer_change.sh");
    assert!(expanded.ends_with("/.config/kanata-observer/layer_change.sh"));
    let expanded = resolved("~/");
    assert!(expanded.ends_with("/"));
}

#[test]
fn shorthand_is_replaced_by_the_home_directory() {
    let home = resolved("~");
    assert_ne!(home, "~");
    assert!(!home.is_empty());
    assert_eq!(resolved("~/hook.sh"), format!("{}/hook.sh", home));
}
