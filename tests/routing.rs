use autosync::router::{contains_metadata, starts_with, ChangeEvent, ChangeKind, RepositoryRegistry, WatchPath};

fn path(s: &str) -> WatchPath {
    let mut components = vec!["/".to_string()];
    for part in s.split('/').filter(|p| !p.is_empty()) {
        components.push(part.to_string());
    }
    WatchPath { components }
}

fn event(s: &str) -> ChangeEvent {
    ChangeEvent { path: path(s), kind: ChangeKind::Modified }
}

fn registry(roots: &[&str]) -> RepositoryRegistry<&'static str> {
    let mut r = RepositoryRegistry::new();
    for (i, root) in roots.iter().enumerate() {
        let name: &'static str = ["first", "second", "third"][i];
        assert!(r.register(path(root), name));
    }
    r
}

#[test]
fn metadata_paths_are_never_routed() {
    let r = registry(&["/a"]);
    assert!(r.route(&event("/a/.git/index")).is_none());
    assert!(r.route(&event("/a/.git")).is_none());
    assert!(r.route(&event("/a/sub/.git/HEAD")).is_none());
    assert!(contains_metadata(&path("/a/.git/objects")));
    assert!(!contains_metadata(&path("/a/.gitignore")));
}

#[test]
fn a_file_named_like_the_metadata_prefix_is_routed() {
    let r = registry(&["/a"]);
    assert_eq!(r.route(&event("/a/.gitignore")), Some(&"first"));
}

#[test]
fn paths_outside_every_root_are_not_routed() {
    let r = registry(&["/a", "/b/c"]);
    assert!(r.route(&event("/c/x")).is_none());
    assert!(r.route(&event("/b/x")).is_none());
    assert!(r.route(&event("/ab/x")).is_none());
    let empty: RepositoryRegistry<&str> = RepositoryRegistry::new();
    assert!(empty.route(&event("/a/x")).is_none());
}

#[test]
fn the_most_specific_root_wins() {
    let r = registry(&["/a", "/a/b"]);
    assert_eq!(r.route(&event("/a/b/x")), Some(&"second"));
    assert_eq!(r.route_index(&event("/a/b/x")), Some(1));
    assert_eq!(r.route(&event("/a/c")), Some(&"first"));
    let r = registry(&["/a/b", "/a"]);
    assert_eq!(r.route(&event("/a/b/x")), Some(&"first"));
    assert_eq!(r.route(&event("/a/x")), Some(&"second"));
}

#[test]
fn a_root_itself_routes_to_itself() {
    let r = registry(&["/a"]);
    assert_eq!(r.route(&event("/a")), Some(&"first"));
}

#[test]
fn registering_a_root_twice_keeps_the_first_handle() {
    let mut r = RepositoryRegistry::new();
    assert!(r.register(path("/a"), 1u32));
    assert!(!r.register(path("/a"), 2u32));
    assert_eq!(r.len(), 1);
    assert_eq!(r.get(&path("/a")), Some(&1));
    assert_eq!(r.get(&path("/b")), None);
    assert_eq!(r.position(&path("/a")), Some(0));
    assert_eq!(r.handle(0), &1);
    assert_eq!(r.root(0).components, vec!["/".to_string(), "a".to_string()]);
}

#[test]
fn prefix_is_by_component() {
    assert!(starts_with(&path("/a/b/c"), &path("/a/b")));
    assert!(starts_with(&path("/a/b"), &path("/a/b")));
    assert!(!starts_with(&path("/a/bc"), &path("/a/b")));
    assert!(!starts_with(&path("/a"), &path("/a/b")));
}
