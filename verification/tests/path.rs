use sacp_connection::path::{
    last_component, parent, path_is_absolute, resolve, split_components, starts_with,
};
use std::path::{Component, Path};

const PATHS: [&str; 34] = [
    "", "/", "//", ".", "./", "./.", "..", "/.", "/..", "a", "a/", "a//", "a/.", "./a", ".a", "a.",
    "/a", "//a", "/a/", "/a/b", "/a//b", "/a/./b", "/a/b/.", "/a/b/./", "a/..", "a/../b", "/./a",
    "././a", "/tmp", "/tmp/", "/tmpx", "/tmp/x", "/work space/é", "a/b/c",
];

fn text(bytes: &[u8]) -> &str {
    std::str::from_utf8(bytes).unwrap()
}

#[test]
fn components_are_those_of_std() {
    for p in PATHS {
        let found: Vec<String> =
            split_components(p.as_bytes()).iter().map(|c| text(c).to_string()).collect();
        let expected: Vec<String> = Path::new(p)
            .components()
            .map(|c| match c {
                Component::RootDir => "/".to_string(),
                other => other.as_os_str().to_str().unwrap().to_string(),
            })
            .collect();
        assert_eq!(found, expected, "{p:?}");
        assert_eq!(path_is_absolute(p.as_bytes()), Path::new(p).is_absolute(), "{p:?}");
    }
}

#[test]
fn parents_are_those_of_std() {
    for p in PATHS {
        let found = parent(p.as_bytes()).map(|d| text(&d).to_string());
        let expected = Path::new(p).parent().map(|d| d.to_str().unwrap().to_string());
        assert_eq!(found, expected, "{p:?}");
    }
}

#[test]
fn parent_has_all_components_but_the_last() {
    for p in PATHS {
        let mut whole = split_components(p.as_bytes());
        if let Some(dir) = parent(p.as_bytes()) {
            whole.pop();
            assert_eq!(split_components(&dir), whole, "{p:?}");
        }
    }
}

#[test]
fn containment_and_resolution_are_those_of_std() {
    for p in PATHS {
        for base in PATHS {
            assert_eq!(
                starts_with(p.as_bytes(), base.as_bytes()),
                Path::new(p).starts_with(base),
                "{p:?} in {base:?}"
            );
            let joined = Path::new(base).join(p);
            assert_eq!(
                text(&resolve(base.as_bytes(), p.as_bytes())),
                joined.to_str().unwrap(),
                "{base:?} with {p:?}"
            );
        }
    }
}

#[test]
fn relative_paths_resolve_inside() {
    for p in PATHS {
        for base in PATHS {
            if !path_is_absolute(p.as_bytes()) {
                let whole = resolve(base.as_bytes(), p.as_bytes());
                assert!(starts_with(&whole, base.as_bytes()), "{base:?} with {p:?}");
            }
        }
    }
}

#[test]
fn containment_goes_by_whole_components() {
    assert!(starts_with(b"/tmp/x", b"/tmp"));
    assert!(starts_with(b"/tmp", b"/tmp"));
    assert!(!starts_with(b"/tmpx", b"/tmp"));
    assert!(!starts_with(b"tmp/x", b"/tmp"));
}

#[test]
fn last_components_are_those_of_std() {
    for p in PATHS {
        let last = Path::new(p).components().last();
        let expected = last.map(|c| c.as_os_str().to_str().unwrap().to_string());
        let found = last_component(p.as_bytes()).map(|c| text(&c).to_string());
        assert_eq!(found, expected, "{p:?}");
    }
}

#[test]
fn containment_is_transitive() {
    for outer in PATHS {
        for middle in PATHS {
            for inner in PATHS {
                if starts_with(inner.as_bytes(), middle.as_bytes())
                    && starts_with(middle.as_bytes(), outer.as_bytes())
                {
                    assert!(starts_with(inner.as_bytes(), outer.as_bytes()));
                }
            }
        }
    }
}
