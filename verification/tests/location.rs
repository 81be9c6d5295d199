use sacp_connection::location::{find_climb, is_in_any};

fn names(texts: &[&str]) -> Vec<Vec<u8>> {
    texts.iter().map(|text| text.as_bytes().to_vec()).collect()
}

#[test]
fn the_first_two_dots_are_found() {
    assert_eq!(find_climb(&names(&[])), 0);
    assert_eq!(find_climb(&names(&["a", "b"])), 2);
    assert_eq!(find_climb(&names(&["a", "..", "b", ".."])), 1);
    assert_eq!(find_climb(&names(&["..", "a"])), 0);
    assert_eq!(find_climb(&names(&["...", ".", "..a"])), 3);
}

#[test]
fn one_bound_is_enough() {
    let bounds = names(&["/w", "/tmp"]);
    assert!(is_in_any(b"/w/a", &bounds));
    assert!(is_in_any(b"/tmp", &bounds));
    assert!(!is_in_any(b"/wx", &bounds));
    assert!(!is_in_any(b"/w/a", &names(&[])));
}
