use sacp_connection::files::{
    announce_access, read_text_file, read_text_file_reply, restriction_message, FileAccess,
    FileEvent, FileWrite, ToolCallStatus, ToolKind, WriteStep, MAX_LINKS,
};

fn write(cwd: &str, path: &str) -> FileWrite {
    FileWrite::write_text_file(cwd.as_bytes().to_vec(), path.as_bytes(), "text".to_string())
}

fn canonical(path: &str) -> FileEvent {
    FileEvent::Canonical(path.as_bytes().to_vec())
}

fn failed(message: &str) -> FileEvent {
    FileEvent::Failed(message.to_string())
}

fn after(mut write: FileWrite, events: Vec<FileEvent>) -> FileWrite {
    for event in events {
        write = write.on_event(event);
    }
    write
}

fn refusal(write: FileWrite) -> String {
    match write.step {
        WriteStep::Done(Err(error)) => {
            assert_eq!(error.code, -32602);
            assert_eq!(error.message, "Invalid params");
            error.data.unwrap()
        }
        other => panic!("{other:?}"),
    }
}

#[test]
fn requests_are_announced_with_their_path() {
    let call = announce_access(FileAccess::Write, b"src/a.rs");
    assert_eq!(call.tool_call_id, "write_text_file-src/a.rs");
    assert_eq!(call.title, "Writing src/a.rs");
    assert_eq!(call.kind, ToolKind::Execute);
    assert_eq!(call.status, ToolCallStatus::Pending);
    let call = announce_access(FileAccess::Read, b"/x");
    assert_eq!(call.tool_call_id, "read_text_file-/x");
    assert_eq!(call.title, "Reading /x");
}

#[test]
fn paths_that_are_not_utf8_are_announced_with_replacements() {
    let call = announce_access(FileAccess::Read, b"/a b/\xff\xfex\xe2\x82");
    assert_eq!(call.title, "Reading /a b/\u{fffd}\u{fffd}x\u{fffd}");
}

fn link(destination: &str) -> FileEvent {
    FileEvent::Link(destination.as_bytes().to_vec())
}

/// A small file system: which paths are really where, and which are links to what.
struct World {
    places: Vec<(&'static str, &'static str)>,
    links: Vec<(&'static str, &'static str)>,
}

impl World {
    fn place(&self, path: &[u8]) -> FileEvent {
        match self.places.iter().find(|(at, _)| at.as_bytes() == path) {
            Some((_, place)) => canonical(place),
            None => failed("not found"),
        }
    }

    fn link(&self, path: &[u8]) -> FileEvent {
        match self.links.iter().find(|(at, _)| at.as_bytes() == path) {
            Some((_, destination)) => link(destination),
            None => failed("no link"),
        }
    }

    /// The write once it is granted or refused.
    fn judge(&self, mut write: FileWrite) -> FileWrite {
        loop {
            let event = match &write.step {
                WriteStep::CanonicalizeTarget => self.place(&write.target),
                WriteStep::CanonicalizeParent(dir) => self.place(dir),
                WriteStep::CanonicalizeCwd { .. } => self.place(&write.cwd),
                WriteStep::CheckLink => self.link(&write.target),
                WriteStep::Locate(search) => self.place(&search.path),
                WriteStep::FollowLink(search) => self.link(&search.path),
                _ => return write,
            };
            write = write.on_event(event);
        }
    }

    fn grants(&self, cwd: &str, path: &str) -> bool {
        let target = write(cwd, path).target;
        let judged = self.judge(write(cwd, path));
        assert_eq!(judged.target, target);
        match judged.step {
            WriteStep::CheckParent(_) | WriteStep::Write => true,
            _ => {
                let target = String::from_utf8(target).unwrap();
                assert_eq!(refusal(judged), restriction_message(cwd, &target));
                false
            }
        }
    }
}

/// The root, a workspace with a directory and a file, `/etc` and `/tmp`.
fn world() -> World {
    World {
        places: vec![
            ("/", "/"),
            ("/w", "/w"),
            ("/w/sub", "/w/sub"),
            ("/w/sub/..", "/w"),
            ("/w/f", "/w/f"),
            ("/w/..", "/"),
            ("/w/../etc", "/etc"),
            ("/w/../tmp", "/tmp"),
            ("/etc", "/etc"),
            ("/tmp", "/tmp"),
        ],
        links: vec![],
    }
}

#[test]
fn an_existing_file_in_the_workspace_is_written() {
    let w = write("/w", "a/b.txt");
    assert_eq!(w.target, b"/w/a/b.txt");
    assert_eq!(w.step, WriteStep::CanonicalizeTarget);
    let w = after(w, vec![canonical("/real/w/a/b.txt"), canonical("/real/w")]);
    assert_eq!(w.step, WriteStep::CheckParent(b"/w/a".to_vec()));
    let w = after(w, vec![FileEvent::Exists]);
    assert_eq!(w.step, WriteStep::Write);
    assert_eq!(w.content, "text");
    let w = after(w, vec![FileEvent::Done]);
    assert_eq!(w.step, WriteStep::Done(Ok(())));
}

#[test]
fn a_link_out_of_the_workspace_is_refused() {
    let w = after(write("/w", "link"), vec![canonical("/etc/passwd"), canonical("/w")]);
    assert_eq!(
        refusal(w),
        "Write restricted to working directory (/w) or /tmp. Path: /w/link"
    );
}

#[test]
fn temporary_files_are_written_wherever_the_workspace_is() {
    let w = after(write("/w", "/tmp/x"), vec![canonical("/tmp/x"), canonical("/w")]);
    assert_eq!(w.step, WriteStep::CheckParent(b"/tmp".to_vec()));
    let w = after(write("/w", "/tmp/x"), vec![canonical("/tmp/x"), failed("no cwd")]);
    assert_eq!(w.step, WriteStep::CheckParent(b"/tmp".to_vec()));
    let w = after(write("/w", "x"), vec![canonical("/w/x"), failed("no cwd")]);
    assert_eq!(refusal(w), "Write restricted to working directory (/w) or /tmp. Path: /w/x");
}

#[test]
fn a_new_file_goes_by_its_directory() {
    let w = after(write("/w", "new"), vec![failed("not found")]);
    assert_eq!(w.step, WriteStep::CanonicalizeParent(b"/w".to_vec()));
    let w = after(w, vec![canonical("/w"), canonical("/w")]);
    assert_eq!(w.step, WriteStep::CheckLink);
    let w = after(w, vec![failed("no link")]);
    assert_eq!(w.step, WriteStep::CheckParent(b"/w".to_vec()));
    let w = after(
        write("/w", "/etc/new"),
        vec![failed("not found"), canonical("/etc"), canonical("/w")],
    );
    assert_eq!(refusal(w), "Write restricted to working directory (/w) or /tmp. Path: /etc/new");
    assert!(world().grants("/w", "sub/../new"));
    assert!(!world().grants("/w", "../etc/new"));
}

#[test]
fn what_the_system_cannot_write_is_left_to_it() {
    let w = world().judge(write("/w", "/w/f/.."));
    let w = after(w, vec![FileEvent::Exists, failed("Not a directory")]);
    match w.step {
        WriteStep::Done(Err(error)) => {
            assert_eq!(error.code, -32603);
            assert_eq!(error.data.as_deref(), Some("Not a directory"));
        }
        other => panic!("{other:?}"),
    }
    let mut looped = world();
    looped.links.push(("/w/l", "l"));
    let w = looped.judge(write("/w", "l"));
    assert!(w.endless);
    let w = after(w, vec![FileEvent::Exists, failed("Too many levels of symbolic links")]);
    match w.step {
        WriteStep::Done(Err(error)) => assert_eq!(error.code, -32603),
        other => panic!("{other:?}"),
    }
}

#[test]
fn a_new_directory_goes_by_where_it_would_be() {
    let w = world().judge(write("/w", "d/e/new"));
    assert_eq!(w.step, WriteStep::CheckParent(b"/w/d/e".to_vec()));
    let w = after(w, vec![FileEvent::Missing]);
    assert_eq!(w.step, WriteStep::CreateParent(b"/w/d/e".to_vec()));
    let w = after(w, vec![FileEvent::Done]);
    assert_eq!(w.step, WriteStep::Write);
    let w = after(w, vec![failed("disk full")]);
    match w.step {
        WriteStep::Done(Err(error)) => {
            assert_eq!(error.code, -32603);
            assert_eq!(error.data.as_deref(), Some("disk full"));
        }
        other => panic!("{other:?}"),
    }
    let w = world().judge(write("/w", "/tmp/d/new"));
    let w = after(w, vec![FileEvent::Missing, failed("denied")]);
    match w.step {
        WriteStep::Done(Err(error)) => assert_eq!(error.data.as_deref(), Some("denied")),
        other => panic!("{other:?}"),
    }
    assert!(!world().grants("/w", "/etc/d/new"));
}

#[test]
fn a_new_directory_behind_a_link_goes_by_where_the_link_leads() {
    let mut linked = world();
    linked.places.push(("/w/out", "/etc"));
    linked.places.push(("/w/in", "/w/sub"));
    assert!(!linked.grants("/w", "out/x/y"));
    assert!(linked.grants("/w", "in/x/y"));
}

#[test]
fn two_dots_lead_back_out_of_what_is_missing() {
    assert!(world().grants("/w", "new/../b.txt"));
    assert!(world().grants("/w", "a/b/../../c/new"));
    assert!(world().grants("/w", "sub/new/../../b.txt"));
    assert!(world().grants("/w", "new/../../tmp/x"));
    assert!(!world().grants("/w", "nope/../../etc/d/f"));
    assert!(!world().grants("/w", "nope/../../d/f"));
    assert!(world().grants("/w", "new/../../etc/../tmp/d/x"));
    assert!(!world().grants("/w", "new/../../out/../tmp/d/x"));
}

#[test]
fn what_two_dots_lead_to_is_looked_at_again() {
    let mut linked = world();
    linked.places.push(("/w/out", "/etc"));
    linked.places.push(("/w/out/passwd", "/etc/passwd"));
    assert!(!linked.grants("/w", "new/../out/d/x"));
    assert!(!linked.grants("/w", "new/../out/passwd"));
    linked.links.push(("/w/gone", "/etc/new"));
    assert!(!linked.grants("/w", "new/../gone"));
}

#[test]
fn a_link_to_nothing_goes_by_where_it_leads() {
    let mut linked = world();
    linked.links.push(("/w/out", "/etc/new"));
    linked.links.push(("/w/in", "sub/new"));
    linked.links.push(("/w/sub/in", "../new"));
    linked.links.push(("/w/twice", "out"));
    linked.links.push(("/w/climb", "nope/../../etc/new"));
    linked.links.push(("/etc/in", "/w/new"));
    assert!(!linked.grants("/w", "out"));
    assert!(linked.grants("/w", "in"));
    assert!(linked.grants("/w", "sub/in"));
    assert!(!linked.grants("/w", "twice"));
    assert!(!linked.grants("/w", "climb"));
    assert!(!linked.grants("/w", "out/d/x"));
    assert!(!linked.grants("/w", "/etc/in"));
}

#[test]
fn temporary_files_may_be_behind_a_link() {
    let mut linked = world();
    linked.places.retain(|(at, _)| *at != "/tmp");
    linked.places.push(("/tmp", "/private/tmp"));
    linked.places.push(("/tmp/sub", "/private/tmp/sub"));
    linked.places.push(("/tmp/out", "/etc"));
    assert!(linked.grants("/w", "/tmp/n/a"));
    assert!(linked.grants("/w", "/tmp/sub/n/a"));
    assert!(!linked.grants("/w", "/tmp/out/n/a"));
    assert!(!linked.grants("/w", "/tmp/a"));
}

#[test]
fn a_workspace_that_is_gone_is_made_again() {
    let mut gone = world();
    gone.places.retain(|(at, _)| !at.starts_with("/w"));
    assert!(gone.grants("/w", "a"));
    assert!(gone.grants("/w", "d/a"));
    assert!(gone.grants("/w", "d/../a"));
    assert!(!gone.grants("/w", "d/../../etc/d/a"));
    assert!(gone.grants("/w", "/tmp/d/a"));
    assert!(!gone.grants("/w", "/etc/d/a"));
    assert!(!gone.grants("/w", "/etc/a"));
}

#[test]
fn a_target_without_a_directory_is_refused() {
    let w = after(write("/w", "/"), vec![failed("1")]);
    assert_eq!(refusal(w), restriction_message("/w", "/"));
}

#[test]
fn links_are_followed_so_far_and_no_further() {
    let w = after(
        write("/w", "a"),
        vec![failed("1"), canonical("/w"), canonical("/w"), link("a"), canonical("/w")],
    );
    let mut w = after(w, vec![canonical("/tmp")]);
    for left in 0..MAX_LINKS {
        assert_eq!(w.links, MAX_LINKS - left);
        w = after(w, vec![failed("too many links"), link("a")]);
        assert!(!w.endless);
    }
    assert_eq!(w.links, 0);
    let w = after(w, vec![failed("too many links"), link("a")]);
    assert!(w.endless);
    match &w.step {
        WriteStep::Locate(search) => {
            assert_eq!(search.path, b"/w");
            assert_eq!(search.rest, vec![b"a".to_vec()]);
            assert_eq!(search.bounds, vec![b"/w".to_vec(), b"/tmp".to_vec()]);
        }
        other => panic!("{other:?}"),
    }
}

#[test]
fn unexpected_file_events_change_nothing() {
    let w = after(
        write("/w", "x"),
        vec![FileEvent::Done, FileEvent::Exists, FileEvent::Missing, link("/etc")],
    );
    assert_eq!(w.step, WriteStep::CanonicalizeTarget);
    assert_eq!(w.links, MAX_LINKS);
    let w = after(write("/w", "/"), vec![failed("1"), canonical("/w"), FileEvent::Done]);
    assert_eq!(refusal(w), restriction_message("/w", "/"));
}

#[test]
fn reads() {
    assert_eq!(read_text_file(b"/w", b"x"), b"/w/x");
    assert_eq!(read_text_file(b"/w", b"/x"), b"/x");
    assert_eq!(read_text_file_reply(Ok("text".to_string())), Ok("text".to_string()));
    let error = read_text_file_reply(Err("not found".to_string())).unwrap_err();
    assert_eq!(error.code, -32603);
    assert_eq!(error.data.as_deref(), Some("not found"));
}
