//! The agent's file requests: where it may write, and what it is told.

use crate::location::{
    above, are_single, climb_count, collapse, collapsed, find_climb, first_climb, is_canonical,
    is_in_any, join, joined, law_collapsing_removes_a_climb, law_existing_path_leads_to_its_place,
    law_location_is_unique, law_new_path_leads_into_its_directory, lemma_count_of_one,
    lemma_count_of_sum, lemma_first_climb, lies_in_any, FileSystem,
};
use crate::path::{
    byte_strings, components, last_component, law_containment_is_transitive,
    law_parent_drops_last_component, lemma_last_component_is_relative, lies_in, parent, parent_of,
    resolve, resolved, starts_with, SEPARATOR,
};
use crate::rpc::{
    internal_error, internal_error_view, invalid_params, invalid_params_view, RpcError,
    RpcErrorView,
};
use crate::terminal::{decode_lossy, utf8_lossy};
use vstd::prelude::*;
use vstd::utf8::{decode_utf8, valid_utf8};

verus! {

broadcast use vstd::string::group_string_axioms;

/// What kind of work a tool call does.
#[derive(Clone, Copy, Debug, PartialEq, Eq, Structural)]
pub enum ToolKind {
    Read,
    Edit,
    Delete,
    Move,
    Search,
    Execute,
    Think,
    Fetch,
    SwitchMode,
    Other,
}

/// How far a tool call has come.
#[derive(Clone, Copy, Debug, PartialEq, Eq, Structural)]
pub enum ToolCallStatus {
    Pending,
    InProgress,
    Completed,
    Failed,
}

/// A tool call to show to the user.
#[derive(Debug, PartialEq, Eq)]
pub struct ToolCall {
    pub tool_call_id: String,
    pub title: String,
    pub kind: ToolKind,
    pub status: ToolCallStatus,
}

/// What a file request asks for.
#[derive(Clone, Copy, Debug, PartialEq, Eq)]
pub enum FileAccess {
    Read,
    Write,
}

/// What the id of a file request's tool call starts with.
pub open spec fn id_prefix(access: FileAccess) -> Seq<char> {
    match access {
        FileAccess::Read => "read_text_file-"@,
        FileAccess::Write => "write_text_file-"@,
    }
}

/// What the title of a file request's tool call starts with.
pub open spec fn title_prefix(access: FileAccess) -> Seq<char> {
    match access {
        FileAccess::Read => "Reading "@,
        FileAccess::Write => "Writing "@,
    }
}

impl ToolCall {
    /// The tool call shows a file request for the path that reads `path`.
    pub open spec fn announces(self, access: FileAccess, path: Seq<char>) -> bool {
        &&& self.tool_call_id@ == id_prefix(access) + path
        &&& self.title@ == title_prefix(access) + path
        &&& self.kind == ToolKind::Execute
        &&& self.status == ToolCallStatus::Pending
    }
}

/// The tool call that shows a file request for the path that reads `path`.
pub fn announcement(access: FileAccess, path: &str) -> (call: ToolCall)
    ensures
        call.announces(access, path@),
        match access {
            FileAccess::Read => call.tool_call_id@ == "read_text_file-"@ + path@ && call.title@
                == "Reading "@ + path@,
            FileAccess::Write => call.tool_call_id@ == "write_text_file-"@ + path@ && call.title@
                == "Writing "@ + path@,
        },
        call.kind is Execute,
        call.status is Pending,
{
    let mut tool_call_id = match access {
        FileAccess::Read => "read_text_file-",
        FileAccess::Write => "write_text_file-",
    }.to_owned();
    tool_call_id.append(path);
    let mut title = match access {
        FileAccess::Read => "Reading ",
        FileAccess::Write => "Writing ",
    }.to_owned();
    title.append(path);
    ToolCall { tool_call_id, title, kind: ToolKind::Execute, status: ToolCallStatus::Pending }
}

/// The tool call that shows a file request for `path`.
pub fn announce_access(access: FileAccess, path: &[u8]) -> (call: ToolCall)
    ensures
        call.announces(access, utf8_lossy(path@)),
        valid_utf8(path@) ==> call.announces(access, decode_utf8(path@)),
        match access {
            FileAccess::Read => call.tool_call_id@ == "read_text_file-"@ + utf8_lossy(path@) && call.title@
                == "Reading "@ + utf8_lossy(path@),
            FileAccess::Write => call.tool_call_id@ == "write_text_file-"@ + utf8_lossy(path@) && call.title@
                == "Writing "@ + utf8_lossy(path@),
        },
        call.kind is Execute,
        call.status is Pending,
{
    announcement(access, decode_lossy(path).as_str())
}

/// The directory for temporary files, `/tmp`.
pub open spec fn tmp_dir() -> Seq<u8> {
    seq![47u8, 116u8, 109u8, 112u8]
}

/// `location` lies in `dir` or among the temporary files.
pub open spec fn in_bounds(location: Seq<u8>, dir: Seq<u8>) -> bool {
    lies_in(location, dir) || lies_in(location, tmp_dir())
}

/// The directory for temporary files.
fn tmp_path() -> (path: Vec<u8>)
    ensures
        path@ == tmp_dir(),
{
    let path: Vec<u8> = vec![47u8, 116u8, 109u8, 112u8];
    assert(path@ =~= tmp_dir());
    path
}

/// Tells whether `location` lies among the temporary files.
fn is_temporary(location: &[u8]) -> (inside: bool)
    ensures
        inside == lies_in(location@, tmp_dir()),
{
    starts_with(location, tmp_path().as_slice())
}

/// What is said of a write that is out of bounds, with the working directory and the target as
/// they read.
pub open spec fn restriction(cwd: Seq<char>, target: Seq<char>) -> Seq<char> {
    "Write restricted to working directory ("@ + cwd + ") or /tmp. Path: "@ + target
}

/// What is said of a write that is out of bounds, with the working directory and the target as
/// they read.
pub fn restriction_message(cwd: &str, target: &str) -> (message: String)
    ensures
        message@ == restriction(cwd@, target@),
        message@ == "Write restricted to working directory ("@ + cwd@ + ") or /tmp. Path: "@
            + target@,
{
    let mut message = "Write restricted to working directory (".to_owned();
    message.append(cwd);
    message.append(") or /tmp. Path: ");
    message.append(target);
    message
}

/// How many links are followed to find out where a path leads: as many as Linux follows.
pub const MAX_LINKS: u8 = 40;

/// What a search is for.
#[derive(Clone, Copy, Debug, PartialEq, Eq, Structural)]
pub enum Sought {
    /// Where the working directory is, or would be.
    Cwd,
    /// Where the directory for temporary files is, or would be.
    Tmp,
    /// Where the target would be.
    Target,
}

/// A search for where a path leads that is not there, or not all of it. It has come to `path`;
/// `rest` are the names behind it that are missing, and `bounds` the locations that earlier
/// searches have found.
#[derive(Debug, PartialEq, Eq)]
pub struct Search {
    pub sought: Sought,
    pub path: Vec<u8>,
    pub rest: Vec<Vec<u8>>,
    pub bounds: Vec<Vec<u8>>,
}

/// The next thing to do for a write.
#[derive(Debug, PartialEq, Eq)]
pub enum WriteStep {
    /// Find out where the target really is.
    CanonicalizeTarget,
    /// Find out where the target's directory really is.
    CanonicalizeParent(Vec<u8>),
    /// Find out where the working directory really is. The target is known to be at the given
    /// place or, where it is `new`, its directory is.
    CanonicalizeCwd { place: Vec<u8>, new: bool },
    /// Look whether the target, which is really nowhere, is a link, and if so, where it leads.
    CheckLink,
    /// Find out where the path that the search has come to really is.
    Locate(Search),
    /// Look whether the path that the search has come to, which is really nowhere, is a link, and
    /// if so, where it leads.
    FollowLink(Search),
    /// Look whether the target's directory exists.
    CheckParent(Vec<u8>),
    /// Create the target's directory and those above it.
    CreateParent(Vec<u8>),
    /// Write the content to the target.
    Write,
    /// Nothing: this is the reply.
    Done(Result<(), RpcError>),
}

/// What came of a step on the file system.
pub enum FileEvent {
    /// The path is really this one.
    Canonical(Vec<u8>),
    /// The path is a link that leads there.
    Link(Vec<u8>),
    /// It is there.
    Exists,
    /// It is not there.
    Missing,
    /// It is done.
    Done,
    /// The operating system refused, with this message.
    Failed(String),
}

/// A request to write a text file on its way to a reply. `links` is how many links the search at
/// hand may still follow, and `endless` whether there were more on the way to the target.
pub struct FileWrite {
    pub cwd: Vec<u8>,
    pub target: Vec<u8>,
    pub content: String,
    pub links: u8,
    pub endless: bool,
    pub step: WriteStep,
}

/// What a [`Search`] says.
pub struct SearchView {
    pub sought: Sought,
    pub path: Seq<u8>,
    pub rest: Seq<Seq<u8>>,
    pub bounds: Seq<Seq<u8>>,
}

/// What a [`WriteStep`] says.
pub enum WriteStepView {
    CanonicalizeTarget,
    CanonicalizeParent(Seq<u8>),
    CanonicalizeCwd { place: Seq<u8>, new: bool },
    CheckLink,
    Locate(SearchView),
    FollowLink(SearchView),
    CheckParent(Seq<u8>),
    CreateParent(Seq<u8>),
    Write,
    Done(Result<(), RpcErrorView>),
}

/// What a [`FileWrite`] says.
pub struct FileWriteView {
    pub cwd: Seq<u8>,
    pub target: Seq<u8>,
    pub content: Seq<char>,
    pub links: nat,
    pub endless: bool,
    pub step: WriteStepView,
}

impl View for Search {
    type V = SearchView;

    open spec fn view(&self) -> SearchView {
        SearchView {
            sought: self.sought,
            path: self.path@,
            rest: byte_strings(self.rest@),
            bounds: byte_strings(self.bounds@),
        }
    }
}

impl View for WriteStep {
    type V = WriteStepView;

    open spec fn view(&self) -> WriteStepView {
        match *self {
            WriteStep::CanonicalizeTarget => WriteStepView::CanonicalizeTarget,
            WriteStep::CanonicalizeParent(dir) => WriteStepView::CanonicalizeParent(dir@),
            WriteStep::CanonicalizeCwd { place, new } => WriteStepView::CanonicalizeCwd {
                place: place@,
                new,
            },
            WriteStep::CheckLink => WriteStepView::CheckLink,
            WriteStep::Locate(search) => WriteStepView::Locate(search@),
            WriteStep::FollowLink(search) => WriteStepView::FollowLink(search@),
            WriteStep::CheckParent(dir) => WriteStepView::CheckParent(dir@),
            WriteStep::CreateParent(dir) => WriteStepView::CreateParent(dir@),
            WriteStep::Write => WriteStepView::Write,
            WriteStep::Done(Ok(())) => WriteStepView::Done(Ok(())),
            WriteStep::Done(Err(error)) => WriteStepView::Done(Err(error@)),
        }
    }
}

impl View for FileWrite {
    type V = FileWriteView;

    open spec fn view(&self) -> FileWriteView {
        FileWriteView {
            cwd: self.cwd@,
            target: self.target@,
            content: self.content@,
            links: self.links as nat,
            endless: self.endless,
            step: self.step@,
        }
    }
}

/// The end of a write that is out of bounds, with the working directory and the target as they
/// read.
pub open spec fn refusal(cwd: Seq<char>, target: Seq<char>) -> WriteStepView {
    WriteStepView::Done(Err(invalid_params_view(restriction(cwd, target))))
}

/// Where the working directory and the target are UTF-8, a refusal quotes them as they are.
pub open spec fn quotes(before: FileWriteView, after: FileWriteView) -> bool {
    after.step == before.refused() && valid_utf8(before.cwd) && valid_utf8(before.target)
        ==> after.step == refusal(decode_utf8(before.cwd), decode_utf8(before.target))
}

impl FileWriteView {
    /// A write before its first step.
    pub open spec fn started(cwd: Seq<u8>, path: Seq<u8>, content: Seq<char>) -> FileWriteView {
        FileWriteView {
            cwd,
            target: resolved(cwd, path),
            content,
            links: MAX_LINKS as nat,
            endless: false,
            step: WriteStepView::CanonicalizeTarget,
        }
    }

    /// The write at `step`.
    pub open spec fn at(self, step: WriteStepView) -> FileWriteView {
        FileWriteView { step, ..self }
    }

    /// The end of this write when it is out of bounds.
    pub open spec fn refused(self) -> WriteStepView {
        refusal(utf8_lossy(self.cwd), utf8_lossy(self.target))
    }

    /// The step of a write that is in bounds: its directory comes first.
    pub open spec fn granted(self) -> WriteStepView {
        match parent_of(self.target) {
            Some(dir) => WriteStepView::CheckParent(dir),
            None => WriteStepView::Write,
        }
    }

    /// The write once it is found to be in bounds or not.
    pub open spec fn judged(self, allowed: bool) -> FileWriteView {
        self.at(
            if allowed {
                self.granted()
            } else {
                self.refused()
            },
        )
    }

    /// The path whose whereabouts are sought.
    pub open spec fn path_of(self, sought: Sought) -> Seq<u8> {
        match sought {
            Sought::Cwd => self.cwd,
            Sought::Tmp => tmp_dir(),
            Sought::Target => self.target,
        }
    }

    /// The write at the beginning of a search.
    pub open spec fn seeking(self, sought: Sought, bounds: Seq<Seq<u8>>) -> FileWriteView {
        FileWriteView {
            links: MAX_LINKS as nat,
            step: WriteStepView::Locate(
                SearchView { sought, path: self.path_of(sought), rest: Seq::empty(), bounds },
            ),
            ..self
        }
    }

    /// The write at the end of a search, with the location that was found, if one was. Those of the
    /// working directory and of the directory for temporary files are the bounds for that of the
    /// target.
    pub open spec fn located(self, search: SearchView, location: Option<Seq<u8>>) -> FileWriteView {
        let bounds = match location {
            Some(location) => search.bounds.push(location),
            None => search.bounds,
        };
        match search.sought {
            Sought::Cwd => self.seeking(Sought::Tmp, bounds),
            Sought::Tmp => self.seeking(Sought::Target, bounds),
            Sought::Target => self.judged(
                location matches Some(location) && lies_in_any(location, search.bounds),
            ),
        }
    }

    /// The write once the path that the search has come to is known to be at `place`. With the
    /// missing names behind it, that is the location, unless two dots are among them: then the
    /// search goes on without these and what they lead back out of. The directories that would be
    /// made on the way to a target have to be in bounds too.
    pub open spec fn placed(self, search: SearchView, place: Seq<u8>) -> FileWriteView {
        let i = first_climb(search.rest) as int;
        if i == search.rest.len() {
            self.located(search, Some(joined(place, search.rest)))
        } else if search.sought is Target && i > 0 && !lies_in_any(
            joined(place, search.rest.take(i)),
            search.bounds,
        ) {
            self.at(self.refused())
        } else {
            self.at(
                WriteStepView::Locate(
                    SearchView {
                        path: collapsed(place, search.rest),
                        rest: Seq::empty(),
                        ..search
                    },
                ),
            )
        }
    }

    /// The write once there is nothing at the path that the search has come to: its directory is
    /// looked for.
    pub open spec fn risen(self, search: SearchView) -> FileWriteView {
        match parent_of(search.path) {
            Some(dir) => self.at(
                WriteStepView::Locate(
                    SearchView {
                        path: dir,
                        rest: seq![components(search.path).last()] + search.rest,
                        ..search
                    },
                ),
            ),
            None => self.located(search, None),
        }
    }

    /// The write once the path that the search has come to is known to be a link. Where too many
    /// were followed, nothing can be opened through this one; what is to be written is then
    /// searched for as if it were not there, and anything else is given up.
    pub open spec fn followed(self, search: SearchView, destination: Seq<u8>) -> FileWriteView {
        match parent_of(search.path) {
            Some(dir) => if self.links > 0 {
                FileWriteView {
                    links: (self.links - 1) as nat,
                    step: WriteStepView::Locate(
                        SearchView { path: resolved(dir, destination), ..search },
                    ),
                    ..self
                }
            } else if search.sought is Target {
                FileWriteView { endless: true, ..self.risen(search) }
            } else {
                self.located(search, None)
            },
            None => self.located(search, None),
        }
    }

    /// The write after an event.
    ///
    /// Where the target is there, its real place decides, compared with that of the working
    /// directory; where it is not, the real place of its directory; and where that is not there
    /// either, the paths as they are written. A target that passes although it is a link, or
    /// although its directory is not there, has to lead to a location in bounds as well. An event
    /// that the step at hand does not wait for changes nothing.
    pub open spec fn after(self, event: FileEvent) -> FileWriteView {
        match (self.step, event) {
            (WriteStepView::CanonicalizeTarget, FileEvent::Canonical(place)) => self.at(
                WriteStepView::CanonicalizeCwd { place: place@, new: false },
            ),
            (WriteStepView::CanonicalizeTarget, FileEvent::Failed(_)) => self.at(
                match parent_of(self.target) {
                    Some(dir) => WriteStepView::CanonicalizeParent(dir),
                    None => self.refused(),
                },
            ),
            (WriteStepView::CanonicalizeParent(_), FileEvent::Canonical(place)) => self.at(
                WriteStepView::CanonicalizeCwd { place: place@, new: true },
            ),
            (WriteStepView::CanonicalizeParent(_), FileEvent::Failed(_)) => if in_bounds(
                self.target,
                self.cwd,
            ) {
                self.seeking(Sought::Cwd, Seq::empty())
            } else {
                self.at(self.refused())
            },
            (
                WriteStepView::CanonicalizeCwd { place, new },
                FileEvent::Canonical(cwd),
            ) => self.weighed(in_bounds(place, cwd@), new),
            (WriteStepView::CanonicalizeCwd { place, new }, FileEvent::Failed(_)) => self.weighed(
                lies_in(place, tmp_dir()),
                new,
            ),
            (WriteStepView::CheckLink, FileEvent::Link(_)) => self.seeking(
                Sought::Cwd,
                Seq::empty(),
            ),
            (WriteStepView::CheckLink, FileEvent::Failed(_)) => self.at(self.granted()),
            (WriteStepView::Locate(search), FileEvent::Canonical(place)) => self.placed(
                search,
                place@,
            ),
            (WriteStepView::Locate(search), FileEvent::Failed(_)) => self.at(
                WriteStepView::FollowLink(search),
            ),
            (WriteStepView::FollowLink(search), FileEvent::Link(destination)) => self.followed(
                search,
                destination@,
            ),
            (WriteStepView::FollowLink(search), FileEvent::Failed(_)) => self.risen(search),
            (WriteStepView::CheckParent(_), FileEvent::Exists) => self.at(WriteStepView::Write),
            (WriteStepView::CheckParent(dir), FileEvent::Missing) => self.at(
                WriteStepView::CreateParent(dir),
            ),
            (WriteStepView::CreateParent(_), FileEvent::Done) => self.at(WriteStepView::Write),
            (WriteStepView::CreateParent(_), FileEvent::Failed(message)) => self.at(
                WriteStepView::Done(Err(internal_error_view(message@))),
            ),
            (WriteStepView::Write, FileEvent::Done) => self.at(WriteStepView::Done(Ok(()))),
            (WriteStepView::Write, FileEvent::Failed(message)) => self.at(
                WriteStepView::Done(Err(internal_error_view(message@))),
            ),
            _ => self,
        }
    }

    /// The write once the place of its target or, where that is `new`, of its directory is found
    /// to be in bounds or not.
    pub open spec fn weighed(self, allowed: bool, new: bool) -> FileWriteView {
        if allowed && new {
            self.at(WriteStepView::CheckLink)
        } else {
            self.judged(allowed)
        }
    }

    /// The write after all of `events`.
    pub open spec fn after_all(self, events: Seq<FileEvent>) -> FileWriteView
        decreases events.len(),
    {
        if events.len() == 0 {
            self
        } else {
            self.after_all(events.drop_last()).after(events.last())
        }
    }
}

impl FileWrite {
    /// Begins a write to `path`, seen from the working directory `cwd`.
    pub fn write_text_file(cwd: Vec<u8>, path: &[u8], content: String) -> (write: Self)
        ensures
            write@ == FileWriteView::started(cwd@, path@, content@),
            write.cwd == cwd,
            write.target@ == resolved(cwd@, path@),
            write.content == content,
            write.step is CanonicalizeTarget,
    {
        let target = resolve(cwd.as_slice(), path);
        FileWrite {
            cwd,
            target,
            content,
            links: MAX_LINKS,
            endless: false,
            step: WriteStep::CanonicalizeTarget,
        }
    }

    fn at(self, step: WriteStep) -> (write: Self)
        ensures
            write@ == self@.at(step@),
    {
        FileWrite {
            cwd: self.cwd,
            target: self.target,
            content: self.content,
            links: self.links,
            endless: self.endless,
            step,
        }
    }

    fn judge(self, allowed: bool) -> (write: Self)
        ensures
            write@ == self@.judged(allowed),
            quotes(self@, write@),
    {
        if allowed {
            let step = match parent(self.target.as_slice()) {
                Some(dir) => WriteStep::CheckParent(dir),
                None => WriteStep::Write,
            };
            self.at(step)
        } else {
            let cwd = decode_lossy(self.cwd.as_slice());
            let target = decode_lossy(self.target.as_slice());
            let message = restriction_message(cwd.as_str(), target.as_str());
            self.at(WriteStep::Done(Err(invalid_params(message.as_str()))))
        }
    }

    fn weigh(self, allowed: bool, new: bool) -> (write: Self)
        ensures
            write@ == self@.weighed(allowed, new),
            quotes(self@, write@),
    {
        if allowed && new {
            self.at(WriteStep::CheckLink)
        } else {
            self.judge(allowed)
        }
    }

    fn seek(self, sought: Sought, bounds: Vec<Vec<u8>>) -> (write: Self)
        ensures
            write@ == self@.seeking(sought, byte_strings(bounds@)),
    {
        let path = match sought {
            Sought::Cwd => vstd::slice::slice_to_vec(self.cwd.as_slice()),
            Sought::Tmp => tmp_path(),
            Sought::Target => vstd::slice::slice_to_vec(self.target.as_slice()),
        };
        let rest: Vec<Vec<u8>> = Vec::new();
        assert(byte_strings(rest@) =~= Seq::<Seq<u8>>::empty());
        FileWrite {
            cwd: self.cwd,
            target: self.target,
            content: self.content,
            links: MAX_LINKS,
            endless: self.endless,
            step: WriteStep::Locate(Search { sought, path, rest, bounds }),
        }
    }

    fn seek_first(self) -> (write: Self)
        ensures
            write@ == self@.seeking(Sought::Cwd, Seq::empty()),
    {
        let bounds: Vec<Vec<u8>> = Vec::new();
        assert(byte_strings(bounds@) =~= Seq::<Seq<u8>>::empty());
        self.seek(Sought::Cwd, bounds)
    }

    fn locate(self, search: Search, location: Option<Vec<u8>>) -> (write: Self)
        ensures
            write@ == self@.located(
                search@,
                match location {
                    Some(location) => Some(location@),
                    None => None,
                },
            ),
            quotes(self@, write@),
    {
        let mut bounds = search.bounds;
        match search.sought {
            Sought::Target => {
                let allowed = match location {
                    Some(location) => is_in_any(location.as_slice(), &bounds),
                    None => false,
                };
                self.judge(allowed)
            },
            sought => {
                let ghost known = byte_strings(bounds@);
                if let Some(location) = location {
                    bounds.push(location);
                    assert(byte_strings(bounds@) =~= known.push(location@));
                }
                match sought {
                    Sought::Cwd => self.seek(Sought::Tmp, bounds),
                    _ => self.seek(Sought::Target, bounds),
                }
            },
        }
    }

    fn place(self, search: Search, place: Vec<u8>) -> (write: Self)
        ensures
            write@ == self@.placed(search@, place@),
            quotes(self@, write@),
    {
        let n: usize = search.rest.len();
        let i: usize = find_climb(&search.rest);
        let ghost names = byte_strings(search.rest@);
        if i == n {
            assert(names.subrange(0, n as int) =~= names);
            let location = join(place.as_slice(), &search.rest, 0, n);
            return self.locate(search, Some(location));
        }
        if matches!(search.sought, Sought::Target) && i > 0 {
            assert(names.subrange(0, i as int) =~= names.take(i as int));
            let made = join(place.as_slice(), &search.rest, 0, i);
            if !is_in_any(made.as_slice(), &search.bounds) {
                return self.judge(false);
            }
        }
        let path = collapse(place.as_slice(), &search.rest, i);
        let rest: Vec<Vec<u8>> = Vec::new();
        assert(byte_strings(rest@) =~= Seq::<Seq<u8>>::empty());
        self.at(
            WriteStep::Locate(
                Search { sought: search.sought, path, rest, bounds: search.bounds },
            ),
        )
    }

    fn rise(self, search: Search) -> (write: Self)
        ensures
            write@ == self@.risen(search@),
            quotes(self@, write@),
    {
        match (parent(search.path.as_slice()), last_component(search.path.as_slice())) {
            (Some(dir), Some(name)) => {
                let ghost names = byte_strings(search.rest@);
                let mut rest = search.rest;
                rest.insert(0, name);
                assert(byte_strings(rest@) =~= seq![name@] + names);
                self.at(
                    WriteStep::Locate(
                        Search { sought: search.sought, path: dir, rest, bounds: search.bounds },
                    ),
                )
            },
            (Some(_), None) => {
                proof {
                    lemma_last_component_is_relative(search.path@);
                }
                self
            },
            (None, _) => self.locate(search, None),
        }
    }

    fn follow(self, search: Search, destination: Vec<u8>) -> (write: Self)
        ensures
            write@ == self@.followed(search@, destination@),
            quotes(self@, write@),
    {
        match parent(search.path.as_slice()) {
            Some(dir) => {
                let links: u8 = self.links;
                if links > 0 {
                    let path = resolve(dir.as_slice(), destination.as_slice());
                    FileWrite {
                        cwd: self.cwd,
                        target: self.target,
                        content: self.content,
                        links: links - 1,
                        endless: self.endless,
                        step: WriteStep::Locate(
                            Search {
                                sought: search.sought,
                                path,
                                rest: search.rest,
                                bounds: search.bounds,
                            },
                        ),
                    }
                } else if matches!(search.sought, Sought::Target) {
                    let risen = self.rise(search);
                    FileWrite {
                        cwd: risen.cwd,
                        target: risen.target,
                        content: risen.content,
                        links: risen.links,
                        endless: true,
                        step: risen.step,
                    }
                } else {
                    self.locate(search, None)
                }
            },
            None => self.locate(search, None),
        }
    }

    /// Takes in what came of a step. Where the working directory and the target are UTF-8, a
    /// refusal quotes them as they are.
    pub fn on_event(self, event: FileEvent) -> (write: Self)
        ensures
            write@ == self@.after(event),
            self@.step !is Done ==> quotes(self@, write@),
    {
        let write = FileWrite {
            cwd: self.cwd,
            target: self.target,
            content: self.content,
            links: self.links,
            endless: self.endless,
            step: WriteStep::Write,
        };
        match (self.step, event) {
            (WriteStep::CanonicalizeTarget, FileEvent::Canonical(place)) => write.at(
                WriteStep::CanonicalizeCwd { place, new: false },
            ),
            (WriteStep::CanonicalizeTarget, FileEvent::Failed(_)) => match parent(
                write.target.as_slice(),
            ) {
                Some(dir) => write.at(WriteStep::CanonicalizeParent(dir)),
                None => write.judge(false),
            },
            (WriteStep::CanonicalizeParent(_), FileEvent::Canonical(place)) => write.at(
                WriteStep::CanonicalizeCwd { place, new: true },
            ),
            (WriteStep::CanonicalizeParent(_), FileEvent::Failed(_)) => {
                let target = write.target.as_slice();
                if starts_with(target, write.cwd.as_slice()) || is_temporary(target) {
                    write.seek_first()
                } else {
                    write.judge(false)
                }
            },
            (WriteStep::CanonicalizeCwd { place, new }, FileEvent::Canonical(cwd)) => {
                let in_cwd = starts_with(place.as_slice(), cwd.as_slice());
                let in_tmp = is_temporary(place.as_slice());
                write.weigh(in_cwd || in_tmp, new)
            },
            (WriteStep::CanonicalizeCwd { place, new }, FileEvent::Failed(_)) => {
                let in_tmp = is_temporary(place.as_slice());
                write.weigh(in_tmp, new)
            },
            (WriteStep::CheckLink, FileEvent::Link(_)) => write.seek_first(),
            (WriteStep::CheckLink, FileEvent::Failed(_)) => write.judge(true),
            (WriteStep::Locate(search), FileEvent::Canonical(place)) => write.place(search, place),
            (WriteStep::Locate(search), FileEvent::Failed(_)) => write.at(
                WriteStep::FollowLink(search),
            ),
            (WriteStep::FollowLink(search), FileEvent::Link(destination)) => write.follow(
                search,
                destination,
            ),
            (WriteStep::FollowLink(search), FileEvent::Failed(_)) => write.rise(search),
            (WriteStep::CheckParent(_), FileEvent::Exists) => write.at(WriteStep::Write),
            (WriteStep::CheckParent(dir), FileEvent::Missing) => write.at(
                WriteStep::CreateParent(dir),
            ),
            (WriteStep::CreateParent(_), FileEvent::Done) => write.at(WriteStep::Write),
            (WriteStep::CreateParent(_), FileEvent::Failed(message)) => write.at(
                WriteStep::Done(Err(internal_error(message.as_str()))),
            ),
            (WriteStep::Write, FileEvent::Done) => write.at(WriteStep::Done(Ok(()))),
            (WriteStep::Write, FileEvent::Failed(message)) => write.at(
                WriteStep::Done(Err(internal_error(message.as_str()))),
            ),
            (step, _) => write.at(step),
        }
    }
}

/// The file that a read of `path` from the working directory `cwd` opens.
pub fn read_text_file(cwd: &[u8], path: &[u8]) -> (target: Vec<u8>)
    ensures
        target@ == resolved(cwd@, path@),
{
    resolve(cwd, path)
}

/// The reply to a read: the file's content, or the operating system's message as an internal
/// error.
pub fn read_text_file_reply(read: Result<String, String>) -> (reply: Result<String, RpcError>)
    ensures
        match read {
            Ok(content) => reply == Ok::<String, RpcError>(content),
            Err(message) => reply matches Err(error) && error@ == internal_error_view(message@),
        },
        read matches Err(message) ==> (reply matches Err(error) && error.code == -32603
            && error.message@ == "Internal error"@ && (error.data matches Some(detail) && detail@
            == message@)),
{
    match read {
        Ok(content) => Ok(content),
        Err(message) => Err(internal_error(message.as_str())),
    }
}

/// The write is past the question whether it is in bounds, and was not refused.
pub open spec fn is_granted(step: WriteStepView) -> bool {
    step is CheckParent || step is CreateParent || step is Write || (step matches
        WriteStepView::Done(Ok(_)))
}

/// The event tells truly where `path` is in `fs`, if it tells that.
pub open spec fn tells_place(fs: FileSystem, path: Seq<u8>, event: FileEvent) -> bool {
    match event {
        FileEvent::Canonical(place) => (fs.real)(path) == Some(place@),
        FileEvent::Failed(_) => (fs.real)(path) is None,
        _ => true,
    }
}

/// The event tells truly where `path` leads as a link in `fs`, if it tells that.
pub open spec fn tells_link(fs: FileSystem, path: Seq<u8>, event: FileEvent) -> bool {
    match event {
        FileEvent::Link(destination) => (fs.link)(path) == Some(destination@),
        FileEvent::Failed(_) => (fs.link)(path) is None,
        _ => true,
    }
}

/// The event tells the truth about `fs` as far as the step at hand has asked.
pub open spec fn is_true(fs: FileSystem, write: FileWriteView, event: FileEvent) -> bool {
    match write.step {
        WriteStepView::CanonicalizeTarget => tells_place(fs, write.target, event),
        WriteStepView::CanonicalizeParent(dir) => tells_place(fs, dir, event),
        WriteStepView::CanonicalizeCwd { .. } => tells_place(fs, write.cwd, event),
        WriteStepView::CheckLink => tells_link(fs, write.target, event),
        WriteStepView::Locate(search) => tells_place(fs, search.path, event),
        WriteStepView::FollowLink(search) => tells_link(fs, search.path, event),
        _ => true,
    }
}

/// All of `events` tell the truth about `fs`.
pub open spec fn are_true(fs: FileSystem, start: FileWriteView, events: Seq<FileEvent>) -> bool
    decreases events.len(),
{
    events.len() == 0 || {
        &&& are_true(fs, start, events.drop_last())
        &&& is_true(fs, start.after_all(events.drop_last()), events.last())
    }
}

/// The working directory, or the directory for temporary files, is at `bound` in `fs`, or would be
/// once it was made.
pub open spec fn is_bound(fs: FileSystem, cwd: Seq<u8>, bound: Seq<u8>) -> bool {
    fs.lands(cwd, bound) || fs.lands(tmp_dir(), bound)
}

/// `location` lies in the working directory or among the temporary files, by where these are in
/// `fs`.
pub open spec fn is_bounded(fs: FileSystem, cwd: Seq<u8>, location: Seq<u8>) -> bool {
    lies_in(location, tmp_dir()) || exists|bound: Seq<u8>| #[trigger]
        is_bound(fs, cwd, bound) && lies_in(location, bound)
}

/// `target` leads to a location in bounds.
pub open spec fn lands_in_bounds(fs: FileSystem, cwd: Seq<u8>, target: Seq<u8>) -> bool {
    exists|location: Seq<u8>| #[trigger]
        fs.lands(target, location) && is_bounded(fs, cwd, location)
}

/// The path ends in two dots. Such a path names a directory, never a file.
pub open spec fn names_directory(path: Seq<u8>) -> bool {
    components(path).len() > 0 && components(path).last() == above()
}

/// Nothing is written to the write's target outside the bounds: the target leads to a location in
/// bounds, or there cannot be a file, since the target names a directory or stands behind more
/// links than the operating system follows.
pub open spec fn is_safe(fs: FileSystem, write: FileWriteView) -> bool {
    write.endless || names_directory(write.target) || lands_in_bounds(fs, write.cwd, write.target)
}

/// Wherever the search leads on to, what it is for leads there too.
spec fn is_on_the_way(fs: FileSystem, write: FileWriteView, search: SearchView) -> bool {
    (search.sought is Target && write.endless) || forall|location: Seq<u8>| #[trigger]
        fs.lands_from(search.path, search.rest, location) ==> fs.lands(
            write.path_of(search.sought),
            location,
        )
}

/// A place is in bounds by the real place of the working directory.
spec fn is_inside(fs: FileSystem, cwd: Seq<u8>, place: Seq<u8>) -> bool {
    lies_in(place, tmp_dir()) || ((fs.real)(cwd) matches Some(dir) && lies_in(place, dir))
}

/// What is known at each step of a write.
spec fn is_founded(fs: FileSystem, write: FileWriteView) -> bool {
    &&& write.endless ==> is_granted(write.step) || write.step is Done || (match write.step {
        WriteStepView::Locate(search) => search.sought is Target,
        WriteStepView::FollowLink(search) => search.sought is Target,
        _ => false,
    })
    &&& match write.step {
        WriteStepView::CanonicalizeTarget => true,
        WriteStepView::CanonicalizeParent(dir) => {
            &&& (fs.real)(write.target) is None
            &&& parent_of(write.target) == Some(dir)
        },
        WriteStepView::CanonicalizeCwd { place, new } => if new {
            &&& (fs.real)(write.target) is None
            &&& parent_of(write.target) matches Some(dir)
            &&& (fs.real)(dir) == Some(place)
        } else {
            (fs.real)(write.target) == Some(place)
        },
        WriteStepView::CheckLink => {
            &&& (fs.real)(write.target) is None
            &&& parent_of(write.target) matches Some(dir)
            &&& (fs.real)(dir) matches Some(place)
            &&& is_inside(fs, write.cwd, place)
        },
        WriteStepView::Locate(search) => is_search_founded(fs, write, search),
        WriteStepView::FollowLink(search) => is_search_founded(fs, write, search) && (fs.real)(
            search.path,
        ) is None,
        WriteStepView::Done(Err(_)) => true,
        _ => is_safe(fs, write),
    }
}

spec fn is_search_founded(fs: FileSystem, write: FileWriteView, search: SearchView) -> bool {
    &&& is_on_the_way(fs, write, search)
    &&& forall|k: int|
        0 <= k < search.bounds.len() ==> is_bound(fs, write.cwd, #[trigger] search.bounds[k])
}

proof fn lemma_inside_is_bounded(fs: FileSystem, cwd: Seq<u8>, place: Seq<u8>, location: Seq<u8>)
    requires
        is_inside(fs, cwd, place),
        lies_in(location, place),
    ensures
        is_bounded(fs, cwd, location),
{
    if lies_in(place, tmp_dir()) {
        law_containment_is_transitive(location, place, tmp_dir());
    } else if let Some(dir) = (fs.real)(cwd) {
        law_containment_is_transitive(location, place, dir);
        law_existing_path_leads_to_its_place(fs, cwd, dir, dir);
        assert(is_bound(fs, cwd, dir));
    }
}

proof fn lemma_located_is_founded(
    fs: FileSystem,
    write: FileWriteView,
    search: SearchView,
    location: Option<Seq<u8>>,
)
    requires
        write.endless ==> search.sought is Target,
        is_search_founded(fs, write, search),
        location matches Some(l) ==> fs.lands_from(search.path, search.rest, l),
    ensures
        is_founded(fs, write.located(search, location)),
{
    let next = write.located(search, location);
    if let Some(l) = location {
        assert(!(search.sought is Target && write.endless) ==> fs.lands(
            write.path_of(search.sought),
            l,
        ));
        if search.sought is Target {
            if lies_in_any(l, search.bounds) {
                let k = choose|k: int|
                    0 <= k < search.bounds.len() && lies_in(l, #[trigger] search.bounds[k]);
                assert(is_bound(fs, write.cwd, search.bounds[k]));
            }
        } else {
            assert(is_bound(fs, write.cwd, l));
        }
    }
}

proof fn lemma_step_is_founded(fs: FileSystem, write: FileWriteView, event: FileEvent)
    requires
        is_founded(fs, write),
        is_true(fs, write, event),
    ensures
        is_founded(fs, write.after(event)),
{
    let next = write.after(event);
    match (write.step, event) {
        (WriteStepView::CanonicalizeCwd { place, new }, FileEvent::Canonical(dir)) => {
            if in_bounds(place, dir@) && !new {
                law_existing_path_leads_to_its_place(fs, write.target, place, place);
                assert(lies_in(place, place)) by {
                    assert(components(place) =~= components(place).subrange(
                        0,
                        components(place).len() as int,
                    ));
                }
                lemma_inside_is_bounded(fs, write.cwd, place, place);
            }
        },
        (WriteStepView::CanonicalizeCwd { place, new }, FileEvent::Failed(_)) => {
            if lies_in(place, tmp_dir()) && !new {
                law_existing_path_leads_to_its_place(fs, write.target, place, place);
            }
        },
        (WriteStepView::CheckLink, FileEvent::Failed(_)) => {
            let dir = parent_of(write.target)->0;
            let place = (fs.real)(dir)->0;
            let name = components(write.target).last();
            lemma_last_component_is_relative(write.target);
            if name != above() {
                law_new_path_leads_into_its_directory(fs, write.target, dir, place);
                lemma_inside_is_bounded(fs, write.cwd, place, resolved(place, name));
            }
        },
        (WriteStepView::Locate(search), FileEvent::Canonical(found)) => {
            let place = found@;
            if first_climb(search.rest) == search.rest.len() {
                let location = joined(place, search.rest);
                assert(fs.landing(search.path, search.rest, 1) == Some(location));
                lemma_located_is_founded(fs, write, search, Some(location));
            } else if let WriteStepView::Locate(on) = next.step {
                assert forall|location: Seq<u8>| #[trigger]
                    fs.lands_from(on.path, on.rest, location) implies fs.lands_from(
                    search.path,
                    search.rest,
                    location,
                ) by {
                    let fuel = choose|fuel: nat| #[trigger]
                        fs.landing(on.path, on.rest, fuel) == Some(location);
                    assert(fs.landing(search.path, search.rest, fuel + 1) == Some(location));
                }
            }
        },
        (WriteStepView::FollowLink(search), FileEvent::Link(destination)) => {
            if write.links > 0 && parent_of(search.path) is Some {
                let on = next.step->Locate_0;
                assert forall|location: Seq<u8>| #[trigger]
                    fs.lands_from(on.path, on.rest, location) implies fs.lands_from(
                    search.path,
                    search.rest,
                    location,
                ) by {
                    let fuel = choose|fuel: nat| #[trigger]
                        fs.landing(on.path, on.rest, fuel) == Some(location);
                    assert(fs.landing(search.path, search.rest, fuel + 1) == Some(location));
                }
            } else if parent_of(search.path) is None || !(search.sought is Target) {
                lemma_located_is_founded(fs, write, search, None);
            }
        },
        (WriteStepView::FollowLink(search), FileEvent::Failed(_)) => {
            if let WriteStepView::Locate(on) = next.step {
                if parent_of(search.path) is Some {
                    assert forall|location: Seq<u8>| #[trigger]
                        fs.lands_from(on.path, on.rest, location) implies fs.lands_from(
                        search.path,
                        search.rest,
                        location,
                    ) by {
                        let fuel = choose|fuel: nat| #[trigger]
                            fs.landing(on.path, on.rest, fuel) == Some(location);
                        assert(fs.landing(search.path, search.rest, fuel + 1) == Some(location));
                    }
                }
            }
            if parent_of(search.path) is None {
                lemma_located_is_founded(fs, write, search, None);
            }
        },
        _ => {},
    }
}

proof fn lemma_write_is_founded(fs: FileSystem, start: FileWriteView, events: Seq<FileEvent>)
    requires
        start.step is CanonicalizeTarget,
        !start.endless,
        are_true(fs, start, events),
    ensures
        is_founded(fs, start.after_all(events)),
    decreases events.len(),
{
    if events.len() > 0 {
        lemma_write_is_founded(fs, start, events.drop_last());
        lemma_step_is_founded(fs, start.after_all(events.drop_last()), events.last());
    }
}

/// Whatever a write is told, it keeps its working directory, target and content.
pub proof fn law_writes_keep_their_request(start: FileWriteView, events: Seq<FileEvent>)
    ensures
        start.after_all(events).cwd == start.cwd,
        start.after_all(events).target == start.target,
        start.after_all(events).content == start.content,
    decreases events.len(),
{
    if events.len() > 0 {
        law_writes_keep_their_request(start, events.drop_last());
    }
}

/// Whatever the file system is like, a write that is told the truth about it comes to looking at
/// or creating the target's directory, to writing, or to a reply of success only where nothing is
/// written out of bounds: with links followed and two dots resolved, the target leads into the
/// working directory or the directory for temporary files, or there cannot be a file at all.
pub proof fn law_granted_writes_are_safe(
    fs: FileSystem,
    cwd: Seq<u8>,
    path: Seq<u8>,
    content: Seq<char>,
    events: Seq<FileEvent>,
)
    requires
        are_true(fs, FileWriteView::started(cwd, path, content), events),
    ensures
        ({
            let end = FileWriteView::started(cwd, path, content).after_all(events);
            is_granted(end.step) ==> is_safe(fs, end)
        }),
        ({
            let end = FileWriteView::started(cwd, path, content).after_all(events);
            let target = resolved(cwd, path);
            let tmp = seq![47u8, 116u8, 109u8, 112u8];
            (end.step is CheckParent || end.step is CreateParent || end.step is Write || (end.step
                matches WriteStepView::Done(Ok(_)))) ==> {
                ||| end.endless
                ||| components(target).len() > 0 && components(target).last() == seq![46u8, 46u8]
                ||| exists|location: Seq<u8>| #[trigger]
                    fs.lands(target, location) && (lies_in(location, tmp) || exists|
                        bound: Seq<u8>,
                    |
                        #![trigger lies_in(location, bound)]
                        (fs.lands(cwd, bound) || fs.lands(tmp, bound)) && lies_in(location, bound))
            }
        }),
{
    let start = FileWriteView::started(cwd, path, content);
    let end = start.after_all(events);
    lemma_write_is_founded(fs, start, events);
    law_writes_keep_their_request(start, events);
    assert(tmp_dir() =~= seq![47u8, 116u8, 109u8, 112u8]);
    if is_granted(end.step) && lands_in_bounds(fs, end.cwd, end.target) {
        let location = choose|location: Seq<u8>| #[trigger]
            fs.lands(end.target, location) && is_bounded(fs, end.cwd, location);
        assert(fs.lands(end.target, location));
        if !lies_in(location, tmp_dir()) {
            let bound = choose|bound: Seq<u8>| #[trigger]
                is_bound(fs, end.cwd, bound) && lies_in(location, bound);
            assert(lies_in(location, bound));
        }
    }
}

/// Where the working directory is there and `/tmp` is no link, a write that is told the truth and
/// is granted lands in the real place of the working directory or in `/tmp`, if it lands anywhere.
pub proof fn law_writes_stay_in_bounds(
    fs: FileSystem,
    cwd: Seq<u8>,
    path: Seq<u8>,
    content: Seq<char>,
    events: Seq<FileEvent>,
    cwd_place: Seq<u8>,
    location: Seq<u8>,
)
    requires
        are_true(fs, FileWriteView::started(cwd, path, content), events),
        (fs.real)(cwd) == Some(cwd_place),
        (fs.real)(tmp_dir()) == Some(tmp_dir()),
        fs.lands(resolved(cwd, path), location),
        !names_directory(resolved(cwd, path)),
    ensures
        ({
            let end = FileWriteView::started(cwd, path, content).after_all(events);
            is_granted(end.step) && !end.endless ==> in_bounds(location, cwd_place)
        }),
        ({
            let end = FileWriteView::started(cwd, path, content).after_all(events);
            (end.step is CheckParent || end.step is CreateParent || end.step is Write || (end.step
                matches WriteStepView::Done(Ok(_)))) && !end.endless ==> lies_in(
                location,
                cwd_place,
            ) || lies_in(location, seq![47u8, 116u8, 109u8, 112u8])
        }),
{
    let start = FileWriteView::started(cwd, path, content);
    let end = start.after_all(events);
    assert(tmp_dir() =~= seq![47u8, 116u8, 109u8, 112u8]);
    law_granted_writes_are_safe(fs, cwd, path, content, events);
    law_writes_keep_their_request(start, events);
    if is_granted(end.step) && !end.endless {
        let found = choose|found: Seq<u8>| #[trigger]
            fs.lands(end.target, found) && is_bounded(fs, cwd, found);
        law_location_is_unique(fs, end.target, location, found);
        if !lies_in(location, tmp_dir()) {
            let bound = choose|bound: Seq<u8>| #[trigger]
                is_bound(fs, cwd, bound) && lies_in(location, bound);
            law_existing_path_leads_to_its_place(fs, cwd, cwd_place, bound);
            law_existing_path_leads_to_its_place(fs, tmp_dir(), tmp_dir(), bound);
        }
    }
}

/// A search's missing names are single names.
pub open spec fn is_sound(step: WriteStepView) -> bool {
    match step {
        WriteStepView::Locate(search) => are_single(search.rest),
        WriteStepView::FollowLink(search) => are_single(search.rest),
        _ => true,
    }
}

/// Where a write is in the order of its steps.
pub open spec fn phases_ahead(step: WriteStepView) -> nat {
    match step {
        WriteStepView::CanonicalizeTarget => 10,
        WriteStepView::CanonicalizeParent(_) => 9,
        WriteStepView::CanonicalizeCwd { .. } => 8,
        WriteStepView::CheckLink => 7,
        WriteStepView::Locate(search) => searches_ahead(search.sought),
        WriteStepView::FollowLink(search) => searches_ahead(search.sought),
        WriteStepView::CheckParent(_) => 3,
        WriteStepView::CreateParent(_) => 2,
        WriteStepView::Write => 1,
        WriteStepView::Done(_) => 0,
    }
}

/// Where a search is in the order of the steps.
pub open spec fn searches_ahead(sought: Sought) -> nat {
    match sought {
        Sought::Cwd => 6,
        Sought::Tmp => 5,
        Sought::Target => 4,
    }
}

/// How many two dots a search has before it.
pub open spec fn climbs_ahead(step: WriteStepView) -> nat {
    match step {
        WriteStepView::Locate(search) => climb_count(components(search.path)) + climb_count(
            search.rest,
        ),
        WriteStepView::FollowLink(search) => climb_count(components(search.path)) + climb_count(
            search.rest,
        ),
        _ => 0,
    }
}

/// How many looks a search can still take up the path that it has come to.
pub open spec fn looks_ahead(step: WriteStepView) -> nat {
    match step {
        WriteStepView::Locate(search) => 2 * components(search.path).len() + 1,
        WriteStepView::FollowLink(search) => 2 * components(search.path).len(),
        _ => 0,
    }
}

proof fn lemma_rising(path: Seq<u8>, rest: Seq<Seq<u8>>)
    requires
        parent_of(path) is Some,
        are_single(rest),
    ensures
        ({
            let dir = parent_of(path)->0;
            let longer = seq![components(path).last()] + rest;
            &&& are_single(longer)
            &&& components(dir).len() < components(path).len()
            &&& climb_count(components(dir)) + climb_count(longer) == climb_count(
                components(path),
            ) + climb_count(rest)
        }),
{
    let whole = components(path);
    let name = whole.last();
    let longer = seq![name] + rest;
    law_parent_drops_last_component(path);
    lemma_last_component_is_relative(path);
    lemma_count_of_sum(seq![name], rest);
    lemma_count_of_one(name);
    assert forall|k: int| 0 <= k < longer.len() implies !(#[trigger] longer[k]).contains(
        SEPARATOR,
    ) by {
        if k > 0 {
            assert(longer[k] == rest[k - 1]);
        }
    }
}

/// An event either leaves a write as it is or brings it nearer to its reply: to a later phase, or
/// past one of the links that may be followed, or past two dots, or up the path. So a write ends. A
/// reply is final. (That places are reported in canonical form is what keeps two dots from coming
/// back.)
pub proof fn law_writes_make_progress(write: FileWriteView, event: FileEvent)
    requires
        is_sound(write.step),
        event matches FileEvent::Canonical(place) ==> is_canonical(place@),
    ensures
        is_sound(write.after(event).step),
        ({
            let next = write.after(event);
            next == write || decreases_to!(
                phases_ahead(write.step),
                write.links,
                climbs_ahead(write.step),
                looks_ahead(write.step)
                => phases_ahead(next.step),
                next.links,
                climbs_ahead(next.step),
                looks_ahead(next.step)
            )
        }),
        write.step is Done ==> write.after(event) == write,
{
    match (write.step, event) {
        (WriteStepView::Locate(search), FileEvent::Canonical(place)) => {
            if first_climb(search.rest) < search.rest.len() {
                law_collapsing_removes_a_climb(place@, search.rest);
            } else {
                lemma_first_climb(search.rest);
            }
        },
        (WriteStepView::FollowLink(search), FileEvent::Failed(_)) => {
            if parent_of(search.path) is Some {
                lemma_rising(search.path, search.rest);
            }
        },
        (WriteStepView::FollowLink(search), FileEvent::Link(_)) => {
            if parent_of(search.path) is Some {
                lemma_rising(search.path, search.rest);
            }
        },
        _ => {},
    }
}

/// A write comes to the writing only once its directory is there: it was found, or it was created,
/// or the target has none.
pub proof fn law_directory_comes_before_content(write: FileWriteView, event: FileEvent)
    requires
        write.step !is Write,
        write.after(event).step is Write,
    ensures
        (write.step is CheckParent && event is Exists) || (write.step is CreateParent && event
            is Done) || parent_of(write.target) is None,
{
}

/// The write comes to its target and, once that is written, to a reply of success; where the
/// operating system refuses, to its message.
pub open spec fn is_attempted(write: FileWriteView) -> bool {
    &&& write.step is Write
    &&& write.after(FileEvent::Done).step matches WriteStepView::Done(Ok(_))
    &&& forall|message: String| #[trigger]
        write.after(FileEvent::Failed(message)).step == WriteStepView::Done(
            Err(internal_error_view(message@)),
        )
}

/// The write is attempted, whether its directory is there or has to be created.
pub open spec fn goes_ahead(write: FileWriteView) -> bool {
    match parent_of(write.target) {
        Some(_) => is_attempted(write.after(FileEvent::Exists)) && is_attempted(
            write.after(FileEvent::Missing).after(FileEvent::Done),
        ),
        None => is_attempted(write),
    }
}

/// Where the target is there, its real place decides: the write goes ahead when that is in bounds
/// and is refused when it is not.
pub proof fn law_existing_target_is_judged_by_its_place(
    cwd: Seq<u8>,
    path: Seq<u8>,
    content: Seq<char>,
    place: Vec<u8>,
    cwd_place: Vec<u8>,
)
    ensures
        ({
            let start = FileWriteView::started(cwd, path, content);
            let end = start.after(FileEvent::Canonical(place)).after(
                FileEvent::Canonical(cwd_place),
            );
            if in_bounds(place@, cwd_place@) {
                goes_ahead(end)
            } else {
                end.step == start.refused()
            }
        }),
{
}

/// Where the target is not there but its directory is, the directory's real place decides, whatever
/// the target's last name: the write goes ahead when that is in bounds, unless the target is a
/// link, and is refused when it is not.
pub proof fn law_new_target_is_judged_by_its_directory(
    cwd: Seq<u8>,
    path: Seq<u8>,
    content: Seq<char>,
    first: String,
    place: Vec<u8>,
    cwd_place: Vec<u8>,
    second: String,
)
    requires
        parent_of(resolved(cwd, path)) is Some,
    ensures
        ({
            let start = FileWriteView::started(cwd, path, content);
            let end = start.after(FileEvent::Failed(first)).after(
                FileEvent::Canonical(place),
            ).after(FileEvent::Canonical(cwd_place));
            if in_bounds(place@, cwd_place@) {
                goes_ahead(end.after(FileEvent::Failed(second)))
            } else {
                end.step == start.refused()
            }
        }),
{
}

/// Where neither the target nor its directory is there, a target that is not in bounds by its own
/// path is refused.
pub proof fn law_missing_target_out_of_bounds_is_refused(
    cwd: Seq<u8>,
    path: Seq<u8>,
    content: Seq<char>,
    first: String,
    second: String,
)
    requires
        !in_bounds(resolved(cwd, path), cwd),
    ensures
        ({
            let start = FileWriteView::started(cwd, path, content);
            start.after(FileEvent::Failed(first)).after(FileEvent::Failed(second)).step
                == start.refused()
        }),
{
}

/// A search for the target that has come to something that is there, with no two dots behind it,
/// decides: the write goes ahead when the location is in bounds, and is refused when it is not.
pub proof fn law_location_decides(write: FileWriteView, search: SearchView, place: Vec<u8>)
    requires
        write.step == WriteStepView::Locate(search),
        search.sought is Target,
        first_climb(search.rest) == search.rest.len(),
    ensures
        ({
            let end = write.after(FileEvent::Canonical(place));
            if lies_in_any(joined(place@, search.rest), search.bounds) {
                goes_ahead(end)
            } else {
                end.step == write.refused()
            }
        }),
{
}

/// The view of a write shows all that it holds.
pub proof fn law_write_view_shows_everything(write: FileWrite)
    ensures
        write@.cwd == write.cwd@,
        write@.target == write.target@,
        write@.content == write.content@,
        write@.links == write.links,
        write@.endless == write.endless,
        write.step is CanonicalizeTarget ==> write@.step is CanonicalizeTarget,
        write.step is CheckLink ==> write@.step is CheckLink,
        write.step is Write ==> write@.step is Write,
        write.step matches WriteStep::CanonicalizeParent(dir) ==> write@.step
            == WriteStepView::CanonicalizeParent(dir@),
        write.step matches WriteStep::CanonicalizeCwd { place, new } ==> write@.step == (
        WriteStepView::CanonicalizeCwd { place: place@, new }),
        write.step matches WriteStep::CheckParent(dir) ==> write@.step
            == WriteStepView::CheckParent(dir@),
        write.step matches WriteStep::CreateParent(dir) ==> write@.step
            == WriteStepView::CreateParent(dir@),
        write.step matches WriteStep::Done(Ok(_)) ==> (write@.step matches WriteStepView::Done(
            Ok(_),
        )),
        write.step matches WriteStep::Done(Err(error)) ==> write@.step == WriteStepView::Done(
            Err(error@),
        ),
        write.step matches WriteStep::Locate(search) ==> (write@.step matches WriteStepView::Locate(
            seen,
        ) && seen.sought == search.sought && seen.path == search.path@ && seen.rest
            == byte_strings(search.rest@) && seen.bounds == byte_strings(search.bounds@)),
        write.step matches WriteStep::FollowLink(search) ==> (write@.step matches
            WriteStepView::FollowLink(seen) && seen.sought == search.sought && seen.path
            == search.path@ && seen.rest == byte_strings(search.rest@) && seen.bounds
            == byte_strings(search.bounds@)),
{
}

/// The bounds of a write are the directory and `/tmp`.
pub proof fn law_bounds_are_the_directory_and_tmp(location: Seq<u8>, dir: Seq<u8>)
    ensures
        in_bounds(location, dir) <==> lies_in(location, dir) || lies_in(
            location,
            seq![47u8, 116u8, 109u8, 112u8],
        ),
{
    assert(tmp_dir() =~= seq![47u8, 116u8, 109u8, 112u8]);
}

/// A write begins by looking for its target, which is the path as seen from the working directory.
pub proof fn law_writes_begin_with_their_target(
    cwd: Seq<u8>,
    path: Seq<u8>,
    content: Seq<char>,
)
    ensures
        ({
            let start = FileWriteView::started(cwd, path, content);
            &&& start.cwd == cwd
            &&& start.target == resolved(cwd, path)
            &&& start.content == content
            &&& !start.endless
            &&& start.step is CanonicalizeTarget
        }),
{
}

/// No event changes a write's working directory, target or content.
pub proof fn law_events_keep_the_request(write: FileWriteView, event: FileEvent)
    ensures
        write.after(event).cwd == write.cwd,
        write.after(event).target == write.target,
        write.after(event).content == write.content,
{
}

/// A target that is there is written when its real place lies in the real place of the working
/// directory, where that is known, or in `/tmp`; else it is refused.
pub proof fn law_place_of_the_target_decides(
    write: FileWriteView,
    place: Vec<u8>,
    cwd_place: Vec<u8>,
    message: String,
)
    requires
        write.step is CanonicalizeTarget,
    ensures
        ({
            let refusal = WriteStepView::Done(
                    Err(
                        RpcErrorView {
                            code: -32602,
                            message: "Invalid params"@,
                            data: Some(
                                "Write restricted to working directory ("@ + utf8_lossy(write.cwd)
                                    + ") or /tmp. Path: "@ + utf8_lossy(write.target),
                            ),
                        },
                    ),
            );
            let tmp = seq![47u8, 116u8, 109u8, 112u8];
            let known = write.after(FileEvent::Canonical(place));
            let weighed = known.after(FileEvent::Canonical(cwd_place));
            let unknown = known.after(FileEvent::Failed(message));
            &&& lies_in(place@, cwd_place@) || lies_in(place@, tmp) ==> {
                &&& parent_of(write.target) matches Some(dir) ==> weighed.step
                    == WriteStepView::CheckParent(dir)
                &&& parent_of(write.target) is None ==> weighed.step is Write
            }
            &&& !lies_in(place@, cwd_place@) && !lies_in(place@, tmp) ==> weighed.step == refusal
            &&& lies_in(place@, tmp) ==> {
                &&& parent_of(write.target) matches Some(dir) ==> unknown.step
                    == WriteStepView::CheckParent(dir)
                &&& parent_of(write.target) is None ==> unknown.step is Write
            }
            &&& !lies_in(place@, tmp) ==> unknown.step == refusal
        }),
{
    assert(tmp_dir() =~= seq![47u8, 116u8, 109u8, 112u8]);
}

/// A target that is not there goes by the real place of its directory in the same way, and one that
/// has no directory is refused. What passes is written if it is no link; where it is one, it is
/// searched for.
pub proof fn law_place_of_the_directory_decides(
    write: FileWriteView,
    place: Vec<u8>,
    cwd_place: Vec<u8>,
    destination: Vec<u8>,
    message: String,
)
    requires
        write.step is CanonicalizeTarget,
    ensures
        ({
            let refusal = WriteStepView::Done(
                    Err(
                        RpcErrorView {
                            code: -32602,
                            message: "Invalid params"@,
                            data: Some(
                                "Write restricted to working directory ("@ + utf8_lossy(write.cwd)
                                    + ") or /tmp. Path: "@ + utf8_lossy(write.target),
                            ),
                        },
                    ),
            );
            let tmp = seq![47u8, 116u8, 109u8, 112u8];
            let missing = write.after(FileEvent::Failed(message));
            let known = missing.after(FileEvent::Canonical(place));
            let weighed = known.after(FileEvent::Canonical(cwd_place));
            let unknown = known.after(FileEvent::Failed(message));
            let linked = weighed.after(FileEvent::Link(destination));
            &&& parent_of(write.target) is None ==> missing.step == refusal
            &&& parent_of(write.target) matches Some(dir) ==> {
                &&& missing.step == WriteStepView::CanonicalizeParent(dir)
                &&& lies_in(place@, cwd_place@) || lies_in(place@, tmp) ==> {
                    &&& weighed.step is CheckLink
                    &&& weighed.after(FileEvent::Failed(message)).step
                        == WriteStepView::CheckParent(dir)
                    &&& linked.links == 40
                    &&& linked.step matches WriteStepView::Locate(search)
                    &&& search.sought is Cwd
                    &&& search.path == write.cwd
                    &&& search.rest.len() == 0
                    &&& search.bounds.len() == 0
                }
                &&& !lies_in(place@, cwd_place@) && !lies_in(place@, tmp) ==> weighed.step
                    == refusal
                &&& lies_in(place@, tmp) ==> unknown.step is CheckLink
                &&& !lies_in(place@, tmp) ==> unknown.step == refusal
            }
        }),
{
    assert(tmp_dir() =~= seq![47u8, 116u8, 109u8, 112u8]);
}

/// A target whose directory is not there either goes by the paths as they are written: one that
/// lies neither in the working directory nor in `/tmp` is refused, any other is searched for.
pub proof fn law_written_paths_decide_last(
    write: FileWriteView,
    dir: Seq<u8>,
    message: String,
)
    requires
        write.step == WriteStepView::CanonicalizeParent(dir),
    ensures
        ({
            let refusal = WriteStepView::Done(
                    Err(
                        RpcErrorView {
                            code: -32602,
                            message: "Invalid params"@,
                            data: Some(
                                "Write restricted to working directory ("@ + utf8_lossy(write.cwd)
                                    + ") or /tmp. Path: "@ + utf8_lossy(write.target),
                            ),
                        },
                    ),
            );
            let tmp = seq![47u8, 116u8, 109u8, 112u8];
            let missing = write.after(FileEvent::Failed(message));
            &&& !lies_in(write.target, write.cwd) && !lies_in(write.target, tmp) ==> missing.step
                == refusal
            &&& lies_in(write.target, write.cwd) || lies_in(write.target, tmp) ==> {
                &&& missing.links == 40
                &&& missing.step matches WriteStepView::Locate(search)
                &&& search.sought is Cwd
                &&& search.path == write.cwd
                &&& search.rest.len() == 0
                &&& search.bounds.len() == 0
            }
        }),
{
    assert(tmp_dir() =~= seq![47u8, 116u8, 109u8, 112u8]);
}

/// A search ends at something that is there with no two dots behind it. What it finds of the
/// working directory and of `/tmp` joins the bounds for the next search; what it finds of the
/// target is written when it lies in one of them, and refused when it does not.
pub proof fn law_searches_end_at_a_location(
    write: FileWriteView,
    search: SearchView,
    place: Vec<u8>,
)
    requires
        write.step == WriteStepView::Locate(search),
        forall|k: int| 0 <= k < search.rest.len() ==> #[trigger] search.rest[k] != seq![46u8, 46u8],
    ensures
        ({
            let refusal = WriteStepView::Done(
                    Err(
                        RpcErrorView {
                            code: -32602,
                            message: "Invalid params"@,
                            data: Some(
                                "Write restricted to working directory ("@ + utf8_lossy(write.cwd)
                                    + ") or /tmp. Path: "@ + utf8_lossy(write.target),
                            ),
                        },
                    ),
            );
            let tmp = seq![47u8, 116u8, 109u8, 112u8];
            let end = write.after(FileEvent::Canonical(place));
            let location = joined(place@, search.rest);
            &&& search.sought is Cwd ==> end.links == 40 && (end.step matches WriteStepView::Locate(
                next,
            ) && next.sought is Tmp && next.path == tmp && next.rest.len() == 0 && next.bounds
                == search.bounds.push(location))
            &&& search.sought is Tmp ==> end.links == 40 && (end.step matches WriteStepView::Locate(
                next,
            ) && next.sought is Target && next.path == write.target && next.rest.len() == 0
                && next.bounds == search.bounds.push(location))
            &&& search.sought is Target ==> {
                &&& (exists|k: int|
                    0 <= k < search.bounds.len() && lies_in(location, #[trigger] search.bounds[k]))
                    ==> {
                    &&& parent_of(write.target) matches Some(dir) ==> end.step
                        == WriteStepView::CheckParent(dir)
                    &&& parent_of(write.target) is None ==> end.step is Write
                }
                &&& (forall|k: int|
                    0 <= k < search.bounds.len() ==> !lies_in(location, #[trigger] search.bounds[k]))
                    ==> end.step == refusal
            }
        }),
{
    assert(tmp_dir() =~= seq![47u8, 116u8, 109u8, 112u8]);
    lemma_first_climb(search.rest);
}

/// Where there are two dots behind what is there, the search goes on with the first of them
/// cancelled out; but a target is refused for which directories would have to be made before them
/// that do not lie in the bounds.
pub proof fn law_two_dots_are_searched_through(
    write: FileWriteView,
    search: SearchView,
    place: Vec<u8>,
    i: int,
)
    requires
        write.step == WriteStepView::Locate(search),
        0 <= i < search.rest.len(),
        search.rest[i] == seq![46u8, 46u8],
        forall|k: int| 0 <= k < i ==> #[trigger] search.rest[k] != seq![46u8, 46u8],
    ensures
        ({
            let refusal = WriteStepView::Done(
                    Err(
                        RpcErrorView {
                            code: -32602,
                            message: "Invalid params"@,
                            data: Some(
                                "Write restricted to working directory ("@ + utf8_lossy(write.cwd)
                                    + ") or /tmp. Path: "@ + utf8_lossy(write.target),
                            ),
                        },
                    ),
            );
            let end = write.after(FileEvent::Canonical(place));
            let made = joined(place@, search.rest.take(i));
            let outside = forall|k: int|
                0 <= k < search.bounds.len() ==> !lies_in(made, #[trigger] search.bounds[k]);
            &&& search.sought is Target && i > 0 && outside ==> end.step == refusal
            &&& !(search.sought is Target && i > 0 && outside) ==> end.links == write.links && (
            end.step matches WriteStepView::Locate(next) && next.sought == search.sought
                && next.bounds == search.bounds && next.rest.len() == 0 && next.path == collapsed(
                place@,
                search.rest,
            ))
        }),
{
    lemma_first_climb(search.rest);
}

/// A search looks at what is not there whether it is a link. Where it is none, the search goes up:
/// to the directory, with the name put before what is missing. Where there is nothing above, the
/// target is refused, and any other search is given up for the next one.
pub proof fn law_searches_go_up(
    write: FileWriteView,
    search: SearchView,
    message: String,
)
    requires
        write.step == WriteStepView::Locate(search),
    ensures
        ({
            let refusal = WriteStepView::Done(
                    Err(
                        RpcErrorView {
                            code: -32602,
                            message: "Invalid params"@,
                            data: Some(
                                "Write restricted to working directory ("@ + utf8_lossy(write.cwd)
                                    + ") or /tmp. Path: "@ + utf8_lossy(write.target),
                            ),
                        },
                    ),
            );
            let tmp = seq![47u8, 116u8, 109u8, 112u8];
            let looked = write.after(FileEvent::Failed(message));
            let end = looked.after(FileEvent::Failed(message));
            &&& looked.links == write.links
            &&& looked.step == WriteStepView::FollowLink(search)
            &&& parent_of(search.path) matches Some(dir) ==> end.links == write.links && (end.step
                matches WriteStepView::Locate(next) && next.sought == search.sought && next.bounds
                == search.bounds && next.path == dir && next.rest == seq![
                components(search.path).last(),
            ] + search.rest)
            &&& parent_of(search.path) is None ==> {
                &&& search.sought is Target ==> end.step == refusal
                &&& search.sought is Cwd ==> (end.step matches WriteStepView::Locate(next)
                    && next.sought is Tmp && next.path == tmp && next.rest.len() == 0 && next.bounds
                    == search.bounds)
                &&& search.sought is Tmp ==> (end.step matches WriteStepView::Locate(next)
                    && next.sought is Target && next.path == write.target && next.rest.len() == 0
                    && next.bounds == search.bounds)
            }
        }),
{
    assert(tmp_dir() =~= seq![47u8, 116u8, 109u8, 112u8]);
}

/// A search follows a link to where it points, as seen from the link's directory, while links may
/// be followed. After that, a target is searched for as if the link were not there and is known to
/// be behind too many links; any other search is given up for the next one.
pub proof fn law_searches_follow_links(
    write: FileWriteView,
    search: SearchView,
    destination: Vec<u8>,
    message: String,
)
    requires
        write.step == WriteStepView::FollowLink(search),
        parent_of(search.path) is Some,
    ensures
        ({
            let tmp = seq![47u8, 116u8, 109u8, 112u8];
            let dir = parent_of(search.path)->0;
            let end = write.after(FileEvent::Link(destination));
            &&& write.links > 0 ==> end.links == write.links - 1 && end.endless == write.endless && (
            end.step matches WriteStepView::Locate(next) && next.sought == search.sought
                && next.bounds == search.bounds && next.rest == search.rest && next.path
                == resolved(dir, destination@))
            &&& write.links == 0 && search.sought is Target ==> end.endless && end.step
                == write.after(FileEvent::Failed(message)).step
            &&& write.links == 0 && search.sought is Cwd ==> (end.step matches
                WriteStepView::Locate(next) && next.sought is Tmp && next.path == tmp
                && next.rest.len() == 0 && next.bounds == search.bounds)
            &&& write.links == 0 && search.sought is Tmp ==> (end.step matches
                WriteStepView::Locate(next) && next.sought is Target && next.path == write.target
                && next.rest.len() == 0 && next.bounds == search.bounds)
        }),
{
    assert(tmp_dir() =~= seq![47u8, 116u8, 109u8, 112u8]);
}

/// A write that is granted makes the directory where that is missing, then writes, and is answered
/// with success, or with the system's message where that refuses either.
pub proof fn law_granted_writes_are_carried_out(
    write: FileWriteView,
    dir: Seq<u8>,
    message: String,
)
    ensures
        ({
            let failure = WriteStepView::Done(
                Err(
                    RpcErrorView {
                        code: -32603,
                        message: "Internal error"@,
                        data: Some(message@),
                    },
                ),
            );
            &&& write.step == WriteStepView::CheckParent(dir) ==> {
                &&& write.after(FileEvent::Exists).step is Write
                &&& write.after(FileEvent::Missing).step == WriteStepView::CreateParent(dir)
            }
            &&& write.step is CreateParent ==> {
                &&& write.after(FileEvent::Done).step is Write
                &&& write.after(FileEvent::Failed(message)).step == failure
            }
            &&& write.step is Write ==> {
                &&& write.after(FileEvent::Done).step matches WriteStepView::Done(Ok(_))
                &&& write.after(FileEvent::Failed(message)).step == failure
            }
        }),
{
}

/// An event that the step at hand does not wait for changes nothing.
pub proof fn law_stray_file_events_change_nothing(write: FileWriteView, event: FileEvent)
    ensures
        write.step is Done ==> write.after(event) == write,
        (write.step is CanonicalizeTarget || write.step is CanonicalizeParent || write.step
            is CanonicalizeCwd || write.step is Locate) && !(event is Canonical || event is Failed)
            ==> write.after(event) == write,
        (write.step is CheckLink || write.step is FollowLink) && !(event is Link || event is Failed)
            ==> write.after(event) == write,
        write.step is CheckParent && !(event is Exists || event is Missing) ==> write.after(event)
            == write,
        (write.step is CreateParent || write.step is Write) && !(event is Done || event is Failed)
            ==> write.after(event) == write,
{
}

/// A refusal quotes the working directory and the target as they are where both are UTF-8.
pub proof fn law_refusals_quote_what_is_utf8(before: FileWriteView, after: FileWriteView)
    requires
        quotes(before, after),
        after.step == before.refused(),
        valid_utf8(before.cwd),
        valid_utf8(before.target),
    ensures
        after.step == WriteStepView::Done(
            Err(
                RpcErrorView {
                    code: -32602,
                    message: "Invalid params"@,
                    data: Some(
                        "Write restricted to working directory ("@ + decode_utf8(before.cwd)
                            + ") or /tmp. Path: "@ + decode_utf8(before.target),
                    ),
                },
            ),
        ),
{
}

/// Events come one after the other, and are true when each is true of what is asked when it comes:
/// where the path in question really is, or where it leads as a link.
pub proof fn law_events_are_taken_one_by_one(
    fs: FileSystem,
    write: FileWriteView,
    events: Seq<FileEvent>,
    event: FileEvent,
    place: Vec<u8>,
    message: String,
)
    ensures
        write.after_all(Seq::empty()) == write,
        write.after_all(events.push(event)) == write.after_all(events).after(event),
        are_true(fs, write, Seq::empty()),
        are_true(fs, write, events.push(event)) <==> are_true(fs, write, events) && is_true(
            fs,
            write.after_all(events),
            event,
        ),
        write.step is CanonicalizeTarget ==> {
            &&& is_true(fs, write, FileEvent::Canonical(place)) <==> (fs.real)(write.target)
                == Some(place@)
            &&& is_true(fs, write, FileEvent::Failed(message)) <==> (fs.real)(write.target) is None
        },
        write.step matches WriteStepView::CanonicalizeParent(dir) ==> {
            &&& is_true(fs, write, FileEvent::Canonical(place)) <==> (fs.real)(dir) == Some(place@)
            &&& is_true(fs, write, FileEvent::Failed(message)) <==> (fs.real)(dir) is None
        },
        write.step is CanonicalizeCwd ==> {
            &&& is_true(fs, write, FileEvent::Canonical(place)) <==> (fs.real)(write.cwd) == Some(
                place@,
            )
            &&& is_true(fs, write, FileEvent::Failed(message)) <==> (fs.real)(write.cwd) is None
        },
        write.step is CheckLink ==> {
            &&& is_true(fs, write, FileEvent::Link(place)) <==> (fs.link)(write.target) == Some(
                place@,
            )
            &&& is_true(fs, write, FileEvent::Failed(message)) <==> (fs.link)(write.target) is None
        },
        write.step matches WriteStepView::Locate(search) ==> {
            &&& is_true(fs, write, FileEvent::Canonical(place)) <==> (fs.real)(search.path) == Some(
                place@,
            )
            &&& is_true(fs, write, FileEvent::Failed(message)) <==> (fs.real)(search.path) is None
        },
        write.step matches WriteStepView::FollowLink(search) ==> {
            &&& is_true(fs, write, FileEvent::Link(place)) <==> (fs.link)(search.path) == Some(
                place@,
            )
            &&& is_true(fs, write, FileEvent::Failed(message)) <==> (fs.link)(search.path) is None
        },
{
    assert(events.push(event).drop_last() =~= events);
}

/// A file request is announced by what it does and by the path, whole, behind it; the tool call for
/// it is an execution that is pending.
pub proof fn law_announcements_name_the_path(call: ToolCall, access: FileAccess, path: Seq<char>)
    requires
        call.announces(access, path),
    ensures
        access is Read ==> call.tool_call_id@ == "read_text_file-"@ + path && call.title@
            == "Reading "@ + path,
        access is Write ==> call.tool_call_id@ == "write_text_file-"@ + path && call.title@
            == "Writing "@ + path,
        call.kind is Execute,
        call.status is Pending,
{
}

} // verus!
