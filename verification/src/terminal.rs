//! Terminals: what a command has written so far, how it ended, and the table of live terminals.

use crate::rpc::{resource_not_found, resource_not_found_view, RpcError, RpcErrorView};
use crate::text::{
    keep_tail, law_tail_is_longest_fitting_suffix, lemma_encode_concat, signed_decimal,
    signed_decimal_string, tail_within, utf8_len,
};
use std::sync::Arc;
use vstd::hash_map::StringHashMap;
use vstd::prelude::*;
use vstd::utf8::{decode_utf8, encode_utf8, valid_utf8};

verus! {

broadcast use vstd::string::group_string_axioms;

/// How a process ended, as the operating system reports it.
#[derive(Clone, Copy, Debug, PartialEq, Eq)]
pub struct ProcessExit {
    pub code: Option<i32>,
    pub signal: Option<i32>,
}

/// How a terminal's command ended, as the agent is told.
#[derive(Debug, PartialEq, Eq)]
pub struct TerminalExitStatus {
    pub exit_code: Option<u32>,
    pub signal: Option<String>,
}

/// What a [`TerminalExitStatus`] says.
pub struct TerminalExitStatusView {
    pub exit_code: Option<int>,
    pub signal: Option<Seq<char>>,
}

impl View for TerminalExitStatus {
    type V = TerminalExitStatusView;

    open spec fn view(&self) -> TerminalExitStatusView {
        TerminalExitStatusView {
            exit_code: match self.exit_code {
                Some(code) => Some(code as int),
                None => None,
            },
            signal: match self.signal {
                Some(signal) => Some(signal@),
                None => None,
            },
        }
    }
}

impl Clone for TerminalExitStatus {
    fn clone(&self) -> (copy: Self)
        ensures
            copy == *self,
    {
        TerminalExitStatus {
            exit_code: self.exit_code,
            signal: match &self.signal {
                Some(signal) => Some(signal.clone()),
                None => None,
            },
        }
    }
}

/// An exit code as an unsigned 32-bit number: a negative one wraps around.
pub open spec fn unsigned_code(code: i32) -> int {
    if code < 0 {
        code + 0x1_0000_0000
    } else {
        code as int
    }
}

/// What the agent is told of `exit`: the code, unsigned, and the signal's number in decimal.
pub open spec fn exit_status_view(exit: ProcessExit) -> TerminalExitStatusView {
    TerminalExitStatusView {
        exit_code: match exit.code {
            Some(code) => Some(unsigned_code(code)),
            None => None,
        },
        signal: match exit.signal {
            Some(signal) => Some(signed_decimal(signal as int)),
            None => None,
        },
    }
}

/// Turns the operating system's report into the agent's.
pub fn to_terminal_exit_status(exit: ProcessExit) -> (status: TerminalExitStatus)
    ensures
        status@ == exit_status_view(exit),
        match exit.code {
            Some(code) => status.exit_code matches Some(told) && told == (if code >= 0 {
                code as int
            } else {
                code + 0x1_0000_0000
            }),
            None => status.exit_code is None,
        },
        match exit.signal {
            Some(signal) => status.signal matches Some(told) && told@ == signed_decimal(
                signal as int,
            ),
            None => status.signal is None,
        },
{
    let exit_code = match exit.code {
        Some(code) => {
            let unsigned: u32 = code as u32;
            assert(code < 0 ==> unsigned == code + 0x1_0000_0000) by (bit_vector)
                requires
                    unsigned == code as u32,
            ;
            Some(unsigned)
        },
        None => None,
    };
    let signal = match exit.signal {
        Some(signal) => Some(signed_decimal_string(signal)),
        None => None,
    };
    TerminalExitStatus { exit_code, signal }
}

/// The text that `bytes` decode to when whatever is not UTF-8 is replaced.
pub uninterp spec fn utf8_lossy(bytes: Seq<u8>) -> Seq<char>;

/// Calls `String::from_utf8_lossy`. Trusted: the text depends on the bytes alone, and bytes that
/// are valid UTF-8 decode to the characters that they encode.
#[verifier::external_body]
pub(crate) fn decode_lossy(bytes: &[u8]) -> (text: String)
    ensures
        text@ == utf8_lossy(bytes@),
        valid_utf8(bytes@) ==> text@ == decode_utf8(bytes@),
{
    String::from_utf8_lossy(bytes).into_owned()
}

/// What is known of a terminal besides its process.
#[derive(Debug, PartialEq, Eq)]
pub struct TerminalState {
    pub output: String,
    pub truncated: bool,
    pub exit_status: Option<TerminalExitStatus>,
    pub output_byte_limit: Option<u64>,
}

/// What a [`TerminalState`] holds.
pub struct TerminalView {
    pub output: Seq<char>,
    pub truncated: bool,
    pub exit_status: Option<TerminalExitStatusView>,
    pub output_byte_limit: Option<u64>,
}

impl View for TerminalState {
    type V = TerminalView;

    open spec fn view(&self) -> TerminalView {
        TerminalView {
            output: self.output@,
            truncated: self.truncated,
            exit_status: match self.exit_status {
                Some(status) => Some(status@),
                None => None,
            },
            output_byte_limit: self.output_byte_limit,
        }
    }
}

impl TerminalView {
    /// A terminal whose command has just been started.
    pub open spec fn started(output_byte_limit: Option<u64>) -> TerminalView {
        TerminalView {
            output: Seq::empty(),
            truncated: false,
            exit_status: None,
            output_byte_limit,
        }
    }

    /// The terminal after its command has written `text`: the text joins the output, and when
    /// that exceeds the limit, its beginning is dropped and the terminal counts as truncated.
    pub open spec fn written(self, text: Seq<char>) -> TerminalView {
        let output = self.output + text;
        match self.output_byte_limit {
            Some(limit) => {
                let bound = limit as usize as nat;
                if utf8_len(output) <= bound {
                    TerminalView { output, ..self }
                } else {
                    TerminalView { output: tail_within(output, bound), truncated: true, ..self }
                }
            },
            None => TerminalView { output, ..self },
        }
    }

    /// The terminal after its command has written `texts`, one after the other.
    pub open spec fn written_all(self, texts: Seq<Seq<char>>) -> TerminalView
        decreases texts.len(),
    {
        if texts.len() == 0 {
            self
        } else {
            self.written_all(texts.drop_last()).written(texts.last())
        }
    }
}

impl TerminalState {
    /// A terminal whose command has just been started.
    pub fn new(output_byte_limit: Option<u64>) -> (terminal: Self)
        ensures
            terminal@ == TerminalView::started(output_byte_limit),
            terminal.output@.len() == 0,
            !terminal.truncated,
            terminal.exit_status is None,
            terminal.output_byte_limit == output_byte_limit,
    {
        TerminalState {
            output: String::new(),
            truncated: false,
            exit_status: None,
            output_byte_limit,
        }
    }

    /// Takes in text that the command has written.
    pub fn append_text(&mut self, text: &str)
        ensures
            final(self)@ == old(self)@.written(text@),
            final(self).exit_status == old(self).exit_status,
            final(self).output_byte_limit == old(self).output_byte_limit,
            ({
                let all = old(self).output@ + text@;
                let kept = final(self).output@;
                match old(self).output_byte_limit {
                    None => kept == all && final(self).truncated == old(self).truncated,
                    Some(limit) => {
                        let bound = limit as usize;
                        &&& encode_utf8(kept).len() <= bound
                        &&& encode_utf8(all).len() <= bound ==> kept == all && final(self).truncated
                            == old(self).truncated
                        &&& encode_utf8(all).len() > bound ==> final(self).truncated && (exists|
                            n: int,
                        |
                            #![trigger all.skip(n)]
                            0 <= n <= all.len() && kept == all.skip(n) && (forall|m: int|
                                0 <= m < n ==> encode_utf8(#[trigger] all.skip(m)).len() > bound))
                    },
                }
            }),
    {
        let ghost all = self.output@ + text@;
        self.output.append(text);
        if let Some(limit) = self.output_byte_limit {
            let bound: usize = limit as usize;
            let size: usize = self.output.as_str().as_bytes().len();
            if size > bound {
                self.truncated = true;
                assert(self.output@ == all);
                self.output = keep_tail(self.output.as_str(), bound);
            }
        }
    }

    /// Takes in bytes that the command has written.
    pub fn append_terminal_output(&mut self, bytes: &[u8])
        ensures
            final(self)@ == old(self)@.written(utf8_lossy(bytes@)),
            valid_utf8(bytes@) ==> final(self)@ == old(self)@.written(decode_utf8(bytes@)),
            final(self).exit_status == old(self).exit_status,
            final(self).output_byte_limit == old(self).output_byte_limit,
            ({
                let all = old(self).output@ + utf8_lossy(bytes@);
                let kept = final(self).output@;
                match old(self).output_byte_limit {
                    None => kept == all && final(self).truncated == old(self).truncated,
                    Some(limit) => {
                        let bound = limit as usize;
                        &&& encode_utf8(kept).len() <= bound
                        &&& encode_utf8(all).len() <= bound ==> kept == all && final(self).truncated
                            == old(self).truncated
                        &&& encode_utf8(all).len() > bound ==> final(self).truncated && (exists|
                            n: int,
                        |
                            #![trigger all.skip(n)]
                            0 <= n <= all.len() && kept == all.skip(n) && (forall|m: int|
                                0 <= m < n ==> encode_utf8(#[trigger] all.skip(m)).len() > bound))
                    },
                }
            }),
    {
        let text = decode_lossy(bytes);
        self.append_text(text.as_str());
    }
}

/// All of `texts` in one.
pub open spec fn joined(texts: Seq<Seq<char>>) -> Seq<char>
    decreases texts.len(),
{
    if texts.len() == 0 {
        Seq::empty()
    } else {
        joined(texts.drop_last()) + texts.last()
    }
}

proof fn lemma_tail_of_tail(a: Seq<char>, b: Seq<char>, limit: nat)
    ensures
        tail_within(tail_within(a, limit) + b, limit) == tail_within(a + b, limit),
        utf8_len(a) <= utf8_len(a + b),
    decreases a.len(),
{
    lemma_encode_concat(a, b);
    if utf8_len(a) > limit && a.len() > 0 {
        lemma_tail_of_tail(a.drop_first(), b, limit);
        assert((a + b).drop_first() =~= a.drop_first() + b);
    }
}

proof fn lemma_joined_is_flat(texts: Seq<Seq<char>>)
    ensures
        joined(texts) == texts.flatten(),
    decreases texts.len(),
{
    texts.lemma_flatten_and_flatten_alt_are_equivalent();
    if texts.len() > 0 {
        lemma_joined_is_flat(texts.drop_last());
        texts.drop_last().lemma_flatten_and_flatten_alt_are_equivalent();
    }
}

/// However the output arrives in pieces, a terminal without a limit holds all of it, and one with
/// a limit holds the longest ending of it that fits; the terminal counts as truncated exactly
/// when all that was written exceeds the limit.
pub proof fn law_output_is_tail_of_everything_written(
    output_byte_limit: Option<u64>,
    texts: Seq<Seq<char>>,
)
    ensures
        ({
            let terminal = TerminalView::started(output_byte_limit).written_all(texts);
            &&& terminal.output_byte_limit == output_byte_limit
            &&& terminal.exit_status is None
            &&& match output_byte_limit {
                Some(limit) => {
                    &&& terminal.output == tail_within(joined(texts), limit as usize as nat)
                    &&& terminal.truncated == (utf8_len(joined(texts)) > limit as usize)
                },
                None => terminal.output == joined(texts) && !terminal.truncated,
            }
        }),
        ({
            let terminal = TerminalView::started(output_byte_limit).written_all(texts);
            let all = texts.flatten();
            match output_byte_limit {
                Some(limit) => {
                    let bound = limit as usize;
                    &&& encode_utf8(terminal.output).len() <= bound
                    &&& terminal.truncated == (encode_utf8(all).len() > bound)
                    &&& exists|n: int|
                        #![trigger all.skip(n)]
                        0 <= n <= all.len() && terminal.output == all.skip(n) && (forall|m: int|
                            0 <= m < n ==> encode_utf8(#[trigger] all.skip(m)).len() > bound)
                },
                None => terminal.output == all && !terminal.truncated,
            }
        }),
    decreases texts.len(),
{
    lemma_joined_is_flat(texts);
    if let Some(limit) = output_byte_limit {
        let all = texts.flatten();
        let n = law_tail_is_longest_fitting_suffix(all, limit as usize as nat);
        assert(tail_within(all, limit as usize as nat) == all.skip(n));
    }
    if texts.len() > 0 {
        let before = TerminalView::started(output_byte_limit).written_all(texts.drop_last());
        law_output_is_tail_of_everything_written(output_byte_limit, texts.drop_last());
        if let Some(limit) = output_byte_limit {
            let bound = limit as usize as nat;
            let earlier = joined(texts.drop_last());
            lemma_tail_of_tail(earlier, texts.last(), bound);
            let n = law_tail_is_longest_fitting_suffix(before.output + texts.last(), bound);
            if utf8_len(earlier) > bound {
                if utf8_len(before.output + texts.last()) <= bound {
                    assert(tail_within(earlier + texts.last(), bound) == before.output
                        + texts.last());
                }
            }
        }
    }
}

/// After every write, the output takes no more bytes than the terminal's limit.
pub proof fn law_output_stays_within_limit(terminal: TerminalView, text: Seq<char>)
    ensures
        terminal.written(text).output_byte_limit == terminal.output_byte_limit,
        terminal.output_byte_limit matches Some(limit) ==> utf8_len(terminal.written(text).output)
            <= limit,
        terminal.output_byte_limit matches Some(limit) ==> encode_utf8(
            terminal.written(text).output,
        ).len() <= limit,
{
    if let Some(limit) = terminal.output_byte_limit {
        let bound: usize = limit as usize;
        assert(bound <= limit) by (bit_vector)
            requires
                bound == limit as usize,
        ;
        let n = law_tail_is_longest_fitting_suffix(terminal.output + text, bound as nat);
    }
}

/// A write neither forgets that output was dropped nor touches the exit status.
pub proof fn law_write_keeps_truncation_and_exit(terminal: TerminalView, text: Seq<char>)
    ensures
        terminal.truncated ==> terminal.written(text).truncated,
        terminal.written(text).exit_status == terminal.exit_status,
{
}

/// The table of live terminals, by id. `T` is whatever stands for one terminal.
#[verifier::reject_recursive_types(T)]
pub struct TerminalRegistry<T> {
    terminals: StringHashMap<Arc<T>>,
}

impl<T> View for TerminalRegistry<T> {
    type V = Map<Seq<char>, Arc<T>>;

    closed spec fn view(&self) -> Map<Seq<char>, Arc<T>> {
        self.terminals@
    }
}

/// What `table` has under `id`: a terminal, or the error for one that is not there.
pub open spec fn lookup<T>(table: Map<Seq<char>, Arc<T>>, id: Seq<char>) -> Result<
    Arc<T>,
    RpcErrorView,
> {
    if table.contains_key(id) {
        Ok(table[id])
    } else {
        Err(resource_not_found_view())
    }
}

/// A terminal is found under its id from the time it is entered until it is taken out, and then
/// it is unknown; entering and taking out one terminal makes no difference to the others.
pub proof fn law_terminals_are_found_until_removed<T>(
    table: Map<Seq<char>, Arc<T>>,
    id: Seq<char>,
    terminal: Arc<T>,
    other: Seq<char>,
)
    requires
        other != id,
    ensures
        lookup(table.insert(id, terminal), id) == Ok::<Arc<T>, RpcErrorView>(terminal),
        lookup(table.remove(id), id) == Err::<Arc<T>, RpcErrorView>(resource_not_found_view()),
        lookup(table.insert(id, terminal), other) == lookup(table, other),
        lookup(table.remove(id), other) == lookup(table, other),
{
}

impl<T> TerminalRegistry<T> {
    /// An empty table.
    pub fn new() -> (registry: Self)
        ensures
            registry@ == Map::<Seq<char>, Arc<T>>::empty(),
    {
        TerminalRegistry { terminals: StringHashMap::new() }
    }

    /// Enters a terminal under its id.
    pub fn insert(&mut self, id: String, terminal: Arc<T>)
        ensures
            final(self)@ == old(self)@.insert(id@, terminal),
    {
        self.terminals.insert(id, terminal);
    }

    /// Finds a terminal by its id.
    pub fn terminal_state(&self, id: &str) -> (found: Result<Arc<T>, RpcError>)
        ensures
            match found {
                Ok(terminal) => lookup(self@, id@) == Ok::<Arc<T>, RpcErrorView>(terminal),
                Err(error) => lookup(self@, id@) == Err::<Arc<T>, RpcErrorView>(error@),
            },
            found is Ok <==> self@.contains_key(id@),
            found matches Ok(terminal) ==> terminal == self@[id@],
            found matches Err(error) ==> error.code == -32002 && error.message@
                == "Resource not found"@ && error.data is None,
    {
        match self.terminals.get(id) {
            Some(terminal) => Ok(Arc::clone(terminal)),
            None => Err(resource_not_found()),
        }
    }

    /// Takes a terminal out of the table.
    pub fn remove(&mut self, id: &str) -> (removed: Result<Arc<T>, RpcError>)
        ensures
            final(self)@ == old(self)@.remove(id@),
            match removed {
                Ok(terminal) => lookup(old(self)@, id@) == Ok::<Arc<T>, RpcErrorView>(terminal),
                Err(error) => lookup(old(self)@, id@) == Err::<Arc<T>, RpcErrorView>(error@),
            },
            removed is Ok <==> old(self)@.contains_key(id@),
            removed matches Ok(terminal) ==> terminal == old(self)@[id@],
            removed matches Err(error) ==> error.code == -32002 && error.message@
                == "Resource not found"@ && error.data is None,
    {
        let found = self.terminal_state(id);
        self.terminals.remove(id);
        found
    }
}

/// An exit code that is not negative is told as it is, and a negative one as the number that is
/// 2^32 more; so different codes are told differently. No code is told where there is none, and
/// the signal is told by its number.
pub proof fn law_exit_codes_are_told_unchanged(exit: ProcessExit, other: ProcessExit)
    ensures
        exit.code matches Some(code) ==> code >= 0 ==> exit_status_view(exit).exit_code == Some(
            code as int,
        ),
        exit.code matches Some(code) ==> code < 0 ==> exit_status_view(exit).exit_code == Some(
            code + 0x1_0000_0000,
        ),
        exit.code is None ==> exit_status_view(exit).exit_code is None,
        exit.code != other.code ==> exit_status_view(exit).exit_code != exit_status_view(
            other,
        ).exit_code,
        exit.signal matches Some(signal) ==> exit_status_view(exit).signal == Some(
            signed_decimal(signal as int),
        ),
        exit.signal is None ==> exit_status_view(exit).signal is None,
{
}

/// The view of a status shows its code and its signal as they are.
pub proof fn law_status_view_shows_everything(status: TerminalExitStatus)
    ensures
        status.exit_code matches Some(code) ==> status@.exit_code == Some(code as int),
        status.exit_code is None ==> status@.exit_code is None,
        status.signal matches Some(signal) ==> status@.signal == Some(signal@),
        status.signal is None ==> status@.signal is None,
{
}

/// The view of a terminal shows its output, whether that was truncated, its exit status and its
/// limit as they are.
pub proof fn law_terminal_view_shows_everything(terminal: TerminalState)
    ensures
        terminal@.output == terminal.output@,
        terminal@.truncated == terminal.truncated,
        terminal@.output_byte_limit == terminal.output_byte_limit,
        terminal.exit_status matches Some(status) ==> terminal@.exit_status == Some(status@),
        terminal.exit_status is None ==> terminal@.exit_status is None,
{
}

/// A terminal starts out empty, not truncated, without an exit status, and with the limit that it
/// was given.
pub proof fn law_terminals_start_empty(output_byte_limit: Option<u64>)
    ensures
        TerminalView::started(output_byte_limit).output.len() == 0,
        !TerminalView::started(output_byte_limit).truncated,
        TerminalView::started(output_byte_limit).exit_status is None,
        TerminalView::started(output_byte_limit).output_byte_limit == output_byte_limit,
{
}

/// What is written joins the output. All of it is kept where there is no limit or where its
/// encoding fits; else the longest ending is kept that fits, and the terminal counts as truncated.
pub proof fn law_written_text_joins_the_output(terminal: TerminalView, text: Seq<char>) -> (n: int)
    ensures
        ({
            let all = terminal.output + text;
            let after = terminal.written(text);
            &&& 0 <= n <= all.len()
            &&& after.output == all.skip(n)
            &&& terminal.output_byte_limit is None ==> n == 0 && after.truncated
                == terminal.truncated
            &&& terminal.output_byte_limit matches Some(limit) ==> {
                let bound = limit as usize;
                &&& encode_utf8(after.output).len() <= bound
                &&& forall|m: int| 0 <= m < n ==> encode_utf8(#[trigger] all.skip(m)).len() > bound
                &&& after.truncated == (terminal.truncated || encode_utf8(all).len() > bound)
            }
        }),
{
    let all = terminal.output + text;
    assert(all.skip(0) =~= all);
    if let Some(limit) = terminal.output_byte_limit {
        law_tail_is_longest_fitting_suffix(all, limit as usize as nat)
    } else {
        0
    }
}

/// What a table has under an id is found, as it is; what it does not have is not found.
pub proof fn law_lookup_finds_what_is_there<T>(table: Map<Seq<char>, Arc<T>>, id: Seq<char>)
    ensures
        table.contains_key(id) ==> lookup(table, id) == Ok::<Arc<T>, RpcErrorView>(table[id]),
        !table.contains_key(id) ==> (lookup(table, id) matches Err(error) && error.code == -32002
            && error.message == "Resource not found"@ && error.data is None),
{
}

/// Texts are written one after the other.
pub proof fn law_texts_are_written_one_by_one(
    terminal: TerminalView,
    texts: Seq<Seq<char>>,
    text: Seq<char>,
)
    ensures
        terminal.written_all(Seq::empty()) == terminal,
        terminal.written_all(texts.push(text)) == terminal.written_all(texts).written(text),
{
    assert(texts.push(text).drop_last() =~= texts);
}

} // verus!
