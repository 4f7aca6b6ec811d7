//! The platform-independent logic of spawning jobs on Windows: the command line handed to
//! `CreateProcessW`, the buffering of a child's piped output, and the decisions of the futures
//! that read, kill and await a child.

use vstd::prelude::*;
use vstd::string::StrSliceExecFns;

verus! {

/// Why a Windows child could not be spawned or read.
#[derive(Debug)]
pub enum Error {
    /// `CreateProcessW` failed; holds the description of the error.
    CreateProcessW(String),
    /// A pipe could not be created; holds the description of the error.
    CreateReadPipe(String),
    /// Reading from a pipe failed; holds the description of the error.
    ReadFile { kind: PipeKind, err: String },
}

/// Which output stream a pipe carries.
#[derive(Debug, Clone, Copy, PartialEq, Eq, Structural)]
pub enum PipeKind {
    Stdout,
    Stderr,
}

/// The UTF-16 code units of one character.
pub open spec fn utf16_char(c: char) -> Seq<u16> {
    let v = c as int;
    if v < 0x10000 {
        seq![v as u16]
    } else {
        seq![(0xD800 + (v - 0x10000) / 0x400) as u16, (0xDC00 + (v - 0x10000) % 0x400) as u16]
    }
}

/// The UTF-16 code units of a text.
pub open spec fn utf16(s: Seq<char>) -> Seq<u16>
    decreases s.len(),
{
    if s.len() == 0 {
        Seq::empty()
    } else {
        utf16(s.drop_last()) + utf16_char(s.last())
    }
}

/// The UTF-16 code units of the tokens, each separated from the next by one space.
pub open spec fn joined_utf16(tokens: Seq<Seq<char>>) -> Seq<u16>
    decreases tokens.len(),
{
    if tokens.len() == 0 {
        Seq::empty()
    } else if tokens.len() == 1 {
        utf16(tokens[0])
    } else {
        joined_utf16(tokens.drop_last()) + utf16(seq![' ']) + utf16(tokens.last())
    }
}

/// The texts of a sequence of strings.
pub open spec fn texts(items: Seq<String>) -> Seq<Seq<char>> {
    items.map_values(|s: String| s@)
}

/// Appends the UTF-16 code units of one character.
fn push_utf16_char(out: &mut Vec<u16>, c: char)
    ensures
        final(out)@ == old(out)@ + utf16_char(c),
{
    let v = c as u32;
    if v < 0x10000 {
        out.push(v as u16);
    } else {
        let u = v - 0x10000;
        out.push((0xD800 + u / 0x400) as u16);
        out.push((0xDC00 + u % 0x400) as u16);
    }
    assert(final(out)@ =~= old(out)@ + utf16_char(c));
}

/// Appends the UTF-16 code units of a text.
fn push_utf16(out: &mut Vec<u16>, s: &str)
    ensures
        final(out)@ == old(out)@ + utf16(s@),
{
    let n = s.unicode_len();
    let ghost start = out@;
    for i in 0..n
        invariant
            n == s@.len(),
            out@ == start + utf16(s@.subrange(0, i as int)),
    {
        let c = s.get_char(i);
        push_utf16_char(out, c);
        assert(s@.subrange(0, i + 1).drop_last() =~= s@.subrange(0, i as int));
        assert(out@ =~= start + utf16(s@.subrange(0, i + 1)));
    }
    assert(s@.subrange(0, n as int) =~= s@);
}

/// A command line in the form Windows takes it: UTF-16, NUL-terminated.
pub struct WinArgs(pub Vec<u16>);

impl WinArgs {
    /// The command line of the given tokens: the tokens separated by single spaces, encoded as
    /// UTF-16 and followed by a NUL.
    pub fn new(items: Vec<String>) -> (res: Self)
        ensures
            res.0@ == joined_utf16(texts(items@)) + seq![0u16],
    {
        let mut out: Vec<u16> = Vec::new();
        let n = items.len();
        let ghost toks = texts(items@);
        for i in 0..n
            invariant
                n == items@.len(),
                toks == texts(items@),
                out@ == joined_utf16(toks.subrange(0, i as int)),
        {
            let ghost before = out@;
            if i > 0 {
                push_utf16(&mut out, " ");
                proof {
                    reveal_strlit(" ");
                }
            }
            push_utf16(&mut out, items[i].as_str());
            proof {
                let sub = toks.subrange(0, i + 1);
                assert(sub.drop_last() =~= toks.subrange(0, i as int));
                assert(sub.last() == items@[i as int]@);
                if i > 0 {
                    assert(" "@ =~= seq![' ']);
                    assert(out@ =~= before + utf16(seq![' ']) + utf16(items@[i as int]@));
                } else {
                    assert(out@ =~= utf16(sub[0]));
                }
            }
        }
        assert(toks.subrange(0, n as int) =~= toks);
        out.push(0);
        WinArgs(out)
    }
}

/// What a non-blocking receive from a channel gave.
pub enum Received<T> {
    /// A value.
    Value(T),
    /// An error sent in place of a value; holds its description.
    Failed(String),
    /// Nothing yet.
    Empty,
    /// Nothing, and the sender is gone.
    Disconnected,
}

/// The outcome of polling a read from a child's pipe.
#[derive(Debug)]
pub enum ReadPoll {
    /// These bytes were read; no bytes means the end of the stream.
    Ready(Vec<u8>),
    /// The read failed; holds the description of the error.
    Failed(String),
    /// No data yet.
    Pending,
}

/// The bytes received from a child's pipe that the reader has not taken yet.
pub struct OutputBuffer {
    buffer: Vec<u8>,
    pos: usize,
}

impl OutputBuffer {
    /// The bytes not taken yet.
    pub closed spec fn rest(&self) -> Seq<u8> {
        self.buffer@.subrange(self.pos as int, self.buffer@.len() as int)
    }

    /// The buffer's position is within its bytes.
    pub closed spec fn wf(&self) -> bool {
        self.pos <= self.buffer@.len()
    }

    /// An empty buffer.
    pub fn new() -> (res: Self)
        ensures
            res.wf(),
            res.rest().len() == 0,
    {
        OutputBuffer { buffer: Vec::new(), pos: 0 }
    }

    /// Whether every received byte has been taken, so that more must be received.
    pub fn needs_data(&self) -> (res: bool)
        requires
            self.wf(),
        ensures
            res == (self.rest().len() == 0),
    {
        self.pos >= self.buffer.len()
    }

    /// Polls a read of at most `remaining` bytes. When every received byte has been taken, what
    /// the pipe's reader thread sent next (`received`) decides: new bytes are buffered, an error
    /// is reported, nothing yet means pending, and a gone sender means the end of the stream.
    /// Then as many buffered bytes as fit are taken, oldest first.
    pub fn poll_read(&mut self, received: Option<Received<Vec<u8>>>, remaining: usize) -> (res:
        ReadPoll)
        requires
            old(self).wf(),
            received is Some <==> old(self).rest().len() == 0,
        ensures
            final(self).wf(),
            match received {
                Some(Received::Failed(err)) => res == ReadPoll::Failed(err) && final(self).rest()
                    == old(self).rest(),
                Some(Received::Empty) => res is Pending && final(self).rest() == old(self).rest(),
                Some(Received::Disconnected) => res matches ReadPoll::Ready(bs) && bs@.len() == 0
                    && final(self).rest() == old(self).rest(),
                Some(Received::Value(data)) => {
                    let k = if data@.len() < remaining {
                        data@.len() as int
                    } else {
                        remaining as int
                    };
                    res matches ReadPoll::Ready(bs) && bs@ == data@.subrange(0, k)
                        && final(self).rest() == data@.subrange(k, data@.len() as int)
                },
                None => {
                    let k = if old(self).rest().len() < remaining {
                        old(self).rest().len() as int
                    } else {
                        remaining as int
                    };
                    res matches ReadPoll::Ready(bs) && bs@ == old(self).rest().subrange(0, k)
                        && final(self).rest() == old(self).rest().subrange(
                        k,
                        old(self).rest().len() as int,
                    )
                },
            },
    {
        match received {
            Some(Received::Failed(err)) => return ReadPoll::Failed(err),
            Some(Received::Empty) => return ReadPoll::Pending,
            Some(Received::Disconnected) => return ReadPoll::Ready(Vec::new()),
            Some(Received::Value(data)) => {
                self.buffer = data;
                self.pos = 0;
            },
            None => {},
        }
        let avail = self.buffer.len() - self.pos;
        let to_copy = if avail < remaining {
            avail
        } else {
            remaining
        };
        let bs = vstd::slice::slice_to_vec(
            vstd::slice::slice_subrange(self.buffer.as_slice(), self.pos, self.pos + to_copy),
        );
        let ghost before = self.buffer@.subrange(self.pos as int, self.buffer@.len() as int);
        self.pos = self.pos + to_copy;
        assert(bs@ =~= before.subrange(0, to_copy as int));
        assert(self.rest() =~= before.subrange(to_copy as int, before.len() as int));
        ReadPoll::Ready(bs)
    }
}

/// The outcome of one `ReadFile` call on a child's pipe.
pub enum ReadFileResult {
    /// The call reported this many bytes read into the buffer.
    Read(usize),
    /// The pipe was closed by the writer; this many bytes were reported read.
    BrokenPipe(usize),
    /// The call failed; holds the description of the error.
    Failed(String),
}

/// What the reader thread of a pipe does after one `ReadFile` call.
#[derive(Debug)]
pub enum PipeStep {
    /// Send these bytes; read again when `more` is set. No bytes marks the end of the stream.
    Send { bytes: Vec<u8>, more: bool },
    /// Send this error and stop.
    Fail(String),
}

/// Decides what the reader thread of a pipe does after one `ReadFile` call into `buf`: a closed
/// pipe counts as a read of what was reported, a failure is reported as an error, and bytes are
/// sent on; reading goes on until a read of no bytes.
pub fn pipe_step(buf: &[u8], result: ReadFileResult) -> (res: PipeStep)
    requires
        result matches ReadFileResult::Read(n) ==> n <= buf@.len(),
        result matches ReadFileResult::BrokenPipe(n) ==> n <= buf@.len(),
    ensures
        match result {
            ReadFileResult::Failed(err) => res matches PipeStep::Fail(msg) && msg@ == "ReadFile: "@
                + err@,
            ReadFileResult::Read(n) => res matches PipeStep::Send { bytes, more } && bytes@
                == buf@.subrange(0, n as int) && more == (n != 0),
            ReadFileResult::BrokenPipe(n) => res matches PipeStep::Send { bytes, more } && bytes@
                == buf@.subrange(0, n as int) && more == (n != 0),
        },
{
    match result {
        ReadFileResult::Failed(err) => PipeStep::Fail("ReadFile: ".to_owned().concat(err.as_str())),
        ReadFileResult::Read(n) | ReadFileResult::BrokenPipe(n) => {
            let bytes = vstd::slice::slice_to_vec(vstd::slice::slice_subrange(buf, 0, n));
            PipeStep::Send { bytes, more: n != 0 }
        },
    }
}

/// Decides what polling a kill gives, from what its killer thread sent: the thread's result, or
/// pending while it has sent nothing. A thread that went away without sending counts as done.
pub fn kill_poll(received: Received<()>) -> (res: Option<Result<(), String>>)
    ensures
        match received {
            Received::Value(()) => res == Some(Ok::<(), String>(())),
            Received::Failed(err) => res == Some(Err::<(), String>(err)),
            Received::Empty => res is None,
            Received::Disconnected => res == Some(Ok::<(), String>(())),
        },
{
    match received {
        Received::Value(()) => Some(Ok(())),
        Received::Failed(err) => Some(Err(err)),
        Received::Empty => None,
        Received::Disconnected => Some(Ok(())),
    }
}

} // verus!
