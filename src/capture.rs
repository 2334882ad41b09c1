use vstd::prelude::*;
use vstd::string::{StrSliceExecFns, StringSliceAdditionalSpecFns};

verus! {

/// The most bytes kept of one output stream of a command.
pub const MAX_CONSOLE_FILE_SIZE: usize = 102400;

/// What is appended to a stream that went past the cap.
pub open spec fn spec_overflow_marker() -> Seq<u8> {
    "\n--- ERROR: Max output length exceeded".spec_bytes()
}

/// The captured form of everything a stream produced: the stream itself while
/// it stays within the cap, else its first `MAX_CONSOLE_FILE_SIZE` bytes and
/// the overflow marker.
pub open spec fn capped(s: Seq<u8>) -> Seq<u8> {
    if s.len() <= MAX_CONSOLE_FILE_SIZE {
        s
    } else {
        s.subrange(0, MAX_CONSOLE_FILE_SIZE as int) + spec_overflow_marker()
    }
}

/// The overflow marker, as bytes.
pub fn overflow_marker() -> (r: Vec<u8>)
    ensures
        r@ == spec_overflow_marker(),
{
    "\n--- ERROR: Max output length exceeded".as_bytes_vec()
}

/// The bounded capture of one output stream.
pub struct StreamCapture {
    data: Vec<u8>,
    overflowed: bool,
    seen: Ghost<Seq<u8>>,
}

impl StreamCapture {
    /// Every byte handed to the capture so far.
    pub closed spec fn spec_seen(&self) -> Seq<u8> {
        self.seen@
    }

    /// The bytes kept so far.
    pub closed spec fn spec_data(&self) -> Seq<u8> {
        self.data@
    }

    pub closed spec fn wf(&self) -> bool {
        &&& self.data@ == capped(self.seen@)
        &&& self.overflowed == (self.seen@.len() > MAX_CONSOLE_FILE_SIZE)
    }

    /// A capture that has seen nothing.
    pub fn new() -> (r: StreamCapture)
        ensures
            r.wf(),
            r.spec_seen() == Seq::<u8>::empty(),
    {
        StreamCapture { data: Vec::new(), overflowed: false, seen: Ghost(Seq::empty()) }
    }

    /// Takes in one chunk of the stream.
    pub fn push(&mut self, chunk: &[u8])
        requires
            old(self).wf(),
        ensures
            final(self).wf(),
            final(self).spec_seen() == old(self).spec_seen() + chunk@,
    {
        let ghost old_seen = self.seen@;
        let ghost all = old_seen + chunk@;
        if self.overflowed {
            proof {
                assert(all.subrange(0, MAX_CONSOLE_FILE_SIZE as int) =~= old_seen.subrange(
                    0,
                    MAX_CONSOLE_FILE_SIZE as int,
                ));
            }
            self.seen = Ghost(all);
            return;
        }
        let mut i: usize = 0;
        while i < chunk.len() && self.data.len() < MAX_CONSOLE_FILE_SIZE
            invariant
                !self.overflowed,
                old_seen.len() <= MAX_CONSOLE_FILE_SIZE,
                0 <= i <= chunk@.len(),
                self.data@ == old_seen + chunk@.subrange(0, i as int),
                self.data@.len() <= MAX_CONSOLE_FILE_SIZE,
                all == old_seen + chunk@,
            decreases chunk@.len() - i,
        {
            self.data.push(chunk[i]);
            i = i + 1;
            proof {
                assert(self.data@ =~= old_seen + chunk@.subrange(0, i as int));
            }
        }
        if i < chunk.len() {
            proof {
                assert(self.data@ =~= all.subrange(0, MAX_CONSOLE_FILE_SIZE as int));
            }
            let mut marker = overflow_marker();
            self.data.append(&mut marker);
            self.overflowed = true;
        } else {
            proof {
                assert(chunk@.subrange(0, i as int) =~= chunk@);
            }
        }
        self.seen = Ghost(all);
    }

    /// Whether the stream went past the cap, so that nothing more of it is kept.
    pub fn is_full(&self) -> (r: bool)
        requires
            self.wf(),
        ensures
            r == (self.spec_seen().len() > MAX_CONSOLE_FILE_SIZE),
    {
        self.overflowed
    }

    /// The bytes kept so far.
    pub fn bytes(&self) -> (r: &Vec<u8>)
        requires
            self.wf(),
        ensures
            r@ == capped(self.spec_seen()),
    {
        &self.data
    }
}

/// The two output streams of one command, each under its own cap.
pub struct OutputCapture {
    stdout: StreamCapture,
    stderr: StreamCapture,
}

impl OutputCapture {
    pub closed spec fn wf(&self) -> bool {
        self.stdout.wf() && self.stderr.wf()
    }

    /// Everything the command wrote to stdout so far.
    pub closed spec fn stdout_seen(&self) -> Seq<u8> {
        self.stdout.spec_seen()
    }

    /// Everything the command wrote to stderr so far.
    pub closed spec fn stderr_seen(&self) -> Seq<u8> {
        self.stderr.spec_seen()
    }

    pub fn new() -> (r: OutputCapture)
        ensures
            r.wf(),
            r.stdout_seen() == Seq::<u8>::empty(),
            r.stderr_seen() == Seq::<u8>::empty(),
    {
        OutputCapture { stdout: StreamCapture::new(), stderr: StreamCapture::new() }
    }

    pub fn push_stdout(&mut self, chunk: &[u8])
        requires
            old(self).wf(),
        ensures
            final(self).wf(),
            final(self).stdout_seen() == old(self).stdout_seen() + chunk@,
            final(self).stderr_seen() == old(self).stderr_seen(),
    {
        self.stdout.push(chunk);
    }

    pub fn push_stderr(&mut self, chunk: &[u8])
        requires
            old(self).wf(),
        ensures
            final(self).wf(),
            final(self).stderr_seen() == old(self).stderr_seen() + chunk@,
            final(self).stdout_seen() == old(self).stdout_seen(),
    {
        self.stderr.push(chunk);
    }

    /// Whether both streams went past the cap, so that reading on keeps nothing.
    pub fn is_full(&self) -> (r: bool)
        requires
            self.wf(),
        ensures
            r == (self.stdout_seen().len() > MAX_CONSOLE_FILE_SIZE && self.stderr_seen().len()
                > MAX_CONSOLE_FILE_SIZE),
    {
        self.stdout.is_full() && self.stderr.is_full()
    }

    pub fn stdout_bytes(&self) -> (r: &Vec<u8>)
        requires
            self.wf(),
        ensures
            r@ == capped(self.stdout_seen()),
    {
        self.stdout.bytes()
    }

    pub fn stderr_bytes(&self) -> (r: &Vec<u8>)
        requires
            self.wf(),
        ensures
            r@ == capped(self.stderr_seen()),
    {
        self.stderr.bytes()
    }
}

/// A stream longer than the cap is kept as exactly the cap's worth of bytes
/// followed by the overflow marker; a stream within the cap is kept whole.
pub proof fn lemma_output_cap(s: Seq<u8>)
    ensures
        s.len() > MAX_CONSOLE_FILE_SIZE ==> capped(s).len() == MAX_CONSOLE_FILE_SIZE
            + spec_overflow_marker().len(),
        s.len() > MAX_CONSOLE_FILE_SIZE ==> capped(s).subrange(0, MAX_CONSOLE_FILE_SIZE as int)
            == s.subrange(0, MAX_CONSOLE_FILE_SIZE as int),
        s.len() <= MAX_CONSOLE_FILE_SIZE ==> capped(s) == s,
{
    if s.len() > MAX_CONSOLE_FILE_SIZE {
        assert(capped(s).subrange(0, MAX_CONSOLE_FILE_SIZE as int) =~= s.subrange(
            0,
            MAX_CONSOLE_FILE_SIZE as int,
        ));
    }
}

} // verus!
