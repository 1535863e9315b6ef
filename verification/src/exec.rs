//! The exec pipeline's bookkeeping: what a child wrote, how it ended, and what
//! is reported of it.
//!
//! The caller spawns the child and reads its pipes; every chunk it reads goes
//! through an `OutputCollector`, and the way the child ended goes to `finish`.

use vstd::prelude::*;
use vstd::string::StrSliceExecFns;
use vstd::string::StringSliceAdditionalSpecFns;

verus! {

/// Exit code reported when the expiration fired.
pub const EXEC_TIMEOUT_EXIT_CODE: i32 = 124;

/// Exit code reported for a child that ended without one.
pub const EXIT_CODE_UNKNOWN: i32 = -1;

/// What standard error holds when the expiration fired.
pub const TIMEOUT_MESSAGE: &'static str = "Execution timed out or was cancelled";

/// The bytes of `TIMEOUT_MESSAGE`.
pub open spec fn timeout_message_bytes() -> Seq<u8> {
    TIMEOUT_MESSAGE.spec_bytes()
}

#[derive(PartialEq, Eq, Structural, Clone, Copy, Debug)]
pub enum OutputStream {
    Stdout,
    Stderr,
}

/// What was kept of one stream, and whether anything was cut off.
pub struct StreamOutput {
    pub text: Vec<u8>,
    pub truncated: bool,
}

/// All bytes that arrived on stream `which`, in arrival order.
pub open spec fn stream_bytes(history: Seq<(OutputStream, Seq<u8>)>, which: OutputStream) -> Seq<
    u8,
>
    decreases history.len(),
{
    if history.len() == 0 {
        Seq::empty()
    } else {
        let before = stream_bytes(history.drop_last(), which);
        if history.last().0 == which {
            before + history.last().1
        } else {
            before
        }
    }
}

/// The first `limit` bytes of `bytes`, or all of them if there are fewer.
pub open spec fn capped(bytes: Seq<u8>, limit: nat) -> Seq<u8> {
    if bytes.len() <= limit {
        bytes
    } else {
        bytes.take(limit as int)
    }
}

/// How many more bytes a stream that already got `had` may keep.
pub open spec fn room_left(had: nat, limit: nat) -> nat {
    if had >= limit {
        0
    } else {
        (limit - had) as nat
    }
}

/// The kept bytes of both streams, in arrival order: of each chunk the part
/// that its own stream kept.
pub open spec fn aggregated_bytes(history: Seq<(OutputStream, Seq<u8>)>, limit: nat) -> Seq<u8>
    decreases history.len(),
{
    if history.len() == 0 {
        Seq::empty()
    } else {
        let before = history.drop_last();
        let had = stream_bytes(before, history.last().0).len();
        aggregated_bytes(before, limit) + capped(history.last().1, room_left(had, limit))
    }
}

/// `a` can be had from `c` by leaving bytes out: `c` holds the bytes of `a`
/// in the same order.
pub open spec fn is_subsequence(a: Seq<u8>, c: Seq<u8>) -> bool
    decreases c.len(),
{
    if a.len() == 0 {
        true
    } else if c.len() == 0 {
        false
    } else {
        (a.last() == c.last() && is_subsequence(a.drop_last(), c.drop_last())) || is_subsequence(
            a,
            c.drop_last(),
        )
    }
}

/// `c` is `a` and `b` shuffled together, each in its own order.
pub open spec fn interleaves(a: Seq<u8>, b: Seq<u8>, c: Seq<u8>) -> bool
    decreases c.len(),
{
    if c.len() == 0 {
        a.len() == 0 && b.len() == 0
    } else {
        (a.len() > 0 && a.last() == c.last() && interleaves(a.drop_last(), b, c.drop_last())) || (
        b.len() > 0 && b.last() == c.last() && interleaves(a, b.drop_last(), c.drop_last()))
    }
}

/// An interleaving holds both of its parts as subsequences.
pub proof fn lemma_interleaving_covers(a: Seq<u8>, b: Seq<u8>, c: Seq<u8>)
    requires
        interleaves(a, b, c),
    ensures
        is_subsequence(a, c),
        is_subsequence(b, c),
    decreases c.len(),
{
    if c.len() > 0 {
        if a.len() > 0 && a.last() == c.last() && interleaves(a.drop_last(), b, c.drop_last()) {
            lemma_interleaving_covers(a.drop_last(), b, c.drop_last());
        } else {
            lemma_interleaving_covers(a, b.drop_last(), c.drop_last());
        }
    }
}

/// Appending the same bytes to the first part and to the whole keeps an
/// interleaving.
pub proof fn lemma_interleaves_append_left(a: Seq<u8>, b: Seq<u8>, c: Seq<u8>, x: Seq<u8>)
    requires
        interleaves(a, b, c),
    ensures
        interleaves(a + x, b, c + x),
    decreases x.len(),
{
    if x.len() == 0 {
        assert(a + x =~= a);
        assert(c + x =~= c);
    } else {
        lemma_interleaves_append_left(a, b, c, x.drop_last());
        assert((a + x).drop_last() =~= a + x.drop_last());
        assert((c + x).drop_last() =~= c + x.drop_last());
    }
}

/// Appending the same bytes to the second part and to the whole keeps an
/// interleaving.
pub proof fn lemma_interleaves_append_right(a: Seq<u8>, b: Seq<u8>, c: Seq<u8>, x: Seq<u8>)
    requires
        interleaves(a, b, c),
    ensures
        interleaves(a, b + x, c + x),
    decreases x.len(),
{
    if x.len() == 0 {
        assert(b + x =~= b);
        assert(c + x =~= c);
    } else {
        lemma_interleaves_append_right(a, b, c, x.drop_last());
        assert((b + x).drop_last() =~= b + x.drop_last());
        assert((c + x).drop_last() =~= c + x.drop_last());
    }
}

/// Capping a stream after one more chunk is capping it before and adding
/// what still fits of the chunk.
pub proof fn lemma_capped_append(bytes: Seq<u8>, chunk: Seq<u8>, limit: nat)
    ensures
        capped(bytes + chunk, limit) == capped(bytes, limit) + capped(
            chunk,
            room_left(bytes.len(), limit),
        ),
{
    assert(capped(bytes + chunk, limit) =~= capped(bytes, limit) + capped(
        chunk,
        room_left(bytes.len(), limit),
    ));
}

/// Gathers the output of one child. Each stream keeps its first `limit`
/// bytes; the aggregate keeps what the streams kept, in arrival order.
pub struct OutputCollector {
    limit: usize,
    stdout: StreamOutput,
    stderr: StreamOutput,
    aggregated: StreamOutput,
    history: Ghost<Seq<(OutputStream, Seq<u8>)>>,
}

impl OutputCollector {
    /// The chunks pushed so far, in arrival order.
    pub closed spec fn history(&self) -> Seq<(OutputStream, Seq<u8>)> {
        self.history@
    }

    /// The byte budget of each stream.
    pub closed spec fn limit(&self) -> nat {
        self.limit as nat
    }

    pub closed spec fn stdout(&self) -> StreamOutput {
        self.stdout
    }

    pub closed spec fn stderr(&self) -> StreamOutput {
        self.stderr
    }

    pub closed spec fn aggregated(&self) -> StreamOutput {
        self.aggregated
    }

    /// What the collector holds is what its history says.
    #[verifier::type_invariant]
    pub closed spec fn wf(&self) -> bool {
        &&& self.stdout.text@ == capped(
            stream_bytes(self.history@, OutputStream::Stdout),
            self.limit as nat,
        )
        &&& self.stdout.truncated == (stream_bytes(self.history@, OutputStream::Stdout).len()
            > self.limit)
        &&& self.stderr.text@ == capped(
            stream_bytes(self.history@, OutputStream::Stderr),
            self.limit as nat,
        )
        &&& self.stderr.truncated == (stream_bytes(self.history@, OutputStream::Stderr).len()
            > self.limit)
        &&& self.aggregated.text@ == aggregated_bytes(self.history@, self.limit as nat)
        &&& self.aggregated.truncated == (self.stdout.truncated || self.stderr.truncated)
        &&& interleaves(self.stdout.text@, self.stderr.text@, self.aggregated.text@)
    }

    /// What a well-formed collector holds, spelled out.
    pub proof fn lemma_contents(&self)
        requires
            self.wf(),
        ensures
            self.stdout().text@ == capped(
                stream_bytes(self.history(), OutputStream::Stdout),
                self.limit(),
            ),
            self.stdout().truncated == (stream_bytes(self.history(), OutputStream::Stdout).len()
                > self.limit()),
            self.stderr().text@ == capped(
                stream_bytes(self.history(), OutputStream::Stderr),
                self.limit(),
            ),
            self.stderr().truncated == (stream_bytes(self.history(), OutputStream::Stderr).len()
                > self.limit()),
            self.aggregated().text@ == aggregated_bytes(self.history(), self.limit()),
            self.aggregated().truncated == (self.stdout().truncated || self.stderr().truncated),
            interleaves(self.stdout().text@, self.stderr().text@, self.aggregated().text@),
            is_subsequence(self.stdout().text@, self.aggregated().text@),
            is_subsequence(self.stderr().text@, self.aggregated().text@),
    {
        lemma_interleaving_covers(self.stdout.text@, self.stderr.text@, self.aggregated.text@);
    }

    /// A collector that has seen nothing.
    pub fn new(limit: usize) -> (c: Self)
        ensures
            c.wf(),
            c.limit() == limit,
            c.history() == Seq::<(OutputStream, Seq<u8>)>::empty(),
    {
        OutputCollector {
            limit,
            stdout: StreamOutput { text: Vec::new(), truncated: false },
            stderr: StreamOutput { text: Vec::new(), truncated: false },
            aggregated: StreamOutput { text: Vec::new(), truncated: false },
            history: Ghost(Seq::empty()),
        }
    }

    /// Takes one chunk that arrived on `stream`.
    pub fn push(self, stream: OutputStream, chunk: &[u8]) -> (c: Self)
        ensures
            c.wf(),
            c.limit() == self.limit(),
            c.history() == self.history().push((stream, chunk@)),
    {
        proof {
            use_type_invariant(&self);
        }
        let OutputCollector { limit, stdout, stderr, aggregated, history } = self;
        let ghost old_history = history@;
        let ghost new_history = old_history.push((stream, chunk@));
        assert(new_history.drop_last() =~= old_history);
        let mut stdout = stdout;
        let mut stderr = stderr;
        let mut aggregated = aggregated;
        match stream {
            OutputStream::Stdout => {
                proof {
                    lemma_capped_append(
                        stream_bytes(old_history, OutputStream::Stdout),
                        chunk@,
                        limit as nat,
                    );
                }
                let room = limit - stdout.text.len();
                let keep = if chunk.len() < room {
                    chunk.len()
                } else {
                    room
                };
                let ghost kept = chunk@.take(keep as int);
                let ghost agg_before = aggregated.text@;
                let ghost out_before = stdout.text@;
                append_bytes(&mut stdout.text, chunk, keep);
                append_bytes(&mut aggregated.text, chunk, keep);
                if keep < chunk.len() {
                    stdout.truncated = true;
                    aggregated.truncated = true;
                }
                proof {
                    lemma_interleaves_append_left(out_before, stderr.text@, agg_before, kept);
                    let had = stream_bytes(old_history, OutputStream::Stdout).len();
                    assert(room == room_left(had, limit as nat));
                    assert(kept =~= capped(chunk@, room as nat));
                    assert(stream_bytes(new_history, OutputStream::Stdout) == stream_bytes(
                        old_history,
                        OutputStream::Stdout,
                    ) + chunk@);
                    assert(stream_bytes(new_history, OutputStream::Stderr) == stream_bytes(
                        old_history,
                        OutputStream::Stderr,
                    ));
                    assert(aggregated_bytes(new_history, limit as nat) == agg_before + kept);
                }
            },
            OutputStream::Stderr => {
                proof {
                    lemma_capped_append(
                        stream_bytes(old_history, OutputStream::Stderr),
                        chunk@,
                        limit as nat,
                    );
                }
                let room = limit - stderr.text.len();
                let keep = if chunk.len() < room {
                    chunk.len()
                } else {
                    room
                };
                let ghost kept = chunk@.take(keep as int);
                let ghost agg_before = aggregated.text@;
                let ghost err_before = stderr.text@;
                append_bytes(&mut stderr.text, chunk, keep);
                append_bytes(&mut aggregated.text, chunk, keep);
                if keep < chunk.len() {
                    stderr.truncated = true;
                    aggregated.truncated = true;
                }
                proof {
                    lemma_interleaves_append_right(stdout.text@, err_before, agg_before, kept);
                    let had = stream_bytes(old_history, OutputStream::Stderr).len();
                    assert(room == room_left(had, limit as nat));
                    assert(kept =~= capped(chunk@, room as nat));
                    assert(stream_bytes(new_history, OutputStream::Stderr) == stream_bytes(
                        old_history,
                        OutputStream::Stderr,
                    ) + chunk@);
                    assert(stream_bytes(new_history, OutputStream::Stdout) == stream_bytes(
                        old_history,
                        OutputStream::Stdout,
                    ));
                    assert(aggregated_bytes(new_history, limit as nat) == agg_before + kept);
                }
            },
        }
        OutputCollector { limit, stdout, stderr, aggregated, history: Ghost(new_history) }
    }
}

/// How the child ended.
#[derive(PartialEq, Eq, Structural, Clone, Copy, Debug)]
pub enum Termination {
    /// It exited by itself, with a code or (killed by a signal) without one.
    Exited { code: Option<i32> },
    /// The timeout elapsed or the attempt was cancelled, and it was shut down.
    Expired,
}

/// The result of one attempt.
pub struct ExecToolCallOutput {
    pub exit_code: i32,
    pub stdout: StreamOutput,
    pub stderr: StreamOutput,
    pub aggregated_output: StreamOutput,
    /// How long the attempt took, in milliseconds.
    pub duration_ms: u64,
    pub timed_out: bool,
}

impl ExecToolCallOutput {
    /// The aggregate holds the bytes of each stream in their order, and an
    /// attempt that timed out reports the timeout's exit code and message.
    pub open spec fn wf(&self) -> bool {
        &&& is_subsequence(self.stdout.text@, self.aggregated_output.text@)
        &&& is_subsequence(self.stderr.text@, self.aggregated_output.text@)
        &&& self.timed_out ==> self.exit_code == EXEC_TIMEOUT_EXIT_CODE && self.stderr.text@
            == timeout_message_bytes()
    }
}

/// Every sequence is a subsequence of itself.
pub proof fn lemma_subsequence_reflexive(a: Seq<u8>)
    ensures
        is_subsequence(a, a),
    decreases a.len(),
{
    if a.len() > 0 {
        lemma_subsequence_reflexive(a.drop_last());
    }
}

/// The exit code reported for a child that exited with `code`.
pub open spec fn exit_code_of(code: Option<i32>) -> i32 {
    match code {
        Some(c) => c,
        None => EXIT_CODE_UNKNOWN,
    }
}

impl OutputCollector {
    /// Closes the collector and reports the attempt.
    ///
    /// A child that exited reports its code, or `EXIT_CODE_UNKNOWN` without
    /// one, and what was collected. An attempt that expired reports
    /// `EXEC_TIMEOUT_EXIT_CODE` and `TIMEOUT_MESSAGE` on standard error and in
    /// the aggregate, and nothing on standard output.
    pub fn finish(self, termination: Termination, duration_ms: u64) -> (out: ExecToolCallOutput)
        ensures
            out.wf(),
            out.duration_ms == duration_ms,
            out.timed_out == (termination is Expired),
            termination matches Termination::Exited { code } ==> {
                &&& out.exit_code == exit_code_of(code)
                &&& out.stdout == self.stdout()
                &&& out.stderr == self.stderr()
                &&& out.aggregated_output == self.aggregated()
            },
            termination is Expired ==> {
                &&& out.exit_code == EXEC_TIMEOUT_EXIT_CODE
                &&& out.stdout.text@ == Seq::<u8>::empty()
                &&& !out.stdout.truncated
                &&& out.stderr.text@ == timeout_message_bytes()
                &&& !out.stderr.truncated
                &&& out.aggregated_output.text@ == timeout_message_bytes()
                &&& !out.aggregated_output.truncated
            },
    {
        proof {
            use_type_invariant(&self);
            self.lemma_contents();
        }
        match termination {
            Termination::Exited { code } => {
                let exit_code = match code {
                    Some(c) => c,
                    None => EXIT_CODE_UNKNOWN,
                };
                let OutputCollector { limit, stdout, stderr, aggregated, history } = self;
                ExecToolCallOutput {
                    exit_code,
                    stdout,
                    stderr,
                    aggregated_output: aggregated,
                    duration_ms,
                    timed_out: false,
                }
            },
            Termination::Expired => {
                proof {
                    lemma_subsequence_reflexive(timeout_message_bytes());
                }
                ExecToolCallOutput {
                    exit_code: EXEC_TIMEOUT_EXIT_CODE,
                    stdout: StreamOutput { text: Vec::new(), truncated: false },
                    stderr: StreamOutput { text: TIMEOUT_MESSAGE.as_bytes_vec(), truncated: false },
                    aggregated_output: StreamOutput {
                        text: TIMEOUT_MESSAGE.as_bytes_vec(),
                        truncated: false,
                    },
                    duration_ms,
                    timed_out: true,
                }
            },
        }
    }
}

/// The text that the standard library's lossy decoding gives for `bytes`.
pub uninterp spec fn utf8_lossy(bytes: Seq<u8>) -> Seq<char>;

/// `String::from_utf8_lossy` of the standard library: the result is a function
/// of the bytes alone, named `utf8_lossy`.
#[verifier::external_body]
pub(crate) fn decode_lossy(bytes: &[u8]) -> (s: String)
    ensures
        s@ == utf8_lossy(bytes@),
{
    String::from_utf8_lossy(bytes).into_owned()
}

impl StreamOutput {
    /// The kept bytes as text; bytes that are not UTF-8 are replaced.
    pub fn text_lossy(&self) -> (s: String)
        ensures
            s@ == utf8_lossy(self.text@),
    {
        decode_lossy(self.text.as_slice())
    }
}

/// An attempt that the sandbox stood in the way of.
pub enum SandboxErr {
    /// The sandbox blocked what the child tried to do.
    Denied { output: ExecToolCallOutput },
    /// The expiration fired.
    Timeout { output: ExecToolCallOutput },
}

/// `needle` stands in `hay` at index `i`.
pub open spec fn occurs_at(hay: Seq<u8>, needle: Seq<u8>, i: int) -> bool {
    0 <= i && i + needle.len() <= hay.len() && hay.subrange(i, i + needle.len()) == needle
}

/// `needle` stands somewhere in `hay`. An empty needle stands everywhere.
pub open spec fn contains_bytes(hay: Seq<u8>, needle: Seq<u8>) -> bool {
    exists|i: int| occurs_at(hay, needle, i)
}

/// One of the backend's denial signatures stands in `text`.
pub open spec fn has_denial_signature(text: Seq<u8>, signatures: Seq<Vec<u8>>) -> bool {
    exists|k: int| 0 <= k < signatures.len() && contains_bytes(text, #[trigger] signatures[k]@)
}

fn matches_at(hay: &Vec<u8>, needle: &Vec<u8>, i: usize) -> (r: bool)
    requires
        i + needle.len() <= hay.len(),
    ensures
        r == occurs_at(hay@, needle@, i as int),
{
    let mut j: usize = 0;
    while j < needle.len()
        invariant
            j <= needle.len(),
            i + needle.len() <= hay.len(),
            forall|k: int| 0 <= k < j ==> hay@[i + k] == needle@[k],
        decreases needle.len() - j,
    {
        if hay[i + j] != needle[j] {
            assert(hay@.subrange(i as int, i + needle.len())[j as int] != needle@[j as int]);
            return false;
        }
        j += 1;
    }
    assert(hay@.subrange(i as int, i + needle.len()) =~= needle@);
    true
}

/// Whether `needle` stands somewhere in `hay`.
pub fn find_bytes(hay: &Vec<u8>, needle: &Vec<u8>) -> (r: bool)
    ensures
        r == contains_bytes(hay@, needle@),
{
    if needle.len() > hay.len() {
        return false;
    }
    let last = hay.len() - needle.len();
    let mut i: usize = 0;
    while i < last
        invariant
            i <= last,
            last == hay.len() - needle.len(),
            needle.len() <= hay.len(),
            forall|k: int| 0 <= k < i ==> !occurs_at(hay@, needle@, k),
        decreases last - i,
    {
        if matches_at(hay, needle, i) {
            return true;
        }
        i += 1;
    }
    matches_at(hay, needle, last)
}

fn any_signature(text: &Vec<u8>, signatures: &Vec<Vec<u8>>) -> (r: bool)
    ensures
        r == has_denial_signature(text@, signatures@),
{
    let mut k: usize = 0;
    while k < signatures.len()
        invariant
            k <= signatures.len(),
            forall|m: int| 0 <= m < k ==> !contains_bytes(text@, #[trigger] signatures@[m]@),
        decreases signatures.len() - k,
    {
        if find_bytes(text, &signatures[k]) {
            return true;
        }
        k += 1;
    }
    false
}

/// What `classify` returns.
pub open spec fn spec_classify(output: ExecToolCallOutput, signatures: Seq<Vec<u8>>) -> Result<
    ExecToolCallOutput,
    SandboxErr,
> {
    if output.timed_out {
        Err(SandboxErr::Timeout { output })
    } else if output.exit_code != 0 && has_denial_signature(
        output.aggregated_output.text@,
        signatures,
    ) {
        Err(SandboxErr::Denied { output })
    } else {
        Ok(output)
    }
}

/// Classifies a finished attempt. One that timed out is a `Timeout`. One that
/// failed and whose output holds one of the backend's denial signatures was
/// `Denied` by the sandbox. Anything else is a result, whatever its exit code.
pub fn classify(output: ExecToolCallOutput, signatures: &Vec<Vec<u8>>) -> (r: Result<
    ExecToolCallOutput,
    SandboxErr,
>)
    ensures
        r == spec_classify(output, signatures@),
{
    if output.timed_out {
        Err(SandboxErr::Timeout { output })
    } else if output.exit_code != 0 && any_signature(&output.aggregated_output.text, signatures) {
        Err(SandboxErr::Denied { output })
    } else {
        Ok(output)
    }
}

/// One chunk that the caller read from a pipe of the child.
pub struct OutputChunk {
    pub stream: OutputStream,
    pub bytes: Vec<u8>,
}

/// The chunks as the history of a collector.
pub open spec fn chunk_history(chunks: Seq<OutputChunk>) -> Seq<(OutputStream, Seq<u8>)> {
    chunks.map_values(|c: OutputChunk| (c.stream, c.bytes@))
}

/// What is reported of a child that wrote `chunks`, in this order, and ended
/// as `termination` says: each stream capped at `limit` bytes, the aggregate
/// of what the streams kept, and the classification of the whole.
pub fn process_exec(
    chunks: &Vec<OutputChunk>,
    termination: Termination,
    duration_ms: u64,
    limit: usize,
    signatures: &Vec<Vec<u8>>,
) -> (r: Result<ExecToolCallOutput, SandboxErr>)
    ensures
        ({
            let output = match r {
                Ok(output) => output,
                Err(SandboxErr::Denied { output }) => output,
                Err(SandboxErr::Timeout { output }) => output,
            };
            let history = chunk_history(chunks@);
            &&& r == spec_classify(output, signatures@)
            &&& output.wf()
            &&& output.duration_ms == duration_ms
            &&& output.timed_out == (termination is Expired)
            &&& termination matches Termination::Exited { code } ==> {
                &&& output.exit_code == exit_code_of(code)
                &&& output.stdout.text@ == capped(
                    stream_bytes(history, OutputStream::Stdout),
                    limit as nat,
                )
                &&& output.stdout.truncated == (stream_bytes(history, OutputStream::Stdout).len()
                    > limit)
                &&& output.stderr.text@ == capped(
                    stream_bytes(history, OutputStream::Stderr),
                    limit as nat,
                )
                &&& output.stderr.truncated == (stream_bytes(history, OutputStream::Stderr).len()
                    > limit)
                &&& output.aggregated_output.text@ == aggregated_bytes(history, limit as nat)
                &&& output.aggregated_output.truncated == (output.stdout.truncated
                    || output.stderr.truncated)
            }
            &&& termination is Expired ==> {
                &&& output.exit_code == EXEC_TIMEOUT_EXIT_CODE
                &&& output.stdout.text@ == Seq::<u8>::empty()
                &&& output.stderr.text@ == timeout_message_bytes()
                &&& output.aggregated_output.text@ == timeout_message_bytes()
            }
        }),
{
    let mut collector = OutputCollector::new(limit);
    let mut i: usize = 0;
    assert(chunk_history(chunks@).take(0) =~= Seq::<(OutputStream, Seq<u8>)>::empty());
    while i < chunks.len()
        invariant
            i <= chunks.len(),
            collector.wf(),
            collector.limit() == limit,
            collector.history() == chunk_history(chunks@).take(i as int),
        decreases chunks.len() - i,
    {
        collector = collector.push(chunks[i].stream, chunks[i].bytes.as_slice());
        assert(chunk_history(chunks@).take(i + 1) =~= chunk_history(chunks@).take(i as int).push(
            (chunks@[i as int].stream, chunks@[i as int].bytes@),
        ));
        i += 1;
    }
    assert(chunk_history(chunks@).take(chunks.len() as int) =~= chunk_history(chunks@));
    proof {
        collector.lemma_contents();
    }
    let output = collector.finish(termination, duration_ms);
    classify(output, signatures)
}

/// When an attempt is given up.
#[derive(PartialEq, Eq, Structural, Clone, Copy, Debug)]
pub enum ExecExpiration {
    /// After this many milliseconds.
    Timeout { ms: u64 },
    /// After the default timeout.
    DefaultTimeout,
    /// When the caller's cancellation token fires.
    Cancellation,
}

impl ExecExpiration {
    /// The expiration for an optional timeout in milliseconds.
    pub fn from_timeout_ms(timeout_ms: Option<u64>) -> (e: Self)
        ensures
            e == match timeout_ms {
                Some(ms) => ExecExpiration::Timeout { ms },
                None => ExecExpiration::DefaultTimeout,
            },
    {
        match timeout_ms {
            Some(ms) => ExecExpiration::Timeout { ms },
            None => ExecExpiration::DefaultTimeout,
        }
    }

    /// The milliseconds after which the attempt expires by itself, if it
    /// does: `default_ms` for the default timeout, nothing for a token.
    pub fn timeout_ms(&self, default_ms: u64) -> (r: Option<u64>)
        ensures
            r == match *self {
                ExecExpiration::Timeout { ms } => Some(ms),
                ExecExpiration::DefaultTimeout => Some(default_ms),
                ExecExpiration::Cancellation => None::<u64>,
            },
    {
        match self {
            ExecExpiration::Timeout { ms } => Some(*ms),
            ExecExpiration::DefaultTimeout => Some(default_ms),
            ExecExpiration::Cancellation => None,
        }
    }
}

/// Where the shutdown of a child stands.
#[derive(PartialEq, Eq, Structural, Clone, Copy, Debug)]
pub enum ShutdownState {
    /// The child runs and nothing was sent to it.
    Running,
    /// The expiration fired and the polite signal was sent.
    Terminating,
    /// The grace window passed and the child was killed.
    Killing,
    /// The child was reaped. `expired` says whether the expiration had fired.
    Reaped { expired: bool },
}

#[derive(PartialEq, Eq, Structural, Clone, Copy, Debug)]
pub enum ShutdownEvent {
    /// The timeout elapsed or the token was cancelled.
    Expired,
    /// The grace window after the polite signal passed.
    GraceElapsed,
    /// The child was reaped.
    ChildExited,
}

#[derive(PartialEq, Eq, Structural, Clone, Copy, Debug)]
pub enum ShutdownAction {
    Nothing,
    /// Send the polite signal and start the grace window.
    SendTerminate,
    /// Send the signal that cannot be caught.
    SendKill,
}

/// The two-phase shutdown: the polite signal when the expiration fires, the
/// kill when the grace window passes and the child is still there.
pub open spec fn spec_shutdown_step(state: ShutdownState, event: ShutdownEvent) -> (
    ShutdownState,
    ShutdownAction,
) {
    match (state, event) {
        (ShutdownState::Running, ShutdownEvent::Expired) => (
            ShutdownState::Terminating,
            ShutdownAction::SendTerminate,
        ),
        (ShutdownState::Terminating, ShutdownEvent::GraceElapsed) => (
            ShutdownState::Killing,
            ShutdownAction::SendKill,
        ),
        (ShutdownState::Running, ShutdownEvent::ChildExited) => (
            ShutdownState::Reaped { expired: false },
            ShutdownAction::Nothing,
        ),
        (ShutdownState::Terminating, ShutdownEvent::ChildExited) => (
            ShutdownState::Reaped { expired: true },
            ShutdownAction::Nothing,
        ),
        (ShutdownState::Killing, ShutdownEvent::ChildExited) => (
            ShutdownState::Reaped { expired: true },
            ShutdownAction::Nothing,
        ),
        _ => (state, ShutdownAction::Nothing),
    }
}

pub fn shutdown_step(state: ShutdownState, event: ShutdownEvent) -> (r: (
    ShutdownState,
    ShutdownAction,
))
    ensures
        r == spec_shutdown_step(state, event),
{
    match (state, event) {
        (ShutdownState::Running, ShutdownEvent::Expired) => (
            ShutdownState::Terminating,
            ShutdownAction::SendTerminate,
        ),
        (ShutdownState::Terminating, ShutdownEvent::GraceElapsed) => (
            ShutdownState::Killing,
            ShutdownAction::SendKill,
        ),
        (ShutdownState::Running, ShutdownEvent::ChildExited) => (
            ShutdownState::Reaped { expired: false },
            ShutdownAction::Nothing,
        ),
        (ShutdownState::Terminating, ShutdownEvent::ChildExited) => (
            ShutdownState::Reaped { expired: true },
            ShutdownAction::Nothing,
        ),
        (ShutdownState::Killing, ShutdownEvent::ChildExited) => (
            ShutdownState::Reaped { expired: true },
            ShutdownAction::Nothing,
        ),
        _ => (state, ShutdownAction::Nothing),
    }
}

/// How a child that was reaped in `state` with `code` ended: expired if the
/// expiration had fired before it was reaped, exited otherwise.
pub fn termination_of(state: ShutdownState, code: Option<i32>) -> (t: Termination)
    ensures
        t == match state {
            ShutdownState::Reaped { expired: true } => Termination::Expired,
            ShutdownState::Terminating => Termination::Expired,
            ShutdownState::Killing => Termination::Expired,
            _ => Termination::Exited { code },
        },
{
    match state {
        ShutdownState::Reaped { expired: true } => Termination::Expired,
        ShutdownState::Terminating => Termination::Expired,
        ShutdownState::Killing => Termination::Expired,
        _ => Termination::Exited { code },
    }
}

/// Appends the first `keep` bytes of `chunk` to `out`.
fn append_bytes(out: &mut Vec<u8>, chunk: &[u8], keep: usize)
    requires
        keep <= chunk@.len(),
    ensures
        final(out)@ == old(out)@ + chunk@.take(keep as int),
{
    let mut i: usize = 0;
    while i < keep
        invariant
            i <= keep <= chunk@.len(),
            out@ == old(out)@ + chunk@.take(i as int),
        decreases keep - i,
    {
        out.push(chunk[i]);
        i += 1;
        assert(chunk@.take(i as int) =~= chunk@.take(i - 1).push(chunk@[i - 1]));
        assert(out@ =~= old(out)@ + chunk@.take(i as int));
    }
    assert(chunk@.take(0) =~= Seq::<u8>::empty());
}

} // verus!
