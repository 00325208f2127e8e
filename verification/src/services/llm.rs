//! The chat-completions protocol: request addressing, and the framing of
//! the server-sent event stream in which a completion arrives.

use vstd::prelude::*;
use crate::error::AppError;
use crate::text;

verus! {

/// One message of a chat exchange, as sent to the completions endpoint.
#[derive(Debug, Clone)]
pub struct ChatMessage {
    pub role: String,
    pub content: String,
}

/// A message with the given role and content.
pub fn chat_message(role: &str, content: String) -> (r: ChatMessage)
    ensures
        r.role@ == role@,
        r.content@ == content@,
{
    ChatMessage { role: text::owned(role), content }
}

/// The completions endpoint under a base URL (trailing slashes dropped).
pub fn chat_completions_url(base_url: &str) -> (r: String)
    ensures
        r@ == text::strip_end_all(base_url@, '/') + "/chat/completions"@,
{
    let mut s = text::trim_end_char(base_url, '/');
    s.append("/chat/completions");
    s
}

/// The `Authorization` header a request carries: a bearer token, unless the
/// key is blank, in which case the request goes without one.
pub open spec fn authorization(api_key: Seq<char>) -> Option<Seq<char>> {
    if text::trim(api_key).len() == 0 {
        None
    } else {
        Some("Bearer "@ + api_key)
    }
}

pub fn authorization_header(api_key: &str) -> (r: Option<String>)
    ensures
        crate::cli::opt_view(r) == authorization(api_key@),
{
    if text::trim_str(api_key).unicode_len() == 0 {
        None
    } else {
        Some(crate::error::prefixed("Bearer ", api_key))
    }
}

/// The error for a response whose status is not a success: the status and
/// the response body.
pub fn api_status_error(status: &str, body: &str) -> (r: AppError)
    ensures
        r is Api,
        r->Api_0@ == "API returned "@ + status@ + ": "@ + body@,
{
    let mut m = crate::error::prefixed("API returned ", status);
    m.append(": ");
    m.append(body);
    AppError::Api(m)
}

// ───────────────────────── the event stream ─────────────────────────

/// What one line of the event stream means.
pub enum SseLine {
    /// A blank line, a comment, or a field other than `data`.
    Skip,
    /// A `data` field carrying this payload.
    Data(Seq<char>),
    /// The `[DONE]` marker that ends the completion.
    Done,
}

/// How a line is read, once trimmed: blank lines and `:` comments are
/// skipped, `data: ` introduces a payload, and a payload of `[DONE]`
/// (whitespace aside) ends the stream.
pub open spec fn classify_line(line: Seq<char>) -> SseLine {
    let t = text::trim(line);
    if t.len() == 0 || t[0] == ':' {
        SseLine::Skip
    } else if text::has_prefix(t, "data: "@) {
        let d = t.subrange(6, t.len() as int);
        if text::trim(d) == "[DONE]"@ {
            SseLine::Done
        } else {
            SseLine::Data(d)
        }
    } else {
        SseLine::Skip
    }
}

/// The payloads of complete lines, in order, up to the end marker, and
/// whether the marker was seen.
pub open spec fn scan_lines(lines: Seq<Seq<char>>) -> (Seq<Seq<char>>, bool)
    decreases lines.len(),
{
    if lines.len() == 0 {
        (Seq::<Seq<char>>::empty(), false)
    } else {
        match classify_line(lines[0]) {
            SseLine::Done => (Seq::<Seq<char>>::empty(), true),
            SseLine::Data(d) => {
                let rest = scan_lines(lines.drop_first());
                (seq![d] + rest.0, rest.1)
            },
            SseLine::Skip => scan_lines(lines.drop_first()),
        }
    }
}

/// What a chunk of the stream yields.
#[derive(Debug)]
pub struct SseBatch {
    /// The `data` payloads of the lines completed by the chunk, in order.
    pub payloads: Vec<String>,
    /// Whether the end marker was reached.
    pub done: bool,
}

/// Reassembles the event stream's lines across chunk boundaries.
#[derive(Debug)]
pub struct SseDecoder {
    pending: String,
}

fn slice_eq_str(s: &[char], lit: &str) -> (r: bool)
    ensures
        r == (s@ == lit@),
{
    text::str_eq_chars(lit, s)
}

fn classify(line: &[char]) -> (r: (u8, Vec<char>))
    ensures
        match classify_line(line@) {
            SseLine::Skip => r.0 == 0,
            SseLine::Data(d) => r.0 == 1 && r.1@ == d,
            SseLine::Done => r.0 == 2,
        },
{
    let t = text::trim_chars(line);
    if t.len() == 0 || t[0] == ':' {
        return (0, Vec::new());
    }
    let prefix = text::to_chars("data: ");
    proof {
        reveal_strlit("data: ");
    }
    if text::chars_starts_with(t.as_slice(), prefix.as_slice()) {
        let d = text::slice_range(t.as_slice(), 6, t.len());
        let dt = text::trim_chars(d.as_slice());
        if slice_eq_str(dt.as_slice(), "[DONE]") {
            (2, Vec::new())
        } else {
            (1, d)
        }
    } else {
        (0, Vec::new())
    }
}

proof fn lemma_scan_step(lines: Seq<Seq<char>>, i: int)
    requires
        0 <= i < lines.len(),
    ensures
        scan_lines(lines.subrange(i, lines.len() as int)) == match classify_line(lines[i]) {
            SseLine::Done => (Seq::<Seq<char>>::empty(), true),
            SseLine::Data(d) => {
                let rest = scan_lines(lines.subrange(i + 1, lines.len() as int));
                (seq![d] + rest.0, rest.1)
            },
            SseLine::Skip => scan_lines(lines.subrange(i + 1, lines.len() as int)),
        },
{
    let s = lines.subrange(i, lines.len() as int);
    assert(s[0] == lines[i]);
    assert(s.drop_first() =~= lines.subrange(i + 1, lines.len() as int));
}

impl SseDecoder {
    /// The text received after the last complete line.
    pub closed spec fn pending_text(&self) -> Seq<char> {
        self.pending@
    }

    /// A decoder that has received nothing.
    pub fn new() -> (r: SseDecoder)
        ensures
            r.pending_text() == Seq::<char>::empty(),
    {
        SseDecoder { pending: String::new() }
    }

    /// Takes the next chunk: the lines it completes are read in order, up to
    /// the end marker; the text after the last line break is kept for the
    /// next chunk.
    pub fn push(&mut self, chunk: &str) -> (r: SseBatch)
        ensures
            ({
                let parts = text::split_on(old(self).pending_text() + chunk@, '\n');
                let scanned = scan_lines(parts.drop_last());
                &&& r.payloads@.map_values(|p: String| p@) == scanned.0
                &&& r.done == scanned.1
                &&& final(self).pending_text() == parts.last()
                &&& !final(self).pending_text().contains('\n')
            }),
    {
        let mut buffer = text::to_chars(self.pending.as_str());
        let c = text::to_chars(chunk);
        let ghost all = self.pending@ + chunk@;
        let mut k: usize = 0;
        while k < c.len()
            invariant
                k <= c@.len(),
                c@ == chunk@,
                buffer@ == self.pending@ + chunk@.subrange(0, k as int),
            decreases c.len() - k,
        {
            buffer.push(c[k]);
            k = k + 1;
            assert(buffer@ =~= self.pending@ + chunk@.subrange(0, k as int));
        }
        assert(chunk@.subrange(0, k as int) =~= chunk@);
        let parts = text::split_chars(buffer.as_slice(), '\n');
        let ghost pv = text::split_on(all, '\n');
        proof {
            text::lemma_split_on_nonempty(all, '\n');
            text::lemma_split_last_free(all, '\n');
        }
        let ghost lines = pv.drop_last();
        let n = parts.len() - 1;
        let mut payloads: Vec<String> = Vec::new();
        let mut done = false;
        let mut i: usize = 0;
        proof {
            assert(lines.subrange(0, n as int) =~= lines);
            assert(payloads@.map_values(|p: String| p@) + scan_lines(lines).0 =~= scan_lines(lines).0);
        }
        while i < n
            invariant
                pv.len() > 0,
                n + 1 == parts@.len(),
                n == lines.len(),
                parts@.len() == pv.len(),
                lines == pv.drop_last(),
                forall|j: int| 0 <= j < parts@.len() ==> (#[trigger] parts@[j])@ == pv[j],
                i <= n,
                !done ==> payloads@.map_values(|p: String| p@) + scan_lines(lines.subrange(i as int, n as int)).0
                    == scan_lines(lines).0,
                !done ==> scan_lines(lines.subrange(i as int, n as int)).1 == scan_lines(lines).1,
                done ==> payloads@.map_values(|p: String| p@) == scan_lines(lines).0 && scan_lines(lines).1,
                done ==> i == n,
            decreases n - i,
        {
            proof {
                lemma_scan_step(lines, i as int);
                assert(parts@[i as int]@ == pv[i as int]);
            }
            let (kind, data) = classify(parts[i].as_slice());
            if kind == 2 {
                done = true;
                assert(scan_lines(lines.subrange(i as int, n as int)).0 =~= Seq::<Seq<char>>::empty());
                assert(payloads@.map_values(|p: String| p@) =~= scan_lines(lines).0);
                i = n;
            } else {
                if kind == 1 {
                    let ghost before = payloads@.map_values(|p: String| p@);
                    payloads.push(text::string_of(data.as_slice()));
                    assert(payloads@.map_values(|p: String| p@) =~= before.push(data@));
                    let ghost rest = scan_lines(lines.subrange(i + 1, n as int)).0;
                    assert(before.push(data@) + rest =~= before + (seq![data@] + rest));
                }
                i = i + 1;
            }
        }
        if !done {
            assert(lines.subrange(n as int, n as int) =~= Seq::<Seq<char>>::empty());
            assert(payloads@.map_values(|p: String| p@) =~= scan_lines(lines).0);
        }
        self.pending = text::string_of(parts[n].as_slice());
        SseBatch { payloads, done }
    }
}

/// Reading two runs of lines one after the other reads their lines in
/// order, unless the first run already ended the stream.
pub proof fn lemma_scan_concat(l1: Seq<Seq<char>>, l2: Seq<Seq<char>>)
    ensures
        scan_lines(l1 + l2) == if scan_lines(l1).1 {
            scan_lines(l1)
        } else {
            (scan_lines(l1).0 + scan_lines(l2).0, scan_lines(l2).1)
        },
    decreases l1.len(),
{
    if l1.len() == 0 {
        assert(l1 + l2 =~= l2);
        assert(Seq::<Seq<char>>::empty() + scan_lines(l2).0 =~= scan_lines(l2).0);
    } else {
        lemma_scan_concat(l1.drop_first(), l2);
        assert((l1 + l2)[0] == l1[0]);
        assert((l1 + l2).drop_first() =~= l1.drop_first() + l2);
        match classify_line(l1[0]) {
            SseLine::Data(d) => {
                let r1 = scan_lines(l1.drop_first());
                if !r1.1 {
                    assert(seq![d] + (r1.0 + scan_lines(l2).0) =~= (seq![d] + r1.0) + scan_lines(l2).0);
                }
            },
            _ => {},
        }
    }
}

/// How a stream is cut into chunks does not change what it yields: feeding
/// the decoder `a` and then `b` gives, in order, the payloads that feeding
/// `a + b` at once gives, and leaves the same text pending; once `a` has
/// ended the stream, `a + b` ends it with the same payloads.
pub proof fn lemma_chunking_does_not_matter(pending: Seq<char>, a: Seq<char>, b: Seq<char>)
    ensures
        ({
            let first = text::split_on(pending + a, '\n');
            let second = text::split_on(first.last() + b, '\n');
            let whole = text::split_on(pending + (a + b), '\n');
            let s1 = scan_lines(first.drop_last());
            let s2 = scan_lines(second.drop_last());
            let s = scan_lines(whole.drop_last());
            &&& !s1.1 ==> s.0 == s1.0 + s2.0 && s.1 == s2.1 && whole.last() == second.last()
            &&& s1.1 ==> s.1 && s.0 == s1.0
        }),
{
    let x = pending + a;
    assert(pending + (a + b) =~= x + b);
    text::lemma_split_concat(x, b, '\n');
    let first = text::split_on(x, '\n');
    let second = text::split_on(first.last() + b, '\n');
    text::lemma_split_on_nonempty(first.last() + b, '\n');
    let whole = text::split_on(x + b, '\n');
    assert(whole.drop_last() =~= first.drop_last() + second.drop_last());
    lemma_scan_concat(first.drop_last(), second.drop_last());
}

} // verus!
