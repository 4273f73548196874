use vstd::prelude::*;
use vstd::utf8::*;

verus! {

broadcast use {encode_utf8_valid_utf8, is_char_boundary_start_end_of_seq};

/// Most bytes of process output kept per instance, before the cut back to
/// a character boundary.
pub const MAX_LOG_BYTES: usize = 10240;

/// What `String::from_utf8_lossy` makes of a byte sequence.
pub uninterp spec fn lossy_utf8(bytes: Seq<u8>) -> Seq<char>;

/// Calls `String::from_utf8_lossy` and takes ownership of the result.
/// Claimed: the result is `lossy_utf8` of the input, and, as std documents,
/// a valid UTF-8 input comes back as the characters it encodes.
/// Which replacement characters stand for invalid input is left unsaid.
#[verifier::external_body]
fn decode_lossy(bytes: &[u8]) -> (s: String)
    ensures
        s@ == lossy_utf8(bytes@),
        valid_utf8(bytes@) ==> s@ == decode_utf8(bytes@),
{
    String::from_utf8_lossy(bytes).into_owned()
}

/// Calls `str::len`, which std documents as the length of the text in
/// bytes. Claimed: that length, exactly (so it fits in a `usize`).
#[verifier::external_body]
fn utf8_len(s: &str) -> (n: usize)
    ensures
        n as int == bytes_of(s@).len(),
{
    s.len()
}

/// The UTF-8 bytes of a text.
pub open spec fn bytes_of(s: Seq<char>) -> Seq<u8> {
    encode_utf8(s)
}

/// The largest character boundary of `bytes` that is at most `i`
/// (0 when `i` is not positive).
pub open spec fn boundary_at_or_below(bytes: Seq<u8>, i: int) -> int
    decreases i,
{
    if i <= 0 {
        0
    } else if is_char_boundary(bytes, i) {
        i
    } else {
        boundary_at_or_below(bytes, i - 1)
    }
}

/// Where a log of the given bytes is cut: the largest character boundary
/// that is at most the number of bytes above the limit.
pub open spec fn log_cut(bytes: Seq<u8>) -> int {
    boundary_at_or_below(bytes, bytes.len() - MAX_LOG_BYTES)
}

/// The bytes a log keeps: all of them when within the limit, else those
/// from the cut on.
pub open spec fn trimmed(bytes: Seq<u8>) -> Seq<u8> {
    if bytes.len() > MAX_LOG_BYTES {
        bytes.subrange(log_cut(bytes), bytes.len() as int)
    } else {
        bytes
    }
}

pub proof fn lemma_boundary_at_or_below(bytes: Seq<u8>, i: int)
    requires
        valid_utf8(bytes),
        i <= bytes.len(),
    ensures
        0 <= boundary_at_or_below(bytes, i),
        i >= 0 ==> boundary_at_or_below(bytes, i) <= i,
        is_char_boundary(bytes, boundary_at_or_below(bytes, i)),
        forall|j: int|
            boundary_at_or_below(bytes, i) < j <= i ==> !#[trigger] is_char_boundary(bytes, j),
    decreases i,
{
    if i > 0 && !is_char_boundary(bytes, i) {
        lemma_boundary_at_or_below(bytes, i - 1);
    }
}

/// Cuts an over-long log back to at most `MAX_LOG_BYTES` bytes plus the
/// rest of the character in which the cut would fall.
pub fn trim_log(log: &mut String)
    ensures
        bytes_of(final(log)@) == trimmed(bytes_of(old(log)@)),
{
    let len = utf8_len(log.as_str());
    if len > MAX_LOG_BYTES {
        let ghost bytes = bytes_of(log@);
        let excess = len - MAX_LOG_BYTES;
        let mut i = excess;
        while !log.as_str().is_char_boundary(i)
            invariant
                bytes == bytes_of(log@),
                bytes.len() == len,
                i <= excess < len,
                boundary_at_or_below(bytes, i as int) == boundary_at_or_below(bytes, excess as int),
            decreases i,
        {
            i = i - 1;
        }
        assert(boundary_at_or_below(bytes, i as int) == i);
        let kept = log.as_str().split_at(i).1.to_owned();
        *log = kept;
    }
}

/// Adds a chunk of raw process output to a log, as text, and trims the log.
/// Returns the chunk as text, which is what listeners are sent.
pub fn append_output(log: &mut String, raw: &[u8]) -> (chunk: String)
    ensures
        chunk@ == lossy_utf8(raw@),
        bytes_of(final(log)@) == trimmed(bytes_of(old(log)@ + chunk@)),
{
    let chunk = decode_lossy(raw);
    log.append(chunk.as_str());
    trim_log(log);
    chunk
}

/// In valid UTF-8 a character takes at most four bytes, so a character
/// boundary lies at most three bytes below any position.
proof fn lemma_boundary_close_below(bytes: Seq<u8>, k: int)
    requires
        valid_utf8(bytes),
        0 <= k <= bytes.len(),
    ensures
        boundary_at_or_below(bytes, k) >= k - 3,
    decreases bytes.len(),
{
    lemma_boundary_at_or_below(bytes, k);
    if k > 3 {
        let l = length_of_first_scalar(bytes);
        let rest = pop_first_scalar(bytes);
        assert(1 <= l <= 4 && l <= bytes.len());
        assert(rest.len() == bytes.len() - l);
        lemma_boundary_close_below(rest, k - l);
        lemma_boundary_at_or_below(rest, k - l);
        let j = boundary_at_or_below(rest, k - l);
        assert(is_char_boundary(bytes, j + l));
    }
}

/// Trimming keeps the newest bytes of a log: what is kept is a suffix of
/// what was there, it starts at a character boundary, nothing is dropped
/// while the log is within `MAX_LOG_BYTES`, and an over-long log keeps at
/// least `MAX_LOG_BYTES` and at most `MAX_LOG_BYTES + 3` bytes.
pub proof fn law_trim_keeps_newest_bytes(bytes: Seq<u8>)
    requires
        valid_utf8(bytes),
    ensures
        trimmed(bytes).len() <= bytes.len(),
        trimmed(bytes) =~= bytes.subrange(bytes.len() - trimmed(bytes).len(), bytes.len() as int),
        is_char_boundary(bytes, bytes.len() - trimmed(bytes).len()),
        bytes.len() <= MAX_LOG_BYTES ==> trimmed(bytes) == bytes,
        bytes.len() > MAX_LOG_BYTES ==> MAX_LOG_BYTES <= trimmed(bytes).len() <= MAX_LOG_BYTES + 3,
{
    if bytes.len() > MAX_LOG_BYTES {
        lemma_boundary_at_or_below(bytes, bytes.len() - MAX_LOG_BYTES);
        lemma_boundary_close_below(bytes, bytes.len() - MAX_LOG_BYTES);
    }
}

/// The cut is the last possible one: no character boundary lies between
/// it and the number of bytes above the limit.
pub proof fn law_trim_cut_is_latest_boundary(bytes: Seq<u8>, j: int)
    requires
        valid_utf8(bytes),
        bytes.len() > MAX_LOG_BYTES,
        log_cut(bytes) < j <= bytes.len() - MAX_LOG_BYTES,
    ensures
        !is_char_boundary(bytes, j),
{
    lemma_boundary_at_or_below(bytes, bytes.len() - MAX_LOG_BYTES);
}

} // verus!
