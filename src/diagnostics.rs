use vstd::prelude::*;

verus! {

/// Capacity of the buffer that the error-retrieval entry point writes into.
pub const ERROR_BUFFER_LEN: usize = 1024;

/// Index of the first zero byte of `buf` at or after `start`, or `buf.len()`
/// when there is none.
pub open spec fn nul_from(buf: Seq<u8>, start: int) -> int
    decreases buf.len() - start,
{
    if start < 0 || start >= buf.len() {
        buf.len() as int
    } else if buf[start] == 0 {
        start
    } else {
        nul_from(buf, start + 1)
    }
}

/// The diagnostic bytes held by a buffer: everything before its first zero
/// byte, or the whole buffer where it holds none.
pub open spec fn diagnostic_bytes(buf: Seq<u8>) -> Seq<u8> {
    buf.take(nul_from(buf, 0))
}

/// Where the bytes from `start` up to `end` are non-zero and `end` is the
/// buffer's end or a zero byte, the first zero byte from `start` is at `end`.
pub proof fn lemma_nul_at(buf: Seq<u8>, start: int, end: int)
    requires
        0 <= start <= end <= buf.len(),
        forall|j: int| start <= j < end ==> buf[j] != 0,
        end == buf.len() || buf[end] == 0,
    ensures
        nul_from(buf, start) == end,
    decreases end - start,
{
    if start < end {
        lemma_nul_at(buf, start + 1, end);
    }
}

/// A diagnostic without zero bytes that the host runtime wrote into the buffer
/// is read back verbatim: whole where a zero byte follows it inside the buffer,
/// and cut to the buffer's length where it filled the buffer.
pub proof fn diagnostic_read_verbatim(message: Seq<u8>, buf: Seq<u8>)
    requires
        forall|i: int| 0 <= i < message.len() ==> message[i] != 0,
        message.len() < buf.len() ==> buf.take(message.len() as int) == message
            && buf[message.len() as int] == 0,
        message.len() >= buf.len() ==> buf == message.take(buf.len() as int),
    ensures
        message.len() < buf.len() ==> diagnostic_bytes(buf) == message,
        message.len() >= buf.len() ==> diagnostic_bytes(buf) == message.take(buf.len() as int),
        reported_text(buf) == utf8_lossy(
            if message.len() < buf.len() {
                message
            } else {
                message.take(buf.len() as int)
            },
        ),
{
    if message.len() < buf.len() {
        assert forall|j: int| 0 <= j < message.len() implies buf[j] != 0 by {
            assert(buf.take(message.len() as int)[j] == buf[j]);
        }
        lemma_nul_at(buf, 0, message.len() as int);
    } else {
        assert forall|j: int| 0 <= j < buf.len() implies buf[j] != 0 by {
            assert(message.take(buf.len() as int)[j] == message[j]);
        }
        lemma_nul_at(buf, 0, buf.len() as int);
        assert(buf.take(buf.len() as int) =~= buf);
    }
}

/// The diagnostic text that a filled error-retrieval buffer carries.
pub open spec fn reported_text(buf: Seq<u8>) -> Seq<char> {
    utf8_lossy(diagnostic_bytes(buf))
}

/// The text that lossy UTF-8 decoding makes of a byte sequence.
pub uninterp spec fn utf8_lossy(bytes: Seq<u8>) -> Seq<char>;

/// Whether every byte is an ASCII character.
pub open spec fn is_ascii_bytes(bytes: Seq<u8>) -> bool {
    forall|i: int| 0 <= i < bytes.len() ==> bytes[i] < 128
}

/// The characters that ASCII bytes stand for, one per byte.
pub open spec fn ascii_chars(bytes: Seq<u8>) -> Seq<char> {
    bytes.map_values(|b: u8| b as char)
}

/// Relies on `String::from_utf8_lossy`: the decoded text is a function of the
/// bytes, no bytes decode to no text, and valid UTF-8 (ASCII among it) is
/// kept as it is.
#[verifier::external_body]
fn decode_lossy(bytes: &[u8]) -> (r: String)
    ensures
        r@ == utf8_lossy(bytes@),
        bytes@.len() == 0 ==> r@.len() == 0,
        is_ascii_bytes(bytes@) ==> r@ == ascii_chars(bytes@),
{
    String::from_utf8_lossy(bytes).into_owned()
}

/// A zeroed buffer of `ERROR_BUFFER_LEN` bytes for the host runtime to write
/// its diagnostic into.
pub fn error_buffer() -> (r: Vec<u8>)
    ensures
        r@.len() == ERROR_BUFFER_LEN,
        forall|i: int| 0 <= i < r@.len() ==> r@[i] == 0,
{
    let mut r: Vec<u8> = Vec::new();
    let mut i: usize = 0;
    while i < ERROR_BUFFER_LEN
        invariant
            i <= ERROR_BUFFER_LEN,
            r@.len() == i,
            forall|j: int| 0 <= j < r@.len() ==> r@[j] == 0,
        decreases ERROR_BUFFER_LEN - i,
    {
        r.push(0u8);
        i = i + 1;
    }
    r
}

/// The bytes of `buf` before its first zero byte.
pub fn terminated_prefix(buf: &[u8]) -> (r: Vec<u8>)
    ensures
        r@ == diagnostic_bytes(buf@),
{
    let mut r: Vec<u8> = Vec::new();
    let mut i: usize = 0;
    while i < buf.len() && buf[i] != 0
        invariant
            i <= buf@.len(),
            nul_from(buf@, i as int) == nul_from(buf@, 0),
            r@ == buf@.take(i as int),
        decreases buf@.len() - i,
    {
        r.push(buf[i]);
        i = i + 1;
        assert(r@ =~= buf@.take(i as int));
    }
    assert(nul_from(buf@, 0) == i as int);
    r
}

/// The diagnostic text that the host runtime left in `buf`: the bytes before
/// the first zero byte, decoded as UTF-8 with invalid sequences replaced.
/// A message longer than the buffer arrives cut short; that is not an error.
pub fn error_text(buf: &[u8]) -> (r: String)
    ensures
        r@ == reported_text(buf@),
        diagnostic_bytes(buf@).len() == 0 ==> r@.len() == 0,
        is_ascii_bytes(diagnostic_bytes(buf@)) ==> r@ == ascii_chars(diagnostic_bytes(buf@)),
{
    let bytes = terminated_prefix(buf);
    decode_lossy(bytes.as_slice())
}

} // verus!
