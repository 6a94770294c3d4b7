//! Reconstructing exact byte ranges of the traced process's memory.
//!
//! The only read primitive the tracing protocol offers returns one 8-byte
//! word per call. To read `size` bytes at an address, the reader issues
//! `ceiling(size / 8)` word reads at consecutive word offsets, concatenates
//! the words in order (least-significant byte of each word first, the layout
//! the target machine stores them in), and truncates the result to exactly
//! `size` bytes. A word read that fails is silently dropped, as the tracer
//! has always done: the returned buffer is then shorter than requested rather
//! than the whole read failing.

use vstd::prelude::*;

verus! {

/// How many bytes a word read returns.
pub const WORD_BYTES: u64 = 8;

/// Byte `j` (0 = least significant) of the word `w`.
pub open spec fn word_byte(w: u64, j: int) -> u8 {
    ((w >> ((8 * j) as u64)) & 0xff) as u8
}

/// The words `ws` concatenated into one byte sequence, least-significant
/// byte of each word first.
pub open spec fn words_to_bytes(ws: Seq<u64>) -> Seq<u8> {
    Seq::new((ws.len() * 8) as nat, |i: int| word_byte(ws[i / 8], i % 8))
}

/// The number of word reads needed to cover `n` bytes: `ceiling(n / 8)`.
pub open spec fn spec_word_count(n: int) -> int {
    n / 8 + if n % 8 == 0 {
        0int
    } else {
        1int
    }
}

/// Covering word reads cover: `ceiling(n / 8)` words hold at least `n` bytes.
pub proof fn lemma_word_count_covers(n: int)
    requires
        n >= 0,
    ensures
        n <= 8 * spec_word_count(n),
        8 * spec_word_count(n) < n + 8,
{
    assert(n == 8 * (n / 8) + n % 8);
}

/// The number of word reads needed to cover `size` bytes.
pub fn word_count(size: u64) -> (r: u64)
    ensures
        r as int == spec_word_count(size as int),
{
    size / 8 + if size % 8 == 0 {
        0
    } else {
        1
    }
}

/// Concatenate the words read out of the target, in order and
/// least-significant byte first, and truncate to exactly `size` bytes.
///
/// When `words` holds a full covering read — one word per `ceiling(size / 8)`
/// offsets, none dropped — the result is exactly `size` bytes, and byte `i`
/// is byte `i % 8` of word `i / 8`: the target's memory contents themselves.
pub fn assemble_bytes(words: &Vec<u64>, size: usize) -> (r: Vec<u8>)
    ensures
        r@.len() == if size as int <= 8 * words@.len() as int {
            size as int
        } else {
            8 * words@.len() as int
        },
        forall|i: int| 0 <= i < r@.len() ==> r@[i] == word_byte(words@[i / 8], i % 8),
        words@.len() == spec_word_count(size as int) ==> r@.len() == size as int,
{
    let mut out: Vec<u8> = Vec::new();
    let mut wi: usize = 0;
    while wi < words.len() && out.len() < size
        invariant
            wi <= words@.len(),
            out@.len() == if size as int <= 8 * wi {
                size as int
            } else {
                8 * wi
            },
            forall|i: int| 0 <= i < out@.len() ==> out@[i] == word_byte(words@[i / 8], i % 8),
        decreases words@.len() - wi,
    {
        let w = words[wi];
        let mut j: usize = 0;
        while j < 8 && out.len() < size
            invariant
                j <= 8,
                wi < words@.len(),
                w == words@[wi as int],
                out@.len() == if size as int <= 8 * wi + j {
                    size as int
                } else {
                    8 * wi + j
                },
                forall|i: int| 0 <= i < out@.len() ==> out@[i] == word_byte(words@[i / 8], i % 8),
            decreases 8 - j,
        {
            let shift: u64 = 8 * (j as u64);
            let masked: u64 = (w >> shift) & 0xff;
            assert((w >> shift) & 0xff < 256) by (bit_vector);
            let b: u8 = masked as u8;
            proof {
                let pos = out@.len() as int;
                assert(pos == 8 * wi + j);
                assert(pos / 8 == wi as int && pos % 8 == j as int) by (nonlinear_arith)
                    requires
                        pos == 8 * (wi as int) + (j as int),
                        0 <= j < 8,
                        wi >= 0,
                ;
                assert(b == word_byte(words@[wi as int], j as int));
            }
            out.push(b);
            j = j + 1;
        }
        if out.len() < size {
            wi = wi + 1;
        } else {
            return out;
        }
    }
    proof {
        lemma_word_count_covers(size as int);
    }
    out
}

/// Relies on nix::sys::ptrace::read (PTRACE_PEEKDATA): returns the 8-byte
/// word of the target's memory at `addr`, or nothing when the read fails.
/// The value depends on the target process's memory, so nothing is promised
/// about it.
#[verifier::external_body]
fn peek_word(pid: i32, addr: u64) -> (r: Option<u64>) {
    match nix::sys::ptrace::read(
        nix::unistd::Pid::from_raw(pid),
        addr as nix::sys::ptrace::AddressType,
    ) {
        Ok(w) => Some(w as u64),
        Err(_) => None,
    }
}

/// Read the words covering `size` bytes at `addr`, at consecutive word
/// offsets (the offset arithmetic wraps at the 64-bit boundary, where any
/// read fails anyway). Words whose read fails are dropped, so the result may
/// hold fewer than the covering count.
fn collect_words(pid: i32, addr: u64, size: u64) -> (words: Vec<u64>)
    ensures
        words@.len() <= spec_word_count(size as int),
{
    let n = word_count(size);
    let mut words: Vec<u64> = Vec::new();
    let mut i: u64 = 0;
    while i < n
        invariant
            i <= n,
            words@.len() <= i as int,
            n as int == spec_word_count(size as int),
        decreases n - i,
    {
        let a = addr.wrapping_add(i.wrapping_mul(WORD_BYTES));
        match peek_word(pid, a) {
            Some(w) => words.push(w),
            None => {},
        }
        i = i + 1;
    }
    words
}

/// Read `size` bytes of the target's memory at `addr`, through word-sized
/// reads at consecutive offsets, truncated to exactly `size` bytes. Dropped
/// word reads can make the result shorter than `size`; when every word read
/// succeeds it is exactly `size` bytes long.
pub fn peek_bytes(pid: i32, addr: u64, size: u64) -> (r: Vec<u8>)
    ensures
        r@.len() <= size as int,
{
    let cap: usize = if size <= usize::MAX as u64 {
        size as usize
    } else {
        usize::MAX
    };
    let words = collect_words(pid, addr, size);
    assemble_bytes(&words, cap)
}

} // verus!
