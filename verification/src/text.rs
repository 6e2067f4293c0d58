//! Bytes that may or may not be text: the pairwise swap that puts an ATA
//! string in reading order, and the escaped rendering of such bytes.
use vstd::prelude::*;

verus! {

/// `std::string::String::push`: the string afterwards is the string before
/// with `ch` appended as its last character. Nothing else is claimed.
pub assume_specification[ String::push ](s: &mut String, ch: char)
    ensures
        final(s)@ == old(s)@.push(ch),
;

/// `s` with the two bytes of each pair exchanged: byte 0 with byte 1, byte 2
/// with byte 3, and so on. Meant for sequences of even length.
pub open spec fn swap_pairs(s: Seq<u8>) -> Seq<u8> {
    Seq::new(
        s.len(),
        |i: int|
            if i % 2 == 0 {
                s[i + 1]
            } else {
                s[i - 1]
            },
    )
}

/// Exchanges the two bytes of each pair in place.
///
/// A sequence of odd length has a last byte without a partner and is not
/// accepted.
pub fn flip_bytes(bytes: &mut [u8])
    requires
        old(bytes)@.len() % 2 == 0,
    ensures
        final(bytes)@ == swap_pairs(old(bytes)@),
{
    let ghost before = bytes@;
    let n: usize = bytes.len();
    let mut i: usize = 0;
    while i < n
        invariant
            n == before.len(),
            n % 2 == 0,
            i % 2 == 0,
            i <= n,
            bytes@.len() == n,
            forall|j: int| 0 <= j < i ==> bytes@[j] == swap_pairs(before)[j],
            forall|j: int| i <= j < n ==> bytes@[j] == before[j],
        decreases n - i,
    {
        let first: u8 = bytes[i];
        let second: u8 = bytes[i + 1];
        bytes[i] = second;
        bytes[i + 1] = first;
        i = i + 2;
    }
}

/// Swapping the pairs of an even-length sequence twice gives the sequence
/// back.
pub proof fn lemma_swap_pairs_twice(s: Seq<u8>)
    requires
        s.len() % 2 == 0,
    ensures
        swap_pairs(swap_pairs(s)) == s,
        swap_pairs(s).len() == s.len(),
{
}

/// The character for a digit below sixteen, letters in lower case.
pub open spec fn digit_char(d: int) -> char {
    if d < 10 {
        (48 + d) as char
    } else {
        (87 + d) as char
    }
}

/// `n` in decimal, without leading zeros.
pub open spec fn decimal(n: nat) -> Seq<char>
    decreases n,
{
    if n < 10 {
        seq![digit_char(n as int)]
    } else {
        decimal(n / 10).push(digit_char((n % 10) as int))
    }
}

/// `n` in hexadecimal, lower case, without prefix or leading zeros.
pub open spec fn hexadecimal(n: nat) -> Seq<char>
    decreases n,
{
    if n < 16 {
        seq![digit_char(n as int)]
    } else {
        hexadecimal(n / 16).push(digit_char((n % 16) as int))
    }
}

/// `n` in hexadecimal behind the prefix `0x`.
pub open spec fn prefixed_hexadecimal(n: nat) -> Seq<char> {
    seq!['0', 'x'] + hexadecimal(n)
}

/// How one byte is shown: backslash, line feed, carriage return, double quote
/// and NUL by their named escapes, the other printable bytes, 32 to 126, as
/// themselves, and every byte that is left, DEL among them, as `\x` and two
/// hexadecimal digits.
pub open spec fn escape_byte(b: u8) -> Seq<char> {
    if b == 0x5c {
        seq!['\\', '\\']
    } else if b == 0x0a {
        seq!['\\', 'n']
    } else if b == 0x0d {
        seq!['\\', 'r']
    } else if b == 0x22 {
        seq!['\\', '"']
    } else if b == 0 {
        seq!['\\', '0']
    } else if 32 <= b <= 126 {
        seq![b as char]
    } else {
        seq!['\\', 'x', digit_char(b as int / 16), digit_char(b as int % 16)]
    }
}

/// The bytes shown one after another, each by `escape_byte`.
pub open spec fn escape(bytes: Seq<u8>) -> Seq<char>
    decreases bytes.len(),
{
    if bytes.len() == 0 {
        Seq::empty()
    } else {
        escape(bytes.drop_last()) + escape_byte(bytes.last())
    }
}

fn digit(d: u8) -> (c: char)
    requires
        d < 16,
    ensures
        c == digit_char(d as int),
{
    if d < 10 {
        (48 + d) as char
    } else {
        (87 + d) as char
    }
}

/// Appends `n` in decimal.
pub(crate) fn push_decimal(out: &mut String, n: u64)
    ensures
        final(out)@ == old(out)@ + decimal(n as nat),
    decreases n,
{
    if n >= 10 {
        push_decimal(out, n / 10);
    }
    out.push(digit((n % 10) as u8));
}

fn push_hexadecimal(out: &mut String, n: u64)
    ensures
        final(out)@ == old(out)@ + hexadecimal(n as nat),
    decreases n,
{
    if n >= 16 {
        push_hexadecimal(out, n / 16);
    }
    out.push(digit((n % 16) as u8));
}

/// Appends `n` in hexadecimal behind `0x`.
pub(crate) fn push_prefixed_hexadecimal(out: &mut String, n: u64)
    ensures
        final(out)@ == old(out)@ + prefixed_hexadecimal(n as nat),
{
    out.push('0');
    out.push('x');
    push_hexadecimal(out, n);
}

fn push_escaped_byte(out: &mut String, b: u8)
    ensures
        final(out)@ == old(out)@ + escape_byte(b),
{
    if b == 0x5c {
        out.push('\\');
        out.push('\\');
    } else if b == 0x0a {
        out.push('\\');
        out.push('n');
    } else if b == 0x0d {
        out.push('\\');
        out.push('r');
    } else if b == 0x22 {
        out.push('\\');
        out.push('"');
    } else if b == 0 {
        out.push('\\');
        out.push('0');
    } else if 32 <= b && b <= 126 {
        out.push(b as char);
    } else {
        out.push('\\');
        out.push('x');
        out.push(digit(b / 16));
        out.push(digit(b % 16));
    }
}

/// Appends the escaped form of `bytes`.
pub(crate) fn push_escaped(out: &mut String, bytes: &[u8])
    ensures
        final(out)@ == old(out)@ + escape(bytes@),
{
    let ghost before = out@;
    let n: usize = bytes.len();
    let mut i: usize = 0;
    while i < n
        invariant
            n == bytes@.len(),
            i <= n,
            out@ == before + escape(bytes@.take(i as int)),
        decreases n - i,
    {
        push_escaped_byte(out, bytes[i]);
        proof {
            let longer = bytes@.take(i + 1);
            assert(longer.drop_last() =~= bytes@.take(i as int));
        }
        i = i + 1;
    }
    assert(bytes@.take(n as int) =~= bytes@);
}

/// Appends the escaped form of `bytes` between `b"` and `"`.
pub(crate) fn push_quoted(out: &mut String, bytes: &[u8])
    ensures
        final(out)@ == old(out)@ + quoted(bytes@),
{
    out.push('b');
    out.push('"');
    push_escaped(out, bytes);
    out.push('"');
}

/// The escaped form of `bytes` between `b"` and `"`.
pub open spec fn quoted(bytes: Seq<u8>) -> Seq<char> {
    seq!['b', '"'] + escape(bytes) + seq!['"']
}

/// Bytes that are shown as text without being trusted to be text: nothing
/// says that they are ASCII, or that they end in NUL.
#[derive(Clone, Copy)]
pub struct RawString<'a>(pub &'a [u8]);

impl<'a> RawString<'a> {
    /// The bytes as text: each byte as `escape_byte` shows it, and nothing
    /// before, between or after.
    pub fn fmt(&self) -> (s: String)
        ensures
            s@ == escape(self.0@),
    {
        let mut s = String::new();
        push_escaped(&mut s, self.0);
        s
    }

    /// The bytes as a byte-string literal: `b"`, the bytes as `fmt` shows
    /// them, `"`.
    pub fn quoted(&self) -> (s: String)
        ensures
            s@ == quoted(self.0@),
    {
        let mut s = String::new();
        push_quoted(&mut s, self.0);
        s
    }
}

proof fn lemma_escape_byte_is_printable(b: u8)
    ensures
        forall|i: int|
            0 <= i < escape_byte(b).len() ==> 32 <= (#[trigger] escape_byte(b)[i]) as int <= 126,
{
}

/// Whatever the bytes are, what is shown of them is printable ASCII: every
/// character lies between space and tilde.
pub proof fn lemma_escape_is_printable(bytes: Seq<u8>)
    ensures
        forall|i: int|
            0 <= i < escape(bytes).len() ==> 32 <= (#[trigger] escape(bytes)[i]) as int <= 126,
    decreases bytes.len(),
{
    if bytes.len() > 0 {
        let head = escape(bytes.drop_last());
        let tail = escape_byte(bytes.last());
        lemma_escape_is_printable(bytes.drop_last());
        lemma_escape_byte_is_printable(bytes.last());
        assert forall|i: int| 0 <= i < escape(bytes).len() implies 32 <= (#[trigger] escape(
            bytes,
        )[i]) as int <= 126 by {
            if i < head.len() {
                assert(escape(bytes)[i] == head[i]);
            } else {
                assert(escape(bytes)[i] == tail[i - head.len()]);
            }
        }
    }
}

/// Escaping goes byte by byte: what two sequences show joined is what each
/// shows, joined.
pub proof fn lemma_escape_concat(a: Seq<u8>, b: Seq<u8>)
    ensures
        escape(a + b) == escape(a) + escape(b),
    decreases b.len(),
{
    if b.len() > 0 {
        assert((a + b).drop_last() =~= a + b.drop_last());
        lemma_escape_concat(a, b.drop_last());
    }
}

} // verus!
