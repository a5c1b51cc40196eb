//! Text fields: padding, white space, decoding, and the text of messages.

use vstd::prelude::*;
use vstd::slice::*;
use vstd::string::*;
use vstd::utf8::*;

verus! {

/// The character of one decimal digit.
pub open spec fn digit_char(d: nat) -> char {
    if d == 0 {
        '0'
    } else if d == 1 {
        '1'
    } else if d == 2 {
        '2'
    } else if d == 3 {
        '3'
    } else if d == 4 {
        '4'
    } else if d == 5 {
        '5'
    } else if d == 6 {
        '6'
    } else if d == 7 {
        '7'
    } else if d == 8 {
        '8'
    } else {
        '9'
    }
}

/// The decimal numeral of `n`, without leading zeros.
pub open spec fn decimal(n: nat) -> Seq<char>
    decreases n,
{
    if n < 10 {
        seq![digit_char(n)]
    } else {
        decimal(n / 10).push(digit_char(n % 10))
    }
}

/// Specification of `String::push` of the standard library: the character is
/// appended at the end and nothing else changes.
pub assume_specification[ String::push ](text: &mut String, ch: char)
    ensures
        final(text)@ == old(text)@.push(ch),
;

fn digit(d: u8) -> (c: char)
    requires
        d < 10,
    ensures
        c == digit_char(d as nat),
{
    match d {
        0 => '0',
        1 => '1',
        2 => '2',
        3 => '3',
        4 => '4',
        5 => '5',
        6 => '6',
        7 => '7',
        8 => '8',
        _ => '9',
    }
}

/// Appends the decimal numeral of a byte.
pub fn push_decimal(text: &mut String, n: u8)
    ensures
        final(text)@ == old(text)@ + decimal(n as nat),
{
    reveal_with_fuel(decimal, 3);
    if n >= 100 {
        text.push(digit(n / 100));
        text.push(digit((n / 10) % 10));
        text.push(digit(n % 10));
        assert(final(text)@ =~= old(text)@ + decimal(n as nat));
    } else if n >= 10 {
        text.push(digit(n / 10));
        text.push(digit(n % 10));
        assert(final(text)@ =~= old(text)@ + decimal(n as nat));
    } else {
        text.push(digit(n));
        assert(final(text)@ =~= old(text)@ + decimal(n as nat));
    }
}

/// Whether two strings hold the same characters.
pub fn str_eq(a: &str, b: &str) -> (r: bool)
    ensures
        r == (a@ == b@),
{
    let x = a.as_bytes();
    let y = b.as_bytes();
    proof {
        encode_utf8_decode_utf8(a@);
        encode_utf8_decode_utf8(b@);
    }
    if x.len() != y.len() {
        return false;
    }
    let mut i: usize = 0;
    while i < x.len()
        invariant
            i <= x@.len(),
            x@.len() == y@.len(),
            x@ == a.spec_bytes(),
            y@ == b.spec_bytes(),
            forall|j: int| 0 <= j < i ==> x@[j] == y@[j],
        decreases x@.len() - i,
    {
        if x[i] != y[i] {
            return false;
        }
        i += 1;
    }
    assert(x@ =~= y@);
    true
}

/// Whether two byte strings are equal.
pub fn bytes_eq(a: &[u8], b: &[u8]) -> (r: bool)
    ensures
        r == (a@ == b@),
{
    if a.len() != b.len() {
        return false;
    }
    let mut i: usize = 0;
    while i < a.len()
        invariant
            i <= a@.len(),
            a@.len() == b@.len(),
            forall|j: int| 0 <= j < i ==> a@[j] == b@[j],
        decreases a@.len() - i,
    {
        if a[i] != b[i] {
            return false;
        }
        i += 1;
    }
    assert(a@ =~= b@);
    true
}

/// `s` without its longest suffix of items that `drop` holds of.
pub open spec fn trim_end<A>(s: Seq<A>, drop: spec_fn(A) -> bool) -> Seq<A>
    decreases s.len(),
{
    if s.len() > 0 && drop(s.last()) {
        trim_end(s.drop_last(), drop)
    } else {
        s
    }
}

/// `s` without its longest prefix of items that `drop` holds of.
pub open spec fn trim_start<A>(s: Seq<A>, drop: spec_fn(A) -> bool) -> Seq<A>
    decreases s.len(),
{
    if s.len() > 0 && drop(s.first()) {
        trim_start(s.drop_first(), drop)
    } else {
        s
    }
}

/// The prefix of length `n` is `trim_end` once everything from `n` on is
/// dropped and the item before `n` is kept.
pub proof fn lemma_trim_end<A>(s: Seq<A>, drop: spec_fn(A) -> bool, n: int)
    requires
        0 <= n <= s.len(),
        forall|i: int| n <= i < s.len() ==> drop(#[trigger] s[i]),
        n > 0 ==> !drop(s[n - 1]),
    ensures
        trim_end(s, drop) == s.subrange(0, n),
    decreases s.len(),
{
    if n == s.len() {
        assert(s.subrange(0, n) =~= s);
    } else {
        let t = s.drop_last();
        lemma_trim_end(t, drop, n);
        assert(t.subrange(0, n) =~= s.subrange(0, n));
    }
}

/// The suffix from `n` on is `trim_start` once everything before `n` is
/// dropped and the item at `n` is kept.
pub proof fn lemma_trim_start<A>(s: Seq<A>, drop: spec_fn(A) -> bool, n: int)
    requires
        0 <= n <= s.len(),
        forall|i: int| 0 <= i < n ==> drop(#[trigger] s[i]),
        n < s.len() ==> !drop(s[n]),
    ensures
        trim_start(s, drop) == s.subrange(n, s.len() as int),
    decreases n,
{
    if n == 0 {
        assert(s.subrange(0, s.len() as int) =~= s);
    } else {
        let t = s.drop_first();
        assert forall|i: int| 0 <= i < n - 1 implies drop(#[trigger] t[i]) by {
            assert(t[i] == s[i + 1]);
        }
        lemma_trim_start(t, drop, n - 1);
        assert(t.subrange(n - 1, t.len() as int) =~= s.subrange(n, s.len() as int));
    }
}

/// The NUL byte, which pads fixed-width text fields.
pub open spec fn is_nul(b: u8) -> bool {
    b == 0
}

/// A byte that is one character of white space: space, tab, line feed,
/// vertical tab, form feed or carriage return.
pub open spec fn is_blank(b: u8) -> bool {
    b == 0x20 || (0x09 <= b && b <= 0x0d)
}

/// Two bytes that encode one character of white space in UTF-8: U+0085 or
/// U+00A0.
pub open spec fn is_blank_pair(a: u8, b: u8) -> bool {
    a == 0xc2 && (b == 0x85 || b == 0xa0)
}

/// Three bytes that encode one character of white space in UTF-8: U+1680,
/// U+2000 to U+200A, U+2028, U+2029, U+202F, U+205F or U+3000.
pub open spec fn is_blank_triple(a: u8, b: u8, c: u8) -> bool {
    ||| (a == 0xe1 && b == 0x9a && c == 0x80)
    ||| (a == 0xe2 && b == 0x80 && ((0x80 <= c && c <= 0x8a) || c == 0xa8 || c == 0xa9 || c
        == 0xaf))
    ||| (a == 0xe2 && b == 0x81 && c == 0x9f)
    ||| (a == 0xe3 && b == 0x80 && c == 0x80)
}

/// How many bytes the character of white space takes that the bytes end
/// with; 0 where they end with none. White space is what Unicode calls white
/// space, which takes one, two or three bytes in UTF-8.
pub open spec fn blank_suffix_len(s: Seq<u8>) -> int {
    let n = s.len() as int;
    if n >= 1 && is_blank(s[n - 1]) {
        1
    } else if n >= 2 && is_blank_pair(s[n - 2], s[n - 1]) {
        2
    } else if n >= 3 && is_blank_triple(s[n - 3], s[n - 2], s[n - 1]) {
        3
    } else {
        0
    }
}

/// The bytes without the white space that ends them.
pub open spec fn strip_blank(s: Seq<u8>) -> Seq<u8>
    decreases s.len(),
{
    if blank_suffix_len(s) > 0 {
        strip_blank(s.subrange(0, s.len() - blank_suffix_len(s)))
    } else {
        s
    }
}

/// A text field without its NUL padding.
pub open spec fn strip_nul(s: Seq<u8>) -> Seq<u8> {
    trim_end(s, |b: u8| is_nul(b))
}

/// A text field without its NUL padding and then without the white space
/// that ends it.
pub open spec fn strip_nul_and_blank(s: Seq<u8>) -> Seq<u8> {
    strip_blank(strip_nul(s))
}

/// The field without the NUL bytes that end it.
pub fn strip_trailing_nul(bytes: &[u8]) -> (r: &[u8])
    ensures
        r@ == strip_nul(bytes@),
{
    let mut n: usize = bytes.len();
    while n > 0 && bytes[n - 1] == 0
        invariant
            n <= bytes@.len(),
            forall|i: int| n <= i < bytes@.len() ==> is_nul(#[trigger] bytes@[i]),
        decreases n,
    {
        n -= 1;
    }
    proof {
        lemma_trim_end(bytes@, |b: u8| is_nul(b), n as int);
    }
    slice_subrange(bytes, 0, n)
}

/// How many bytes the character of white space takes that the first `n`
/// bytes end with.
fn blank_suffix(bytes: &[u8], n: usize) -> (r: usize)
    requires
        n <= bytes.len(),
    ensures
        r == blank_suffix_len(bytes@.subrange(0, n as int)),
        r <= n,
        r <= 3,
{
    let ghost s = bytes@.subrange(0, n as int);
    if n >= 1 {
        assert(s[n - 1] == bytes@[n - 1]);
        let c = bytes[n - 1];
        if c == 0x20 || (0x09 <= c && c <= 0x0d) {
            return 1;
        }
        if n >= 2 {
            assert(s[n - 2] == bytes@[n - 2]);
            let b = bytes[n - 2];
            if b == 0xc2 && (c == 0x85 || c == 0xa0) {
                return 2;
            }
            if n >= 3 {
                assert(s[n - 3] == bytes@[n - 3]);
                let a = bytes[n - 3];
                if (a == 0xe1 && b == 0x9a && c == 0x80) || (a == 0xe2 && b == 0x80 && ((0x80 <= c
                    && c <= 0x8a) || c == 0xa8 || c == 0xa9 || c == 0xaf)) || (a == 0xe2 && b
                    == 0x81 && c == 0x9f) || (a == 0xe3 && b == 0x80 && c == 0x80) {
                    return 3;
                }
            }
        }
    }
    0
}

/// The field without the white space that ends it.
pub fn strip_trailing_blank(bytes: &[u8]) -> (r: &[u8])
    ensures
        r@ == strip_blank(bytes@),
{
    let mut n: usize = bytes.len();
    assert(bytes@.subrange(0, n as int) =~= bytes@);
    let mut k = blank_suffix(bytes, n);
    while k > 0
        invariant
            n <= bytes@.len(),
            k <= n,
            k == blank_suffix_len(bytes@.subrange(0, n as int)),
            strip_blank(bytes@) == strip_blank(bytes@.subrange(0, n as int)),
        decreases n,
    {
        assert(bytes@.subrange(0, n as int).subrange(0, n - k) =~= bytes@.subrange(0, n - k));
        n -= k;
        k = blank_suffix(bytes, n);
    }
    slice_subrange(bytes, 0, n)
}

/// The text that `String::from_utf8_lossy` of the standard library decodes from
/// `bytes`: the characters they encode in UTF-8, with U+FFFD for each part that
/// is no valid encoding.
pub uninterp spec fn utf8_lossy(bytes: Seq<u8>) -> Seq<char>;

/// The characters of bytes that are all ASCII.
pub open spec fn ascii_text(bytes: Seq<u8>) -> Seq<char> {
    Seq::new(bytes.len(), |i: int| bytes[i] as char)
}

/// Whether every byte is below 128.
pub open spec fn is_ascii_bytes(bytes: Seq<u8>) -> bool {
    forall|i: int| 0 <= i < bytes.len() ==> #[trigger] bytes[i] < 128
}

/// Whether `text` is what `bytes` decode to: their lossy decoding, which for
/// ASCII bytes is the bytes themselves, each as one character.
pub open spec fn is_text_of(text: Seq<char>, bytes: Seq<u8>) -> bool {
    &&& text == utf8_lossy(bytes)
    &&& is_ascii_bytes(bytes) ==> text == ascii_text(bytes)
}

/// Calls `String::from_utf8_lossy` of the standard library, whose result is a
/// function of the bytes alone; of valid UTF-8 it is the decoded text itself.
#[verifier::external_body]
fn lossy_text(bytes: &[u8]) -> (r: String)
    ensures
        r@ == utf8_lossy(bytes@),
        valid_utf8(bytes@) ==> r@ == decode_utf8(bytes@),
{
    String::from_utf8_lossy(bytes).into_owned()
}

/// ASCII bytes are valid UTF-8 and decode to themselves.
pub proof fn lemma_ascii_decodes_to_itself(bytes: Seq<u8>)
    requires
        is_ascii_bytes(bytes),
    ensures
        valid_utf8(bytes),
        decode_utf8(bytes) == ascii_text(bytes),
{
    let chars = ascii_text(bytes);
    assert(is_ascii_chars(chars)) by {
        assert forall|i: int| 0 <= i < chars.len() implies '\0' <= #[trigger] chars[i]
            <= '\u{7f}' by {
            assert(bytes[i] < 128);
        }
    }
    is_ascii_chars_encode_utf8(chars);
    assert(encode_utf8(chars) =~= bytes) by {
        assert forall|i: int| 0 <= i < bytes.len() implies encode_utf8(chars)[i] == bytes[i] by {
            assert(chars[i] as u8 == encode_utf8(chars)[i]);
            assert(bytes[i] < 128);
        }
    }
    encode_utf8_valid_utf8(chars);
    encode_utf8_decode_utf8(chars);
}

/// Whether every byte is below 128.
pub fn all_ascii(bytes: &[u8]) -> (r: bool)
    ensures
        r == is_ascii_bytes(bytes@),
{
    let mut i: usize = 0;
    while i < bytes.len()
        invariant
            i <= bytes@.len(),
            forall|j: int| 0 <= j < i ==> #[trigger] bytes@[j] < 128,
        decreases bytes@.len() - i,
    {
        if bytes[i] >= 128 {
            return false;
        }
        i += 1;
    }
    true
}

/// Decodes the bytes of a text field.
pub fn decode_text(bytes: &[u8]) -> (r: String)
    ensures
        is_text_of(r@, bytes@),
{
    proof {
        if is_ascii_bytes(bytes@) {
            lemma_ascii_decodes_to_itself(bytes@);
        }
    }
    lossy_text(bytes)
}

} // verus!
