//! The text form in which session descriptions are exchanged: one line of base64 over UTF-8.

use std::string::FromUtf8Error;
use vstd::prelude::*;
use vstd::utf8::*;

verus! {

/// Why a text is not base64.
#[derive(Debug, Clone, Copy, PartialEq, Eq, Structural)]
pub enum Base64Error {
    /// The byte at the offset is no base64 symbol.
    InvalidByte(usize, u8),
    /// The number of symbols is impossible.
    InvalidLength,
    /// The last symbol, at the offset, carries bits that belong to no byte.
    InvalidLastSymbol(usize, u8),
}

/// `std::string::FromUtf8Error`, carried through as it is.
#[verifier::external_type_specification]
#[verifier::external_body]
pub struct ExFromUtf8Error(FromUtf8Error);

/// Why [`decode`] gave no text.
#[derive(Debug)]
pub enum DecodeError {
    /// The input is not base64.
    Base64(Base64Error),
    /// The decoded bytes are not UTF-8.
    Utf8(FromUtf8Error),
}

/// The bytes that a `FromUtf8Error` is about, which `FromUtf8Error::as_bytes` gives back.
pub uninterp spec fn utf8_error_bytes(error: FromUtf8Error) -> Seq<u8>;

/// What a [`DecodeError`] says of the input. A `FromUtf8Error` is known by its bytes, which decide
/// where they are no UTF-8.
pub enum DecodeFault {
    Base64(Base64Error),
    Utf8(Seq<u8>),
}

impl View for DecodeError {
    type V = DecodeFault;

    open spec fn view(&self) -> DecodeFault {
        match *self {
            DecodeError::Base64(e) => DecodeFault::Base64(e),
            DecodeError::Utf8(e) => DecodeFault::Utf8(utf8_error_bytes(e)),
        }
    }
}

/// The error of `base64::decode` for a text that it refuses.
pub uninterp spec fn base64_fault(text: Seq<char>) -> Base64Error;

/// The symbols of the standard base64 alphabet.
pub open spec fn is_base64_char(c: char) -> bool {
    ||| 'A' <= c <= 'Z'
    ||| 'a' <= c <= 'z'
    ||| '0' <= c <= '9'
    ||| c == '+'
    ||| c == '/'
}

/// Nothing but base64 symbols, in particular one line, with so many padding signs at its end and
/// none before.
pub open spec fn is_base64_text(text: Seq<char>, padding: nat) -> bool {
    forall|i: int|
        0 <= i < text.len() ==> if i < text.len() - padding {
            is_base64_char(#[trigger] text[i])
        } else {
            text[i] == '='
        }
}

/// The number of symbols in the padded base64 form of `n` bytes.
pub open spec fn base64_len(n: nat) -> nat {
    4 * ((n + 2) / 3)
}

/// How many of these are padding signs.
pub open spec fn base64_padding(n: nat) -> nat {
    ((3 - n % 3) % 3) as nat
}

/// The symbol for six bits.
pub open spec fn base64_symbol(bits: int) -> char {
    if bits < 26 {
        ('A' as int + bits) as char
    } else if bits < 52 {
        ('a' as int + (bits - 26)) as char
    } else if bits < 62 {
        ('0' as int + (bits - 52)) as char
    } else if bits == 62 {
        '+'
    } else {
        '/'
    }
}

/// The byte at a place, and zero behind the last one.
pub open spec fn byte_or_zero(bytes: Seq<u8>, i: int) -> int {
    if i < bytes.len() {
        bytes[i] as int
    } else {
        0
    }
}

/// The `i`-th six bits of the bytes: four times six for every three bytes.
pub open spec fn six_bits(bytes: Seq<u8>, i: int) -> int {
    let first = byte_or_zero(bytes, i / 4 * 3);
    let second = byte_or_zero(bytes, i / 4 * 3 + 1);
    let third = byte_or_zero(bytes, i / 4 * 3 + 2);
    if i % 4 == 0 {
        first / 4
    } else if i % 4 == 1 {
        first % 4 * 16 + second / 16
    } else if i % 4 == 2 {
        second % 16 * 4 + third / 64
    } else {
        third % 64
    }
}

/// The padded base64 form of the bytes: six bits a symbol, and the padding sign where no bit is left.
pub open spec fn base64_encoded(bytes: Seq<u8>) -> Seq<char> {
    Seq::new(
        base64_len(bytes.len()),
        |i: int|
            if 6 * i < 8 * bytes.len() {
                base64_symbol(six_bits(bytes, i))
            } else {
                '='
            },
    )
}

/// The text stands for these bytes: it is their base64 form, of which the padding, or a part of it,
/// may be left out.
pub open spec fn stands_for(text: Seq<char>, bytes: Seq<u8>) -> bool {
    &&& 8 * bytes.len() <= 6 * text.len()
    &&& text.len() <= base64_len(bytes.len())
    &&& text == base64_encoded(bytes).take(text.len() as int)
}

/// The text stands for some bytes.
pub open spec fn is_base64(text: Seq<char>) -> bool {
    exists|bytes: Seq<u8>| #[trigger] stands_for(text, bytes)
}

/// The bytes that a text stands for, or why there are none.
pub open spec fn base64_decoded(text: Seq<char>) -> Result<Seq<u8>, Base64Error> {
    if is_base64(text) {
        Ok(choose|bytes: Seq<u8>| #[trigger] stands_for(text, bytes))
    } else {
        Err(base64_fault(text))
    }
}

proof fn lemma_symbols_differ(a: int, b: int)
    requires
        0 <= a < 64,
        0 <= b < 64,
        base64_symbol(a) == base64_symbol(b),
    ensures
        a == b,
{
}

/// A text stands for one sequence of bytes at most.
pub proof fn lemma_stands_for_one(text: Seq<char>, a: Seq<u8>, b: Seq<u8>)
    requires
        stands_for(text, a),
        stands_for(text, b),
    ensures
        a == b,
{
    lemma_not_shorter(text, a, b);
    lemma_not_shorter(text, b, a);
    assert forall|j: int| 0 <= j < a.len() implies a[j] == b[j] by {
        let i = j / 3 * 4 + j % 3;
        lemma_same_bits(text, a, b, i);
        lemma_same_bits(text, a, b, i + 1);
        assert(i / 4 == j / 3 && (i + 1) / 4 == j / 3);
        assert(i % 4 == j % 3 && (i + 1) % 4 == j % 3 + 1);
    }
    assert(a =~= b);
}

proof fn lemma_not_shorter(text: Seq<char>, a: Seq<u8>, b: Seq<u8>)
    requires
        stands_for(text, a),
        stands_for(text, b),
    ensures
        a.len() >= b.len(),
{
    if a.len() < b.len() {
        let i = (4 * a.len() + 2) / 3;
        lemma_base64_text(a);
        lemma_base64_text(b);
        assert(text[i as int] == base64_encoded(a)[i as int]);
        assert(text[i as int] == base64_encoded(b)[i as int]);
    }
}

proof fn lemma_same_bits(text: Seq<char>, a: Seq<u8>, b: Seq<u8>, i: int)
    requires
        stands_for(text, a),
        stands_for(text, b),
        a.len() == b.len(),
        0 <= i,
        6 * i < 8 * a.len(),
    ensures
        six_bits(a, i) == six_bits(b, i),
{
    assert(text[i] == base64_encoded(a)[i]);
    assert(text[i] == base64_encoded(b)[i]);
    lemma_symbols_differ(six_bits(a, i), six_bits(b, i));
}

/// What stands for bytes is decoded to them.
pub proof fn lemma_decoded(text: Seq<char>, bytes: Seq<u8>)
    requires
        stands_for(text, bytes),
    ensures
        base64_decoded(text) == Ok::<Seq<u8>, Base64Error>(bytes),
{
    lemma_stands_for_one(text, bytes, base64_decoded(text)->Ok_0);
}

/// A text of full length that stands for bytes is their base64 form.
pub proof fn lemma_full_length(text: Seq<char>, bytes: Seq<u8>)
    requires
        stands_for(text, bytes),
        text.len() % 4 == 0,
    ensures
        text == base64_encoded(bytes),
{
    assert(text.len() == base64_encoded(bytes).len());
    assert(base64_encoded(bytes).take(text.len() as int) =~= base64_encoded(bytes));
}

/// What is decoded holds base64 symbols and padding signs only.
pub proof fn lemma_base64_is_ascii(text: Seq<char>)
    requires
        is_base64(text),
    ensures
        forall|i: int|
            0 <= i < text.len() ==> is_base64_char(#[trigger] text[i]) || text[i] == '=',
        is_ascii_chars(text),
{
    let bytes = choose|bytes: Seq<u8>| #[trigger] stands_for(text, bytes);
    lemma_base64_text(bytes);
    assert forall|i: int| 0 <= i < text.len() implies is_base64_char(#[trigger] text[i]) || text[i]
        == '=' by {
        assert(text[i] == base64_encoded(bytes)[i]);
    }
}

proof fn lemma_base64_text(bytes: Seq<u8>)
    ensures
        is_base64_text(base64_encoded(bytes), base64_padding(bytes.len())),
{
    let text = base64_encoded(bytes);
    assert forall|i: int| 0 <= i < text.len() implies if i < text.len() - base64_padding(
        bytes.len(),
    ) {
        is_base64_char(#[trigger] text[i])
    } else {
        text[i] == '='
    } by {
        assert(0 <= six_bits(bytes, i) < 64);
    }
}

/// The base64 form of bytes that fill whole groups of three goes on with that of what follows them.
pub proof fn lemma_base64_concat(a: Seq<u8>, c: Seq<u8>)
    requires
        a.len() % 3 == 0,
    ensures
        base64_encoded(a + c) == base64_encoded(a) + base64_encoded(c),
{
    let whole = base64_encoded(a + c);
    let parts = base64_encoded(a) + base64_encoded(c);
    let split = base64_len(a.len()) as int;
    assert(whole.len() == parts.len());
    assert forall|i: int| 0 <= i < whole.len() implies whole[i] == parts[i] by {
        if i < split {
            assert(six_bits(a + c, i) == six_bits(a, i));
        } else {
            assert(i / 4 == (i - split) / 4 + a.len() / 3);
            assert(six_bits(a + c, i) == six_bits(c, i - split));
        }
    }
    assert(whole =~= parts);
}

/// The UTF-8 form of a text goes on with that of what follows it.
pub proof fn lemma_utf8_concat(a: Seq<char>, c: Seq<char>)
    ensures
        encode_utf8(a + c) == encode_utf8(a) + encode_utf8(c),
    decreases a.len(),
{
    if a.len() == 0 {
        assert(a + c =~= c);
    } else {
        lemma_utf8_concat(a.drop_first(), c);
        assert((a + c).drop_first() =~= a.drop_first() + c);
    }
}

/// The base64 form of the text fits into one allocation.
pub open spec fn encodable(text: Seq<char>) -> bool {
    base64_len(encode_utf8(text).len()) <= isize::MAX
}

/// The text that bytes decoded from base64 hold.
pub open spec fn text_in(decoded: Result<Seq<u8>, Base64Error>) -> Result<Seq<char>, DecodeFault> {
    match decoded {
        Ok(bytes) => if valid_utf8(bytes) {
            Ok(decode_utf8(bytes))
        } else {
            Err(DecodeFault::Utf8(bytes))
        },
        Err(e) => Err(DecodeFault::Base64(e)),
    }
}

/// What [`encode`] makes of a text.
pub open spec fn encoded(text: Seq<char>) -> Seq<char> {
    base64_encoded(encode_utf8(text))
}

/// What [`decode`] reads in a text.
pub open spec fn decoded(text: Seq<char>) -> Result<Seq<char>, DecodeFault> {
    text_in(base64_decoded(text))
}

/// `base64::encode` on the text's UTF-8 bytes: the result is their padded base64 form in the standard
/// alphabet. Its buffer has to fit into one allocation.
#[verifier::external_body]
fn base64_encode(text: &str) -> (r: String)
    requires
        encodable(text@),
    ensures
        r@ == base64_encoded(encode_utf8(text@)),
{
    base64::encode(text)
}

/// `base64::decode` on the text's UTF-8 bytes: it succeeds if and only if the text is what
/// `base64::encode` writes for some bytes, with or without its padding, and gives these bytes. The
/// error, variant for variant, is the one that the name stands for.
#[verifier::external_body]
fn base64_decode(text: &str) -> (r: Result<Vec<u8>, Base64Error>)
    ensures
        r is Ok <==> is_base64(text@),
        r matches Ok(bytes) ==> stands_for(text@, bytes@),
        r matches Err(e) ==> e == base64_fault(text@),
{
    match base64::decode(text) {
        Ok(bytes) => Ok(bytes),
        Err(base64::DecodeError::InvalidByte(at, byte)) => Err(Base64Error::InvalidByte(at, byte)),
        Err(base64::DecodeError::InvalidLength) => Err(Base64Error::InvalidLength),
        Err(base64::DecodeError::InvalidLastSymbol(at, byte)) => {
            Err(Base64Error::InvalidLastSymbol(at, byte))
        },
    }
}

/// `String::from_utf8`: the text that the bytes encode, and an error if and only if they are not
/// UTF-8: one about these bytes.
pub assume_specification[ String::from_utf8 ](vec: Vec<u8>) -> (r: Result<String, FromUtf8Error>)
    ensures
        r is Ok <==> valid_utf8(vec@),
        r matches Ok(text) ==> text@ == decode_utf8(vec@),
        r matches Err(e) ==> utf8_error_bytes(e) == vec@,
;

/// Whether the text is short enough for [`encode`].
pub fn is_encodable(b: &str) -> (r: bool)
    ensures
        r == encodable(b@),
{
    let len: usize = b.as_bytes().len();
    len <= isize::MAX as usize / 4 * 3
}

/// The base64 form of a text.
pub fn encode(b: &str) -> (r: String)
    requires
        encodable(b@),
    ensures
        r@ == encoded(b@),
        r@ == base64_encoded(encode_utf8(b@)),
        r@.len() == base64_len(encode_utf8(b@).len()),
        is_base64_text(r@, base64_padding(encode_utf8(b@).len())),
        decoded(r@) matches Ok(text) && text == b@,
{
    proof {
        let bytes = encode_utf8(b@);
        lemma_base64_text(bytes);
        assert(base64_encoded(bytes).take(base64_len(bytes.len()) as int) =~= base64_encoded(
            bytes,
        ));
        lemma_decoded(base64_encoded(bytes), bytes);
        encode_utf8_valid_utf8(b@);
        encode_utf8_decode_utf8(b@);
    }
    base64_encode(b)
}

/// Reads the text that base64 decoding gave, or hands on why there is none.
pub fn read_text(decoded: Result<Vec<u8>, Base64Error>) -> (r: Result<String, DecodeError>)
    ensures
        match decoded {
            Ok(bytes) => match r {
                Ok(text) => valid_utf8(bytes@) && text@ == decode_utf8(bytes@),
                Err(e) => !valid_utf8(bytes@) && e@ == DecodeFault::Utf8(bytes@),
            },
            Err(fault) => r == Err::<String, DecodeError>(DecodeError::Base64(fault)),
        },
{
    match decoded {
        Ok(bytes) => match String::from_utf8(bytes) {
            Ok(text) => Ok(text),
            Err(e) => Err(DecodeError::Utf8(e)),
        },
        Err(e) => Err(DecodeError::Base64(e)),
    }
}

/// Decodes the input from base64. An input that is accepted is the base64 form of the result, up to
/// padding that is left out.
pub fn decode(s: &str) -> (r: Result<String, DecodeError>)
    ensures
        match r {
            Ok(text) => decoded(s@) matches Ok(t) && t == text@,
            Err(e) => decoded(s@) matches Err(f) && f == e@,
        },
        r matches Ok(text) ==> stands_for(s@, encode_utf8(text@)),
        r is Ok ==> is_ascii_chars(s@),
{
    let bytes = base64_decode(s);
    proof {
        if bytes is Ok {
            lemma_decoded(s@, bytes->Ok_0@);
            lemma_base64_is_ascii(s@);
            if valid_utf8(bytes->Ok_0@) {
                decode_utf8_encode_utf8(bytes->Ok_0@);
            }
        }
    }
    read_text(bytes)
}

} // verus!
