use base64::Engine;
use vstd::prelude::*;

verus! {

/// The character that stands for the six-bit value `v` in the standard
/// base64 alphabet of RFC 4648 (`A`-`Z`, `a`-`z`, `0`-`9`, `+`, `/`).
pub open spec fn base64_symbol(v: int) -> char {
    if v < 26 {
        (65 + v) as char
    } else if v < 52 {
        (97 + (v - 26)) as char
    } else if v < 62 {
        (48 + (v - 52)) as char
    } else if v == 62 {
        '+'
    } else {
        '/'
    }
}

/// Standard base64 with padding (RFC 4648, section 4): each group of three
/// bytes gives four symbols; a last group of one or two bytes is padded
/// with `=` up to four symbols.
pub open spec fn base64_standard(data: Seq<u8>) -> Seq<char>
    decreases data.len(),
{
    let b0 = data[0] as int;
    let b1 = data[1] as int;
    let b2 = data[2] as int;
    if data.len() == 0 {
        seq![]
    } else if data.len() == 1 {
        seq![base64_symbol(b0 / 4), base64_symbol((b0 % 4) * 16), '=', '=']
    } else if data.len() == 2 {
        seq![
            base64_symbol(b0 / 4),
            base64_symbol((b0 % 4) * 16 + b1 / 16),
            base64_symbol((b1 % 16) * 4),
            '=',
        ]
    } else {
        seq![
            base64_symbol(b0 / 4),
            base64_symbol((b0 % 4) * 16 + b1 / 16),
            base64_symbol((b1 % 16) * 4 + b2 / 64),
            base64_symbol(b2 % 64),
        ] + base64_standard(data.skip(3))
    }
}

/// The six-bit value of a symbol of the standard base64 alphabet.
pub open spec fn base64_value(c: char) -> int {
    let n = c as int;
    if 65 <= n <= 90 {
        n - 65
    } else if 97 <= n <= 122 {
        n - 97 + 26
    } else if 48 <= n <= 57 {
        n - 48 + 52
    } else if c == '+' {
        62
    } else {
        63
    }
}

/// Reads padded base64 text back into bytes, four symbols at a time: three
/// bytes from a full group, two from a group ending in one `=`, one from a
/// group ending in `==`.
pub open spec fn base64_decoded(text: Seq<char>) -> Seq<u8>
    decreases text.len(),
{
    if text.len() < 4 {
        seq![]
    } else {
        let v0 = base64_value(text[0]);
        let v1 = base64_value(text[1]);
        let v2 = base64_value(text[2]);
        let v3 = base64_value(text[3]);
        let first = (v0 * 4 + v1 / 16) as u8;
        let second = ((v1 % 16) * 16 + v2 / 4) as u8;
        let third = ((v2 % 4) * 64 + v3) as u8;
        let group = if text[2] == '=' {
            seq![first]
        } else if text[3] == '=' {
            seq![first, second]
        } else {
            seq![first, second, third]
        };
        group + base64_decoded(text.skip(4))
    }
}

/// Each six-bit value is read back from its symbol, and no symbol is the
/// padding character.
pub proof fn lemma_base64_symbol_value(v: int)
    requires
        0 <= v < 64,
    ensures
        base64_value(base64_symbol(v)) == v,
        base64_symbol(v) != '=',
{
}

/// Base64 loses nothing: the text of any bytes reads back as those bytes.
pub proof fn lemma_base64_roundtrip(data: Seq<u8>)
    ensures
        base64_decoded(base64_standard(data)) == data,
    decreases data.len(),
{
    if data.len() > 0 {
        let b0 = data[0] as int;
        let b1 = data[1] as int;
        let b2 = data[2] as int;
        let text = base64_standard(data);
        lemma_base64_symbol_value(b0 / 4);
        if data.len() == 1 {
            lemma_base64_symbol_value((b0 % 4) * 16);
            assert(text.len() == 4 && text[2] == '=');
            assert(text.skip(4) =~= Seq::<char>::empty());
            assert(base64_decoded(text.skip(4)) == Seq::<u8>::empty());
            assert(base64_value(text[0]) * 4 + base64_value(text[1]) / 16 == b0);
            assert(base64_decoded(text) =~= data);
        } else if data.len() == 2 {
            lemma_base64_symbol_value((b0 % 4) * 16 + b1 / 16);
            lemma_base64_symbol_value((b1 % 16) * 4);
            assert(text.len() == 4 && text[2] != '=' && text[3] == '=');
            assert(text.skip(4) =~= Seq::<char>::empty());
            assert(base64_decoded(text.skip(4)) == Seq::<u8>::empty());
            assert(base64_value(text[0]) * 4 + base64_value(text[1]) / 16 == b0);
            assert((base64_value(text[1]) % 16) * 16 + base64_value(text[2]) / 4 == b1);
            assert(base64_decoded(text) =~= data);
        } else {
            lemma_base64_symbol_value((b0 % 4) * 16 + b1 / 16);
            lemma_base64_symbol_value((b1 % 16) * 4 + b2 / 64);
            lemma_base64_symbol_value(b2 % 64);
            let rest = data.skip(3);
            lemma_base64_roundtrip(rest);
            let head = seq![
                base64_symbol(b0 / 4),
                base64_symbol((b0 % 4) * 16 + b1 / 16),
                base64_symbol((b1 % 16) * 4 + b2 / 64),
                base64_symbol(b2 % 64),
            ];
            assert(text == head + base64_standard(rest));
            assert(text.skip(4) =~= base64_standard(rest));
            assert(data =~= seq![data[0], data[1], data[2]] + rest);
        }
    }
}

/// Length of the padded base64 text for `n` input bytes.
pub open spec fn base64_len(n: int) -> int {
    4 * ((n + 2) / 3)
}

/// Encodes `data` with `base64::engine::general_purpose::STANDARD`, whose
/// documentation gives it the standard alphabet and padding of RFC 4648:
/// the contract claims the text is `base64_standard(data)`. The crate panics
/// when the encoded length does not fit in `usize`, so such inputs are
/// left out.
#[verifier::external_body]
pub(crate) fn base64_encode(data: &[u8]) -> (res: String)
    requires
        base64_len(data@.len() as int) <= usize::MAX,
    ensures
        res@ == base64_standard(data@),
{
    base64::engine::general_purpose::STANDARD.encode(data)
}

/// The value of one hexadecimal digit, upper or lower case, as an ASCII byte.
pub open spec fn hex_digit_value(c: u8) -> Option<u8> {
    if 48 <= c <= 57 {
        Some((c - 48) as u8)
    } else if 65 <= c <= 70 {
        Some((c - 55) as u8)
    } else if 97 <= c <= 102 {
        Some((c - 87) as u8)
    } else {
        None
    }
}

/// Hexadecimal text decoded two digits to a byte, high digit first; `None`
/// when the text has an odd length or holds a byte that is no hex digit.
pub open spec fn hex_decoded(text: Seq<u8>) -> Option<Seq<u8>> {
    if text.len() % 2 == 0 && forall|i: int| 0 <= i < text.len() ==> #[trigger] hex_digit_value(text[i]) is Some {
        Some(
            Seq::new(
                (text.len() / 2) as nat,
                |i: int|
                    (hex_digit_value(text[2 * i])->0 * 16 + hex_digit_value(text[2 * i + 1])->0) as u8,
            ),
        )
    } else {
        None
    }
}

/// Decodes hexadecimal text with `hex::decode`. Its source checks the
/// length for evenness, then maps each pair of digits (`0-9`, `A-F`,
/// `a-f`) to one byte, high digit first; the contract claims exactly that:
/// success when `hex_decoded` is `Some`, and then those bytes.
#[verifier::external_body]
pub(crate) fn hex_decode(text: &[u8]) -> (res: Result<Vec<u8>, hex::FromHexError>)
    ensures
        res is Ok <==> hex_decoded(text@) is Some,
        res matches Ok(bytes) ==> bytes@ == hex_decoded(text@)->0,
{
    hex::decode(text)
}

/// The error type of `hex::decode`, carried through as it is.
#[verifier::external_type_specification]
#[verifier::external_body]
pub struct ExFromHexError(hex::FromHexError);

} // verus!
