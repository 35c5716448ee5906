//! Standard base64 (RFC 4648, section 4, with padding): what the encoder
//! returns, what a strict decoder accepts, and that decoding undoes encoding.

use vstd::prelude::*;

verus! {

/// The character that stands for the six-bit value `v`.
pub open spec fn digit(v: int) -> char {
    if v < 26 {
        ((65 + v) as u8) as char
    } else if v < 52 {
        ((97 + v - 26) as u8) as char
    } else if v < 62 {
        ((48 + v - 52) as u8) as char
    } else if v == 62 {
        '+'
    } else {
        '/'
    }
}

/// The six-bit value that `c` stands for, if `c` is in the alphabet.
pub open spec fn value(c: char) -> Option<int> {
    if 'A' <= c && c <= 'Z' {
        Some((c as u8) - 65)
    } else if 'a' <= c && c <= 'z' {
        Some((c as u8) - 97 + 26)
    } else if '0' <= c && c <= '9' {
        Some((c as u8) - 48 + 52)
    } else if c == '+' {
        Some(62)
    } else if c == '/' {
        Some(63)
    } else {
        None
    }
}

/// The characters for a last group of one byte.
pub open spec fn encode_one(a: int) -> Seq<char> {
    seq![digit(a / 4), digit(a % 4 * 16), '=', '=']
}

/// The characters for a last group of two bytes.
pub open spec fn encode_two(a: int, b: int) -> Seq<char> {
    seq![digit(a / 4), digit(a % 4 * 16 + b / 16), digit(b % 16 * 4), '=']
}

/// The characters for a group of three bytes.
pub open spec fn encode_three(a: int, b: int, c: int) -> Seq<char> {
    seq![digit(a / 4), digit(a % 4 * 16 + b / 16), digit(b % 16 * 4 + c / 64), digit(c % 64)]
}

/// The encoding of `data`: four characters for every three bytes, and a last
/// group of one or two bytes filled up with `=`.
pub open spec fn encode(data: Seq<u8>) -> Seq<char>
    decreases data.len(),
{
    if data.len() == 0 {
        Seq::empty()
    } else if data.len() == 1 {
        encode_one(data[0] as int)
    } else if data.len() == 2 {
        encode_two(data[0] as int, data[1] as int)
    } else {
        encode_three(data[0] as int, data[1] as int, data[2] as int) + encode(data.skip(3))
    }
}

/// The bytes that `text` encodes. `None` where `text` is not the encoding of
/// anything: a length that is no multiple of four, a character outside the
/// alphabet, padding anywhere but at the end, or unused bits that are set.
pub open spec fn decode(text: Seq<char>) -> Option<Seq<u8>>
    decreases text.len(),
{
    if text.len() == 0 {
        Some(Seq::empty())
    } else if text.len() < 4 {
        None
    } else if value(text[0]) is None || value(text[1]) is None {
        None
    } else {
        let a = value(text[0])->0;
        let b = value(text[1])->0;
        let first = (a * 4 + b / 16) as u8;
        if text.len() == 4 && text[2] == '=' && text[3] == '=' {
            if b % 16 == 0 {
                Some(seq![first])
            } else {
                None
            }
        } else if value(text[2]) is None {
            None
        } else {
            let c = value(text[2])->0;
            let second = (b % 16 * 16 + c / 4) as u8;
            if text.len() == 4 && text[3] == '=' {
                if c % 4 == 0 {
                    Some(seq![first, second])
                } else {
                    None
                }
            } else if value(text[3]) is None {
                None
            } else {
                let d = value(text[3])->0;
                let third = (c % 4 * 64 + d) as u8;
                match decode(text.skip(4)) {
                    Some(rest) => Some(seq![first, second, third] + rest),
                    None => None,
                }
            }
        }
    }
}

/// The length of the encoding of `n` bytes.
pub open spec fn encoded_len(n: nat) -> nat {
    4 * ((n + 2) / 3)
}

/// Whether the encoding of `n` bytes fits in one allocation.
pub open spec fn encodable(n: nat) -> bool {
    encoded_len(n) <= isize::MAX
}

/// Every six-bit value is read back from its digit.
pub proof fn lemma_value_of_digit(v: int)
    requires
        0 <= v < 64,
    ensures
        value(digit(v)) == Some(v),
        digit(v) != '=',
{
}

/// The encoding of `n` bytes has `encoded_len(n)` characters.
pub proof fn lemma_encode_len(data: Seq<u8>)
    ensures
        encode(data).len() == encoded_len(data.len()),
    decreases data.len(),
{
    if data.len() >= 3 {
        lemma_encode_len(data.skip(3));
    }
}

/// The encoding is written with the sixty-four digits and `=` alone.
pub proof fn lemma_encode_alphabet(data: Seq<u8>, i: int)
    requires
        0 <= i < encode(data).len(),
    ensures
        value(encode(data)[i]) is Some || encode(data)[i] == '=',
    decreases data.len(),
{
    if data.len() > 0 {
        let a = data[0] as int;
        lemma_value_of_digit(a / 4);
        if data.len() == 1 {
            lemma_value_of_digit(a % 4 * 16);
        } else {
            let b = data[1] as int;
            lemma_value_of_digit(a % 4 * 16 + b / 16);
            if data.len() == 2 {
                lemma_value_of_digit(b % 16 * 4);
            } else {
                let c = data[2] as int;
                lemma_value_of_digit(b % 16 * 4 + c / 64);
                lemma_value_of_digit(c % 64);
                if i >= 4 {
                    lemma_encode_alphabet(data.skip(3), i - 4);
                }
            }
        }
    }
}

/// Decoding undoes encoding: the strict decoder reads back from the encoding
/// of `data` exactly `data`.
pub proof fn lemma_decode_encode(data: Seq<u8>)
    ensures
        decode(encode(data)) == Some(data),
    decreases data.len(),
{
    let text = encode(data);
    if data.len() == 0 {
        assert(data =~= Seq::empty());
    } else {
        let a = data[0] as int;
        lemma_value_of_digit(a / 4);
        if data.len() == 1 {
            lemma_value_of_digit(a % 4 * 16);
            assert(data =~= seq![data[0]]);
        } else {
            let b = data[1] as int;
            lemma_value_of_digit(a % 4 * 16 + b / 16);
            if data.len() == 2 {
                lemma_value_of_digit(b % 16 * 4);
                assert(data =~= seq![data[0], data[1]]);
            } else {
                let c = data[2] as int;
                let rest = data.skip(3);
                lemma_value_of_digit(b % 16 * 4 + c / 64);
                lemma_value_of_digit(c % 64);
                lemma_decode_encode(rest);
                assert(text.skip(4) =~= encode(rest));
                assert(data =~= seq![data[0], data[1], data[2]] + rest);
            }
        }
    }
}

/// `base64::Engine::encode` on the engine `base64::prelude::BASE64_STANDARD`:
/// the standard alphabet with padding, so the text that `encode` describes.
/// The call panics where the length of the text overflows, which `requires`
/// leaves out.
#[verifier::external_body]
fn base64_standard(data: &[u8]) -> (text: String)
    requires
        encodable(data@.len()),
    ensures
        text@ == encode(data@),
{
    base64::Engine::encode(&base64::prelude::BASE64_STANDARD, data)
}

/// Encodes `data`, or returns `None` where the text would be too long to
/// allocate.
pub fn to_base64(data: &[u8]) -> (text: Option<String>)
    ensures
        encodable(data@.len()) ==> text is Some && text->0@ == encode(data@),
        !encodable(data@.len()) ==> text is None,
{
    let n = data.len();
    let groups = n / 3 + (if n % 3 == 0 { 0 } else { 1 });
    if groups <= (isize::MAX as usize) / 4 {
        Some(base64_standard(data))
    } else {
        None
    }
}

} // verus!
