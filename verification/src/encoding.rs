//! Base64 text of binary audio, through the `base64` crate.
use vstd::prelude::*;
use base64::Engine;

verus! {

/// The character of the standard base64 alphabet for the six-bit value `v`.
pub open spec fn sextet_char(v: int) -> char {
    if v < 26 {
        (0x41 + v) as char
    } else if v < 52 {
        (0x61 + v - 26) as char
    } else if v < 62 {
        (0x30 + v - 52) as char
    } else if v == 62 {
        '+'
    } else {
        '/'
    }
}

/// The four characters for the bytes `a`, `b`, `c`, of which the first `n`
/// (one to three) are data; the missing ones are zero and their places
/// after the second character are padded with `=`.
pub open spec fn encode_group(a: int, b: int, c: int, n: int) -> Seq<char> {
    seq![
        sextet_char(a / 4),
        sextet_char((a % 4) * 16 + b / 16),
        if n >= 2 {
            sextet_char((b % 16) * 4 + c / 64)
        } else {
            '='
        },
        if n >= 3 {
            sextet_char(c % 64)
        } else {
            '='
        },
    ]
}

/// Padded base64 in the standard alphabet (RFC 4648): four characters for
/// each group of three bytes, the last group padded with `=`.
pub open spec fn base64_standard(data: Seq<u8>) -> Seq<char>
    decreases data.len(),
{
    if data.len() == 0 {
        Seq::empty()
    } else if data.len() == 1 {
        encode_group(data[0] as int, 0, 0, 1)
    } else if data.len() == 2 {
        encode_group(data[0] as int, data[1] as int, 0, 2)
    } else {
        encode_group(data[0] as int, data[1] as int, data[2] as int, 3) + base64_standard(
            data.skip(3),
        )
    }
}

/// The six-bit value of a character of the standard alphabet.
pub open spec fn sextet_value(c: char) -> int {
    let u = c as int;
    if 0x41 <= u <= 0x5a {
        u - 0x41
    } else if 0x61 <= u <= 0x7a {
        u - 0x61 + 26
    } else if 0x30 <= u <= 0x39 {
        u - 0x30 + 52
    } else if c == '+' {
        62
    } else {
        63
    }
}

/// The bytes of one group of four base64 characters.
pub open spec fn decode_group(g: Seq<char>) -> Seq<u8> {
    let v0 = sextet_value(g[0]);
    let v1 = sextet_value(g[1]);
    let v2 = sextet_value(g[2]);
    let v3 = sextet_value(g[3]);
    let a = (v0 * 4 + v1 / 16) as u8;
    let b = ((v1 % 16) * 16 + v2 / 4) as u8;
    let c = ((v2 % 4) * 64 + v3) as u8;
    if g[2] == '=' {
        seq![a]
    } else if g[3] == '=' {
        seq![a, b]
    } else {
        seq![a, b, c]
    }
}

/// The bytes that padded base64 text stands for.
pub open spec fn base64_decode(s: Seq<char>) -> Seq<u8>
    decreases s.len(),
{
    if s.len() < 4 {
        Seq::empty()
    } else {
        decode_group(s.take(4)) + base64_decode(s.skip(4))
    }
}

proof fn lemma_sextet(v: int)
    requires
        0 <= v < 64,
    ensures
        sextet_value(sextet_char(v)) == v,
        is_base64_char(sextet_char(v)),
        sextet_char(v) != '=',
{
}

proof fn lemma_group_round_trip(a: int, b: int, c: int, n: int)
    requires
        0 <= a < 256,
        0 <= b < 256,
        0 <= c < 256,
        1 <= n <= 3,
        n < 2 ==> b == 0,
        n < 3 ==> c == 0,
    ensures
        decode_group(encode_group(a, b, c, n)) == seq![a as u8, b as u8, c as u8].take(n),
        forall|i: int| 0 <= i < 4 ==> is_base64_char(#[trigger] encode_group(a, b, c, n)[i]),
{
    let v0 = a / 4;
    let v1 = (a % 4) * 16 + b / 16;
    let v2 = (b % 16) * 4 + c / 64;
    let v3 = c % 64;
    assert(0 <= v0 < 64 && 0 <= v1 < 64 && 0 <= v2 < 64 && 0 <= v3 < 64) by (nonlinear_arith)
        requires
            0 <= a < 256,
            0 <= b < 256,
            0 <= c < 256,
            v0 == a / 4,
            v1 == (a % 4) * 16 + b / 16,
            v2 == (b % 16) * 4 + c / 64,
            v3 == c % 64,
    ;
    assert(v0 * 4 + v1 / 16 == a && (v1 % 16) * 16 + v2 / 4 == b && (v2 % 4) * 64 + v3 == c)
        by (nonlinear_arith)
        requires
            0 <= a < 256,
            0 <= b < 256,
            0 <= c < 256,
            v0 == a / 4,
            v1 == (a % 4) * 16 + b / 16,
            v2 == (b % 16) * 4 + c / 64,
            v3 == c % 64,
    ;
    lemma_sextet(v0);
    lemma_sextet(v1);
    lemma_sextet(v2);
    lemma_sextet(v3);
    let g = encode_group(a, b, c, n);
    assert(decode_group(g) =~= seq![a as u8, b as u8, c as u8].take(n));
}

/// Decoding the base64 text of bytes gives the bytes back.
pub proof fn lemma_base64_round_trip(data: Seq<u8>)
    ensures
        base64_decode(base64_standard(data)) == data,
    decreases data.len(),
{
    let n = data.len();
    if n == 0 {
    } else if n <= 3 {
        let a = data[0] as int;
        let b = if n >= 2 {
            data[1] as int
        } else {
            0
        };
        let c = if n >= 3 {
            data[2] as int
        } else {
            0
        };
        lemma_group_round_trip(a, b, c, n as int);
        if n == 3 {
            assert(base64_standard(data.skip(3)) == Seq::<char>::empty()) by {
                assert(data.skip(3).len() == 0);
            }
        }
        let s = base64_standard(data);
        assert(s.take(4) =~= s);
        assert(base64_decode(s.skip(4)) =~= Seq::<u8>::empty());
        assert(base64_decode(s) =~= data);
    } else {
        let rest = data.skip(3);
        lemma_base64_round_trip(rest);
        lemma_group_round_trip(data[0] as int, data[1] as int, data[2] as int, 3);
        let g = encode_group(data[0] as int, data[1] as int, data[2] as int, 3);
        let s = base64_standard(data);
        assert(s.take(4) =~= g);
        assert(s.skip(4) =~= base64_standard(rest));
        assert(base64_decode(s) =~= data);
    }
}

/// The base64 text of `n` bytes holds four characters for each started
/// group of three, all from the standard alphabet or the padding `=`.
pub proof fn lemma_base64_shape(data: Seq<u8>)
    ensures
        base64_standard(data).len() == base64_len(data.len()),
        forall|i: int|
            0 <= i < base64_standard(data).len() ==> is_base64_char(
                #[trigger] base64_standard(data)[i],
            ),
    decreases data.len(),
{
    let n = data.len();
    if n == 0 {
    } else if n <= 3 {
        let b = if n >= 2 {
            data[1] as int
        } else {
            0
        };
        let c = if n >= 3 {
            data[2] as int
        } else {
            0
        };
        lemma_group_round_trip(data[0] as int, b, c, n as int);
        if n == 3 {
            assert(base64_standard(data.skip(3)) == Seq::<char>::empty()) by {
                assert(data.skip(3).len() == 0);
            }
        }
        let s = base64_standard(data);
        assert forall|i: int| 0 <= i < s.len() implies is_base64_char(#[trigger] s[i]) by {
            assert(s[i] == encode_group(data[0] as int, b, c, n as int)[i]);
        }
    } else {
        let rest = data.skip(3);
        lemma_base64_shape(rest);
        assert(4 + 4 * ((n - 3 + 2) / 3) == 4 * ((n + 2) / 3)) by (nonlinear_arith)
            requires
                n > 3,
        ;
        lemma_group_round_trip(data[0] as int, data[1] as int, data[2] as int, 3);
        let g = encode_group(data[0] as int, data[1] as int, data[2] as int, 3);
        let s = base64_standard(data);
        assert forall|i: int| 0 <= i < s.len() implies is_base64_char(#[trigger] s[i]) by {
            if i < 4 {
                assert(s[i] == g[i]);
            } else {
                assert(s[i] == base64_standard(rest)[i - 4]);
            }
        }
    }
}

/// The characters of the standard base64 alphabet, and the padding `=`.
pub open spec fn is_base64_char(c: char) -> bool {
    ||| 'A' <= c <= 'Z'
    ||| 'a' <= c <= 'z'
    ||| '0' <= c <= '9'
    ||| c == '+'
    ||| c == '/'
    ||| c == '='
}

/// Length of the padded base64 text of `n` bytes.
pub open spec fn base64_len(n: nat) -> nat {
    4 * ((n + 2) / 3)
}

/// Whether the padded base64 text of `n` bytes has a length that fits in
/// `usize`.
pub open spec fn base64_input_fits(n: nat) -> bool {
    base64_len(n) <= usize::MAX
}

/// Whether `n` bytes can be base64-encoded.
pub fn base64_fits(n: usize) -> (res: bool)
    ensures
        res == base64_input_fits(n as nat),
{
    let groups = n / 3 + if n % 3 == 0 {
        0
    } else {
        1
    };
    assert((n as nat + 2) / 3 == groups);
    groups <= usize::MAX / 4
}

/// `base64::engine::general_purpose::STANDARD.encode`. Its source encodes
/// each group of three bytes as four characters of the standard alphabet
/// (`A`-`Z`, `a`-`z`, `0`-`9`, `+`, `/`) and pads the last group with `=`
/// (`STANDARD` has padding on); it sizes the output with `encoded_len` and
/// panics only when that size overflows `usize`.
#[verifier::external_body]
pub(crate) fn base64_encode(data: &[u8]) -> (res: String)
    requires
        base64_input_fits(data@.len()),
    ensures
        res@ == base64_standard(data@),
{
    base64::engine::general_purpose::STANDARD.encode(data)
}

} // verus!
