//! Unicode white space and trimming of transcription text.
use vstd::prelude::*;

verus! {

broadcast use vstd::string::group_string_axioms;

/// The characters with the Unicode `White_Space` property, which is the set
/// that `char::is_whitespace` and `str::trim` use.
pub open spec fn is_white_space(c: char) -> bool {
    let u = c as u32;
    ||| 0x9 <= u <= 0xd
    ||| u == 0x20
    ||| u == 0x85
    ||| u == 0xa0
    ||| u == 0x1680
    ||| 0x2000 <= u <= 0x200a
    ||| u == 0x2028
    ||| u == 0x2029
    ||| u == 0x202f
    ||| u == 0x205f
    ||| u == 0x3000
}

/// Number of white space characters at the start of `s`.
pub open spec fn leading_white_space(s: Seq<char>) -> nat
    decreases s.len(),
{
    if s.len() > 0 && is_white_space(s[0]) {
        1 + leading_white_space(s.drop_first())
    } else {
        0
    }
}

/// Number of white space characters at the end of `s`.
pub open spec fn trailing_white_space(s: Seq<char>) -> nat
    decreases s.len(),
{
    if s.len() > 0 && is_white_space(s.last()) {
        1 + trailing_white_space(s.drop_last())
    } else {
        0
    }
}

/// `s` without its leading and trailing white space.
pub open spec fn trim_white_space(s: Seq<char>) -> Seq<char> {
    let t = s.skip(leading_white_space(s) as int);
    t.take(t.len() - trailing_white_space(t))
}

/// Whether `c` is Unicode white space.
pub fn is_white_space_char(c: char) -> (res: bool)
    ensures
        res == is_white_space(c),
{
    let u = c as u32;
    (0x9 <= u && u <= 0xd) || u == 0x20 || u == 0x85 || u == 0xa0 || u == 0x1680 || (0x2000 <= u
        && u <= 0x200a) || u == 0x2028 || u == 0x2029 || u == 0x202f || u == 0x205f || u == 0x3000
}

proof fn lemma_leading_white_space(s: Seq<char>)
    ensures
        leading_white_space(s) <= s.len(),
        forall|k: int| 0 <= k < leading_white_space(s) ==> is_white_space(#[trigger] s[k]),
        leading_white_space(s) < s.len() ==> !is_white_space(s[leading_white_space(s) as int]),
    decreases s.len(),
{
    if s.len() > 0 && is_white_space(s[0]) {
        let r = s.drop_first();
        lemma_leading_white_space(r);
        assert forall|k: int| 0 <= k < leading_white_space(s) implies is_white_space(
            #[trigger] s[k],
        ) by {
            if k > 0 {
                assert(s[k] == r[k - 1]);
            }
        }
        if leading_white_space(s) < s.len() {
            assert(s[leading_white_space(s) as int] == r[leading_white_space(r) as int]);
        }
    }
}

proof fn lemma_trailing_white_space(s: Seq<char>)
    ensures
        trailing_white_space(s) <= s.len(),
        forall|k: int|
            s.len() - trailing_white_space(s) <= k < s.len() ==> is_white_space(#[trigger] s[k]),
        trailing_white_space(s) < s.len() ==> !is_white_space(
            s[s.len() - trailing_white_space(s) - 1],
        ),
    decreases s.len(),
{
    if s.len() > 0 && is_white_space(s.last()) {
        let r = s.drop_last();
        lemma_trailing_white_space(r);
        assert forall|k: int|
            s.len() - trailing_white_space(s) <= k < s.len() implies is_white_space(
            #[trigger] s[k],
        ) by {
            if k < s.len() - 1 {
                assert(s[k] == r[k]);
            }
        }
        if trailing_white_space(s) < s.len() {
            assert(s[s.len() - trailing_white_space(s) - 1] == r[r.len() - trailing_white_space(
                r,
            ) - 1]);
        }
    }
}

/// Trimming keeps a run of `s` whose ends are not white space, and drops
/// only white space before and after it.
pub proof fn lemma_trim_white_space_ends(s: Seq<char>)
    ensures
        ({
            let t = trim_white_space(s);
            let i = leading_white_space(s) as int;
            &&& i + t.len() <= s.len()
            &&& t == s.subrange(i, i + t.len())
            &&& forall|k: int| 0 <= k < i ==> is_white_space(#[trigger] s[k])
            &&& forall|k: int| i + t.len() <= k < s.len() ==> is_white_space(#[trigger] s[k])
            &&& t.len() > 0 ==> !is_white_space(t[0]) && !is_white_space(t.last())
        }),
{
    let i = leading_white_space(s) as int;
    lemma_leading_white_space(s);
    let u = s.skip(i);
    lemma_trailing_white_space(u);
    let t = trim_white_space(s);
    assert(t =~= s.subrange(i, i + t.len()));
    assert forall|k: int| i + t.len() <= k < s.len() implies is_white_space(#[trigger] s[k]) by {
        assert(s[k] == u[k - i]);
    }
    if t.len() > 0 {
        assert(t[0] == s[i]);
        assert(t.last() == u[u.len() - trailing_white_space(u) - 1]);
    }
}

/// Trimming twice is trimming once.
pub proof fn lemma_trim_idempotent(s: Seq<char>)
    ensures
        trim_white_space(trim_white_space(s)) == trim_white_space(s),
{
    let t = trim_white_space(s);
    lemma_trim_white_space_ends(s);
    if t.len() == 0 {
        assert(trim_white_space(t) =~= t);
    } else {
        assert(leading_white_space(t) == 0);
        assert(t.skip(0) =~= t);
        assert(trailing_white_space(t) == 0);
        assert(trim_white_space(t) =~= t);
    }
}

/// White space is exactly the Unicode `White_Space` set: U+0009 to U+000D,
/// U+0020, U+0085, U+00A0, U+1680, U+2000 to U+200A, U+2028, U+2029,
/// U+202F, U+205F and U+3000; in particular no printable ASCII character.
pub proof fn lemma_white_space_code_points(c: char)
    ensures
        is_white_space(c) <==> (9 <= c as u32 <= 13 || c as u32 == 32 || c as u32 == 133 || c as u32
            == 160 || c as u32 == 5760 || 8192 <= c as u32 <= 8202 || c as u32 == 8232 || c as u32
            == 8233 || c as u32 == 8239 || c as u32 == 8287 || c as u32 == 12288),
        33 <= c as u32 <= 126 ==> !is_white_space(c),
{
}

/// A text whose first and last characters are not Unicode white space is
/// left as it is by trimming; in particular one that begins and ends with
/// printable ASCII characters (letters, digits, punctuation).
pub proof fn lemma_trim_keeps_text(s: Seq<char>)
    ensures
        s.len() > 0 && !is_white_space(s[0]) && !is_white_space(s.last()) ==> trim_white_space(s)
            == s,
        s.len() > 0 && 33 <= s[0] as u32 <= 126 && 33 <= s.last() as u32 <= 126
            ==> trim_white_space(s) == s,
{
    if s.len() > 0 && !is_white_space(s[0]) && !is_white_space(s.last()) {
        assert(leading_white_space(s) == 0);
        assert(s.skip(0) =~= s);
        assert(trailing_white_space(s) == 0);
        assert(trim_white_space(s) =~= s);
    }
}

/// Copies the characters of `s` into a vector.
fn chars_of(s: &str) -> (res: Vec<char>)
    ensures
        res@ == s@,
{
    let mut out: Vec<char> = Vec::new();
    for c in it: s.chars()
        invariant
            it.seq() == s@,
            out@ == it.seq().take(it.index() as int),
    {
        out.push(c);
    }
    assert(out@ =~= s@);
    out
}

/// Returns `s` with leading and trailing Unicode white space removed, as
/// `str::trim` does.
pub fn trim_white_space_str(s: &str) -> (res: String)
    ensures
        res@ == trim_white_space(s@),
{
    let chars = chars_of(s);
    let n = chars.len();
    let ghost cs = chars@;
    let mut i: usize = 0;
    assert(cs.skip(0) =~= cs);
    while i < n && is_white_space_char(chars[i])
        invariant
            cs == chars@,
            n == cs.len(),
            i <= n,
            leading_white_space(cs) == i + leading_white_space(cs.skip(i as int)),
        decreases n - i,
    {
        assert(cs.skip(i as int).drop_first() =~= cs.skip(i + 1));
        i = i + 1;
    }
    assert(leading_white_space(cs.skip(i as int)) == 0);
    let ghost t = cs.skip(i as int);
    let mut j: usize = n;
    assert(t =~= cs.subrange(i as int, j as int));
    while j > i && is_white_space_char(chars[j - 1])
        invariant
            cs == chars@,
            n == cs.len(),
            i <= j <= n,
            t == cs.skip(i as int),
            trailing_white_space(t) == (n - j) + trailing_white_space(cs.subrange(i as int, j as int)),
        decreases j,
    {
        assert(cs.subrange(i as int, j as int).drop_last() =~= cs.subrange(i as int, j - 1));
        j = j - 1;
    }
    assert(trailing_white_space(cs.subrange(i as int, j as int)) == 0);
    assert(t.take(t.len() - trailing_white_space(t)) =~= cs.subrange(i as int, j as int));
    let sub = s.substring_char(i, j);
    String::from_str(sub)
}

} // verus!
