//! JSON text through `serde_json`: quoting strings, and reading the string
//! values found at given paths of a document.
use vstd::prelude::*;

verus! {

/// One step into a JSON value: a member of an object or an element of an
/// array.
pub enum JsonStep {
    Field(String),
    Item(usize),
}

/// The mathematical form of a [`JsonStep`].
pub ghost enum JsonStepView {
    Field(Seq<char>),
    Item(usize),
}

impl View for JsonStep {
    type V = JsonStepView;

    open spec fn view(&self) -> JsonStepView {
        match self {
            JsonStep::Field(name) => JsonStepView::Field(name@),
            JsonStep::Item(i) => JsonStepView::Item(*i),
        }
    }
}

/// A path of steps, as a sequence of step views.
pub open spec fn path_view(path: Vec<JsonStep>) -> Seq<JsonStepView> {
    path@.map_values(|s: JsonStep| s@)
}

/// The paths, as sequences of step views.
pub open spec fn paths_view(paths: Seq<Vec<JsonStep>>) -> Seq<Seq<JsonStepView>> {
    paths.map_values(|p: Vec<JsonStep>| path_view(p))
}

/// An optional string, by its characters.
pub open spec fn opt_str_view(o: Option<String>) -> Option<Seq<char>> {
    match o {
        Some(s) => Some(s@),
        None => None,
    }
}

/// The values read at each path, by their characters.
pub open spec fn fields_view(fields: Seq<Option<String>>) -> Seq<Option<Seq<char>>> {
    fields.map_values(|o: Option<String>| opt_str_view(o))
}

/// The outcome of reading a document, by its characters.
pub open spec fn read_result_view(res: Result<Vec<Option<String>>, String>) -> Result<
    Seq<Option<Seq<char>>>,
    Seq<char>,
> {
    match res {
        Ok(fields) => Ok(fields_view(fields@)),
        Err(message) => Err(message@),
    }
}

/// What `serde_json` makes of `text`, read at each path. Behind this one
/// name stand three outside functions and a walk: `serde_json::from_str`
/// into a `serde_json::Value` (with the `Display` text of
/// `serde_json::Error` when it fails), `Value::get` applied step by step
/// along each path, and `Value::as_str` on what the walk reaches. The result
/// is `Err` with the parser's message when `text` is no JSON document;
/// else, for each path, the string found there (`None` where the path leads
/// nowhere or to a value that is not a string).
pub uninterp spec fn json_string_fields(text: Seq<char>, paths: Seq<Seq<JsonStepView>>) -> Result<
    Seq<Option<Seq<char>>>,
    Seq<char>,
>;

/// Parses `text` with `serde_json::from_str` into a `serde_json::Value`,
/// follows each path with `Value::get` (by key for a field, by position for
/// an item), and takes `Value::as_str` of what it reaches. A parse failure
/// gives the `Display` text of `serde_json::Error`. The contract names the
/// result and states only that one entry comes back for each path.
#[verifier::external_body]
pub(crate) fn read_json_strings(text: &str, paths: &[Vec<JsonStep>]) -> (res: Result<
    Vec<Option<String>>,
    String,
>)
    ensures
        json_string_fields(text@, paths_view(paths@)) == read_result_view(res),
        res is Ok ==> res->Ok_0@.len() == paths@.len(),
{
    let value: serde_json::Value = serde_json::from_str(text).map_err(|e| e.to_string())?;
    let mut fields = Vec::new();
    for path in paths {
        let mut node = Some(&value);
        for step in path {
            node = match step {
                JsonStep::Field(key) => node.and_then(|n| n.get(key.as_str())),
                JsonStep::Item(i) => node.and_then(|n| n.get(*i)),
            };
        }
        fields.push(node.and_then(|n| n.as_str()).map(String::from));
    }
    Ok(fields)
}

/// The lower-case hexadecimal digit of `d` (below 16).
pub open spec fn hex_digit(d: u32) -> char {
    if d < 10 {
        (0x30 + d) as char
    } else {
        (0x61 + d - 10) as char
    }
}

/// How `serde_json` writes `c` inside a JSON string.
pub open spec fn json_escape_char(c: char) -> Seq<char> {
    let u = c as u32;
    if c == '"' {
        seq!['\\', '"']
    } else if c == '\\' {
        seq!['\\', '\\']
    } else if u == 0x8 {
        seq!['\\', 'b']
    } else if u == 0x9 {
        seq!['\\', 't']
    } else if u == 0xa {
        seq!['\\', 'n']
    } else if u == 0xc {
        seq!['\\', 'f']
    } else if u == 0xd {
        seq!['\\', 'r']
    } else if u < 0x20 {
        seq!['\\', 'u', '0', '0', hex_digit(u / 16), hex_digit(u % 16)]
    } else {
        seq![c]
    }
}

/// The characters of `s`, each escaped as in a JSON string.
pub open spec fn json_escaped(s: Seq<char>) -> Seq<char>
    decreases s.len(),
{
    if s.len() == 0 {
        Seq::empty()
    } else {
        json_escaped(s.drop_last()) + json_escape_char(s.last())
    }
}

/// `s` as a JSON string literal.
pub open spec fn json_string_literal(s: Seq<char>) -> Seq<char> {
    seq!['"'] + json_escaped(s) + seq!['"']
}

/// Whether `serde_json` writes `c` unescaped inside a string.
pub open spec fn needs_no_escape(c: char) -> bool {
    c != '"' && c != '\\' && c as u32 >= 0x20
}

/// A string with nothing to escape is written as it is, between quotes.
pub proof fn lemma_plain_json_string(s: Seq<char>)
    requires
        forall|i: int| 0 <= i < s.len() ==> needs_no_escape(#[trigger] s[i]),
    ensures
        json_escaped(s) == s,
        json_string_literal(s) == seq!['"'] + s + seq!['"'],
    decreases s.len(),
{
    if s.len() > 0 {
        let r = s.drop_last();
        assert forall|i: int| 0 <= i < r.len() implies needs_no_escape(#[trigger] r[i]) by {
            assert(r[i] == s[i]);
        }
        lemma_plain_json_string(r);
        assert(needs_no_escape(s[s.len() - 1]));
        assert(json_escape_char(s.last()) == seq![s.last()]);
        assert(json_escaped(s) =~= s);
    } else {
        assert(json_escaped(s) =~= s);
    }
}

#[verifier::external_type_specification]
#[verifier::external_body]
pub struct ExJsonError(serde_json::Error);

/// `serde_json::to_string` on a `str`. Its source writes the string between
/// double quotes, escaping `"` and `\`, the short escapes `\b \t \n \f \r`,
/// other characters below U+0020 as `\u00` and two lower-case hex digits,
/// and everything else as it is; serialising a `str` into a `Vec` does not
/// fail.
#[verifier::external_body]
fn serde_json_to_string(s: &str) -> (res: Result<String, serde_json::Error>)
    ensures
        res is Ok,
        res->Ok_0@ == json_string_literal(s@),
{
    serde_json::to_string(s)
}

/// `s` as a JSON string literal, quoted and escaped.
pub fn json_quote(s: &str) -> (res: String)
    ensures
        res@ == json_string_literal(s@),
{
    match serde_json_to_string(s) {
        Ok(quoted) => quoted,
        Err(_) => {
            proof {
                assert(false);
            }
            String::new()
        },
    }
}

} // verus!
