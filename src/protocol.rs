//! The wire format of the inference server: the JSON body of a generate call,
//! and what is read back from the bodies of its replies.

use vstd::prelude::*;

verus! {

/// A lowercase hexadecimal digit, for `d` below sixteen.
pub open spec fn hex_digit_of(d: nat) -> char {
    seq!['0', '1', '2', '3', '4', '5', '6', '7', '8', '9', 'a', 'b', 'c', 'd', 'e', 'f'][d as int]
}

/// How one character is written inside a JSON string literal: the quote mark and
/// the backslash behind a backslash; backspace, tab, line feed, form feed and
/// carriage return by their short escapes; the other control characters below
/// U+0020 as `\u00` and two hexadecimal digits; every other character as itself.
pub open spec fn escape_of(c: char) -> Seq<char> {
    let n = c as u32;
    if c == '"' {
        seq!['\\', '"']
    } else if c == '\\' {
        seq!['\\', '\\']
    } else if n == 0x8 {
        seq!['\\', 'b']
    } else if n == 0x9 {
        seq!['\\', 't']
    } else if n == 0xa {
        seq!['\\', 'n']
    } else if n == 0xc {
        seq!['\\', 'f']
    } else if n == 0xd {
        seq!['\\', 'r']
    } else if n < 0x20 {
        seq!['\\', 'u', '0', '0', hex_digit_of((n / 16) as nat), hex_digit_of((n % 16) as nat)]
    } else {
        seq![c]
    }
}

/// The characters of `s`, each written as [`escape_of`] gives.
pub open spec fn escaped_of(s: Seq<char>) -> Seq<char>
    decreases s.len(),
{
    if s.len() == 0 {
        Seq::empty()
    } else {
        escaped_of(s.drop_last()) + escape_of(s.last())
    }
}

/// Escaping works character by character: the escape of two texts joined is the
/// two escapes joined.
pub proof fn lemma_escaped_concat(a: Seq<char>, b: Seq<char>)
    ensures
        escaped_of(a + b) == escaped_of(a) + escaped_of(b),
    decreases b.len(),
{
    if b.len() == 0 {
        assert(a + b == a);
        assert(escaped_of(b) == Seq::<char>::empty());
        assert(escaped_of(a) + Seq::<char>::empty() == escaped_of(a));
    } else {
        lemma_escaped_concat(a, b.drop_last());
        assert((a + b).drop_last() == a + b.drop_last());
        assert((a + b).last() == b.last());
        assert(escaped_of(a) + escaped_of(b.drop_last()) + escape_of(b.last()) == escaped_of(a) + (
        escaped_of(b.drop_last()) + escape_of(b.last())));
    }
}

/// A text written as a JSON string literal: its escaped characters between quote marks.
pub open spec fn json_quoted(s: Seq<char>) -> Seq<char> {
    seq!['"'] + escaped_of(s) + seq!['"']
}

/// The `response` string of a JSON object: `None` where the text is not JSON,
/// is not an object, or has no string under that key.
pub uninterp spec fn reply_text_of(body: Seq<char>) -> Option<Seq<char>>;

/// The entries of the `models` array of a JSON object, each as its `name` string
/// where it has one: `None` where the text is not JSON, `Some(None)` where it is
/// JSON without such an array.
pub uninterp spec fn tag_entries_of(body: Seq<char>) -> Option<Option<Seq<Option<Seq<char>>>>>;

/// An optional text as characters.
pub open spec fn opt_view(o: Option<String>) -> Option<Seq<char>> {
    match o {
        Some(s) => Some(s@),
        None => None,
    }
}

/// Optional entries, each an optional text, as characters.
pub open spec fn entries_view(o: Option<Option<Vec<Option<String>>>>) -> Option<
    Option<Seq<Option<Seq<char>>>>,
> {
    match o {
        Some(Some(v)) => Some(Some(v@.map_values(|e: Option<String>| opt_view(e)))),
        Some(None) => Some(None),
        None => None,
    }
}

/// Texts as characters.
pub open spec fn strings_view(v: Seq<String>) -> Seq<Seq<char>> {
    v.map_values(|s: String| s@)
}

/// Relies on serde_json::to_string: a `str` serializes to its JSON string literal,
/// escaped by serde_json's table of escapes, and serializing a `str` does not fail.
#[verifier::external_body]
fn json_string(s: &str) -> (r: String)
    ensures
        r@ == json_quoted(s@),
{
    match serde_json::to_string(s) {
        Ok(t) => t,
        Err(_) => String::new(),
    }
}

/// Relies on serde_json::from_str into a `serde_json::Value`, and on the value's
/// `get` and `as_str`, to read the `response` string of a reply.
#[verifier::external_body]
pub(crate) fn parse_reply_text(body: &str) -> (r: Option<String>)
    ensures
        opt_view(r) == reply_text_of(body@),
{
    match serde_json::from_str::<serde_json::Value>(body) {
        Ok(v) => v.get("response").and_then(|x| x.as_str()).map(String::from),
        Err(_) => None,
    }
}

/// Relies on serde_json::from_str into a `serde_json::Value`, and on the value's
/// `get`, `as_array` and `as_str`, to read the `name` of each entry of `models`.
#[verifier::external_body]
pub(crate) fn parse_tag_entries(body: &str) -> (r: Option<Option<Vec<Option<String>>>>)
    ensures
        entries_view(r) == tag_entries_of(body@),
{
    match serde_json::from_str::<serde_json::Value>(body) {
        Ok(v) => Some(v.get("models").and_then(|m| m.as_array()).map(|a| {
            a.iter().map(|e| e.get("name").and_then(|n| n.as_str()).map(String::from)).collect()
        })),
        Err(_) => None,
    }
}

/// The names that the entries carry, in their order, without the entries that have none.
pub open spec fn names_of(entries: Seq<Option<Seq<char>>>) -> Seq<Seq<char>>
    decreases entries.len(),
{
    if entries.len() == 0 {
        Seq::empty()
    } else {
        let rest = names_of(entries.drop_last());
        match entries.last() {
            Some(n) => rest.push(n),
            None => rest,
        }
    }
}

/// The names that the entries carry, in their order; entries without a name are skipped.
pub fn collect_names(entries: &Vec<Option<String>>) -> (r: Vec<String>)
    ensures
        strings_view(r@) == names_of(entries@.map_values(|e: Option<String>| opt_view(e))),
{
    let ghost ev = entries@.map_values(|e: Option<String>| opt_view(e));
    let mut out: Vec<String> = Vec::new();
    let mut i: usize = 0;
    while i < entries.len()
        invariant
            i <= entries@.len(),
            ev == entries@.map_values(|e: Option<String>| opt_view(e)),
            strings_view(out@) == names_of(ev.subrange(0, i as int)),
        decreases entries.len() - i,
    {
        assert(ev.subrange(0, i + 1).drop_last() == ev.subrange(0, i as int));
        match &entries[i] {
            Some(n) => {
                out.push(n.clone());
                assert(strings_view(out@) == strings_view(out@.drop_last()).push(n@));
            },
            None => {},
        }
        i = i + 1;
    }
    assert(ev.subrange(0, entries@.len() as int) == ev);
    out
}

/// The decimal digits of `n`, most significant first.
pub open spec fn decimal_of(n: nat) -> Seq<char>
    decreases n,
{
    if n < 10 {
        seq![digit_of(n)]
    } else {
        decimal_of(n / 10) + seq![digit_of(n % 10)]
    }
}

/// The decimal digit for `d`, below ten.
pub open spec fn digit_of(d: nat) -> char {
    "0123456789"@[d as int]
}

fn digit(d: u32) -> (r: &'static str)
    requires
        d < 10,
    ensures
        r@ == seq![digit_of(d as nat)],
{
    let digits = "0123456789";
    proof {
        reveal_strlit("0123456789");
    }
    digits.substring_char(d as usize, d as usize + 1)
}

/// Appends the decimal digits of `n` to `out`.
pub fn push_decimal(out: &mut String, n: u32)
    ensures
        final(out)@ == old(out)@ + decimal_of(n as nat),
    decreases n,
{
    if n < 10 {
        out.append(digit(n));
    } else {
        push_decimal(out, n / 10);
        out.append(digit(n % 10));
        assert(final(out)@ == old(out)@ + (decimal_of((n / 10) as nat) + seq![digit_of((n % 10) as nat)]));
    }
}

/// The text of the `options` object up to its closing brace.
pub open spec fn options_of(num_predict: Option<u32>) -> Seq<char> {
    match num_predict {
        Some(n) => "\"temperature\":0.3,\"top_p\":0.9,\"num_predict\":"@ + decimal_of(n as nat),
        None => "\"temperature\":0.3,\"top_p\":0.9"@,
    }
}

/// The JSON body of a generate call that is not streamed.
pub open spec fn generate_body_of(model: Seq<char>, prompt: Seq<char>, num_predict: Option<u32>) -> Seq<
    char,
> {
    "{\"model\":"@ + json_quoted(model) + ",\"prompt\":"@ + json_quoted(prompt)
        + ",\"stream\":false,\"options\":{"@ + options_of(num_predict) + "}}"@
}

/// Writes the JSON body of a generate call that is not streamed.
pub fn generate_body(model: &str, prompt: &str, num_predict: Option<u32>) -> (r: String)
    ensures
        r@ == generate_body_of(model@, prompt@, num_predict),
{
    let mut b = String::from_str("{\"model\":");
    let m = json_string(model);
    b.append(m.as_str());
    b.append(",\"prompt\":");
    let p = json_string(prompt);
    b.append(p.as_str());
    b.append(",\"stream\":false,\"options\":{");
    match num_predict {
        Some(n) => {
            b.append("\"temperature\":0.3,\"top_p\":0.9,\"num_predict\":");
            push_decimal(&mut b, n);
        },
        None => {
            b.append("\"temperature\":0.3,\"top_p\":0.9");
        },
    }
    b.append("}}");
    b
}

} // verus!
