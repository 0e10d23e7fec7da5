use vstd::prelude::*;

verus! {

use vstd::string::StrSliceExecFns;
use vstd::string::StringExecFns;

/// The hexadecimal digit character for a value below sixteen.
pub open spec fn hex_digit(n: int) -> char {
    if n == 0 {
        '0'
    } else if n == 1 {
        '1'
    } else if n == 2 {
        '2'
    } else if n == 3 {
        '3'
    } else if n == 4 {
        '4'
    } else if n == 5 {
        '5'
    } else if n == 6 {
        '6'
    } else if n == 7 {
        '7'
    } else if n == 8 {
        '8'
    } else if n == 9 {
        '9'
    } else if n == 10 {
        'a'
    } else if n == 11 {
        'b'
    } else if n == 12 {
        'c'
    } else if n == 13 {
        'd'
    } else if n == 14 {
        'e'
    } else {
        'f'
    }
}

/// How a single character appears inside a JSON string literal: quotes,
/// backslashes and control characters are escaped, everything else stands
/// for itself.
pub open spec fn escaped_char(c: char) -> Seq<char> {
    if c == '"' {
        seq!['\\', '"']
    } else if c == '\\' {
        seq!['\\', '\\']
    } else if c == '\u{8}' {
        seq!['\\', 'b']
    } else if c == '\u{c}' {
        seq!['\\', 'f']
    } else if c == '\n' {
        seq!['\\', 'n']
    } else if c == '\r' {
        seq!['\\', 'r']
    } else if c == '\t' {
        seq!['\\', 't']
    } else if (c as u32) < 32 {
        seq!['\\', 'u', '0', '0', hex_digit((c as u32) as int / 16), hex_digit(
            (c as u32) as int % 16,
        )]
    } else {
        seq![c]
    }
}

/// The body of a JSON string literal holding the characters of `s`.
pub open spec fn escaped(s: Seq<char>) -> Seq<char>
    decreases s.len(),
{
    if s.len() == 0 {
        Seq::empty()
    } else {
        escaped_char(s[0]) + escaped(s.drop_first())
    }
}

pub proof fn lemma_escaped_append(a: Seq<char>, b: Seq<char>)
    ensures
        escaped(a + b) == escaped(a) + escaped(b),
    decreases a.len(),
{
    if a.len() == 0 {
        assert(a + b =~= b);
        assert(escaped(a) + escaped(b) =~= escaped(b));
    } else {
        lemma_escaped_append(a.drop_first(), b);
        assert((a + b).drop_first() =~= a.drop_first() + b);
        assert(escaped_char(a[0]) + (escaped(a.drop_first()) + escaped(b)) =~= (escaped_char(a[0])
            + escaped(a.drop_first())) + escaped(b));
    }
}

/// The JSON object `{"key":K,"value":V}` with both fields rendered as
/// escaped string literals.
pub open spec fn kv_body(k: Seq<char>, v: Seq<char>) -> Seq<char> {
    "{\"key\":\""@ + escaped(k) + "\",\"value\":\""@ + escaped(v) + "\"}"@
}

/// The JSON object `{"key":K}` with the field rendered as an escaped
/// string literal.
pub open spec fn key_body(k: Seq<char>) -> Seq<char> {
    "{\"key\":\""@ + escaped(k) + "\"}"@
}

/// The comma-separated entry objects of a JSON array, in sequence order.
pub open spec fn list_items(es: Seq<(Seq<char>, Seq<char>)>) -> Seq<char>
    decreases es.len(),
{
    if es.len() == 0 {
        Seq::empty()
    } else if es.len() == 1 {
        kv_body(es[0].0, es[0].1)
    } else {
        kv_body(es[0].0, es[0].1) + seq![','] + list_items(es.drop_first())
    }
}

/// The JSON array of entry objects, in sequence order.
pub open spec fn list_body(es: Seq<(Seq<char>, Seq<char>)>) -> Seq<char> {
    "["@ + list_items(es) + "]"@
}

/// The key and value views of a sequence of owned entries.
pub open spec fn entry_views(es: Seq<(String, String)>) -> Seq<(Seq<char>, Seq<char>)> {
    es.map_values(|p: (String, String)| (p.0@, p.1@))
}

pub proof fn lemma_list_items_push(es: Seq<(Seq<char>, Seq<char>)>, e: (Seq<char>, Seq<char>))
    ensures
        list_items(es.push(e)) == if es.len() == 0 {
            kv_body(e.0, e.1)
        } else {
            list_items(es) + seq![','] + kv_body(e.0, e.1)
        },
    decreases es.len(),
{
    if es.len() == 0 {
        assert(es.push(e).len() == 1);
        assert(es.push(e)[0] == e);
    } else if es.len() == 1 {
        assert(es.push(e).drop_first() =~= seq![e]);
        assert(list_items(seq![e]) == kv_body(e.0, e.1));
    } else {
        lemma_list_items_push(es.drop_first(), e);
        assert(es.push(e).drop_first() =~= es.drop_first().push(e));
        assert(es.push(e)[0] == es[0]);
        assert(kv_body(es[0].0, es[0].1) + seq![','] + (list_items(es.drop_first()) + seq![',']
            + kv_body(e.0, e.1)) =~= (kv_body(es[0].0, es[0].1) + seq![','] + list_items(
            es.drop_first(),
        )) + seq![','] + kv_body(e.0, e.1));
    }
}

/// Relies on String::push: appends exactly the one character to the end
/// of the string.
#[verifier::external_body]
fn push_char(s: &mut String, c: char)
    ensures
        final(s)@ == old(s)@.push(c),
{
    s.push(c);
}

fn hex_digit_char(n: u32) -> (c: char)
    requires
        n < 16,
    ensures
        c == hex_digit(n as int),
{
    if n == 0 {
        '0'
    } else if n == 1 {
        '1'
    } else if n == 2 {
        '2'
    } else if n == 3 {
        '3'
    } else if n == 4 {
        '4'
    } else if n == 5 {
        '5'
    } else if n == 6 {
        '6'
    } else if n == 7 {
        '7'
    } else if n == 8 {
        '8'
    } else if n == 9 {
        '9'
    } else if n == 10 {
        'a'
    } else if n == 11 {
        'b'
    } else if n == 12 {
        'c'
    } else if n == 13 {
        'd'
    } else if n == 14 {
        'e'
    } else {
        'f'
    }
}

fn push_escaped_char(out: &mut String, c: char)
    ensures
        final(out)@ == old(out)@ + escaped_char(c),
{
    if c == '"' {
        out.append("\\\"");
        proof {
            reveal_strlit("\\\"");
            assert(("\\\"")@ =~= escaped_char(c));
        }
    } else if c == '\\' {
        out.append("\\\\");
        proof {
            reveal_strlit("\\\\");
            assert(("\\\\")@ =~= escaped_char(c));
        }
    } else if c == '\u{8}' {
        out.append("\\b");
        proof {
            reveal_strlit("\\b");
            assert(("\\b")@ =~= escaped_char(c));
        }
    } else if c == '\u{c}' {
        out.append("\\f");
        proof {
            reveal_strlit("\\f");
            assert(("\\f")@ =~= escaped_char(c));
        }
    } else if c == '\n' {
        out.append("\\n");
        proof {
            reveal_strlit("\\n");
            assert(("\\n")@ =~= escaped_char(c));
        }
    } else if c == '\r' {
        out.append("\\r");
        proof {
            reveal_strlit("\\r");
            assert(("\\r")@ =~= escaped_char(c));
        }
    } else if c == '\t' {
        out.append("\\t");
        proof {
            reveal_strlit("\\t");
            assert(("\\t")@ =~= escaped_char(c));
        }
    } else {
        let code: u32 = c as u32;
        if code < 32 {
            out.append("\\u00");
            push_char(out, hex_digit_char(code / 16));
            push_char(out, hex_digit_char(code % 16));
            proof {
                reveal_strlit("\\u00");
                assert(("\\u00")@ =~= seq!['\\', 'u', '0', '0']);
                assert(old(out)@ + ("\\u00")@ + seq![hex_digit(code as int / 16)] + seq![
                    hex_digit(code as int % 16),
                ] =~= old(out)@ + escaped_char(c));
                assert(final(out)@ =~= old(out)@ + escaped_char(c));
            }
        } else {
            push_char(out, c);
            proof {
                assert(old(out)@.push(c) =~= old(out)@ + escaped_char(c));
            }
        }
    }
}

/// Renders the characters of `s` as the body of a JSON string literal.
pub fn escape_json(s: &str) -> (out: String)
    ensures
        out@ == escaped(s@),
{
    let n = s.unicode_len();
    let mut out = String::new();
    let mut i: usize = 0;
    while i < n
        invariant
            n == s@.len(),
            i <= n,
            out@ == escaped(s@.take(i as int)),
        decreases n - i,
    {
        let c = s.get_char(i);
        push_escaped_char(&mut out, c);
        proof {
            let x = s@[i as int];
            assert(s@.take(i + 1 as int) =~= s@.take(i as int) + seq![x]);
            lemma_escaped_append(s@.take(i as int), seq![x]);
            assert(seq![x].drop_first() =~= Seq::<char>::empty());
            assert(escaped(seq![x]) == escaped_char(seq![x][0]) + escaped(seq![x].drop_first()));
            assert(seq![x][0] == x);
            assert(escaped(Seq::<char>::empty()) == Seq::<char>::empty());
            assert(escaped_char(x) + Seq::<char>::empty() =~= escaped_char(x));
        }
        i = i + 1;
    }
    proof {
        assert(s@.take(n as int) =~= s@);
    }
    out
}

/// Renders the response object for one entry: `{"key":K,"value":V}`.
pub fn render_kv(key: &str, value: &str) -> (out: String)
    ensures
        out@ == kv_body(key@, value@),
{
    let mut out = String::from_str("{\"key\":\"");
    let ek = escape_json(key);
    out.append(ek.as_str());
    out.append("\",\"value\":\"");
    let ev = escape_json(value);
    out.append(ev.as_str());
    out.append("\"}");
    proof {
        assert(out@ =~= kv_body(key@, value@));
    }
    out
}

/// Renders the response object naming one key: `{"key":K}`.
pub fn render_key(key: &str) -> (out: String)
    ensures
        out@ == key_body(key@),
{
    let mut out = String::from_str("{\"key\":\"");
    let ek = escape_json(key);
    out.append(ek.as_str());
    out.append("\"}");
    proof {
        assert(out@ =~= key_body(key@));
    }
    out
}

/// Renders the response array holding every entry, in the given order.
pub fn render_list(entries: &Vec<(String, String)>) -> (out: String)
    ensures
        out@ == list_body(entry_views(entries@)),
{
    let mut out = String::from_str("[");
    let n = entries.len();
    let mut i: usize = 0;
    while i < n
        invariant
            n == entries@.len(),
            i <= n,
            out@ == ("[")@ + list_items(entry_views(entries@).take(i as int)),
        decreases n - i,
    {
        if i > 0 {
            out.append(",");
        }
        let pair: &(String, String) = &entries[i];
        let kv = render_kv(pair.0.as_str(), pair.1.as_str());
        out.append(kv.as_str());
        proof {
            reveal_strlit(",");
            let views = entry_views(entries@);
            assert(views[i as int] == (entries@[i as int].0@, entries@[i as int].1@));
            assert(views.take(i + 1 as int) =~= views.take(i as int).push(views[i as int]));
            lemma_list_items_push(views.take(i as int), views[i as int]);
            if i > 0 {
                assert((",")@ =~= seq![',']);
                assert(out@ =~= ("[")@ + list_items(views.take(i + 1 as int)));
            } else {
                assert(views.take(0int) =~= Seq::<(Seq<char>, Seq<char>)>::empty());
                assert(out@ =~= ("[")@ + list_items(views.take(i + 1 as int)));
            }
        }
        i = i + 1;
    }
    out.append("]");
    proof {
        assert(entry_views(entries@).take(n as int) =~= entry_views(entries@));
        assert(out@ =~= list_body(entry_views(entries@)));
    }
    out
}

} // verus!
