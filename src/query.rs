//! Query strings: optional named parameters rendered as `&name=value`,
//! with values percent-escaped.
use vstd::prelude::*;
use vstd::string::StringExecFns;
use vstd::utf8::encode_utf8;

verus! {

/// A parameter value, by its semantic type.
#[derive(Clone, Debug, PartialEq, Eq)]
pub enum ParamValue {
    Bool(bool),
    Int(u64),
    Text(String),
}

/// A named parameter; `None` contributes nothing to the query.
#[derive(Clone, Debug, PartialEq, Eq)]
pub struct Param {
    pub name: String,
    pub value: Option<ParamValue>,
}

/// Mathematical model of a parameter value.
pub enum ValueModel {
    Bool(bool),
    Int(nat),
    Text(Seq<char>),
}

/// Mathematical model of a named parameter.
pub struct ParamModel {
    pub name: Seq<char>,
    pub value: Option<ValueModel>,
}

impl View for ParamValue {
    type V = ValueModel;

    open spec fn view(&self) -> ValueModel {
        match self {
            ParamValue::Bool(b) => ValueModel::Bool(*b),
            ParamValue::Int(n) => ValueModel::Int(*n as nat),
            ParamValue::Text(s) => ValueModel::Text(s@),
        }
    }
}

impl View for Param {
    type V = ParamModel;

    open spec fn view(&self) -> ParamModel {
        ParamModel {
            name: self.name@,
            value: match self.value {
                Some(v) => Some(v@),
                None => None,
            },
        }
    }
}

pub open spec fn params_model(ps: Seq<Param>) -> Seq<ParamModel> {
    ps.map_values(|p: Param| p@)
}

/// Characters that stand for themselves in a query component.
pub open spec fn is_unreserved(c: char) -> bool {
    ||| ('a' <= c && c <= 'z')
    ||| ('A' <= c && c <= 'Z')
    ||| ('0' <= c && c <= '9')
    ||| c == '-'
    ||| c == '_'
    ||| c == '.'
    ||| c == '~'
}

/// Upper-case hexadecimal digit of `d < 16`.
pub open spec fn hex_char(d: nat) -> char {
    if d < 10 {
        (48 + d) as char
    } else {
        (55 + d) as char
    }
}

/// Decimal digit of `d < 10`.
pub open spec fn digit_char(d: nat) -> char {
    (48 + d) as char
}

/// Each byte written as `%` and two upper-case hexadecimal digits.
pub open spec fn percent_bytes(b: Seq<u8>) -> Seq<char>
    decreases b.len(),
{
    if b.len() == 0 {
        seq![]
    } else {
        let x = b.last();
        percent_bytes(b.drop_last()) + seq!['%', hex_char(x as nat / 16), hex_char(x as nat % 16)]
    }
}

/// One character escaped: unreserved characters stay, others become the
/// percent-escapes of their UTF-8 bytes.
pub open spec fn escape_char(c: char) -> Seq<char> {
    if is_unreserved(c) {
        seq![c]
    } else {
        percent_bytes(encode_utf8(seq![c]))
    }
}

/// Percent-escaping of a query component.
pub open spec fn escape(s: Seq<char>) -> Seq<char>
    decreases s.len(),
{
    if s.len() == 0 {
        seq![]
    } else {
        escape(s.drop_last()) + escape_char(s.last())
    }
}

/// Decimal notation of a natural number, without leading zeros.
pub open spec fn decimal(n: nat) -> Seq<char>
    decreases n,
{
    if n < 10 {
        seq![digit_char(n)]
    } else {
        decimal(n / 10) + seq![digit_char(n % 10)]
    }
}

/// Text of a value before escaping: `true` / `false`, decimal, or the text itself.
pub open spec fn value_text(v: ValueModel) -> Seq<char> {
    match v {
        ValueModel::Bool(true) => seq!['t', 'r', 'u', 'e'],
        ValueModel::Bool(false) => seq!['f', 'a', 'l', 's', 'e'],
        ValueModel::Int(n) => decimal(n),
        ValueModel::Text(s) => s,
    }
}

/// `&name=value` for a present value.
pub open spec fn entry_text(name: Seq<char>, v: ValueModel) -> Seq<char> {
    seq!['&'] + name + seq!['='] + escape(value_text(v))
}

/// What one parameter contributes to the query.
pub open spec fn fragment(p: ParamModel) -> Seq<char> {
    match p.value {
        Some(v) => entry_text(p.name, v),
        None => seq![],
    }
}

/// The fragments of all parameters, in order.
pub open spec fn fragments(ps: Seq<ParamModel>) -> Seq<char>
    decreases ps.len(),
{
    if ps.len() == 0 {
        seq![]
    } else {
        fragments(ps.drop_last()) + fragment(ps.last())
    }
}

/// `?key=` followed by the escaped key.
pub open spec fn key_prefix(key: Seq<char>) -> Seq<char> {
    seq!['?', 'k', 'e', 'y', '='] + escape(key)
}

/// The full query string for an API key and a parameter list.
pub open spec fn query_text(key: Seq<char>, ps: Seq<ParamModel>) -> Seq<char> {
    key_prefix(key) + fragments(ps)
}

pub open spec fn is_present(p: ParamModel) -> bool {
    p.value is Some
}

pub open spec fn present_entry(p: ParamModel) -> Seq<char> {
    entry_text(p.name, p.value->0)
}

/// The hexadecimal digit `d` as a one-character string.
fn hex_digit(d: u8) -> (r: &'static str)
    requires
        d < 16,
    ensures
        r@ == seq![hex_char(d as nat)],
{
    proof {
        reveal_strlit("0");
        reveal_strlit("1");
        reveal_strlit("2");
        reveal_strlit("3");
        reveal_strlit("4");
        reveal_strlit("5");
        reveal_strlit("6");
        reveal_strlit("7");
        reveal_strlit("8");
        reveal_strlit("9");
        reveal_strlit("A");
        reveal_strlit("B");
        reveal_strlit("C");
        reveal_strlit("D");
        reveal_strlit("E");
        reveal_strlit("F");
    }
    match d {
        0 => "0",
        1 => "1",
        2 => "2",
        3 => "3",
        4 => "4",
        5 => "5",
        6 => "6",
        7 => "7",
        8 => "8",
        9 => "9",
        10 => "A",
        11 => "B",
        12 => "C",
        13 => "D",
        14 => "E",
        _ => "F",
    }
}


/// Whether `c` stands for itself in a query component.
pub fn unreserved(c: char) -> (r: bool)
    ensures
        r == is_unreserved(c),
{
    ('a' <= c && c <= 'z') || ('A' <= c && c <= 'Z') || ('0' <= c && c <= '9') || c == '-' || c
        == '_' || c == '.' || c == '~'
}

/// Appends the percent-escapes of `bytes` to `out`.
fn push_percent(out: &mut String, bytes: &[u8])
    ensures
        final(out)@ == old(out)@ + percent_bytes(bytes@),
{
    let ghost start = out@;
    let mut j: usize = 0;
    while j < bytes.len()
        invariant
            j <= bytes@.len(),
            out@ == start + percent_bytes(bytes@.take(j as int)),
        decreases bytes@.len() - j,
    {
        let b = bytes[j];
        out.append("%");
        out.append(hex_digit(b / 16));
        out.append(hex_digit(b % 16));
        proof {
            reveal_strlit("%");
            let t = bytes@.take(j + 1);
            assert(t.drop_last() =~= bytes@.take(j as int));
            assert(t.last() == b);
        }
        j += 1;
    }
    proof {
        assert(bytes@.take(j as int) =~= bytes@);
    }
}

/// Percent-escapes a query component: unreserved characters are kept, every
/// other character is written as the `%XX` escapes of its UTF-8 bytes.
pub fn escape_component(s: &str) -> (r: String)
    ensures
        r@ == escape(s@),
{
    let n = s.unicode_len();
    let mut out = String::new();
    let mut i: usize = 0;
    while i < n
        invariant
            n == s@.len(),
            i <= n,
            out@ == escape(s@.take(i as int)),
        decreases n - i,
    {
        let c = s.get_char(i);
        let one = s.substring_char(i, i + 1);
        assert(one@ =~= seq![c]);
        if unreserved(c) {
            out.append(one);
        } else {
            push_percent(&mut out, one.as_bytes());
        }
        proof {
            let t = s@.take(i + 1);
            assert(t.drop_last() =~= s@.take(i as int));
            assert(t.last() == c);
        }
        i += 1;
    }
    proof {
        assert(s@.take(n as int) =~= s@);
    }
    out
}

/// Appends the decimal notation of `n` to `out`.
pub(crate) fn push_decimal(out: &mut String, n: u64)
    ensures
        final(out)@ == old(out)@ + decimal(n as nat),
    decreases n,
{
    if n >= 10 {
        push_decimal(out, n / 10);
    }
    out.append(hex_digit((n % 10) as u8));
    proof {
        assert(hex_char((n % 10) as nat) == digit_char((n % 10) as nat));
        if n >= 10 {
            assert(old(out)@ + decimal(n as nat / 10) + seq![digit_char(n as nat % 10)]
                =~= old(out)@ + decimal(n as nat));
        } else {
            assert(decimal(n as nat) == seq![digit_char(n as nat)]);
        }
    }
}

/// The text of a value before escaping.
pub fn render_value(v: &ParamValue) -> (r: String)
    ensures
        r@ == value_text(v@),
{
    match v {
        ParamValue::Bool(b) => {
            proof {
                reveal_strlit("true");
                reveal_strlit("false");
            }
            if *b {
                String::from_str("true")
            } else {
                String::from_str("false")
            }
        },
        ParamValue::Int(n) => {
            let mut out = String::new();
            push_decimal(&mut out, *n);
            out
        },
        ParamValue::Text(t) => t.clone(),
    }
}

/// Builds the query string `?key=<key>` followed by `&name=value` for each
/// parameter whose value is present, in the order given. The key and the
/// values are percent-escaped; absent values contribute nothing.
pub fn encode_query(key: &str, params: &Vec<Param>) -> (r: String)
    ensures
        r@ == query_text(key@, params_model(params@)),
{
    proof {
        reveal_strlit("?key=");
    }
    let mut out = String::from_str("?key=");
    let k = escape_component(key);
    out.append(k.as_str());
    let ghost prefix = out@;
    assert(prefix =~= key_prefix(key@));
    let mut i: usize = 0;
    while i < params.len()
        invariant
            i <= params@.len(),
            prefix == key_prefix(key@),
            out@ == prefix + fragments(params_model(params@.take(i as int))),
        decreases params@.len() - i,
    {
        let p = &params[i];
        let ghost before = out@;
        match &p.value {
            Some(v) => {
                proof {
                    reveal_strlit("&");
                    reveal_strlit("=");
                }
                out.append("&");
                out.append(p.name.as_str());
                out.append("=");
                let text = render_value(v);
                let esc = escape_component(text.as_str());
                out.append(esc.as_str());
                assert(out@ =~= before + fragment(p@));
            },
            None => {
                assert(fragment(p@) =~= seq![]);
                assert(out@ =~= before + fragment(p@));
            },
        }
        proof {
            let m = params_model(params@.take(i + 1));
            assert(m.drop_last() =~= params_model(params@.take(i as int)));
            assert(m.last() == p@);
            assert(out@ =~= prefix + fragments(m));
        }
        i += 1;
    }
    proof {
        assert(params@.take(i as int) =~= params@);
    }
    out
}

/// When every parameter's value is absent, the query holds the API key alone.
pub proof fn lemma_all_absent_key_only(key: Seq<char>, ps: Seq<ParamModel>)
    requires
        forall|i: int| 0 <= i < ps.len() ==> (#[trigger] ps[i]).value is None,
    ensures
        query_text(key, ps) == key_prefix(key),
    decreases ps.len(),
{
    if ps.len() > 0 {
        let rest = ps.drop_last();
        assert forall|i: int| 0 <= i < rest.len() implies (#[trigger] rest[i]).value is None by {
            assert(rest[i] == ps[i]);
        }
        lemma_all_absent_key_only(key, rest);
        assert(fragment(ps.last()) =~= seq![]);
        assert(fragments(ps) =~= fragments(rest));
    }
    assert(query_text(key, ps) =~= key_prefix(key));
}

/// The query holds, after the key, exactly the present parameters' entries,
/// each `&name=` and the escaped value, in the order given; absent ones leave
/// no trace.
pub proof fn lemma_query_holds_present_entries(key: Seq<char>, ps: Seq<ParamModel>)
    ensures
        query_text(key, ps) == key_prefix(key) + ps.filter(|p: ParamModel| is_present(p)).map_values(
            |p: ParamModel| present_entry(p),
        ).flatten(),
    decreases ps.len(),
{
    lemma_fragments_present(ps);
}

proof fn lemma_fragments_present(ps: Seq<ParamModel>)
    ensures
        fragments(ps) == ps.filter(|p: ParamModel| is_present(p)).map_values(
            |p: ParamModel| present_entry(p),
        ).flatten(),
    decreases ps.len(),
{
    let pred = |p: ParamModel| is_present(p);
    let f = |p: ParamModel| present_entry(p);
    reveal(Seq::filter);
    if ps.len() == 0 {
        assert(ps.filter(pred) =~= seq![]);
        assert(ps.filter(pred).map_values(f) =~= seq![]);
        assert(seq![].flatten() =~= Seq::<char>::empty()) by {
            reveal_with_fuel(Seq::<Seq<char>>::flatten, 1);
        }
    } else {
        let rest = ps.drop_last();
        lemma_fragments_present(rest);
        let sub = rest.filter(pred);
        if pred(ps.last()) {
            assert(ps.filter(pred) == sub.push(ps.last()));
            assert(sub.push(ps.last()).map_values(f) =~= sub.map_values(f).push(f(ps.last())));
            sub.map_values(f).lemma_flatten_push(f(ps.last()));
        } else {
            assert(ps.filter(pred) == sub);
            assert(fragment(ps.last()) =~= seq![]);
        }
        assert(fragments(ps) =~= ps.filter(pred).map_values(f).flatten());
    }
}

} // verus!
