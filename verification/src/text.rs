//! Plain-text building blocks for the renderer: decimal text for decoded
//! integers, boolean text, and the bracketed static-properties list.

use vstd::prelude::*;
use vstd::string::StrSliceExecFns;
use vstd::string::StringExecFns;
use substring::Substring;

verus! {

/// The decimal digit character for `n` (meaningful for `n < 10`).
pub open spec fn dec_digit(n: nat) -> char {
    if n == 0 {
        '0'
    } else if n == 1 {
        '1'
    } else if n == 2 {
        '2'
    } else if n == 3 {
        '3'
    } else if n == 4 {
        '4'
    } else if n == 5 {
        '5'
    } else if n == 6 {
        '6'
    } else if n == 7 {
        '7'
    } else if n == 8 {
        '8'
    } else {
        '9'
    }
}

/// The decimal text of a natural number, most significant digit first.
pub open spec fn dec_text(n: nat) -> Seq<char>
    decreases n,
{
    if n < 10 {
        seq![dec_digit(n)]
    } else {
        dec_text(n / 10) + seq![dec_digit(n % 10)]
    }
}

/// The decimal text of an integer, with a leading minus sign when negative.
pub open spec fn int_text(i: int) -> Seq<char> {
    if i < 0 {
        seq!['-'] + dec_text((-i) as nat)
    } else {
        dec_text(i as nat)
    }
}

/// The text a boolean renders as.
pub open spec fn bool_text(b: bool) -> Seq<char> {
    if b {
        "true"@
    } else {
        "false"@
    }
}

fn dec_digit_str(d: u32) -> (r: &'static str)
    requires
        d < 10,
    ensures
        r@ =~= seq![dec_digit(d as nat)],
{
    proof {
        reveal_strlit("0");
        reveal_strlit("1");
        reveal_strlit("2");
        reveal_strlit("3");
        reveal_strlit("4");
        reveal_strlit("5");
        reveal_strlit("6");
        reveal_strlit("7");
        reveal_strlit("8");
        reveal_strlit("9");
    }
    if d == 0 {
        "0"
    } else if d == 1 {
        "1"
    } else if d == 2 {
        "2"
    } else if d == 3 {
        "3"
    } else if d == 4 {
        "4"
    } else if d == 5 {
        "5"
    } else if d == 6 {
        "6"
    } else if d == 7 {
        "7"
    } else if d == 8 {
        "8"
    } else {
        "9"
    }
}

fn push_dec(n: u32, s: &mut String)
    ensures
        final(s)@ == old(s)@ + dec_text(n as nat),
    decreases n,
{
    if n >= 10 {
        push_dec(n / 10, s);
    }
    s.append(dec_digit_str(n % 10));
    proof {
        if n < 10 {
            assert(dec_text(n as nat) =~= seq![dec_digit(n as nat)]);
            assert(n % 10 == n as nat);
        }
        assert(s@ =~= old(s)@ + dec_text(n as nat));
    }
}

/// The decimal text of an unsigned decoded field, such as the header length.
pub fn u32_text(n: u32) -> (r: String)
    ensures
        r@ == dec_text(n as nat),
{
    let mut s = String::new();
    push_dec(n, &mut s);
    proof {
        assert(s@ =~= dec_text(n as nat));
    }
    s
}

/// The decimal text of a decoded AMF3 integer.
pub fn i32_text(i: i32) -> (r: String)
    ensures
        r@ == int_text(i as int),
{
    let mut s = String::new();
    if i < 0 {
        s.append("-");
        let wide: i64 = i as i64;
        let mag: u32 = (-wide) as u32;
        push_dec(mag, &mut s);
        proof {
            reveal_strlit("-");
            assert(mag as nat == (-(i as int)) as nat);
            assert(s@ =~= int_text(i as int));
        }
    } else {
        push_dec(i as u32, &mut s);
        proof {
            assert(s@ =~= int_text(i as int));
        }
    }
    s
}

/// The text a boolean renders as.
pub fn bool_str(b: bool) -> (r: &'static str)
    ensures
        r@ == bool_text(b),
{
    if b {
        "true"
    } else {
        "false"
    }
}

/// The views of a sequence of owned strings.
pub open spec fn strings_view(s: Seq<String>) -> Seq<Seq<char>> {
    s.map_values(|p: String| p@)
}

/// One property name wrapped in double quotes.
pub open spec fn quoted(p: Seq<char>) -> Seq<char> {
    seq!['"'] + p + seq!['"']
}

/// The quoted property names joined by `", "`, with no trailing separator.
pub open spec fn props_inner(props: Seq<Seq<char>>) -> Seq<char>
    decreases props.len(),
{
    if props.len() == 0 {
        Seq::empty()
    } else if props.len() == 1 {
        quoted(props[0])
    } else {
        props_inner(props.drop_last()) + ", "@ + quoted(props.last())
    }
}

/// The full static-properties list: bracketed, double-quoted, comma-space
/// separated, `[]` when empty.
pub open spec fn props_list(props: Seq<Seq<char>>) -> Seq<char> {
    "["@ + props_inner(props) + "]"@
}

/// The quoted property names, each followed by `", "`: the raw text the
/// builder accumulates before the trailing separator is trimmed away.
pub open spec fn props_raw(props: Seq<Seq<char>>) -> Seq<char>
    decreases props.len(),
{
    if props.len() == 0 {
        Seq::empty()
    } else {
        props_raw(props.drop_last()) + quoted(props.last()) + ", "@
    }
}

proof fn lemma_props_raw_trims(props: Seq<Seq<char>>)
    requires
        props.len() > 0,
    ensures
        props_raw(props) == props_inner(props) + ", "@,
    decreases props.len(),
{
    if props.len() == 1 {
        assert(props.drop_last().len() == 0);
        assert(props_raw(props.drop_last()) =~= Seq::<char>::empty());
        assert(props_raw(props) =~= props_inner(props) + ", "@);
    } else {
        lemma_props_raw_trims(props.drop_last());
        assert(props_raw(props) =~= props_inner(props) + ", "@);
    }
}

/// Law: a list of zero properties renders as exactly the two brackets.
pub proof fn lemma_props_list_empty()
    ensures
        props_list(Seq::empty()) == "[]"@,
{
    reveal_strlit("[");
    reveal_strlit("]");
    reveal_strlit("[]");
    assert(props_list(Seq::empty()) =~= "[]"@);
}

/// Law: the separator stands only between properties, never at the end: one
/// property renders bare inside the brackets, and appending a property to a
/// non-empty list splices `, ` plus the quoted name in before the closing
/// bracket.
pub proof fn lemma_props_list_step(ps: Seq<Seq<char>>, p: Seq<char>)
    ensures
        props_list(seq![p]) == "["@ + quoted(p) + "]"@,
        ps.len() > 0 ==> props_inner(ps.push(p)) == props_inner(ps) + ", "@ + quoted(p),
{
    let single = seq![p];
    assert(single.len() == 1);
    assert(single[0] == p);
    assert(props_list(single) =~= "["@ + quoted(p) + "]"@);
    if ps.len() > 0 {
        let grown = ps.push(p);
        assert(grown.drop_last() =~= ps);
        assert(grown.last() == p);
        assert(props_inner(grown) =~= props_inner(ps) + ", "@ + quoted(p));
    }
}

/// Relies on substring::Substring::substring for `str`: it returns the slice
/// of characters from `start` (inclusive) to `end` (exclusive), indices
/// counted in characters, whenever the range lies within the string.
#[verifier::external_body]
fn substring_chars(s: &str, start: usize, end: usize) -> (r: String)
    requires
        start <= end,
        end <= s@.len(),
    ensures
        r@ == s@.subrange(start as int, end as int),
{
    s.substring(start, end).to_string()
}

/// Renders the static-properties list of a class definition: every name
/// quoted, separated by comma-space, bracketed, and `[]` for no properties.
pub fn format_static_properties(props: &Vec<String>) -> (r: String)
    ensures
        r@ == props_list(strings_view(props@)),
{
    let ghost pview = strings_view(props@);
    let mut s = String::from_str("[");
    proof {
        assert(pview.take(0) =~= Seq::<Seq<char>>::empty());
        assert(s@ =~= "["@ + props_raw(pview.take(0)));
    }
    let mut i: usize = 0;
    while i < props.len()
        invariant
            i <= props@.len(),
            pview == strings_view(props@),
            s@ == "["@ + props_raw(pview.take(i as int)),
        decreases props@.len() - i,
    {
        s.append("\"");
        s.append(props[i].as_str());
        s.append("\", ");
        proof {
            reveal_strlit("\"");
            reveal_strlit("\", ");
            reveal_strlit(", ");
            let next = pview.take(i + 1);
            assert(next.drop_last() =~= pview.take(i as int));
            assert(next.last() == props@[i as int]@);
            assert(s@ =~= "["@ + props_raw(next));
        }
        i += 1;
    }
    proof {
        assert(pview.take(props@.len() as int) =~= pview);
    }
    if props.len() > 0 {
        proof {
            lemma_props_raw_trims(pview);
            reveal_strlit("[");
            reveal_strlit(", ");
        }
        let n = s.as_str().unicode_len();
        let trimmed = substring_chars(s.as_str(), 0, n - 2);
        proof {
            assert(trimmed@ =~= "["@ + props_inner(pview));
        }
        s = trimmed;
    }
    s.append("]");
    proof {
        assert(s@ =~= props_list(pview));
    }
    s
}

} // verus!
