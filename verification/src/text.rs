//! Vocabulary for SQL text: what it means to join, wrap and quote fragments,
//! and the executable helpers that build strings to match.

use vstd::prelude::*;
use vstd::string::*;

verus! {

/// The text of every string of `items`, in order.
pub open spec fn texts(items: Seq<String>) -> Seq<Seq<char>> {
    Seq::new(items.len(), |i: int| items[i]@)
}

/// `parts` written one after another with `sep` between neighbours.
/// No parts give the empty text; a single part is returned as it is.
pub open spec fn joined(parts: Seq<Seq<char>>, sep: Seq<char>) -> Seq<char>
    decreases parts.len(),
{
    if parts.len() == 0 {
        Seq::empty()
    } else if parts.len() == 1 {
        parts[0]
    } else {
        joined(parts.drop_last(), sep) + sep + parts.last()
    }
}

/// `s` between a pair of round brackets.
pub open spec fn parenthesized(s: Seq<char>) -> Seq<char> {
    "("@ + s + ")"@
}

/// Every part of `parts` between its own pair of round brackets.
pub open spec fn each_parenthesized(parts: Seq<Seq<char>>) -> Seq<Seq<char>> {
    Seq::new(parts.len(), |i: int| parenthesized(parts[i]))
}

/// The conditions of `conds`, each in its own brackets, held together by
/// `AND`.
pub open spec fn conjunction(conds: Seq<Seq<char>>) -> Seq<char> {
    joined(each_parenthesized(conds), " AND "@)
}

/// The conditions of `conds`, each in its own brackets, held together by
/// `OR`.
pub open spec fn disjunction(conds: Seq<Seq<char>>) -> Seq<char> {
    joined(each_parenthesized(conds), " OR "@)
}

/// `s` between a pair of double quotes, with nothing inside changed.
pub open spec fn quoted(s: Seq<char>) -> Seq<char> {
    "\""@ + s + "\""@
}

/// `expr AS alias`, where `alias` is already written as an identifier.
pub open spec fn aliased(expr: Seq<char>, alias: Seq<char>) -> Seq<char> {
    expr + " AS "@ + alias
}

/// `name(arg)`.
pub open spec fn call(name: Seq<char>, arg: Seq<char>) -> Seq<char> {
    name + parenthesized(arg)
}

/// Appending one more part to a join adds the separator only when something
/// was joined before.
pub proof fn lemma_joined_push(parts: Seq<Seq<char>>, sep: Seq<char>, part: Seq<char>)
    ensures
        joined(parts.push(part), sep) == if parts.len() == 0 {
            part
        } else {
            joined(parts, sep) + sep + part
        },
{
    let all = parts.push(part);
    assert(all.drop_last() =~= parts);
    assert(all.last() == part);
}

/// Joins the strings of `items` with `sep` between neighbours.
pub(crate) fn join(items: &Vec<String>, sep: &str) -> (out: String)
    ensures
        out@ == joined(texts(items@), sep@),
{
    let ghost parts = texts(items@);
    let mut out = String::new();
    let mut i: usize = 0;
    while i < items.len()
        invariant
            i <= items.len(),
            parts == texts(items@),
            out@ == joined(parts.take(i as int), sep@),
        decreases items.len() - i,
    {
        if i > 0 {
            out.append(sep);
        }
        out.append(items[i].as_str());
        proof {
            lemma_joined_push(parts.take(i as int), sep@, parts[i as int]);
            assert(parts.take(i as int).push(parts[i as int]) =~= parts.take(i + 1));
            assert(Seq::<char>::empty() + parts[i as int] =~= parts[i as int]);
        }
        i += 1;
    }
    assert(parts.take(items.len() as int) =~= parts);
    out
}

/// Joins the strings of `items` with `sep` between neighbours, each item
/// between its own pair of round brackets.
pub(crate) fn join_parenthesized(items: &Vec<String>, sep: &str) -> (out: String)
    ensures
        out@ == joined(each_parenthesized(texts(items@)), sep@),
{
    let ghost parts = each_parenthesized(texts(items@));
    let mut out = String::new();
    let mut i: usize = 0;
    while i < items.len()
        invariant
            i <= items.len(),
            parts == each_parenthesized(texts(items@)),
            out@ == joined(parts.take(i as int), sep@),
        decreases items.len() - i,
    {
        let ghost before = out@;
        if i > 0 {
            out.append(sep);
        }
        out.append("(");
        out.append(items[i].as_str());
        out.append(")");
        proof {
            lemma_joined_push(parts.take(i as int), sep@, parts[i as int]);
            assert(parts.take(i as int).push(parts[i as int]) =~= parts.take(i + 1));
            assert(parts[i as int] == "("@ + items@[i as int]@ + ")"@);
            if i > 0 {
                assert(out@ =~= before + sep@ + parts[i as int]);
            } else {
                assert(out@ =~= parts[i as int]);
            }
        }
        i += 1;
    }
    assert(parts.take(items.len() as int) =~= parts);
    out
}

/// Writes `a`, `b` and `c` one after another.
pub(crate) fn concat3(a: &str, b: &str, c: &str) -> (out: String)
    ensures
        out@ == a@ + b@ + c@,
{
    let mut out = String::from_str(a);
    out.append(b);
    out.append(c);
    out
}

/// Writes `name(arg)`.
pub(crate) fn call_of(name: &str, arg: &str) -> (out: String)
    ensures
        out@ == call(name@, arg@),
{
    let mut out = String::from_str(name);
    out.append("(");
    out.append(arg);
    out.append(")");
    assert(out@ =~= call(name@, arg@));
    out
}

/// Writes `expr AS alias`. The alias is taken as it stands: the caller has
/// written it as an identifier already.
pub fn with_alias(expr: &str, alias: &str) -> (out: String)
    ensures
        out@ == aliased(expr@, alias@),
{
    concat3(expr, " AS ", alias)
}

/// Whether two strings hold the same text.
pub fn same_text(a: &str, b: &str) -> (same: bool)
    ensures
        same == (a@ == b@),
{
    let left = a.as_bytes();
    let right = b.as_bytes();
    proof {
        vstd::utf8::encode_utf8_decode_utf8(a@);
        vstd::utf8::encode_utf8_decode_utf8(b@);
    }
    if left.len() != right.len() {
        return false;
    }
    let mut i: usize = 0;
    while i < left.len()
        invariant
            i <= left.len(),
            left.len() == right.len(),
            left@ == a.spec_bytes(),
            right@ == b.spec_bytes(),
            forall|k: int| 0 <= k < i ==> left@[k] == right@[k],
        decreases left.len() - i,
    {
        if left[i] != right[i] {
            return false;
        }
        i += 1;
    }
    assert(left@ =~= right@);
    true
}

} // verus!
