//! Text building blocks of the wire format: joined lists, decimal numbers,
//! booleans and string comparison.

use vstd::prelude::*;
use vstd::string::StringExecFns;

verus! {

/// The character sequences of a slice of string slices.
pub open spec fn texts(items: Seq<&str>) -> Seq<Seq<char>> {
    Seq::new(items.len(), |i: int| items[i]@)
}

/// The character sequences of a sequence of owned strings.
pub open spec fn owned_texts(items: Seq<String>) -> Seq<Seq<char>> {
    Seq::new(items.len(), |i: int| items[i]@)
}

/// The view of an optional string slice.
pub open spec fn slice_view(text: Option<&str>) -> Option<Seq<char>> {
    match text {
        Some(t) => Some(t@),
        None => None,
    }
}

/// `parts` written one after another with `sep` between neighbours; the empty
/// list gives the empty text.
pub open spec fn joined(parts: Seq<Seq<char>>, sep: Seq<char>) -> Seq<char>
    decreases parts.len(),
{
    if parts.len() == 0 {
        Seq::empty()
    } else if parts.len() == 1 {
        parts[0]
    } else {
        joined(parts.drop_last(), sep) + sep + parts.last()
    }
}

/// A list as the single comma-separated value that a query string carries.
pub open spec fn comma_joined(parts: Seq<Seq<char>>) -> Seq<char> {
    joined(parts, seq![','])
}

/// Scopes as they travel to the authorization server: separated by spaces.
pub open spec fn space_joined(parts: Seq<Seq<char>>) -> Seq<char> {
    joined(parts, seq![' '])
}

/// The decimal digit for a value below ten.
pub open spec fn digit(d: nat) -> char {
    if d == 0 {
        '0'
    } else if d == 1 {
        '1'
    } else if d == 2 {
        '2'
    } else if d == 3 {
        '3'
    } else if d == 4 {
        '4'
    } else if d == 5 {
        '5'
    } else if d == 6 {
        '6'
    } else if d == 7 {
        '7'
    } else if d == 8 {
        '8'
    } else {
        '9'
    }
}

/// A natural number in decimal notation, without leading zeros.
pub open spec fn decimal(n: nat) -> Seq<char>
    decreases n,
{
    if n < 10 {
        seq![digit(n)]
    } else {
        decimal(n / 10).push(digit(n % 10))
    }
}

/// A boolean as the wire carries it: lowercase `true` or `false`.
pub open spec fn boolean(b: bool) -> Seq<char> {
    if b {
        seq!['t', 'r', 'u', 'e']
    } else {
        seq!['f', 'a', 'l', 's', 'e']
    }
}

/// Joining one more part onto a non-empty list appends the separator and the part.
pub proof fn lemma_joined_push(parts: Seq<Seq<char>>, sep: Seq<char>, part: Seq<char>)
    ensures
        joined(parts.push(part), sep) == if parts.len() == 0 {
            part
        } else {
            joined(parts, sep) + sep + part
        },
{
    let all = parts.push(part);
    assert(all.drop_last() =~= parts);
    assert(all.last() == part);
}

/// The empty list still forms a value: the empty text.
pub proof fn lemma_joined_empty(sep: Seq<char>)
    ensures
        joined(Seq::<Seq<char>>::empty(), sep) == Seq::<char>::empty(),
        comma_joined(Seq::<Seq<char>>::empty()).len() == 0,
{
}

/// Whether two string slices hold the same characters.
pub fn same_text(a: &str, b: &str) -> (r: bool)
    ensures
        r == (a@ == b@),
{
    let left = a.to_owned();
    let right = b.to_owned();
    left == right
}

/// Joins `list` with `sep` between neighbours.
pub fn join_with(list: &[&str], sep: &str) -> (r: String)
    ensures
        r@ == joined(texts(list@), sep@),
{
    let mut out = String::new();
    let mut i: usize = 0;
    while i < list.len()
        invariant
            i <= list.len(),
            out@ == joined(texts(list@).take(i as int), sep@),
        decreases list.len() - i,
    {
        let ghost before = texts(list@).take(i as int);
        if i > 0 {
            out.append(sep);
        }
        out.append(list[i]);
        proof {
            lemma_joined_push(before, sep@, list@[i as int]@);
            assert(texts(list@).take(i as int + 1) =~= before.push(list@[i as int]@));
        }
        i += 1;
    }
    proof {
        assert(texts(list@).take(i as int) =~= texts(list@));
    }
    out
}

/// A list of identifiers as one query value: comma-joined, in order. A list of
/// any length is taken, the empty one included.
pub fn query_list(list: &[&str]) -> (r: String)
    ensures
        r@ == comma_joined(texts(list@)),
{
    proof {
        reveal_strlit(",");
    }
    assert(","@ =~= seq![',']);
    join_with(list, ",")
}

/// Copies string slices into owned strings, in order.
pub fn owned_list(list: &[&str]) -> (r: Vec<String>)
    ensures
        owned_texts(r@) == texts(list@),
{
    let mut out: Vec<String> = Vec::new();
    let mut i: usize = 0;
    while i < list.len()
        invariant
            i <= list.len(),
            out@.len() == i,
            forall|k: int| 0 <= k < i ==> (#[trigger] out@[k])@ == list@[k]@,
        decreases list.len() - i,
    {
        out.push(list[i].to_owned());
        i += 1;
    }
    proof {
        assert(owned_texts(out@) =~= texts(list@));
    }
    out
}

/// The list that holds one item.
pub fn only(item: &str) -> (r: Vec<String>)
    ensures
        owned_texts(r@) == seq![item@],
{
    let mut out: Vec<String> = Vec::new();
    out.push(item.to_owned());
    proof {
        assert(owned_texts(out@) =~= seq![item@]);
    }
    out
}

/// Copies a list of owned strings.
pub fn copy_list(list: &Vec<String>) -> (r: Vec<String>)
    ensures
        owned_texts(r@) == owned_texts(list@),
{
    let mut out: Vec<String> = Vec::new();
    let mut i: usize = 0;
    while i < list.len()
        invariant
            i <= list.len(),
            out@.len() == i,
            forall|k: int| 0 <= k < i ==> (#[trigger] out@[k])@ == list@[k]@,
        decreases list.len() - i,
    {
        out.push(list[i].clone());
        i += 1;
    }
    proof {
        assert(owned_texts(out@) =~= owned_texts(list@));
    }
    out
}

/// The text of one decimal digit.
pub(crate) fn digit_text(d: u64) -> (r: &'static str)
    requires
        d < 10,
    ensures
        r@ == seq![digit(d as nat)],
{
    proof {
        reveal_strlit("0");
        reveal_strlit("1");
        reveal_strlit("2");
        reveal_strlit("3");
        reveal_strlit("4");
        reveal_strlit("5");
        reveal_strlit("6");
        reveal_strlit("7");
        reveal_strlit("8");
        reveal_strlit("9");
    }
    let r = if d == 0 {
        "0"
    } else if d == 1 {
        "1"
    } else if d == 2 {
        "2"
    } else if d == 3 {
        "3"
    } else if d == 4 {
        "4"
    } else if d == 5 {
        "5"
    } else if d == 6 {
        "6"
    } else if d == 7 {
        "7"
    } else if d == 8 {
        "8"
    } else {
        "9"
    };
    assert(r@ =~= seq![digit(d as nat)]);
    r
}

/// Writes a number in decimal notation.
pub fn decimal_text(n: u64) -> (r: String)
    ensures
        r@ == decimal(n as nat),
    decreases n,
{
    if n < 10 {
        String::from_str(digit_text(n))
    } else {
        let mut out = decimal_text(n / 10);
        out.append(digit_text(n % 10));
        assert(out@ =~= decimal((n / 10) as nat).push(digit((n % 10) as nat)));
        out
    }
}

/// Writes a boolean as `true` or `false`.
pub fn boolean_text(b: bool) -> (r: &'static str)
    ensures
        r@ == boolean(b),
{
    proof {
        reveal_strlit("true");
        reveal_strlit("false");
    }
    let r = if b {
        "true"
    } else {
        "false"
    };
    assert(r@ =~= boolean(b));
    r
}

/// Two texts one after the other.
pub fn concat2(a: &str, b: &str) -> (r: String)
    ensures
        r@ == a@ + b@,
{
    let mut out = String::from_str(a);
    out.append(b);
    out
}

/// Three texts one after the other.
pub fn concat3(a: &str, b: &str, c: &str) -> (r: String)
    ensures
        r@ == a@ + b@ + c@,
{
    let mut out = String::from_str(a);
    out.append(b);
    out.append(c);
    out
}

} // verus!
