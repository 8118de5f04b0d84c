//! The text of integers and identifiers in serialized values.

use vstd::prelude::*;
use vstd::string::StringExecFns;

verus! {

/// The character of a decimal digit.
pub open spec fn digit_char(d: nat) -> char {
    seq!['0', '1', '2', '3', '4', '5', '6', '7', '8', '9'][(d % 10) as int]
}

/// The decimal digits of a natural number, most significant first.
pub open spec fn digits(n: nat) -> Seq<char>
    decreases n,
{
    if n < 10 {
        seq![digit_char(n)]
    } else {
        digits(n / 10).push(digit_char(n % 10))
    }
}

/// An integer in decimal, with a leading `-` when it is negative.
pub open spec fn decimal(n: int) -> Seq<char> {
    if n < 0 {
        seq!['-'] + digits((-n) as nat)
    } else {
        digits(n as nat)
    }
}

/// Relies on the `Display` impl of `i32` (through `ToString::to_string`): the
/// value in decimal, with a leading `-` when it is negative.
#[verifier::external_body]
pub(crate) fn int_text(n: i32) -> (r: String)
    ensures
        r@ == decimal(n as int),
{
    n.to_string()
}

/// The text of an identifier as CSS writes it, with the characters that
/// need it escaped.
pub uninterp spec fn ident_text(s: Seq<char>) -> Seq<char>;

/// Relies on cssparser::serialize_identifier: writes the identifier with
/// escapes where needed, and nothing for an empty one.
#[verifier::external_body]
pub(crate) fn serialize_ident(s: &str) -> (r: String)
    ensures
        r@ == ident_text(s@),
        s@.len() == 0 ==> r@.len() == 0,
{
    let mut r = String::new();
    let _ = cssparser::serialize_identifier(s, &mut r);
    r
}

/// The parts one after another, with `sep` between each two.
pub open spec fn joined(parts: Seq<Seq<char>>, sep: Seq<char>) -> Seq<char>
    decreases parts.len(),
{
    if parts.len() == 0 {
        Seq::empty()
    } else if parts.len() == 1 {
        parts[0]
    } else {
        joined(parts.drop_last(), sep) + sep + parts.last()
    }
}

/// Appending one more part to a join.
pub proof fn lemma_joined_push(parts: Seq<Seq<char>>, sep: Seq<char>, i: int)
    requires
        0 <= i < parts.len(),
    ensures
        joined(parts.take(i + 1), sep) == if i == 0 {
            parts[0]
        } else {
            joined(parts.take(i), sep) + sep + parts[i]
        },
{
    assert(parts.take(i + 1).drop_last() =~= parts.take(i));
}

/// The parts one after another.
pub open spec fn concat_all(parts: Seq<Seq<char>>) -> Seq<char>
    decreases parts.len(),
{
    if parts.len() == 0 {
        Seq::empty()
    } else {
        concat_all(parts.drop_last()) + parts.last()
    }
}

/// Appending one more part to a concatenation.
pub proof fn lemma_concat_push(parts: Seq<Seq<char>>, i: int)
    requires
        0 <= i < parts.len(),
    ensures
        concat_all(parts.take(i + 1)) == concat_all(parts.take(i)) + parts[i],
{
    assert(parts.take(i + 1).drop_last() =~= parts.take(i));
}

/// The texts of a sequence of identifiers.
pub open spec fn ident_texts(names: Seq<String>) -> Seq<Seq<char>> {
    names.map_values(|n: String| ident_text(n@))
}

/// The identifiers joined by `sep` between `prefix` and `suffix`; nothing at
/// all when there are none.
pub open spec fn idents_text(prefix: Seq<char>, suffix: Seq<char>, names: Seq<String>, sep: Seq<char>) -> Seq<char> {
    if names.len() == 0 {
        Seq::empty()
    } else {
        prefix + joined(ident_texts(names), sep) + suffix
    }
}

/// Writes identifiers joined by `sep` between `prefix` and `suffix`, or
/// nothing when there are none; used for `<line-names>`.
pub fn concat_serialize_idents(prefix: &str, suffix: &str, slice: &Vec<String>, sep: &str) -> (r: String)
    ensures
        r@ == idents_text(prefix@, suffix@, slice@, sep@),
{
    if slice.len() == 0 {
        return String::new();
    }
    let ghost texts = ident_texts(slice@);
    let mut r = prefix.to_owned();
    let mut i: usize = 0;
    while i < slice.len()
        invariant
            i <= slice.len(),
            texts == ident_texts(slice@),
            r@ == prefix@ + joined(texts.take(i as int), sep@),
        decreases slice.len() - i,
    {
        proof {
            lemma_joined_push(texts, sep@, i as int);
        }
        if i > 0 {
            r.append(sep);
        }
        r.append(serialize_ident(slice[i].as_str()).as_str());
        assert(r@ =~= prefix@ + joined(texts.take(i + 1), sep@));
        i = i + 1;
    }
    assert(texts.take(i as int) =~= texts);
    r.append(suffix);
    r
}

} // verus!
