//! Text primitives: splitting a string on a separator character, string
//! equality, and concatenation. The splitter keeps every field, including
//! the empty fields produced by adjacent separators.

use vstd::prelude::*;

verus! {

/// The fields of `s` delimited by `sep`, left to right. Nothing is
/// collapsed: `k` separators always yield `k + 1` fields, and adjacent
/// separators yield empty fields.
pub open spec fn split_spec(s: Seq<char>, sep: char) -> Seq<Seq<char>>
    decreases s.len(),
{
    if s.len() == 0 {
        seq![Seq::<char>::empty()]
    } else if s[0] == sep {
        seq![Seq::<char>::empty()] + split_spec(s.skip(1), sep)
    } else {
        let rest = split_spec(s.skip(1), sep);
        seq![seq![s[0]] + rest[0]] + rest.skip(1)
    }
}

/// How many times `c` occurs in `s`.
pub open spec fn count_char(s: Seq<char>, c: char) -> nat
    decreases s.len(),
{
    if s.len() == 0 {
        0
    } else {
        (if s[0] == c { 1nat } else { 0nat }) + count_char(s.skip(1), c)
    }
}

/// Splitting is a pure function of the input: the number of fields is
/// always one more than the number of separators, so every separator is
/// accounted for and no field is dropped.
pub proof fn lemma_split_field_count(s: Seq<char>, sep: char)
    ensures
        split_spec(s, sep).len() == count_char(s, sep) + 1,
    decreases s.len(),
{
    if s.len() > 0 {
        lemma_split_field_count(s.skip(1), sep);
    }
}

/// A string without the separator splits into the single field that is the
/// string itself.
pub proof fn lemma_split_no_sep(s: Seq<char>, sep: char)
    requires
        forall|j: int| 0 <= j < s.len() ==> s[j] != sep,
    ensures
        split_spec(s, sep) == seq![s],
    decreases s.len(),
{
    if s.len() == 0 {
        assert(s =~= Seq::<char>::empty());
    } else {
        lemma_split_no_sep(s.skip(1), sep);
        let rest = split_spec(s.skip(1), sep);
        assert(seq![s[0]] + rest[0] =~= s);
        assert(rest.skip(1) =~= Seq::<Seq<char>>::empty());
        assert(split_spec(s, sep) =~~= seq![s]);
    }
}

/// Splitting at the first separator: the field before it, then the split of
/// what follows it.
pub proof fn lemma_split_at_first_sep(s: Seq<char>, sep: char, k: int)
    requires
        0 <= k < s.len(),
        s[k] == sep,
        forall|j: int| 0 <= j < k ==> s[j] != sep,
    ensures
        split_spec(s, sep) == seq![s.take(k)] + split_spec(s.skip(k + 1), sep),
    decreases k,
{
    if k == 0 {
        assert(s.take(0) =~= Seq::<char>::empty());
        assert(split_spec(s, sep) =~~= seq![s.take(0)] + split_spec(s.skip(1), sep));
    } else {
        let t = s.skip(1);
        assert(forall|j: int| 0 <= j < k - 1 ==> t[j] == s[j + 1] && t[j] != sep);
        lemma_split_at_first_sep(t, sep, k - 1);
        let rest = split_spec(t, sep);
        assert(rest == seq![t.take(k - 1)] + split_spec(t.skip(k), sep));
        assert(rest[0] == t.take(k - 1));
        assert(t.skip(k) =~= s.skip(k + 1));
        assert(seq![s[0]] + t.take(k - 1) =~= s.take(k));
        assert(rest.skip(1) =~= split_spec(t.skip(k), sep));
        assert(split_spec(s, sep) =~~= seq![s.take(k)] + split_spec(s.skip(k + 1), sep));
    }
}

/// The views of the strings in `v`.
pub open spec fn views_of(v: Seq<String>) -> Seq<Seq<char>> {
    v.map_values(|t: String| t@)
}

/// Split `s` on `sep`, keeping empty fields.
pub fn split_char(s: &str, sep: char) -> (r: Vec<String>)
    ensures
        views_of(r@) == split_spec(s@, sep),
        r@.len() >= 1,
{
    let len = s.unicode_len();
    let mut fields: Vec<String> = Vec::new();
    let mut start: usize = 0;
    let mut i: usize = 0;
    proof {
        assert(views_of(fields@) =~= Seq::<Seq<char>>::empty());
        assert(s@.skip(0) =~= s@);
        assert(views_of(fields@) + split_spec(s@, sep) =~= split_spec(s@, sep));
    }
    while i < len
        invariant
            start <= i <= len,
            len == s@.len(),
            forall|j: int| start <= j < i ==> s@[j] != sep,
            split_spec(s@, sep) == views_of(fields@) + split_spec(s@.skip(start as int), sep),
        decreases len - i,
    {
        let c = s.get_char(i);
        if c == sep {
            let field = String::from_str(s.substring_char(start, i));
            proof {
                let t = s@.skip(start as int);
                assert(forall|j: int| 0 <= j < i - start ==> t[j] == s@[j + start] && t[j] != sep);
                assert(t[i - start] == sep);
                lemma_split_at_first_sep(t, sep, i - start);
                assert(t.take(i - start) =~= field@);
                assert(t.skip(i - start + 1) =~= s@.skip(i + 1));
                assert(views_of(fields@.push(field)) =~= views_of(fields@) + seq![field@]);
                assert(views_of(fields@) + (seq![field@] + split_spec(s@.skip(i + 1), sep))
                    =~= (views_of(fields@) + seq![field@]) + split_spec(s@.skip(i + 1), sep));
            }
            fields.push(field);
            start = i + 1;
        }
        i += 1;
    }
    let last = String::from_str(s.substring_char(start, len));
    proof {
        let t = s@.skip(start as int);
        assert(forall|j: int| 0 <= j < t.len() ==> t[j] == s@[j + start] && t[j] != sep);
        lemma_split_no_sep(t, sep);
        assert(t =~= last@);
        assert(views_of(fields@.push(last)) =~= views_of(fields@) + seq![last@]);
    }
    fields.push(last);
    fields
}

/// Character-by-character string equality.
pub fn str_eq(a: &str, b: &str) -> (r: bool)
    ensures
        r == (a@ == b@),
{
    let alen = a.unicode_len();
    let blen = b.unicode_len();
    if alen != blen {
        return false;
    }
    let mut i: usize = 0;
    while i < alen
        invariant
            i <= alen,
            alen == a@.len(),
            alen == b@.len(),
            forall|j: int| 0 <= j < i ==> a@[j] == b@[j],
        decreases alen - i,
    {
        if a.get_char(i) != b.get_char(i) {
            return false;
        }
        i += 1;
    }
    proof {
        assert(a@ =~= b@);
    }
    true
}

/// The concatenation of two strings.
pub fn concat2(a: &str, b: &str) -> (r: String)
    ensures
        r@ == a@ + b@,
{
    let mut s = String::from_str(a);
    s.append(b);
    s
}

/// The concatenation of three strings.
pub fn concat3(a: &str, b: &str, c: &str) -> (r: String)
    ensures
        r@ == a@ + b@ + c@,
{
    let mut s = String::from_str(a);
    s.append(b);
    s.append(c);
    s
}

} // verus!
