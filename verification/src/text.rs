//! Text-level helpers of the pipeline: the sanitizer boundary, string
//! comparison, attribute lookup, and colon-delimited qualified-name
//! splitting.

use vstd::prelude::*;

use crate::xml::{attrs_view, view_opt, SpecAttr, XmlAttr};

verus! {

/// What the external sanitizer makes of a text fragment: a name for the
/// result of `ammonia::clean`, which depends on the input text alone.
pub uninterp spec fn sanitized(s: Seq<char>) -> Seq<char>;

/// Relies on `ammonia::clean`: strips and escapes HTML markup from a text
/// fragment, from its characters alone; `sanitized` names the result.
#[verifier::external_body]
pub fn sanitize_text(s: &str) -> (r: String)
    ensures
        r@ == sanitized(s@),
{
    ammonia::clean(s)
}

/// Relies on `<str as PartialEq>::eq`: two string slices compare equal
/// exactly when their characters are equal.
#[verifier::external_body]
pub fn str_eq(a: &str, b: &str) -> (r: bool)
    ensures
        r == (a@ == b@),
{
    a == b
}

/// The defined default for an absent optional string: the empty string.
pub open spec fn or_empty(o: Option<Seq<char>>) -> Seq<char> {
    match o {
        Some(s) => s,
        None => Seq::empty(),
    }
}

/// Applies the empty-string default to an optional text value.
pub fn clone_or_empty(o: &Option<String>) -> (r: String)
    ensures
        r@ == or_empty(view_opt(*o)),
{
    match o {
        Some(s) => s.clone(),
        None => String::new(),
    }
}

/// The value of the first attribute with the given local name, if any.
pub open spec fn attr_of(attrs: Seq<SpecAttr>, name: Seq<char>) -> Option<Seq<char>>
    decreases attrs.len(),
{
    if attrs.len() == 0 {
        None
    } else if attrs[0].name == name {
        Some(attrs[0].value)
    } else {
        attr_of(attrs.skip(1), name)
    }
}

/// The value of the first attribute with the given local name, with the
/// empty-string default for an absent attribute.
pub open spec fn attr_or_empty(attrs: Seq<SpecAttr>, name: Seq<char>) -> Seq<char> {
    or_empty(attr_of(attrs, name))
}

/// Clones an optional string, keeping presence and value.
pub fn clone_opt(o: &Option<String>) -> (r: Option<String>)
    ensures
        view_opt(r) == view_opt(*o),
{
    match o {
        Some(s) => Some(s.clone()),
        None => None,
    }
}

/// Looks up an attribute by local name; the first match wins.
pub fn get_attr(attrs: &Vec<XmlAttr>, name: &str) -> (r: Option<String>)
    ensures
        match r {
            Some(v) => attr_of(attrs_view(attrs@), name@) == Some(v@),
            None => attr_of(attrs_view(attrs@), name@) is None,
        },
{
    let ghost av = attrs_view(attrs@);
    proof {
        assert(av.skip(0) =~= av);
    }
    let mut i: usize = 0;
    while i < attrs.len()
        invariant
            i <= attrs.len(),
            av == attrs_view(attrs@),
            av.len() == attrs.len(),
            attr_of(av, name@) == attr_of(av.skip(i as int), name@),
        decreases attrs.len() - i,
    {
        if str_eq(attrs[i].name.as_str(), name) {
            return Some(attrs[i].value.clone());
        }
        proof {
            assert(av.skip(i as int).skip(1) =~= av.skip(i + 1));
        }
        i = i + 1;
    }
    proof {
        assert(av.skip(attrs.len() as int).len() == 0);
    }
    None
}

/// Looks up an attribute by local name, with the empty-string default.
pub fn get_attr_or_empty(attrs: &Vec<XmlAttr>, name: &str) -> (r: String)
    ensures
        r@ == attr_or_empty(attrs_view(attrs@), name@),
{
    match get_attr(attrs, name) {
        Some(v) => v,
        None => String::new(),
    }
}

/// How many times a character occurs in a string.
pub open spec fn count_char(s: Seq<char>, c: char) -> nat
    decreases s.len(),
{
    if s.len() == 0 {
        0
    } else {
        count_char(s.drop_last(), c) + (if s.last() == c {
            1nat
        } else {
            0nat
        })
    }
}

/// A string that contains a character does so at least once.
proof fn lemma_count_char_pos(s: Seq<char>, c: char, i: int)
    requires
        0 <= i < s.len(),
        s[i] == c,
    ensures
        count_char(s, c) >= 1,
    decreases s.len(),
{
    if i == s.len() - 1 {
    } else {
        lemma_count_char_pos(s.drop_last(), c, i);
    }
}

/// Two distinct occurrences make the count at least two.
proof fn lemma_count_char_two(s: Seq<char>, c: char, i: int, j: int)
    requires
        0 <= i < j < s.len(),
        s[i] == c,
        s[j] == c,
    ensures
        count_char(s, c) >= 2,
    decreases s.len(),
{
    if j == s.len() - 1 {
        lemma_count_char_pos(s.drop_last(), c, i);
    } else {
        lemma_count_char_two(s.drop_last(), c, i, j);
    }
}

/// In a string with exactly one occurrence, any two occurrences coincide.
proof fn lemma_count_char_unique(s: Seq<char>, c: char, i: int, j: int)
    requires
        count_char(s, c) == 1,
        0 <= i < s.len(),
        0 <= j < s.len(),
        s[i] == c,
        s[j] == c,
    ensures
        i == j,
{
    if i < j {
        lemma_count_char_two(s, c, i, j);
    } else if j < i {
        lemma_count_char_two(s, c, j, i);
    }
}

/// The two halves of a colon-delimited qualified name `prefix:local`.
/// A string without exactly one colon is malformed and yields nothing;
/// the caller skips it rather than fail.
pub open spec fn qname_split(s: Seq<char>) -> Option<(Seq<char>, Seq<char>)> {
    if count_char(s, ':') == 1 {
        let i = choose|i: int| 0 <= i < s.len() && s[i] == ':';
        Some((s.take(i), s.skip(i + 1)))
    } else {
        None
    }
}

/// Splits a qualified name on its single colon; a malformed name, with no
/// colon or more than one, yields `None`.
pub fn split_qname(s: &str) -> (r: Option<(String, String)>)
    ensures
        match r {
            Some(p) => qname_split(s@) == Some((p.0@, p.1@)),
            None => qname_split(s@) is None,
        },
{
    let n = s.unicode_len();
    let mut i: usize = 0;
    let mut cnt: usize = 0;
    let mut found: Option<usize> = None;
    while i < n
        invariant
            i <= n,
            n == s@.len(),
            cnt <= i,
            cnt == count_char(s@.take(i as int), ':'),
            match found {
                Some(f) => f < i && s@[f as int] == ':',
                None => cnt == 0,
            },
        decreases n - i,
    {
        let c = s.get_char(i);
        proof {
            assert(s@.take(i + 1).drop_last() =~= s@.take(i as int));
            assert(s@.take(i + 1).last() == s@[i as int]);
        }
        if c == ':' {
            cnt = cnt + 1;
            if found.is_none() {
                found = Some(i);
            }
        }
        i = i + 1;
    }
    proof {
        assert(s@.take(n as int) =~= s@);
    }
    if cnt == 1 {
        let f = match found {
            Some(f) => f,
            None => {
                return None;
            },
        };
        proof {
            let w = choose|w: int| 0 <= w < s@.len() && s@[w] == ':';
            lemma_count_char_unique(s@, ':', w, f as int);
            assert(s@.subrange(0, f as int) =~= s@.take(f as int));
            assert(s@.subrange(f + 1, n as int) =~= s@.skip(f + 1));
        }
        let a = s.substring_char(0, f).to_owned();
        let b = s.substring_char(f + 1, n).to_owned();
        Some((a, b))
    } else {
        None
    }
}

} // verus!
