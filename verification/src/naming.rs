//! The names that the rewrite derives from a component's name: the tag under
//! which the element is registered, and the name of the generated class.

use vstd::prelude::*;
use vstd::string::*;

verus! {

/// Whether `c` has Unicode's Uppercase property, as `char::is_uppercase` tells.
pub uninterp spec fn is_uppercase(c: char) -> bool;

/// The characters that Unicode gives as the lowercase form of `c`, as
/// `char::to_lowercase` yields them.
pub uninterp spec fn lowercase_form(c: char) -> Seq<char>;

/// Calls `char::is_uppercase`. The result depends on `c` alone and is known to
/// the contracts as `is_uppercase(c)`; nothing else is claimed of it.
#[verifier::external_body]
fn char_is_uppercase(c: char) -> (upper: bool)
    ensures
        upper == is_uppercase(c),
{
    c.is_uppercase()
}

/// Calls `char::to_lowercase` and collects what its iterator yields. The
/// characters depend on `c` alone and are known to the contracts as
/// `lowercase_form(c)`; nothing else is claimed of them.
#[verifier::external_body]
fn char_to_lowercase(c: char) -> (lower: Vec<char>)
    ensures
        lower@ == lowercase_form(c),
{
    c.to_lowercase().collect()
}

/// `String::push` appends one character at the end of the string.
pub assume_specification[ String::push ](s: &mut String, c: char)
    ensures
        final(s)@ == old(s)@.push(c),
;

/// What one character of a component's name contributes to the hyphenated form,
/// given whether it is uppercase and what its lowercase form is.
pub open spec fn piece(c: char, upper: bool, lower: Seq<char>) -> Seq<char> {
    if upper {
        seq!['-'] + lower
    } else {
        seq![c]
    }
}

/// The hyphenated form of a name: every uppercase character becomes a hyphen
/// followed by its lowercase form, every other character stays.
pub open spec fn hyphenated(name: Seq<char>) -> Seq<char>
    decreases name.len(),
{
    if name.len() == 0 {
        Seq::empty()
    } else {
        hyphenated(name.drop_last()) + piece(
            name.last(),
            is_uppercase(name.last()),
            lowercase_form(name.last()),
        )
    }
}

/// `s` without the hyphens that it starts with.
pub open spec fn without_leading_hyphens(s: Seq<char>) -> Seq<char>
    decreases s.len(),
{
    if s.len() > 0 && s[0] == '-' {
        without_leading_hyphens(s.drop_first())
    } else {
        s
    }
}

/// The tag name made of a hyphenated form.
pub open spec fn tag_of_hyphenated(hyphenated: Seq<char>) -> Seq<char> {
    "fluxel-"@ + without_leading_hyphens(hyphenated)
}

/// The tag name under which the element of the component `name` is registered.
pub open spec fn tag_name_of(name: Seq<char>) -> Seq<char> {
    tag_of_hyphenated(hyphenated(name))
}

/// The name of the class generated for the component `name`.
pub open spec fn class_name_of(name: Seq<char>) -> Seq<char> {
    name + "Element"@
}

/// Appends to `out` what the character `c` contributes to the hyphenated form,
/// where `upper` tells whether `c` is uppercase and `lower` is its lowercase form.
pub fn push_piece(out: &mut Vec<char>, c: char, upper: bool, lower: &Vec<char>)
    ensures
        final(out)@ == old(out)@ + piece(c, upper, lower@),
{
    if upper {
        out.push('-');
        let mut k: usize = 0;
        while k < lower.len()
            invariant
                k <= lower@.len(),
                out@ == old(out)@ + (seq!['-'] + lower@.subrange(0, k as int)),
            decreases lower@.len() - k,
        {
            out.push(lower[k]);
            k = k + 1;
            assert(out@ =~= old(out)@ + (seq!['-'] + lower@.subrange(0, k as int)));
        }
        assert(lower@.subrange(0, k as int) =~= lower@);
    } else {
        out.push(c);
        assert(out@ =~= old(out)@ + seq![c]);
    }
}

/// The hyphenated form of `name`.
pub fn hyphenate(name: &str) -> (out: Vec<char>)
    ensures
        out@ == hyphenated(name@),
{
    let n: usize = name.unicode_len();
    let mut out: Vec<char> = Vec::new();
    let mut i: usize = 0;
    while i < n
        invariant
            n == name@.len(),
            i <= n,
            out@ == hyphenated(name@.subrange(0, i as int)),
        decreases n - i,
    {
        let c: char = name.get_char(i);
        let upper: bool = char_is_uppercase(c);
        let lower: Vec<char> = char_to_lowercase(c);
        push_piece(&mut out, c, upper, &lower);
        proof {
            let next = name@.subrange(0, i + 1);
            assert(next.drop_last() =~= name@.subrange(0, i as int));
            assert(next.last() == c);
        }
        i = i + 1;
    }
    assert(name@.subrange(0, n as int) =~= name@);
    out
}

/// The tag name made of a hyphenated form: the fixed prefix, then the form
/// without the hyphens that it starts with.
pub fn tag_from_hyphenated(hyphenated: &Vec<char>) -> (tag: String)
    ensures
        tag@ == tag_of_hyphenated(hyphenated@),
{
    let n: usize = hyphenated.len();
    let mut start: usize = 0;
    assert(hyphenated@.subrange(0, n as int) =~= hyphenated@);
    while start < n && hyphenated[start] == '-'
        invariant
            n == hyphenated@.len(),
            start <= n,
            without_leading_hyphens(hyphenated@) == without_leading_hyphens(
                hyphenated@.subrange(start as int, n as int),
            ),
        decreases n - start,
    {
        proof {
            let rest = hyphenated@.subrange(start as int, n as int);
            assert(rest[0] == '-');
            assert(rest.drop_first() =~= hyphenated@.subrange(start + 1, n as int));
        }
        start = start + 1;
    }
    let ghost kept = hyphenated@.subrange(start as int, n as int);
    assert(without_leading_hyphens(kept) == kept);
    let mut tag: String = String::from_str("fluxel-");
    let mut k: usize = start;
    while k < n
        invariant
            n == hyphenated@.len(),
            start <= k <= n,
            tag@ == "fluxel-"@ + hyphenated@.subrange(start as int, k as int),
        decreases n - k,
    {
        tag.push(hyphenated[k]);
        k = k + 1;
        assert(tag@ =~= "fluxel-"@ + hyphenated@.subrange(start as int, k as int));
    }
    tag
}

/// The tag name under which the element of the component `name` is
/// registered: `fluxel-`, then the name with every uppercase character turned
/// into a hyphen and its lowercase form, less the hyphens that this starts with.
pub fn tag_name(name: &str) -> (tag: String)
    ensures
        tag@ == tag_name_of(name@),
{
    let form: Vec<char> = hyphenate(name);
    tag_from_hyphenated(&form)
}

/// The name of the class generated for the component `name`: the name followed
/// by `Element`.
pub fn class_name(name: &str) -> (class: String)
    ensures
        class@ == class_name_of(name@),
{
    String::from_str(name).concat("Element")
}

} // verus!
