//! Key normalisation: slugs, case-folded names and hardware addresses.

use vstd::prelude::*;

verus! {

/// `String::push` appends the given character to the end of the string.
pub assume_specification[ String::push ](s: &mut String, c: char)
    ensures
        final(s)@ == old(s)@.push(c),
;

/// The characters a slug keeps: ASCII letters and digits, and no others. The
/// registry's slugs are made of these and of hyphens, so a letter outside
/// ASCII separates words like any other character: `Caf\u{e9} 24` has the slug
/// `caf-24`.
pub open spec fn is_alphanumeric(c: char) -> bool {
    ('a' <= c && c <= 'z') || ('A' <= c && c <= 'Z') || ('0' <= c && c <= '9')
}

/// ASCII upper-case letters map to their lower-case form; every other
/// character maps to itself, a letter outside ASCII too.
pub open spec fn lowercase(c: char) -> char {
    if 'A' <= c && c <= 'Z' {
        ((c as u8) + 32) as char
    } else {
        c
    }
}

/// The slug of a display string: its maximal runs of letters and digits,
/// lower-cased and joined by single hyphens.
///
/// Read from the left, a letter or digit is appended to the slug of what
/// precedes it, after a hyphen when a separator stands directly before it and
/// the slug so far is not empty; any other character contributes nothing by
/// itself.
pub open spec fn slug_of(s: Seq<char>) -> Seq<char>
    decreases s.len(),
{
    if s.len() == 0 {
        Seq::empty()
    } else {
        let before = s.drop_last();
        let c = s.last();
        let done = slug_of(before);
        if !is_alphanumeric(c) {
            done
        } else if done.len() > 0 && !is_alphanumeric(before.last()) {
            done.push('-').push(lowercase(c))
        } else {
            done.push(lowercase(c))
        }
    }
}

/// The characters a slug is made of.
pub open spec fn is_slug_char(c: char) -> bool {
    ('a' <= c && c <= 'z') || ('0' <= c && c <= '9') || c == '-'
}

/// Lower-case letters, digits and hyphens only; no hyphen at either end and
/// no two hyphens in a row.
pub open spec fn is_slug(t: Seq<char>) -> bool {
    &&& forall|i: int| 0 <= i < t.len() ==> is_slug_char(#[trigger] t[i])
    &&& t.len() > 0 ==> t[0] != '-' && t.last() != '-'
    &&& forall|i: int| 0 <= i < t.len() - 1 ==> !(#[trigger] t[i] == '-' && t[i + 1] == '-')
}

/// Every slug is well formed, and it is empty or ends in a letter or digit.
pub proof fn lemma_slug_is_slug(s: Seq<char>)
    ensures
        is_slug(slug_of(s)),
        slug_of(s).len() > 0 ==> is_alphanumeric(slug_of(s).last()),
        slug_of(s).len() <= 2 * s.len(),
    decreases s.len(),
{
    if s.len() > 0 {
        lemma_slug_is_slug(s.drop_last());
    }
}

/// On text that is hyphen-separated lower-case words, the slug is the text
/// itself, without a hyphen that ends it.
proof fn lemma_slug_of_partial_slug(t: Seq<char>)
    requires
        forall|i: int| 0 <= i < t.len() ==> is_slug_char(#[trigger] t[i]),
        t.len() > 0 ==> t[0] != '-',
        forall|i: int| 0 <= i < t.len() - 1 ==> !(#[trigger] t[i] == '-' && t[i + 1] == '-'),
    ensures
        slug_of(t) == if t.len() > 0 && t.last() == '-' {
            t.drop_last()
        } else {
            t
        },
    decreases t.len(),
{
    if t.len() > 0 {
        lemma_slug_of_partial_slug(t.drop_last());
    }
}

/// A well-formed slug is its own slug.
pub proof fn lemma_slug_fixed_point(t: Seq<char>)
    requires
        is_slug(t),
    ensures
        slug_of(t) == t,
{
    lemma_slug_of_partial_slug(t);
}

/// Normalising twice gives what normalising once gives.
pub proof fn lemma_slug_idempotent(s: Seq<char>)
    ensures
        slug_of(slug_of(s)) == slug_of(s),
{
    lemma_slug_is_slug(s);
    lemma_slug_fixed_point(slug_of(s));
}

/// The slug of two texts, one after the other, is made of their slugs: where
/// both have one, the two are joined, by a hyphen if a separator stands where
/// the texts meet and directly otherwise; where one has none, it is the
/// other's.
pub proof fn lemma_slug_of_concat(a: Seq<char>, b: Seq<char>)
    ensures
        slug_of(a + b) == if slug_of(b).len() == 0 {
            slug_of(a)
        } else if slug_of(a).len() == 0 {
            slug_of(b)
        } else if !is_alphanumeric(a.last()) || !is_alphanumeric(b.first()) {
            slug_of(a).push('-') + slug_of(b)
        } else {
            slug_of(a) + slug_of(b)
        },
    decreases b.len(),
{
    if b.len() > 0 {
        let before = b.drop_last();
        lemma_slug_of_concat(a, before);
        lemma_slug_is_slug(a);
        lemma_slug_is_slug(before);
        lemma_no_slug_no_letter(before);
        assert((a + b).drop_last() =~= a + before);
        if before.len() > 0 {
            assert(before.first() == b.first());
        }
    }
}

/// A text has the empty slug exactly if it holds no letter and no digit.
pub proof fn lemma_no_slug_no_letter(s: Seq<char>)
    ensures
        slug_of(s).len() == 0 <==> forall|i: int| 0 <= i < s.len() ==> !is_alphanumeric(#[trigger] s[i]),
    decreases s.len(),
{
    if s.len() > 0 {
        let before = s.drop_last();
        lemma_no_slug_no_letter(before);
        assert(forall|i: int| 0 <= i < before.len() ==> before[i] == s[i]);
    }
}

/// Two display strings that differ only in the case of their ASCII letters
/// have the same slug.
pub proof fn lemma_slug_ignores_case(s: Seq<char>)
    ensures
        slug_of(lowercase_of(s)) == slug_of(s),
    decreases s.len(),
{
    if s.len() > 0 {
        lemma_slug_ignores_case(s.drop_last());
        assert(lowercase_of(s).drop_last() =~= lowercase_of(s.drop_last()));
    }
}

/// The text with each ASCII upper-case letter replaced by its lower-case
/// form, and every other character as it is. Case is folded in ASCII only, on
/// purpose: what the key of a name is then follows from this definition alone.
/// `HOST-1` and `host-1` fold to the same text; `B\u{dc}RO-PC` and
/// `b\u{fc}ro-pc` do not.
pub open spec fn lowercase_of(s: Seq<char>) -> Seq<char> {
    Seq::new(s.len(), |i: int| lowercase(s[i]))
}

fn char_is_alphanumeric(c: char) -> (keep: bool)
    ensures
        keep == is_alphanumeric(c),
{
    (c >= 'a' && c <= 'z') || (c >= 'A' && c <= 'Z') || (c >= '0' && c <= '9')
}

pub(crate) fn char_to_lowercase(c: char) -> (lower: char)
    ensures
        lower == lowercase(c),
{
    if c >= 'A' && c <= 'Z' {
        ((c as u8) + 32) as char
    } else {
        c
    }
}

/// Turns a display name into its slug. Total: the empty string, and any string
/// without an ASCII letter or digit, give the empty slug.
pub fn sanitize_slug(input: &str) -> (slug: String)
    ensures
        slug@ == slug_of(input@),
        is_slug(slug@),
{
    let mut out = String::new();
    let mut started = false;
    let mut after_separator = false;
    let ghost mut seen: Seq<char> = Seq::empty();
    for c in it: input.chars()
        invariant
            it.seq() == input@,
            seen == it.history(),
            out@ == slug_of(it.history()),
            started == (out@.len() > 0),
            after_separator == (it.index() > 0 && !is_alphanumeric(it.history().last())),
    {
        proof {
            assert(seen.push(c).drop_last() =~= seen);
            seen = seen.push(c);
        }
        if char_is_alphanumeric(c) {
            if after_separator && started {
                out.push('-');
            }
            out.push(char_to_lowercase(c));
            started = true;
            after_separator = false;
        } else {
            after_separator = true;
        }
    }
    proof {
        assert(seen =~= input@);
        lemma_slug_is_slug(input@);
    }
    out
}

/// Folds the ASCII letters of a name to lower case, for use as a grouping
/// key. Letters outside ASCII are left as they are: two names that differ in
/// the case of such a letter have two keys.
pub fn normalize_name(input: &str) -> (name: String)
    ensures
        name@ == lowercase_of(input@),
{
    let mut out = String::new();
    let ghost mut seen: Seq<char> = Seq::empty();
    for c in it: input.chars()
        invariant
            it.seq() == input@,
            seen == it.history(),
            out@ == lowercase_of(it.history()),
    {
        proof {
            seen = seen.push(c);
        }
        out.push(char_to_lowercase(c));
    }
    out
}

/// What a source yielded, or nothing where the source failed or the task that
/// read it did not finish: a failed source costs its records, not the run.
pub fn extract_vec<T, E1, E2>(res: Result<Result<Vec<T>, E1>, E2>) -> (items: Vec<T>)
    ensures
        items@ == match res {
            Ok(Ok(found)) => found@,
            _ => Seq::empty(),
        },
{
    match res {
        Ok(inner) => match inner {
            Ok(found) => found,
            Err(_) => Vec::new(),
        },
        Err(_) => Vec::new(),
    }
}

} // verus!
