//! Names supplied by the identity service, made safe for use as a single
//! path component below the home prefix.

use vstd::prelude::*;
use vstd::string::*;

verus! {

/// The two characters that separate path components.
pub open spec fn is_separator(c: char) -> bool {
    c == '/' || c == '\\'
}

/// Whether a text begins with a dot.
pub open spec fn begins_with_dot(s: Seq<char>) -> bool {
    s.len() > 0 && s[0] == '.'
}

/// How many dots stand at the front of a text.
pub open spec fn leading_dots(s: Seq<char>) -> nat
    decreases s.len(),
{
    if s.len() > 0 && s[0] == '.' {
        1 + leading_dots(s.drop_first())
    } else {
        0
    }
}

/// The text without the dots at its front.
pub open spec fn strip_dots(s: Seq<char>) -> Seq<char> {
    s.skip(leading_dots(s) as int)
}

/// The text without the separators at its front.
pub open spec fn skip_separators(s: Seq<char>) -> Seq<char>
    decreases s.len(),
{
    if s.len() > 0 && is_separator(s[0]) {
        skip_separators(s.drop_first())
    } else {
        s
    }
}

/// The text with every separator taken out, the other characters in order.
pub open spec fn without_separators(s: Seq<char>) -> Seq<char>
    decreases s.len(),
{
    if s.len() == 0 {
        s
    } else if is_separator(s[0]) {
        without_separators(s.drop_first())
    } else {
        seq![s[0]] + without_separators(s.drop_first())
    }
}

/// A safe name: leading dots stripped first, then every separator removed.
pub open spec fn sanitized(s: Seq<char>) -> Seq<char> {
    without_separators(strip_dots(s))
}

proof fn lemma_leading_dots_bound(s: Seq<char>)
    ensures
        leading_dots(s) <= s.len(),
        forall|j: int| 0 <= j < leading_dots(s) ==> s[j] == '.',
        leading_dots(s) < s.len() ==> s[leading_dots(s) as int] != '.',
    decreases s.len(),
{
    if s.len() > 0 && s[0] == '.' {
        let t = s.drop_first();
        lemma_leading_dots_bound(t);
        assert forall|j: int| 0 <= j < leading_dots(s) implies s[j] == '.' by {
            if j > 0 {
                assert(s[j] == t[j - 1]);
            }
        }
        if leading_dots(s) < s.len() {
            assert(s[leading_dots(s) as int] == t[leading_dots(t) as int]);
        }
    }
}

proof fn lemma_leading_dots_is(s: Seq<char>, k: int)
    requires
        0 <= k <= s.len(),
        forall|j: int| 0 <= j < k ==> s[j] == '.',
        k < s.len() ==> s[k] != '.',
    ensures
        leading_dots(s) == k,
    decreases k,
{
    if k > 0 {
        let t = s.drop_first();
        assert forall|j: int| 0 <= j < k - 1 implies t[j] == '.' by {
            assert(t[j] == s[j + 1]);
        }
        if k - 1 < t.len() {
            assert(t[k - 1] == s[k]);
        }
        lemma_leading_dots_is(t, k - 1);
    }
}

proof fn lemma_without_separators_push(s: Seq<char>, c: char)
    ensures
        without_separators(s.push(c)) == if is_separator(c) {
            without_separators(s)
        } else {
            without_separators(s).push(c)
        },
    decreases s.len(),
{
    let p = s.push(c);
    if s.len() == 0 {
        assert(p.drop_first() =~= s);
        assert(without_separators(p.drop_first()) =~= Seq::<char>::empty());
        if !is_separator(c) {
            assert(without_separators(p) =~= without_separators(s).push(c));
        }
    } else {
        assert(p.drop_first() =~= s.drop_first().push(c));
        lemma_without_separators_push(s.drop_first(), c);
        assert(p[0] == s[0]);
        if !is_separator(s[0]) && !is_separator(c) {
            assert(without_separators(p) =~= without_separators(s).push(c));
        }
    }
}

/// A sanitized name holds no separator, whatever it was made from.
pub proof fn lemma_sanitized_has_no_separator(name: Seq<char>)
    ensures
        forall|i: int| 0 <= i < sanitized(name).len() ==> !is_separator(#[trigger] sanitized(name)[i]),
{
    lemma_without_separators_clean(strip_dots(name));
}

proof fn lemma_without_separators_clean(s: Seq<char>)
    ensures
        forall|i: int| 0 <= i < without_separators(s).len() ==> !is_separator(#[trigger] without_separators(s)[i]),
    decreases s.len(),
{
    if s.len() > 0 {
        let t = without_separators(s.drop_first());
        lemma_without_separators_clean(s.drop_first());
        assert forall|i: int| 0 <= i < without_separators(s).len() implies !is_separator(
            #[trigger] without_separators(s)[i],
        ) by {
            if !is_separator(s[0]) && i > 0 {
                assert(without_separators(s)[i] == t[i - 1]);
            }
        }
    }
}

proof fn lemma_without_separators_front(s: Seq<char>)
    ensures
        without_separators(s) == without_separators(skip_separators(s)),
        skip_separators(s).len() > 0 ==> without_separators(s).len() > 0 && without_separators(s)[0]
            == skip_separators(s)[0],
        skip_separators(s).len() == 0 ==> without_separators(s).len() == 0,
    decreases s.len(),
{
    if s.len() > 0 && is_separator(s[0]) {
        lemma_without_separators_front(s.drop_first());
    }
}

/// A sanitized name begins with a dot exactly when, in the name as given, a
/// dot follows separators that follow the leading dots: stripping comes
/// before removal, so such a dot is uncovered and stays.
pub proof fn lemma_sanitized_leading_dot(name: Seq<char>)
    ensures
        begins_with_dot(sanitized(name)) <==> begins_with_dot(skip_separators(strip_dots(name))),
        begins_with_dot(strip_dots(name)) == false,
{
    lemma_without_separators_front(strip_dots(name));
    lemma_leading_dots_bound(name);
}

/// A name that holds no separator is sanitized to a text with no leading
/// dot and no separator.
pub proof fn lemma_sanitized_plain(name: Seq<char>)
    requires
        forall|i: int| 0 <= i < name.len() ==> !is_separator(#[trigger] name[i]),
    ensures
        sanitized(name) == strip_dots(name),
        !begins_with_dot(sanitized(name)),
{
    lemma_leading_dots_bound(name);
    lemma_without_separators_same(strip_dots(name));
}

proof fn lemma_without_separators_same(s: Seq<char>)
    requires
        forall|i: int| 0 <= i < s.len() ==> !is_separator(#[trigger] s[i]),
    ensures
        without_separators(s) == s,
    decreases s.len(),
{
    if s.len() > 0 {
        let t = s.drop_first();
        assert forall|i: int| 0 <= i < t.len() implies !is_separator(#[trigger] t[i]) by {
            assert(t[i] == s[i + 1]);
        }
        lemma_without_separators_same(t);
        assert(seq![s[0]] + t =~= s);
    }
}

/// `String::push`: the character is added at the end of the text.
#[verifier::external_body]
fn push_char(text: &mut String, c: char)
    ensures
        final(text)@ == old(text)@.push(c),
{
    text.push(c);
}

/// Makes a name safe to stand directly below the home prefix: the dots at
/// its front are stripped, then every `/` and `\` is removed.
pub fn sanitize_name(name: &str) -> (safe: String)
    ensures
        safe@ == sanitized(name@),
{
    let n: usize = name.unicode_len();
    let mut start: usize = 0;
    while start < n && name.get_char(start) == '.'
        invariant
            start <= n,
            n == name@.len(),
            forall|j: int| 0 <= j < start ==> name@[j] == '.',
        decreases n - start,
    {
        start += 1;
    }
    proof {
        lemma_leading_dots_is(name@, start as int);
    }
    let ghost rest = strip_dots(name@);
    let mut safe = String::new();
    let mut i: usize = start;
    proof {
        assert(rest.subrange(0, 0) =~= Seq::<char>::empty());
    }
    while i < n
        invariant
            start <= i <= n,
            n == name@.len(),
            rest == name@.skip(start as int),
            safe@ == without_separators(rest.subrange(0, i - start)),
        decreases n - i,
    {
        let c = name.get_char(i);
        proof {
            let before = rest.subrange(0, i - start);
            assert(rest.subrange(0, i + 1 - start) =~= before.push(c));
            lemma_without_separators_push(before, c);
        }
        if c != '/' && c != '\\' {
            push_char(&mut safe, c);
        }
        i += 1;
    }
    proof {
        assert(rest.subrange(0, n - start) =~= rest);
    }
    safe
}

} // verus!
