//! Format templates: finding the placeholder token and putting an icon in
//! its place.

use vstd::prelude::*;
use vstd::string::*;

verus! {

/// The token that a format template holds in place of the icon: `{icon}`.
pub open spec fn placeholder() -> Seq<char> {
    seq!['{', 'i', 'c', 'o', 'n', '}']
}

/// The placeholder token stands in `s` at index `i`.
pub open spec fn placeholder_at(s: Seq<char>, i: int) -> bool {
    &&& 0 <= i
    &&& i + 6 <= s.len()
    &&& s.subrange(i, i + 6) == placeholder()
}

/// The placeholder token stands somewhere in `s`.
pub open spec fn has_placeholder(s: Seq<char>) -> bool {
    exists|i: int| placeholder_at(s, i)
}

/// `i` is the least index at which the placeholder token stands in `s`.
pub open spec fn is_first_placeholder(s: Seq<char>, i: int) -> bool {
    &&& placeholder_at(s, i)
    &&& forall|j: int| 0 <= j < i ==> !placeholder_at(s, j)
}

/// The least index at which the placeholder token stands in `s`; meaningful
/// only where `has_placeholder(s)`.
pub open spec fn first_placeholder(s: Seq<char>) -> int {
    choose|i: int| is_first_placeholder(s, i)
}

/// The template with its first placeholder token replaced by the icon. A
/// template without the token stays as it is: the icon is not appended.
pub open spec fn substitute(template: Seq<char>, icon: Seq<char>) -> Seq<char> {
    if has_placeholder(template) {
        let i = first_placeholder(template);
        template.subrange(0, i) + icon + template.subrange(i + 6, template.len() as int)
    } else {
        template
    }
}

/// Two least indices of the token are the same index.
pub proof fn lemma_first_placeholder_unique(s: Seq<char>, i: int)
    requires
        is_first_placeholder(s, i),
    ensures
        has_placeholder(s),
        first_placeholder(s) == i,
{
    let c = first_placeholder(s);
    assert(is_first_placeholder(s, c));
    if c < i {
        assert(!placeholder_at(s, c));
    } else if i < c {
        assert(!placeholder_at(s, i));
    }
}

/// The characters of a string slice, in order.
pub fn chars_of(s: &str) -> (v: Vec<char>)
    ensures
        v@ == s@,
{
    let n = s.unicode_len();
    let mut v: Vec<char> = Vec::with_capacity(n);
    let mut i: usize = 0;
    while i < n
        invariant
            n == s@.len(),
            i <= n,
            v@ == s@.take(i as int),
        decreases n - i,
    {
        let c = s.get_char(i);
        v.push(c);
        assert(v@ =~= s@.take(i + 1));
        i = i + 1;
    }
    assert(s@.take(n as int) =~= s@);
    v
}

/// Tells whether the placeholder token stands in `chars` at index `i`.
fn token_at(chars: &Vec<char>, i: usize) -> (b: bool)
    requires
        i + 6 <= chars.len(),
    ensures
        b == placeholder_at(chars@, i as int),
{
    let b = chars[i] == '{' && chars[i + 1] == 'i' && chars[i + 2] == 'c' && chars[i + 3] == 'o'
        && chars[i + 4] == 'n' && chars[i + 5] == '}';
    proof {
        let sub = chars@.subrange(i as int, i + 6);
        if b {
            assert(sub =~= placeholder());
        } else if sub == placeholder() {
            assert(sub[0] == '{' && sub[1] == 'i' && sub[2] == 'c' && sub[3] == 'o' && sub[4] == 'n'
                && sub[5] == '}');
        }
    }
    b
}

/// The index of the first placeholder token in the template, counted in
/// characters, or `None` where the template holds no such token.
pub fn find_placeholder(template: &str) -> (r: Option<usize>)
    ensures
        match r {
            Some(i) => is_first_placeholder(template@, i as int),
            None => !has_placeholder(template@),
        },
{
    let chars = chars_of(template);
    let n = chars.len();
    if n < 6 {
        return None;
    }
    let last = n - 6;
    let mut i: usize = 0;
    while i <= last
        invariant
            n == chars.len(),
            chars@ == template@,
            last == n - 6,
            i <= last + 1,
            forall|j: int| 0 <= j < i ==> !placeholder_at(template@, j),
        decreases last + 1 - i,
    {
        if token_at(&chars, i) {
            return Some(i);
        }
        i = i + 1;
    }
    None
}

/// Tells whether the template holds the placeholder token.
pub fn contains_placeholder(template: &str) -> (b: bool)
    ensures
        b == has_placeholder(template@),
{
    find_placeholder(template).is_some()
}

/// Puts the icon in the place of the template's first placeholder token,
/// and of that one alone. A template without the token comes back as it is.
pub fn fill_template(template: &str, icon: &str) -> (r: String)
    ensures
        r@ == substitute(template@, icon@),
        !has_placeholder(template@) ==> r@ == template@,
        forall|i: int|
            is_first_placeholder(template@, i) ==> r@ == template@.subrange(0, i) + icon@
                + template@.subrange(i + 6, template@.len() as int),
{
    match find_placeholder(template) {
        None => {
            assert forall|i: int| !is_first_placeholder(template@, i) by {
                if is_first_placeholder(template@, i) {
                    assert(placeholder_at(template@, i));
                }
            }
            template.to_owned()
        },
        Some(i) => {
            proof {
                lemma_first_placeholder_unique(template@, i as int);
                assert forall|j: int| is_first_placeholder(template@, j) implies j == i by {
                    lemma_first_placeholder_unique(template@, j);
                }
            }
            let n = template.unicode_len();
            let mut out = template.substring_char(0, i).to_owned();
            out.append(icon);
            out.append(template.substring_char(i + 6, n));
            out
        },
    }
}

} // verus!
