use vstd::prelude::*;
use vstd::string::StrSliceExecFns;

verus! {

/// The most tags a template may hold; block nesting can go no deeper.
pub const MAX_TAGS: usize = 64;

/// The most opening parentheses that the tags of a template may hold; subexpression
/// nesting can go no deeper.
pub const MAX_PARENS: usize = 64;

/// Reads `t` tag by tag, where a tag runs from `{{` to the next `}}`, and gives:
/// whether no tag holds `>` or `*` (so there is no partial, partial block or
/// decorator), how many tags open, and how many `(` the tags hold. `inside` tells
/// whether the text starts within a tag.
pub open spec fn scan(t: Seq<char>, inside: bool) -> (bool, nat, nat)
    decreases t.len(),
{
    if t.len() == 0 {
        (true, 0, 0)
    } else if !inside {
        if t.len() >= 2 && t[0] == '{' && t[1] == '{' {
            let r = scan(t.skip(2), true);
            (r.0, r.1 + 1, r.2)
        } else {
            scan(t.skip(1), false)
        }
    } else {
        if t.len() >= 2 && t[0] == '}' && t[1] == '}' {
            scan(t.skip(2), false)
        } else {
            let r = scan(t.skip(1), true);
            (r.0 && t[0] != '>' && t[0] != '*', r.1, if t[0] == '(' { r.2 + 1 } else { r.2 })
        }
    }
}

/// A template that renders without recursion beyond fixed bounds: no partials or
/// decorators, at most `MAX_TAGS` tags and at most `MAX_PARENS` subexpressions.
pub open spec fn renderable(t: Seq<char>) -> bool {
    let r = scan(t, false);
    r.0 && r.1 <= MAX_TAGS && r.2 <= MAX_PARENS
}

/// Tells whether a template text is `renderable`.
pub fn is_renderable(t: &str) -> (r: bool)
    ensures
        r == renderable(t@),
{
    let n = t.unicode_len();
    let mut i: usize = 0;
    let mut inside = false;
    let mut ok = true;
    let mut tags: usize = 0;
    let mut parens: usize = 0;
    assert(t@.skip(0) =~= t@);
    while i < n
        invariant
            n == t@.len(),
            i <= n,
            tags <= i,
            parens <= i,
            scan(t@, false) == ({
                let r = scan(t@.skip(i as int), inside);
                (ok && r.0, (tags + r.1) as nat, (parens + r.2) as nat)
            }),
        decreases n - i,
    {
        let ghost rest = t@.skip(i as int);
        let c = t.get_char(i);
        let two = i + 1 < n;
        let d = if two { t.get_char(i + 1) } else { ' ' };
        assert(rest[0] == c);
        assert(two ==> rest[1] == d);
        assert(rest.skip(1) =~= t@.skip(i + 1));
        if !inside {
            if two && c == '{' && d == '{' {
                assert(rest.skip(2) =~= t@.skip(i + 2));
                inside = true;
                tags = tags + 1;
                i = i + 2;
            } else {
                i = i + 1;
            }
        } else {
            if two && c == '}' && d == '}' {
                assert(rest.skip(2) =~= t@.skip(i + 2));
                inside = false;
                i = i + 2;
            } else {
                if c == '>' || c == '*' {
                    ok = false;
                }
                if c == '(' {
                    parens = parens + 1;
                }
                i = i + 1;
            }
        }
    }
    assert(t@.skip(i as int) =~= Seq::<char>::empty());
    ok && tags <= MAX_TAGS && parens <= MAX_PARENS
}

} // verus!
