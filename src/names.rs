//! Facts about logical names made of slash-separated segments.
use vstd::prelude::*;

verus! {

/// `s` holds no slash, so it can serve as one segment of a logical name.
pub open spec fn no_slash(s: Seq<char>) -> bool {
    forall|i: int| 0 <= i < s.len() ==> s[i] != '/'
}

/// A name with a leading segment is split uniquely at its first slash.
pub proof fn lemma_split_first(a: Seq<char>, r: Seq<char>, a2: Seq<char>, r2: Seq<char>)
    requires
        no_slash(a),
        no_slash(a2),
        a + "/"@ + r == a2 + "/"@ + r2,
    ensures
        a == a2,
        r == r2,
{
    reveal_strlit("/");
    let x = a + "/"@ + r;
    if a.len() < a2.len() {
        assert(x[a.len() as int] == '/');
        assert(x[a.len() as int] == a2[a.len() as int]);
    } else if a2.len() < a.len() {
        assert(x[a2.len() as int] == '/');
        assert(x[a2.len() as int] == a[a2.len() as int]);
    }
    assert(a =~= x.subrange(0, a.len() as int));
    assert(a2 =~= x.subrange(0, a2.len() as int));
    assert(r =~= x.subrange(a.len() as int + 1, x.len() as int));
    assert(r2 =~= x.subrange(a2.len() as int + 1, x.len() as int));
}

/// Three slash-joined segments, the first two free of slashes, determine the
/// segments.
pub proof fn lemma_join3_injective(
    a: Seq<char>,
    b: Seq<char>,
    c: Seq<char>,
    a2: Seq<char>,
    b2: Seq<char>,
    c2: Seq<char>,
)
    requires
        no_slash(a),
        no_slash(b),
        no_slash(a2),
        no_slash(b2),
        a + "/"@ + b + "/"@ + c == a2 + "/"@ + b2 + "/"@ + c2,
    ensures
        a == a2,
        b == b2,
        c == c2,
{
    assert(a + "/"@ + b + "/"@ + c =~= a + "/"@ + (b + "/"@ + c));
    assert(a2 + "/"@ + b2 + "/"@ + c2 =~= a2 + "/"@ + (b2 + "/"@ + c2));
    lemma_split_first(a, b + "/"@ + c, a2, b2 + "/"@ + c2);
    lemma_split_first(b, c, b2, c2);
}

/// A name joined from segments holds a slash, so it differs from any
/// slash-free name.
pub proof fn lemma_join3_not_plain(a: Seq<char>, b: Seq<char>, c: Seq<char>, s: Seq<char>)
    requires
        no_slash(s),
    ensures
        a + "/"@ + b + "/"@ + c != s,
{
    reveal_strlit("/");
    let x = a + "/"@ + b + "/"@ + c;
    assert(x[a.len() as int] == '/');
    if x == s {
        assert(s[a.len() as int] == '/');
    }
}

} // verus!
