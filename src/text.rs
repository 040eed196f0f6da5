//! Text operations on character sequences: whitespace trimming, blank-line
//! detection and literal token replacement.
use vstd::prelude::*;
use vstd::string::*;

verus! {

/// Whether `c` carries the Unicode `White_Space` property.
pub uninterp spec fn white_space(c: char) -> bool;

/// Relies on `char::is_whitespace`: true exactly for the characters with the
/// Unicode `White_Space` property, a fixed set that depends on `c` alone.
#[verifier::external_body]
fn is_white_space(c: char) -> (r: bool)
    ensures
        r == white_space(c),
{
    c.is_whitespace()
}

/// `s` without its leading whitespace.
pub open spec fn trim_front(s: Seq<char>) -> Seq<char>
    decreases s.len(),
{
    if s.len() > 0 && white_space(s[0]) {
        trim_front(s.drop_first())
    } else {
        s
    }
}

/// `s` without its trailing whitespace.
pub open spec fn trim_back(s: Seq<char>) -> Seq<char>
    decreases s.len(),
{
    if s.len() > 0 && white_space(s.last()) {
        trim_back(s.drop_last())
    } else {
        s
    }
}

/// `s` without leading and trailing whitespace.
pub open spec fn trimmed(s: Seq<char>) -> Seq<char> {
    trim_back(trim_front(s))
}

/// A line is blank when nothing is left of it after trimming.
pub open spec fn is_blank(s: Seq<char>) -> bool {
    trimmed(s).len() == 0
}

proof fn lemma_trim_front_skip(s: Seq<char>, a: int)
    requires
        0 <= a <= s.len(),
        forall|i: int| 0 <= i < a ==> white_space(#[trigger] s[i]),
    ensures
        trim_front(s) == trim_front(s.subrange(a, s.len() as int)),
    decreases a,
{
    if a > 0 {
        assert(s.drop_first() =~= s.subrange(1, s.len() as int));
        let t = s.drop_first();
        assert forall|i: int| 0 <= i < a - 1 implies white_space(#[trigger] t[i]) by {
            assert(t[i] == s[i + 1]);
        }
        lemma_trim_front_skip(t, a - 1);
        assert(t.subrange(a - 1, t.len() as int) =~= s.subrange(a, s.len() as int));
    } else {
        assert(s.subrange(0, s.len() as int) =~= s);
    }
}

proof fn lemma_trim_back_skip(s: Seq<char>, b: int)
    requires
        0 <= b <= s.len(),
        forall|i: int| b <= i < s.len() ==> white_space(#[trigger] s[i]),
    ensures
        trim_back(s) == trim_back(s.subrange(0, b)),
    decreases s.len() - b,
{
    if b < s.len() {
        let t = s.drop_last();
        assert forall|i: int| b <= i < t.len() implies white_space(#[trigger] t[i]) by {
            assert(t[i] == s[i]);
        }
        lemma_trim_back_skip(t, b);
        assert(t.subrange(0, b) =~= s.subrange(0, b));
    } else {
        assert(s.subrange(0, b) =~= s);
    }
}

/// The characters of `s`, one by one.
pub fn chars_of(s: &str) -> (r: Vec<char>)
    ensures
        r@ == s@,
{
    let n = s.unicode_len();
    let mut r: Vec<char> = Vec::new();
    let mut i: usize = 0;
    while i < n
        invariant
            n == s@.len(),
            i <= n,
            r@ == s@.subrange(0, i as int),
        decreases n - i,
    {
        r.push(s.get_char(i));
        i = i + 1;
        assert(r@ =~= s@.subrange(0, i as int));
    }
    assert(r@ =~= s@);
    r
}

/// `s` with leading and trailing whitespace removed.
pub fn trim(s: &str) -> (r: String)
    ensures
        r@ == trimmed(s@),
{
    let cs = chars_of(s);
    let n = cs.len();
    let mut a: usize = 0;
    while a < n && is_white_space(cs[a])
        invariant
            cs@ == s@,
            n == cs@.len(),
            a <= n,
            forall|i: int| 0 <= i < a ==> white_space(#[trigger] cs@[i]),
        decreases n - a,
    {
        a = a + 1;
    }
    proof {
        lemma_trim_front_skip(s@, a as int);
        if a < n {
            assert(!white_space(s@.subrange(a as int, n as int)[0]));
        }
        assert(trim_front(s@) == s@.subrange(a as int, n as int));
    }
    let mut b: usize = n;
    while b > a && is_white_space(cs[b - 1])
        invariant
            cs@ == s@,
            n == cs@.len(),
            a <= b <= n,
            forall|i: int| b <= i < n ==> white_space(#[trigger] cs@[i]),
        decreases b,
    {
        b = b - 1;
    }
    proof {
        let f = s@.subrange(a as int, n as int);
        assert forall|i: int| b - a <= i < f.len() implies white_space(#[trigger] f[i]) by {
            assert(f[i] == s@[a + i]);
        }
        lemma_trim_back_skip(f, b - a);
        let g = f.subrange(0, b - a);
        assert(g =~= s@.subrange(a as int, b as int));
        if b > a {
            assert(g.last() == s@[b - 1]);
        }
    }
    String::from_str(s.substring_char(a, b))
}

/// Whether `s` begins with `tok`.
pub open spec fn starts_with(s: Seq<char>, tok: Seq<char>) -> bool {
    tok.len() <= s.len() && s.subrange(0, tok.len() as int) == tok
}

/// `s` with every occurrence of `tok` replaced by `val`, occurrences taken
/// from the left and never overlapping. An empty `tok` occurs before every
/// character and at the end.
pub open spec fn replaced(s: Seq<char>, tok: Seq<char>, val: Seq<char>) -> Seq<char>
    decreases s.len(),
{
    if tok.len() == 0 {
        if s.len() == 0 {
            val
        } else {
            val + seq![s[0]] + replaced(s.drop_first(), tok, val)
        }
    } else if s.len() == 0 {
        s
    } else if starts_with(s, tok) {
        val + replaced(s.subrange(tok.len() as int, s.len() as int), tok, val)
    } else {
        seq![s[0]] + replaced(s.drop_first(), tok, val)
    }
}

/// Whether `tok` occurs in `cs` at position `i`.
fn occurs_at(cs: &Vec<char>, i: usize, tok: &Vec<char>) -> (r: bool)
    requires
        i <= cs@.len(),
    ensures
        r == starts_with(cs@.subrange(i as int, cs@.len() as int), tok@),
{
    if tok.len() > cs.len() - i {
        return false;
    }
    let mut j: usize = 0;
    while j < tok.len()
        invariant
            i + tok@.len() <= cs@.len() <= usize::MAX,
            j <= tok@.len(),
            forall|k: int| 0 <= k < j ==> cs@[i + k] == tok@[k],
        decreases tok@.len() - j,
    {
        if cs[i + j] != tok[j] {
            assert(cs@.subrange(i as int, cs@.len() as int).subrange(0, tok@.len() as int)[j as int]
                != tok@[j as int]);
            return false;
        }
        j = j + 1;
    }
    assert(cs@.subrange(i as int, cs@.len() as int).subrange(0, tok@.len() as int) =~= tok@);
    true
}

/// `s` with every occurrence of `tok` replaced by `val`.
pub fn replace_all(s: &str, tok: &str, val: &str) -> (r: String)
    ensures
        r@ == replaced(s@, tok@, val@),
{
    let cs = chars_of(s);
    let tk = chars_of(tok);
    let n = cs.len();
    let mut out = String::new();
    let mut i: usize = 0;
    assert(out@ + replaced(s@.subrange(0, n as int), tok@, val@) =~= replaced(s@, tok@, val@)) by {
        assert(s@.subrange(0, n as int) =~= s@);
    }
    while i < n
        invariant
            cs@ == s@,
            tk@ == tok@,
            n == cs@.len(),
            i <= n,
            out@ + replaced(s@.subrange(i as int, n as int), tok@, val@) == replaced(
                s@,
                tok@,
                val@,
            ),
        decreases n - i,
    {
        let ghost rest = s@.subrange(i as int, n as int);
        if tk.len() == 0 {
            out.append(val);
            out.append(s.substring_char(i, i + 1));
            proof {
                assert(rest.drop_first() =~= s@.subrange(i + 1, n as int));
                assert(s@.subrange(i as int, i + 1) =~= seq![rest[0]]);
            }
            i = i + 1;
        } else if occurs_at(&cs, i, &tk) {
            out.append(val);
            proof {
                assert(rest.subrange(tok@.len() as int, rest.len() as int) =~= s@.subrange(
                    i + tok@.len(),
                    n as int,
                ));
            }
            i = i + tk.len();
        } else {
            out.append(s.substring_char(i, i + 1));
            proof {
                assert(rest.drop_first() =~= s@.subrange(i + 1, n as int));
                assert(s@.subrange(i as int, i + 1) =~= seq![rest[0]]);
            }
            i = i + 1;
        }
        assert(out@ + replaced(s@.subrange(i as int, n as int), tok@, val@) =~= replaced(
            s@,
            tok@,
            val@,
        ));
    }
    if tk.len() == 0 {
        out.append(val);
    }
    assert(out@ =~= replaced(s@, tok@, val@));
    out
}

/// A copy of every string of `v`, in order.
pub fn clone_all(v: &Vec<String>) -> (r: Vec<String>)
    ensures
        r.deep_view() == v.deep_view(),
{
    let mut r: Vec<String> = Vec::new();
    let mut i: usize = 0;
    while i < v.len()
        invariant
            i <= v@.len(),
            r.deep_view() == v.deep_view().subrange(0, i as int),
        decreases v@.len() - i,
    {
        let ghost prev = r.deep_view();
        r.push(v[i].clone());
        i = i + 1;
        assert(r.deep_view() =~= prev.push(v.deep_view()[i - 1]));
        assert(r.deep_view() =~= v.deep_view().subrange(0, i as int));
    }
    assert(v.deep_view().subrange(0, i as int) =~= v.deep_view());
    r
}

} // verus!
