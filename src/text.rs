//! Tokens of the wire form: splitting a string on `.` and joining tokens back.

use vstd::prelude::*;
use vstd::string::*;

verus! {

/// The views of a sequence of strings.
pub open spec fn views(v: Seq<String>) -> Seq<Seq<char>> {
    v.map_values(|t: String| t@)
}

/// A token holds no separator.
pub open spec fn no_dot(t: Seq<char>) -> bool {
    forall|i: int| 0 <= i < t.len() ==> t[i] != '.'
}

/// Every token of `ts` holds no separator.
pub open spec fn dot_free(ts: Seq<Seq<char>>) -> bool {
    forall|i: int| 0 <= i < ts.len() ==> no_dot(#[trigger] ts[i])
}

/// The tokens joined by `.`.
pub open spec fn join(ts: Seq<Seq<char>>) -> Seq<char>
    decreases ts.len(),
{
    if ts.len() == 0 {
        Seq::empty()
    } else if ts.len() == 1 {
        ts[0]
    } else {
        join(ts.drop_last()) + seq!['.'] + ts.last()
    }
}

/// The tokens of `s` split at each `.`: always at least one, possibly empty, token.
pub open spec fn split(s: Seq<char>) -> Seq<Seq<char>>
    decreases s.len(),
{
    if s.len() == 0 {
        seq![Seq::empty()]
    } else {
        let rest = split(s.drop_last());
        if s.last() == '.' {
            rest.push(Seq::empty())
        } else {
            rest.update(rest.len() - 1, rest.last().push(s.last()))
        }
    }
}

pub proof fn lemma_split_len(s: Seq<char>)
    ensures
        split(s).len() >= 1,
    decreases s.len(),
{
    if s.len() > 0 {
        lemma_split_len(s.drop_last());
    }
}

/// Splitting yields tokens without separators.
pub proof fn lemma_split_dot_free(s: Seq<char>)
    ensures
        dot_free(split(s)),
    decreases s.len(),
{
    if s.len() > 0 {
        lemma_split_len(s.drop_last());
        lemma_split_dot_free(s.drop_last());
        let rest = split(s.drop_last());
        if s.last() != '.' {
            let t = rest.last().push(s.last());
            assert(no_dot(t)) by {
                assert forall|i: int| 0 <= i < t.len() implies t[i] != '.' by {
                    if i < rest.last().len() {
                        assert(no_dot(rest[rest.len() - 1]));
                    }
                }
            }
        }
    }
}

/// Joining the tokens of a split gives back the string.
pub proof fn lemma_join_split(s: Seq<char>)
    ensures
        join(split(s)) == s,
    decreases s.len(),
{
    if s.len() > 0 {
        let p = s.drop_last();
        lemma_join_split(p);
        lemma_split_len(p);
        let rest = split(p);
        if s.last() == '.' {
            assert(rest.push(Seq::empty()).drop_last() =~= rest);
            assert(s =~= p + seq!['.'] + Seq::<char>::empty());
        } else {
            let t = rest.last().push(s.last());
            let u = rest.update(rest.len() - 1, t);
            if rest.len() == 1 {
                assert(s =~= rest[0].push(s.last()));
            } else {
                assert(u.drop_last() =~= rest.drop_last());
                assert(s =~= p.push(s.last()));
                assert(p == join(rest));
                assert(join(rest) == join(rest.drop_last()) + seq!['.'] + rest.last());
                assert(s =~= join(rest.drop_last()) + seq!['.'] + t);
            }
        }
    }
}

/// Appending separator-free text to a string extends its last token.
proof fn lemma_split_extend(a: Seq<char>, b: Seq<char>)
    requires
        no_dot(b),
    ensures
        split(a + b) == split(a).update(split(a).len() - 1, split(a).last() + b),
    decreases b.len(),
{
    lemma_split_len(a);
    if b.len() == 0 {
        assert(a + b =~= a);
        assert(split(a).last() + b =~= split(a).last());
        assert(split(a).update(split(a).len() - 1, split(a).last()) =~= split(a));
    } else {
        let b0 = b.drop_last();
        assert(no_dot(b0));
        lemma_split_extend(a, b0);
        assert((a + b).drop_last() =~= a + b0);
        assert((a + b).last() == b.last());
        assert(b.last() != '.');
        lemma_split_len(a + b0);
        let r = split(a);
        assert((r.last() + b0).push(b.last()) =~= r.last() + b);
        assert(r.update(r.len() - 1, r.last() + b0).update(r.len() - 1, r.last() + b)
            =~= r.update(r.len() - 1, r.last() + b));
    }
}

/// Splitting the join of separator-free tokens gives back the tokens.
pub proof fn lemma_split_join(ts: Seq<Seq<char>>)
    requires
        ts.len() >= 1,
        dot_free(ts),
    ensures
        split(join(ts)) == ts,
    decreases ts.len(),
{
    if ts.len() == 1 {
        assert(no_dot(ts[0]));
        lemma_split_extend(Seq::empty(), ts[0]);
        assert(Seq::<char>::empty() + ts[0] =~= ts[0]);
        assert(split(Seq::<char>::empty()) == seq![Seq::<char>::empty()]);
        assert(seq![Seq::<char>::empty()].update(0, Seq::<char>::empty() + ts[0]) =~= ts);
    } else {
        let p = ts.drop_last();
        assert(dot_free(p)) by {
            assert forall|i: int| 0 <= i < p.len() implies no_dot(#[trigger] p[i]) by {
                assert(p[i] == ts[i]);
            }
        }
        lemma_split_join(p);
        let a = join(p) + seq!['.'];
        assert(a.drop_last() =~= join(p));
        assert(split(a) == p.push(Seq::empty()));
        assert(no_dot(ts[ts.len() - 1]));
        lemma_split_extend(a, ts.last());
        assert(Seq::<char>::empty() + ts.last() =~= ts.last());
        assert(p.push(Seq::empty()).update(p.len() as int, ts.last()) =~= ts);
    }
}

/// Splits a string at each `.`.
pub fn split_tokens(s: &str) -> (r: Vec<String>)
    ensures
        views(r@) == split(s@),
{
    let n = s.unicode_len();
    let mut out: Vec<String> = Vec::new();
    let mut start: usize = 0;
    let mut i: usize = 0;
    assert(s@.subrange(0, 0) =~= Seq::<char>::empty());
    assert(views(out@).push(s@.subrange(0, 0)) =~= seq![Seq::<char>::empty()]);
    while i < n
        invariant
            n == s@.len(),
            start <= i <= n,
            views(out@).push(s@.subrange(start as int, i as int)) == split(
                s@.subrange(0, i as int),
            ),
        decreases n - i,
    {
        let ghost prev = views(out@);
        assert(s@.subrange(0, i as int + 1).drop_last() =~= s@.subrange(0, i as int));
        if s.get_char(i) == '.' {
            let tok = s.substring_char(start, i).to_owned();
            out.push(tok);
            start = i + 1;
            assert(views(out@) =~= prev.push(tok@));
            assert(s@.subrange(start as int, i as int + 1) =~= Seq::<char>::empty());
        } else {
            let ghost cur = s@.subrange(start as int, i as int);
            assert(cur.push(s@[i as int]) =~= s@.subrange(start as int, i as int + 1));
            assert(prev.push(cur).update(prev.len() as int, cur.push(s@[i as int]))
                =~= prev.push(s@.subrange(start as int, i as int + 1)));
        }
        i = i + 1;
    }
    let tok = s.substring_char(start, n).to_owned();
    let ghost prev = views(out@);
    out.push(tok);
    assert(views(out@) =~= prev.push(tok@));
    assert(s@.subrange(0, n as int) =~= s@);
    out
}

/// Joins strings with `.` between them.
pub fn join_tokens(ts: &Vec<String>) -> (r: String)
    ensures
        r@ == join(views(ts@)),
{
    let mut out = String::new();
    let mut i: usize = 0;
    while i < ts.len()
        invariant
            i <= ts@.len(),
            out@ == join(views(ts@).take(i as int)),
        decreases ts@.len() - i,
    {
        let ghost before = out@;
        proof {
            reveal_strlit(".");
        }
        assert("."@ =~= seq!['.']);
        if i > 0 {
            out.append(".");
        }
        out.append(ts[i].as_str());
        let ghost t = views(ts@).take(i as int + 1);
        assert(t.last() == ts@[i as int]@);
        assert(t.drop_last() =~= views(ts@).take(i as int));
        assert(i == 0 ==> before =~= Seq::<char>::empty());
        assert(i == 0 ==> out@ =~= t[0]);
        assert(i > 0 ==> out@ =~= before + seq!['.'] + t.last());
        i = i + 1;
    }
    assert(views(ts@).take(ts@.len() as int) =~= views(ts@));
    out
}

/// Whether two texts are equal, character by character.
pub fn same_text(a: &str, b: &str) -> (r: bool)
    ensures
        r == (a@ == b@),
{
    let n = a.unicode_len();
    if n != b.unicode_len() {
        return false;
    }
    let mut i: usize = 0;
    while i < n
        invariant
            n == a@.len() == b@.len(),
            i <= n,
            a@.subrange(0, i as int) == b@.subrange(0, i as int),
        decreases n - i,
    {
        if a.get_char(i) != b.get_char(i) {
            return false;
        }
        assert(a@.subrange(0, i as int + 1) =~= a@.subrange(0, i as int).push(a@[i as int]));
        assert(b@.subrange(0, i as int + 1) =~= b@.subrange(0, i as int).push(b@[i as int]));
        i = i + 1;
    }
    assert(a@ =~= a@.subrange(0, n as int));
    assert(b@ =~= b@.subrange(0, n as int));
    true
}

/// Whether a text holds no `.`.
pub fn has_no_dot(t: &str) -> (r: bool)
    ensures
        r == no_dot(t@),
{
    let n = t.unicode_len();
    let mut i: usize = 0;
    while i < n
        invariant
            n == t@.len(),
            i <= n,
            forall|j: int| 0 <= j < i ==> t@[j] != '.',
        decreases n - i,
    {
        if t.get_char(i) == '.' {
            return false;
        }
        i = i + 1;
    }
    true
}

/// Whether no string of `v` holds a `.`.
pub fn all_dot_free(v: &Vec<String>) -> (r: bool)
    ensures
        r == dot_free(views(v@)),
{
    let mut i: usize = 0;
    while i < v.len()
        invariant
            i <= v@.len(),
            forall|j: int| 0 <= j < i ==> no_dot(#[trigger] views(v@)[j]),
        decreases v@.len() - i,
    {
        if !has_no_dot(v[i].as_str()) {
            assert(views(v@)[i as int] == v@[i as int]@);
            return false;
        }
        assert(views(v@)[i as int] == v@[i as int]@);
        i = i + 1;
    }
    true
}

} // verus!
