use vstd::prelude::*;
use crate::text::chars_of;

verus! {

/// Position of the last `c` in `s`, or -1.
pub open spec fn last_index(s: Seq<char>, c: char) -> int
    decreases s.len(),
{
    if s.len() == 0 {
        -1
    } else if s.last() == c {
        s.len() - 1
    } else {
        last_index(s.drop_last(), c)
    }
}

/// Position of the first `c` in `s`, or -1.
pub open spec fn first_index(s: Seq<char>, c: char) -> int
    decreases s.len(),
{
    if s.len() == 0 {
        -1
    } else if s[0] == c {
        0
    } else if first_index(s.drop_first(), c) < 0 {
        -1
    } else {
        first_index(s.drop_first(), c) + 1
    }
}

pub proof fn lemma_last_index(s: Seq<char>, c: char)
    ensures
        -1 <= last_index(s, c) < s.len(),
        last_index(s, c) >= 0 ==> s[last_index(s, c)] == c,
        forall|k: int| last_index(s, c) < k < s.len() ==> s[k] != c,
    decreases s.len(),
{
    if s.len() > 0 && s.last() != c {
        lemma_last_index(s.drop_last(), c);
        assert forall|k: int| last_index(s, c) < k < s.len() implies s[k] != c by {
            if k < s.len() - 1 {
                assert(s[k] == s.drop_last()[k]);
            }
        }
    }
}

pub proof fn lemma_first_index(s: Seq<char>, c: char)
    ensures
        -1 <= first_index(s, c) < s.len(),
        first_index(s, c) >= 0 ==> s[first_index(s, c)] == c,
        forall|k: int| 0 <= k < s.len() && (first_index(s, c) < 0 || k < first_index(s, c)) ==> s[k] != c,
    decreases s.len(),
{
    if s.len() > 0 && s[0] != c {
        lemma_first_index(s.drop_first(), c);
        assert forall|k: int| 0 <= k < s.len() && (first_index(s, c) < 0 || k < first_index(s, c)) implies s[k] != c by {
            if k > 0 {
                assert(s[k] == s.drop_first()[k - 1]);
            }
        }
    }
}

/// The text of a `key=value` pair before its first `=`.
pub open spec fn pair_key(seg: Seq<char>) -> Seq<char> {
    seg.take(first_index(seg, '='))
}

/// The text of a `key=value` pair between its first `=` and the next `=`
/// (or its end).
pub open spec fn pair_value(seg: Seq<char>) -> Seq<char> {
    let rest = seg.skip(first_index(seg, '=') + 1);
    let e = first_index(rest, '=');
    if e < 0 {
        rest
    } else {
        rest.take(e)
    }
}

/// The text after the last `&`.
pub open spec fn last_segment(f: Seq<char>) -> Seq<char> {
    f.skip(last_index(f, '&') + 1)
}

/// Every `&`-separated part of the fragment holds a `=`.
pub open spec fn fragment_wf(f: Seq<char>) -> bool
    decreases f.len(),
{
    let a = last_index(f, '&');
    &&& first_index(last_segment(f), '=') >= 0
    &&& a >= 0 ==> {
        proof {
            lemma_last_index(f, '&');
        }
        fragment_wf(f.take(a))
    }
}

/// The value of the last `access_token=...` pair of a URL fragment made of
/// `key=value` pairs joined by `&`.
pub open spec fn fragment_token(f: Seq<char>) -> Option<Seq<char>>
    decreases f.len(),
{
    let a = last_index(f, '&');
    let seg = last_segment(f);
    if pair_key(seg) == "access_token"@ {
        Some(pair_value(seg))
    } else if a < 0 {
        None
    } else {
        proof {
            lemma_last_index(f, '&');
        }
        fragment_token(f.take(a))
    }
}

/// The position of the last `&` in `fv[0..end]`.
fn last_amp(fv: &Vec<char>, end: usize) -> (a: Option<usize>)
    requires
        end <= fv@.len(),
    ensures
        match a {
            Some(i) => i == last_index(fv@.take(end as int), '&'),
            None => last_index(fv@.take(end as int), '&') == -1,
        },
{
    let mut j: usize = end;
    while j > 0
        invariant
            j <= end <= fv@.len(),
            last_index(fv@.take(end as int), '&') == last_index(fv@.take(j as int), '&'),
        decreases j,
    {
        assert(fv@.take(j as int).drop_last() =~= fv@.take(j - 1));
        if fv[j - 1] == '&' {
            return Some(j - 1);
        }
        j = j - 1;
    }
    None
}

/// The position of the first `=` in `fv[from..to]`, counted from `from`.
fn first_eq(fv: &Vec<char>, from: usize, to: usize) -> (e: Option<usize>)
    requires
        from <= to <= fv@.len(),
    ensures
        match e {
            Some(i) => i == first_index(fv@.subrange(from as int, to as int), '=') && from + i < to,
            None => first_index(fv@.subrange(from as int, to as int), '=') == -1,
        },
{
    let mut k: usize = from;
    while k < to
        invariant
            from <= k <= to <= fv@.len(),
            forall|m: int| from <= m < k ==> fv@[m] != '=',
        decreases to - k,
    {
        if fv[k] == '=' {
            proof {
                let s = fv@.subrange(from as int, to as int);
                lemma_first_index(s, '=');
                let fi = first_index(s, '=');
                assert(s[k - from] == '=');
                assert(fi >= 0 && fi <= k - from) by {
                    if fi < 0 || fi > k - from {
                        assert(s[k - from] != '=');
                    }
                }
                assert(fi == k - from) by {
                    if fi < k - from {
                        assert(s[fi] == fv@[from + fi]);
                    }
                }
            }
            return Some(k - from);
        }
        k = k + 1;
    }
    proof {
        let s = fv@.subrange(from as int, to as int);
        lemma_first_index(s, '=');
        let fi = first_index(s, '=');
        if fi >= 0 {
            assert(s[fi] == fv@[from + fi]);
        }
    }
    None
}

/// Whether `fv[from..to]` spells `w`.
fn range_is(fv: &Vec<char>, from: usize, to: usize, w: &Vec<char>) -> (r: bool)
    requires
        from <= to <= fv@.len(),
    ensures
        r == (fv@.subrange(from as int, to as int) == w@),
{
    if to - from != w.len() {
        return false;
    }
    let mut k: usize = 0;
    while k < w.len()
        invariant
            from <= to <= fv@.len(),
            to - from == w@.len(),
            k <= w@.len(),
            forall|m: int| 0 <= m < k ==> fv@[from + m] == w@[m],
        decreases w@.len() - k,
    {
        if fv[from + k] != w[k] {
            assert(fv@.subrange(from as int, to as int)[k as int] != w@[k as int]);
            return false;
        }
        k = k + 1;
    }
    assert(fv@.subrange(from as int, to as int) =~= w@);
    true
}

/// Whether every `&`-separated part of a URL fragment holds a `=`.
pub fn fragment_is_well_formed(fragment: &str) -> (r: bool)
    ensures
        r == fragment_wf(fragment@),
{
    let fv = chars_of(fragment);
    let mut cur: usize = fv.len();
    assert(fv@.take(cur as int) =~= fragment@);
    loop
        invariant
            fv@ == fragment@,
            cur <= fv@.len(),
            fragment_wf(fragment@) == fragment_wf(fv@.take(cur as int)),
        decreases cur,
    {
        let ghost f = fv@.take(cur as int);
        proof {
            lemma_last_index(f, '&');
        }
        let a = last_amp(&fv, cur);
        let start: usize = match a {
            Some(i) => i + 1,
            None => 0,
        };
        assert(last_segment(f) =~= fv@.subrange(start as int, cur as int));
        match first_eq(&fv, start, cur) {
            None => {
                return false;
            },
            Some(_) => {},
        }
        match a {
            None => {
                return true;
            },
            Some(i) => {
                assert(f.take(i as int) =~= fv@.take(i as int));
                cur = i;
            },
        }
    }
}

/// The value of the last `access_token` pair of a URL fragment.
pub fn fragment_access_token(fragment: &str) -> (r: Option<String>)
    requires
        fragment_wf(fragment@),
    ensures
        r is None <==> fragment_token(fragment@) is None,
        r matches Some(t) ==> fragment_token(fragment@) == Some(t@),
{
    let fv = chars_of(fragment);
    let key = chars_of("access_token");
    let mut cur: usize = fv.len();
    assert(fv@.take(cur as int) =~= fragment@);
    loop
        invariant
            fv@ == fragment@,
            key@ == "access_token"@,
            cur <= fv@.len(),
            fragment_wf(fv@.take(cur as int)),
            fragment_token(fragment@) == fragment_token(fv@.take(cur as int)),
        decreases cur,
    {
        let ghost f = fv@.take(cur as int);
        proof {
            lemma_last_index(f, '&');
        }
        let a = last_amp(&fv, cur);
        let start: usize = match a {
            Some(i) => i + 1,
            None => 0,
        };
        let ghost seg = last_segment(f);
        assert(seg =~= fv@.subrange(start as int, cur as int));
        let e = match first_eq(&fv, start, cur) {
            Some(e) => e,
            None => {
                return None;
            },
        };
        assert(pair_key(seg) =~= fv@.subrange(start as int, (start + e) as int));
        if range_is(&fv, start, start + e, &key) {
            let vs = start + e + 1;
            let ghost rest = seg.skip(e + 1);
            assert(rest =~= fv@.subrange(vs as int, cur as int));
            let ve: usize = match first_eq(&fv, vs, cur) {
                Some(e2) => vs + e2,
                None => cur,
            };
            assert(pair_value(seg) =~= fv@.subrange(vs as int, ve as int));
            let v = fragment.substring_char(vs, ve);
            return Some(v.to_owned());
        }
        match a {
            None => {
                return None;
            },
            Some(i) => {
                assert(f.take(i as int) =~= fv@.take(i as int));
                cur = i;
            },
        }
    }
}

} // verus!
