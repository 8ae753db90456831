//! Git branch names from `[worktree]` templates: slugs of issue text and the
//! rewriting of any text into a name that `git check-ref-format --branch`
//! accepts.

use vstd::prelude::*;
use crate::text::{
    append, ascii_lower, chars_of, contains_seq, contains_vec, ends_with, ends_with_vec,
    is_ascii_alnum, is_ascii_alphanumeric, join_seqs, last_index_of, lemma_last_index_of,
    occurs_at, replace_all, replace_vec, rfind_char, slice_vec, string_of, to_ascii_lowercase,
};

verus! {

// ---------------------------------------------------------------------------
// slugify

/// One character of the slug scan: ASCII alphanumerics are kept lower-cased,
/// any other character becomes a single '-' (never leading, never doubled).
pub open spec fn slug_step(o: Seq<char>, c: char) -> Seq<char> {
    if is_ascii_alnum(c) {
        o.push(ascii_lower(c))
    } else if o.len() > 0 && o.last() != '-' {
        o.push('-')
    } else {
        o
    }
}

pub open spec fn slug_scan(s: Seq<char>) -> Seq<char>
    decreases s.len(),
{
    if s.len() == 0 {
        Seq::empty()
    } else {
        slug_step(slug_scan(s.drop_last()), s.last())
    }
}

/// `s.trim_end_matches(c)`.
pub open spec fn trim_end_char(s: Seq<char>, c: char) -> Seq<char>
    decreases s.len(),
{
    if s.len() > 0 && s.last() == c {
        trim_end_char(s.drop_last(), c)
    } else {
        s
    }
}

/// The slug of `s`, at most `max` characters: when longer, cut back to the
/// last '-' boundary within `max`.
pub open spec fn slug(s: Seq<char>, max: nat) -> Seq<char> {
    let out = trim_end_char(slug_scan(s), '-');
    if out.len() <= max {
        out
    } else {
        let head = out.take(max as int);
        let cut = if out[max as int] == '-' {
            head
        } else if last_index_of(head, '-') >= 0 {
            head.take(last_index_of(head, '-'))
        } else {
            head
        };
        trim_end_char(cut, '-')
    }
}

/// Characters a slug is made of.
pub open spec fn slug_char(c: char) -> bool {
    ('0' <= c && c <= '9') || ('a' <= c && c <= 'z') || c == '-'
}

/// Every character is a slug character, there is no leading, trailing or
/// doubled '-'.
pub open spec fn is_slug(s: Seq<char>) -> bool {
    &&& forall|i: int| 0 <= i < s.len() ==> slug_char(#[trigger] s[i])
    &&& s.len() > 0 ==> s[0] != '-' && s.last() != '-'
    &&& forall|i: int| 0 <= i < s.len() - 1 ==> !(#[trigger] s[i] == '-' && s[i + 1] == '-')
}

/// A scan result: slug characters, no leading or doubled '-'.
spec fn scan_shape(s: Seq<char>) -> bool {
    &&& forall|i: int| 0 <= i < s.len() ==> slug_char(#[trigger] s[i])
    &&& s.len() > 0 ==> s[0] != '-'
    &&& forall|i: int| 0 <= i < s.len() - 1 ==> !(#[trigger] s[i] == '-' && s[i + 1] == '-')
}

proof fn lemma_scan_shape(s: Seq<char>)
    ensures
        scan_shape(slug_scan(s)),
    decreases s.len(),
{
    if s.len() > 0 {
        lemma_scan_shape(s.drop_last());
        let o = slug_scan(s.drop_last());
        let c = s.last();
        let r = slug_step(o, c);
        assert forall|i: int| 0 <= i < r.len() implies slug_char(#[trigger] r[i]) by {
            if i < o.len() {
                assert(r[i] == o[i]);
            }
        }
        assert forall|i: int| 0 <= i < r.len() - 1 implies !(#[trigger] r[i] == '-' && r[i + 1]
            == '-') by {
            if i + 1 < o.len() {
                assert(r[i] == o[i] && r[i + 1] == o[i + 1]);
            }
        }
    }
}

/// A prefix of a scan-shaped sequence keeps its shape.
proof fn lemma_shape_take(s: Seq<char>, n: int)
    requires
        scan_shape(s),
        0 <= n <= s.len(),
    ensures
        scan_shape(s.take(n)),
{
    let t = s.take(n);
    assert forall|i: int| 0 <= i < t.len() implies slug_char(#[trigger] t[i]) by {
        assert(t[i] == s[i]);
    }
    assert forall|i: int| 0 <= i < t.len() - 1 implies !(#[trigger] t[i] == '-' && t[i + 1]
        == '-') by {
        assert(t[i] == s[i] && t[i + 1] == s[i + 1]);
    }
}

proof fn lemma_trim_end_char(s: Seq<char>, c: char)
    ensures
        trim_end_char(s, c).len() <= s.len(),
        trim_end_char(s, c) == s.take(trim_end_char(s, c).len() as int),
        trim_end_char(s, c).len() > 0 ==> trim_end_char(s, c).last() != c,
    decreases s.len(),
{
    if s.len() > 0 && s.last() == c {
        lemma_trim_end_char(s.drop_last(), c);
        let t = trim_end_char(s.drop_last(), c);
        assert(s.drop_last().take(t.len() as int) =~= s.take(t.len() as int));
    } else {
        assert(s.take(s.len() as int) =~= s);
    }
}

proof fn lemma_trim_shape(s: Seq<char>)
    requires
        scan_shape(s),
    ensures
        is_slug(trim_end_char(s, '-')),
{
    lemma_trim_end_char(s, '-');
    let t = trim_end_char(s, '-');
    lemma_shape_take(s, t.len() as int);
}

pub fn slugify(s: &str, max: usize) -> (r: String)
    ensures
        r@ == slug(s@, max as nat),
        r@.len() <= max,
        is_slug(r@),
{
    let v = chars_of(s);
    let mut out: Vec<char> = Vec::new();
    let mut i: usize = 0;
    while i < v.len()
        invariant
            v@ == s@,
            i <= v.len(),
            out@ == slug_scan(v@.take(i as int)),
        decreases v.len() - i,
    {
        let c = v[i];
        assert(v@.take(i + 1).drop_last() =~= v@.take(i as int));
        if is_ascii_alphanumeric(c) {
            out.push(to_ascii_lowercase(c));
        } else if out.len() > 0 && out[out.len() - 1] != '-' {
            out.push('-');
        }
        i += 1;
    }
    assert(v@.take(v.len() as int) =~= v@);
    proof {
        lemma_scan_shape(s@);
    }
    let trimmed = trim_end_vec(&out, '-');
    if trimmed.len() <= max {
        proof {
            lemma_trim_shape(slug_scan(s@));
        }
        return string_of(&trimmed);
    }
    let head = slice_vec(&trimmed, 0, max);
    assert(head@ =~= trimmed@.take(max as int));
    proof {
        lemma_last_index_of(head@, '-');
    }
    let cut = if trimmed[max] == '-' {
        head
    } else {
        match rfind_char(&head, '-') {
            Some(k) => {
                let c = slice_vec(&head, 0, k);
                assert(c@ =~= head@.take(k as int));
                c
            },
            None => head,
        }
    };
    let r = trim_end_vec(&cut, '-');
    proof {
        lemma_trim_end_char(slug_scan(s@), '-');
        lemma_shape_take(slug_scan(s@), trimmed@.len() as int);
        lemma_last_index_of(head@, '-');
        lemma_shape_take(trimmed@, max as int);
        if last_index_of(head@, '-') >= 0 && trimmed@[max as int] != '-' {
            lemma_shape_take(head@, last_index_of(head@, '-'));
        }
        lemma_trim_shape(cut@);
        lemma_trim_end_char(cut@, '-');
    }
    string_of(&r)
}

/// `s.trim_end_matches(c)` on a vector.
pub fn trim_end_vec(s: &Vec<char>, c: char) -> (r: Vec<char>)
    ensures
        r@ == trim_end_char(s@, c),
{
    let mut j: usize = s.len();
    assert(s@.take(s.len() as int) =~= s@);
    while j > 0 && s[j - 1] == c
        invariant
            j <= s.len(),
            trim_end_char(s@, c) == trim_end_char(s@.take(j as int), c),
        decreases j,
    {
        assert(s@.take(j as int).drop_last() =~= s@.take(j - 1));
        j -= 1;
    }
    let r = slice_vec(s, 0, j);
    assert(r@ =~= s@.take(j as int));
    r
}

// ---------------------------------------------------------------------------
// collapse_runs

/// Every run of `ch` shortened to one `ch`.
pub open spec fn collapse(s: Seq<char>, ch: char) -> Seq<char>
    decreases s.len(),
{
    if s.len() == 0 {
        s
    } else {
        let o = collapse(s.drop_last(), ch);
        if s.last() == ch && o.len() > 0 && o.last() == ch {
            o
        } else {
            o.push(s.last())
        }
    }
}

/// No two adjacent `ch`.
pub open spec fn no_double(s: Seq<char>, ch: char) -> bool {
    forall|i: int| 0 <= i < s.len() - 1 ==> !(#[trigger] s[i] == ch && s[i + 1] == ch)
}

pub fn collapse_runs(s: &Vec<char>, ch: char) -> (r: Vec<char>)
    ensures
        r@ == collapse(s@, ch),
{
    let mut out: Vec<char> = Vec::new();
    let mut i: usize = 0;
    assert(s@.take(0) =~= Seq::<char>::empty());
    while i < s.len()
        invariant
            i <= s.len(),
            out@ == collapse(s@.take(i as int), ch),
        decreases s.len() - i,
    {
        let c = s[i];
        assert(s@.take(i + 1).drop_last() =~= s@.take(i as int));
        if !(c == ch && out.len() > 0 && out[out.len() - 1] == ch) {
            out.push(c);
        }
        i += 1;
    }
    assert(s@.take(s.len() as int) =~= s@);
    out
}

proof fn lemma_collapse(s: Seq<char>, ch: char)
    ensures
        collapse(s, ch).len() <= s.len(),
        collapse(s, ch).len() == s.len() ==> collapse(s, ch) == s,
        no_double(collapse(s, ch), ch),
        forall|c: char| collapse(s, ch).contains(c) ==> s.contains(c),
    decreases s.len(),
{
    if s.len() > 0 {
        let p = s.drop_last();
        lemma_collapse(p, ch);
        let o = collapse(p, ch);
        let r = collapse(s, ch);
        if !(s.last() == ch && o.len() > 0 && o.last() == ch) {
            if r.len() == s.len() {
                assert(o == p);
                assert(r =~= s);
            }
            assert forall|i: int| 0 <= i < r.len() - 1 implies !(#[trigger] r[i] == ch && r[i
                + 1] == ch) by {
                if i + 1 < o.len() {
                    assert(r[i] == o[i] && r[i + 1] == o[i + 1]);
                }
            }
        }
        assert forall|c: char| r.contains(c) implies s.contains(c) by {
            let k = choose|k: int| 0 <= k < r.len() && r[k] == c;
            if k < o.len() {
                assert(o[k] == c);
                assert(o.contains(c));
                assert(p.contains(c));
                let m = choose|m: int| 0 <= m < p.len() && p[m] == c;
                assert(s[m] == p[m]);
            } else {
                assert(s[s.len() - 1] == c);
            }
        }
    }
}

// ---------------------------------------------------------------------------
// the characters git refuses in a ref name

pub open spec fn is_ascii_control(c: char) -> bool {
    (c as u32) < 0x20 || (c as u32) == 0x7f
}

/// ASCII control characters, space, `~ ^ : ? * [ \`.
pub open spec fn ref_forbidden(c: char) -> bool {
    is_ascii_control(c) || c == ' ' || c == '~' || c == '^' || c == ':' || c == '?' || c == '*'
        || c == '[' || c == '\\'
}

/// No refused character occurs.
pub open spec fn ref_clean(s: Seq<char>) -> bool {
    forall|i: int| 0 <= i < s.len() ==> !ref_forbidden(#[trigger] s[i])
}

pub open spec fn map_forbidden(s: Seq<char>) -> Seq<char> {
    s.map_values(|c: char| if ref_forbidden(c) { '-' } else { c })
}

fn is_forbidden(c: char) -> (b: bool)
    ensures
        b == ref_forbidden(c),
{
    let n = c as u32;
    n < 0x20 || n == 0x7f || c == ' ' || c == '~' || c == '^' || c == ':' || c == '?' || c
        == '*' || c == '[' || c == '\\'
}

proof fn lemma_clean_sub(s: Seq<char>, t: Seq<char>)
    requires
        ref_clean(s),
        forall|c: char| t.contains(c) ==> s.contains(c) || c == '-' || c == '/' || c == '.',
    ensures
        ref_clean(t),
{
    assert forall|i: int| 0 <= i < t.len() implies !ref_forbidden(#[trigger] t[i]) by {
        assert(t.contains(t[i]));
        if s.contains(t[i]) {
            let k = choose|k: int| 0 <= k < s.len() && s[k] == t[i];
            assert(!ref_forbidden(s[k]));
        }
    }
}

// ---------------------------------------------------------------------------
// replacement steps

pub open spec fn at_brace() -> Seq<char> {
    seq!['@', '{']
}

pub open spec fn two_dots() -> Seq<char> {
    seq!['.', '.']
}

proof fn lemma_replace_shrinks(s: Seq<char>, pat: Seq<char>, rep: Seq<char>)
    requires
        pat.len() > 0,
        rep.len() < pat.len(),
    ensures
        replace_all(s, pat, rep).len() <= s.len(),
        replace_all(s, pat, rep).len() == s.len() ==> replace_all(s, pat, rep) == s
            && !contains_seq(s, pat),
        contains_seq(s, pat) ==> replace_all(s, pat, rep).len() < s.len(),
        forall|c: char| #[trigger]
            replace_all(s, pat, rep).contains(c) ==> s.contains(c) || rep.contains(c),
    decreases s.len(),
{
    let r = replace_all(s, pat, rep);
    if s.len() < pat.len() {
        assert forall|i: int| !occurs_at(s, pat, i) by {}
    } else if s.subrange(0, pat.len() as int) == pat {
        let t = s.skip(pat.len() as int);
        lemma_replace_shrinks(t, pat, rep);
        assert(occurs_at(s, pat, 0));
        assert forall|c: char| r.contains(c) implies s.contains(c) || rep.contains(c) by {
            let k = choose|k: int| 0 <= k < r.len() && r[k] == c;
            if k < rep.len() {
                assert(rep[k] == c);
            } else {
                let rt = replace_all(t, pat, rep);
                assert(rt[k - rep.len()] == c);
                assert(rt.contains(c));
                if t.contains(c) {
                    let m = choose|m: int| 0 <= m < t.len() && t[m] == c;
                    assert(s[m + pat.len()] == c);
                }
            }
        }
    } else {
        let t = s.skip(1);
        lemma_replace_shrinks(t, pat, rep);
        let rt = replace_all(t, pat, rep);
        if r.len() == s.len() {
            assert(rt == t);
            assert(r =~= s);
            assert forall|i: int| !occurs_at(s, pat, i) by {
                if occurs_at(s, pat, i) && i > 0 {
                    assert(t.subrange(i - 1, i - 1 + pat.len()) =~= s.subrange(i, i + pat.len()));
                    assert(occurs_at(t, pat, i - 1));
                }
            }
        }
        if contains_seq(s, pat) {
            let i = choose|i: int| occurs_at(s, pat, i);
            if i > 0 {
                assert(t.subrange(i - 1, i - 1 + pat.len()) =~= s.subrange(i, i + pat.len()));
                assert(occurs_at(t, pat, i - 1));
            }
        }
        assert forall|c: char| r.contains(c) implies s.contains(c) || rep.contains(c) by {
            let k = choose|k: int| 0 <= k < r.len() && r[k] == c;
            if k == 0 {
                assert(s[0] == c);
            } else {
                assert(rt[k - 1] == c);
                assert(rt.contains(c));
                if t.contains(c) {
                    let m = choose|m: int| 0 <= m < t.len() && t[m] == c;
                    assert(s[m + 1] == c);
                }
            }
        }
    }
}

/// `while s.contains("..") { s = s.replace("..", ".") }`.
pub open spec fn dedots(s: Seq<char>) -> Seq<char>
    decreases s.len(),
{
    let r = replace_all(s, two_dots(), seq!['.']);
    if contains_seq(s, two_dots()) && r.len() < s.len() {
        dedots(r)
    } else {
        s
    }
}

proof fn lemma_dedots(s: Seq<char>)
    ensures
        dedots(s).len() <= s.len(),
        dedots(s).len() == s.len() ==> dedots(s) == s && !contains_seq(s, two_dots()),
        forall|c: char| #[trigger] dedots(s).contains(c) ==> s.contains(c) || c == '.',
    decreases s.len(),
{
    let r = replace_all(s, two_dots(), seq!['.']);
    lemma_replace_shrinks(s, two_dots(), seq!['.']);
    if contains_seq(s, two_dots()) {
        lemma_dedots(r);
        assert forall|c: char| #[trigger] dedots(s).contains(c) implies s.contains(c) || c
            == '.' by {
            if r.contains(c) {
                if !s.contains(c) {
                    assert(seq!['.'].contains(c));
                    let k = choose|k: int| 0 <= k < 1 && seq!['.'][k] == c;
                }
            }
        }
    }
}

pub fn dedots_vec(s: &Vec<char>) -> (r: Vec<char>)
    ensures
        r@ == dedots(s@),
{
    let dots: Vec<char> = vec!['.', '.'];
    let one: Vec<char> = vec!['.'];
    assert(dots@ =~= two_dots());
    assert(one@ =~= seq!['.']);
    let mut cur = slice_vec(s, 0, s.len());
    assert(cur@ =~= s@);
    while contains_vec(&cur, &dots)
        invariant
            dots@ == two_dots(),
            one@ == seq!['.'],
            dedots(cur@) == dedots(s@),
        decreases cur.len(),
    {
        proof {
            lemma_replace_shrinks(cur@, two_dots(), seq!['.']);
        }
        cur = replace_vec(&cur, &dots, &one);
    }
    cur
}

// ---------------------------------------------------------------------------
// path components

/// `s.split(sep)`, as sequences.
pub open spec fn split_on(s: Seq<char>, sep: char) -> Seq<Seq<char>>
    decreases s.len(),
{
    if s.len() == 0 {
        seq![Seq::<char>::empty()]
    } else {
        let p = split_on(s.drop_last(), sep);
        if s.last() == sep {
            p.push(Seq::<char>::empty())
        } else {
            p.update(p.len() - 1, p.last().push(s.last()))
        }
    }
}

proof fn lemma_split_nonempty(s: Seq<char>, sep: char)
    ensures
        split_on(s, sep).len() >= 1,
    decreases s.len(),
{
    if s.len() > 0 {
        lemma_split_nonempty(s.drop_last(), sep);
    }
}

proof fn lemma_join_push(qs: Seq<Seq<char>>, p: Seq<char>, sep: Seq<char>)
    ensures
        qs.len() == 0 ==> join_seqs(qs.push(p), sep) == p,
        qs.len() > 0 ==> join_seqs(qs.push(p), sep) == join_seqs(qs, sep) + sep + p,
{
    assert(qs.push(p).drop_last() =~= qs);
}

proof fn lemma_join_split(s: Seq<char>, sep: char)
    ensures
        join_seqs(split_on(s, sep), seq![sep]) == s,
    decreases s.len(),
{
    if s.len() > 0 {
        let q = s.drop_last();
        let p = split_on(q, sep);
        lemma_join_split(q, sep);
        lemma_split_nonempty(q, sep);
        if s.last() == sep {
            lemma_join_push(p, Seq::<char>::empty(), seq![sep]);
            assert(s =~= q + seq![sep] + Seq::<char>::empty());
        } else {
            let u = p.update(p.len() - 1, p.last().push(s.last()));
            let init = p.drop_last();
            assert(u =~= init.push(p.last().push(s.last())));
            assert(p =~= init.push(p.last()));
            lemma_join_push(init, p.last(), seq![sep]);
            lemma_join_push(init, p.last().push(s.last()), seq![sep]);
            if init.len() == 0 {
                assert(s =~= q.push(s.last()));
            } else {
                assert(join_seqs(init, seq![sep]) + seq![sep] + p.last().push(s.last())
                    =~= (join_seqs(init, seq![sep]) + seq![sep] + p.last()).push(s.last()));
                assert(s =~= q.push(s.last()));
            }
        }
    }
}

pub open spec fn dot_lock() -> Seq<char> {
    seq!['.', 'l', 'o', 'c', 'k']
}

/// A component that `git` allows: not starting with '.'.
pub open spec fn keeps(p: Seq<char>) -> bool {
    !(p.len() > 0 && p[0] == '.')
}

/// `p.strip_suffix(".lock").unwrap_or(p)`.
pub open spec fn strip_lock(p: Seq<char>) -> Seq<char> {
    if ends_with(p, dot_lock()) {
        p.take(p.len() - 5)
    } else {
        p
    }
}

/// `filter(|c| !c.starts_with('.')).map(strip ".lock")`.
pub open spec fn clean_parts(ps: Seq<Seq<char>>) -> Seq<Seq<char>>
    decreases ps.len(),
{
    if ps.len() == 0 {
        ps
    } else {
        let r = clean_parts(ps.drop_last());
        if keeps(ps.last()) {
            r.push(strip_lock(ps.last()))
        } else {
            r
        }
    }
}

/// Components re-joined after dropping hidden ones and `.lock` suffixes.
pub open spec fn filter_components(s: Seq<char>) -> Seq<char> {
    join_seqs(clean_parts(split_on(s, '/')), seq!['/'])
}

/// Every component is allowed and none ends with ".lock".
pub open spec fn parts_ok(ps: Seq<Seq<char>>) -> bool {
    forall|i: int| 0 <= i < ps.len() ==> keeps(#[trigger] ps[i]) && !ends_with(ps[i], dot_lock())
}

proof fn lemma_clean_parts_len(ps: Seq<Seq<char>>)
    ensures
        clean_parts(ps).len() <= ps.len(),
        clean_parts(ps).len() == 0 ==> forall|i: int| 0 <= i < ps.len() ==> !keeps(#[trigger] ps[i]),
    decreases ps.len(),
{
    if ps.len() > 0 {
        lemma_clean_parts_len(ps.drop_last());
        assert forall|i: int| clean_parts(ps).len() == 0 && 0 <= i < ps.len() implies !keeps(
            #[trigger] ps[i],
        ) by {
            if i < ps.len() - 1 {
                assert(ps.drop_last()[i] == ps[i]);
            }
        }
    }
}

proof fn lemma_filter_shrinks(ps: Seq<Seq<char>>)
    ensures
        join_seqs(clean_parts(ps), seq!['/']).len() <= join_seqs(ps, seq!['/']).len(),
        join_seqs(clean_parts(ps), seq!['/']).len() == join_seqs(ps, seq!['/']).len() ==> clean_parts(ps) == ps,
    decreases ps.len(),
{
    if ps.len() > 0 {
        let qs = ps.drop_last();
        let p = ps.last();
        let r = clean_parts(qs);
        lemma_filter_shrinks(qs);
        lemma_clean_parts_len(qs);
        assert(ps =~= qs.push(p));
        lemma_join_push(qs, p, seq!['/']);
        if keeps(p) {
            lemma_join_push(r, strip_lock(p), seq!['/']);
            if r.len() == 0 && qs.len() > 0 {
                assert(join_seqs(clean_parts(ps), seq!['/']).len() < join_seqs(ps, seq!['/']).len());
            }
            if strip_lock(p).len() == p.len() {
                assert(strip_lock(p) == p);
            }
            if join_seqs(clean_parts(ps), seq!['/']).len() == join_seqs(ps, seq!['/']).len() {
                assert(r == qs);
                assert(strip_lock(p) == p);
                assert(clean_parts(ps) =~= ps);
            }
        } else {
            assert(p.len() > 0);
        }
    }
}

proof fn lemma_clean_parts_ok(ps: Seq<Seq<char>>)
    requires
        clean_parts(ps) == ps,
    ensures
        parts_ok(ps),
    decreases ps.len(),
{
    if ps.len() > 0 {
        let qs = ps.drop_last();
        let p = ps.last();
        lemma_clean_parts_len(qs);
        if !keeps(p) {
            assert(clean_parts(ps).len() < ps.len());
        }
        let r = clean_parts(qs);
        assert(r.push(strip_lock(p)) == ps);
        assert(r =~= ps.drop_last());
        assert(strip_lock(p) == ps.last());
        lemma_clean_parts_ok(qs);
        assert forall|i: int| 0 <= i < ps.len() implies keeps(#[trigger] ps[i]) && !ends_with(
            ps[i],
            dot_lock(),
        ) by {
            if i < ps.len() - 1 {
                assert(qs[i] == ps[i]);
            }
        }
    }
}

proof fn lemma_filter_components(s: Seq<char>)
    ensures
        filter_components(s).len() <= s.len(),
        filter_components(s).len() == s.len() ==> filter_components(s) == s && parts_ok(
            split_on(s, '/'),
        ),
{
    lemma_join_split(s, '/');
    lemma_filter_shrinks(split_on(s, '/'));
    if filter_components(s).len() == s.len() {
        lemma_clean_parts_ok(split_on(s, '/'));
    }
}

/// Every character of a component of `s` is a character of `s`.
proof fn lemma_split_chars(s: Seq<char>, sep: char)
    ensures
        forall|i: int, c: char|
            0 <= i < split_on(s, sep).len() && #[trigger] split_on(s, sep)[i].contains(c)
                ==> s.contains(c),
    decreases s.len(),
{
    if s.len() > 0 {
        let q = s.drop_last();
        lemma_split_chars(q, sep);
        lemma_split_nonempty(q, sep);
        let p = split_on(q, sep);
        assert forall|i: int, c: char|
            0 <= i < split_on(s, sep).len() && #[trigger] split_on(s, sep)[i].contains(c) implies s.contains(c) by {
            let part = split_on(s, sep)[i];
            let k = choose|k: int| 0 <= k < part.len() && part[k] == c;
            if s.last() == sep {
                if i < p.len() {
                    assert(p[i].contains(c));
                    let m = choose|m: int| 0 <= m < q.len() && q[m] == c;
                    assert(s[m] == c);
                }
            } else if i < p.len() - 1 {
                assert(p[i].contains(c));
                let m = choose|m: int| 0 <= m < q.len() && q[m] == c;
                assert(s[m] == c);
            } else if k < p.last().len() {
                assert(p[p.len() - 1][k] == c);
                assert(p[p.len() - 1].contains(c));
                let m = choose|m: int| 0 <= m < q.len() && q[m] == c;
                assert(s[m] == c);
            } else {
                assert(s[s.len() - 1] == c);
            }
        }
    }
}

proof fn lemma_clean_parts_chars(ps: Seq<Seq<char>>, s: Seq<char>)
    requires
        forall|i: int, c: char| 0 <= i < ps.len() && #[trigger] ps[i].contains(c) ==> s.contains(c),
    ensures
        forall|i: int, c: char|
            0 <= i < clean_parts(ps).len() && #[trigger] clean_parts(ps)[i].contains(c) ==> s.contains(c),
    decreases ps.len(),
{
    if ps.len() > 0 {
        let qs = ps.drop_last();
        assert forall|i: int, c: char| 0 <= i < qs.len() && #[trigger] qs[i].contains(c) implies s.contains(c) by {
            assert(ps[i] == qs[i]);
        }
        lemma_clean_parts_chars(qs, s);
        let r = clean_parts(qs);
        assert forall|i: int, c: char|
            0 <= i < clean_parts(ps).len() && #[trigger] clean_parts(ps)[i].contains(c) implies s.contains(c) by {
            if i < r.len() {
                assert(clean_parts(ps)[i] == r[i]);
            } else {
                let p = ps.last();
                let k = choose|k: int| 0 <= k < strip_lock(p).len() && strip_lock(p)[k] == c;
                assert(p[k] == c);
                assert(ps[ps.len() - 1].contains(c));
            }
        }
    }
}

proof fn lemma_join_chars(ps: Seq<Seq<char>>, sep: Seq<char>, s: Seq<char>)
    requires
        forall|i: int, c: char| 0 <= i < ps.len() && #[trigger] ps[i].contains(c) ==> s.contains(c),
    ensures
        forall|c: char| #[trigger] join_seqs(ps, sep).contains(c) ==> s.contains(c) || sep.contains(c),
    decreases ps.len(),
{
    if ps.len() > 1 {
        let qs = ps.drop_last();
        assert forall|i: int, c: char| 0 <= i < qs.len() && #[trigger] qs[i].contains(c) implies s.contains(c) by {
            assert(ps[i] == qs[i]);
        }
        lemma_join_chars(qs, sep, s);
        let j = join_seqs(qs, sep);
        assert forall|c: char| #[trigger] join_seqs(ps, sep).contains(c) implies s.contains(c) || sep.contains(c) by {
            let whole = join_seqs(ps, sep);
            let k = choose|k: int| 0 <= k < whole.len() && whole[k] == c;
            if k < j.len() {
                assert(j[k] == c);
                assert(j.contains(c));
            } else if k < j.len() + sep.len() {
                assert(sep[k - j.len()] == c);
            } else {
                assert(ps.last()[k - j.len() - sep.len()] == c);
                assert(ps[ps.len() - 1].contains(c));
            }
        }
    } else if ps.len() == 1 {
        assert forall|c: char| #[trigger] join_seqs(ps, sep).contains(c) implies s.contains(c) || sep.contains(c) by {
            assert(ps[0].contains(c));
        }
    }
}

proof fn lemma_filter_chars(s: Seq<char>)
    ensures
        forall|c: char| #[trigger] filter_components(s).contains(c) ==> s.contains(c) || c == '/',
{
    lemma_split_chars(s, '/');
    lemma_clean_parts_chars(split_on(s, '/'), s);
    lemma_join_chars(clean_parts(split_on(s, '/')), seq!['/'], s);
    assert forall|c: char| #[trigger] filter_components(s).contains(c) implies s.contains(c) || c == '/' by {
        if seq!['/'].contains(c) {
            let k = choose|k: int| 0 <= k < 1 && seq!['/'][k] == c;
        }
    }
}

// exec of filter_components

fn split_vec(s: &Vec<char>, sep: char) -> (ps: Vec<Vec<char>>)
    ensures
        ps@.len() == split_on(s@, sep).len(),
        forall|i: int| 0 <= i < ps@.len() ==> (#[trigger] ps@[i])@ == split_on(s@, sep)[i],
{
    let mut ps: Vec<Vec<char>> = Vec::new();
    let mut cur: Vec<char> = Vec::new();
    let mut i: usize = 0;
    while i < s.len()
        invariant
            i <= s.len(),
            ps@.len() + 1 == split_on(s@.take(i as int), sep).len(),
            forall|k: int| 0 <= k < ps@.len() ==> (#[trigger] ps@[k])@ == split_on(s@.take(i as int), sep)[k],
            cur@ == split_on(s@.take(i as int), sep).last(),
        decreases s.len() - i,
    {
        let c = s[i];
        assert(s@.take(i + 1).drop_last() =~= s@.take(i as int));
        proof {
            lemma_split_nonempty(s@.take(i as int), sep);
        }
        if c == sep {
            ps.push(cur);
            cur = Vec::new();
        } else {
            cur.push(c);
        }
        i += 1;
    }
    assert(s@.take(s.len() as int) =~= s@);
    ps.push(cur);
    ps
}

fn filter_components_vec(s: &Vec<char>) -> (r: Vec<char>)
    ensures
        r@ == filter_components(s@),
{
    let ps = split_vec(s, '/');
    let lock: Vec<char> = vec!['.', 'l', 'o', 'c', 'k'];
    assert(lock@ =~= dot_lock());
    let ghost sp = split_on(s@, '/');
    let mut kept: Vec<Vec<char>> = Vec::new();
    let mut i: usize = 0;
    while i < ps.len()
        invariant
            i <= ps.len(),
            lock@ == dot_lock(),
            ps@.len() == sp.len(),
            forall|k: int| 0 <= k < ps@.len() ==> (#[trigger] ps@[k])@ == sp[k],
            kept@.len() == clean_parts(sp.take(i as int)).len(),
            forall|k: int| 0 <= k < kept@.len() ==> (#[trigger] kept@[k])@ == clean_parts(sp.take(i as int))[k],
        decreases ps.len() - i,
    {
        let p = &ps[i];
        assert(sp.take(i + 1).drop_last() =~= sp.take(i as int));
        assert(sp.take(i + 1).last() == p@);
        if !(p.len() > 0 && p[0] == '.') {
            if ends_with_vec(p, &lock) {
                let q = slice_vec(p, 0, p.len() - 5);
                assert(q@ =~= p@.take(p@.len() - 5));
                kept.push(q);
            } else {
                let q = slice_vec(p, 0, p.len());
                assert(q@ =~= p@);
                kept.push(q);
            }
        }
        i += 1;
    }
    assert(sp.take(ps.len() as int) =~= sp);
    let ghost cp = clean_parts(sp);
    let mut out: Vec<char> = Vec::new();
    let mut j: usize = 0;
    while j < kept.len()
        invariant
            j <= kept.len(),
            kept@.len() == cp.len(),
            forall|k: int| 0 <= k < kept@.len() ==> (#[trigger] kept@[k])@ == cp[k],
            out@ == join_seqs(cp.take(j as int), seq!['/']),
        decreases kept.len() - j,
    {
        if j > 0 {
            out.push('/');
        }
        append(&mut out, &kept[j]);
        assert(cp.take(j + 1).drop_last() =~= cp.take(j as int));
        proof {
            if j > 0 {
                assert(out@ =~= join_seqs(cp.take(j as int), seq!['/']) + seq!['/'] + cp[j as int]);
            }
        }
        j += 1;
    }
    assert(cp.take(kept.len() as int) =~= cp);
    out
}

// ---------------------------------------------------------------------------
// edge trimming: trim_start_matches(['-', '/', '.']).trim_end_matches(['/', '.', '-'])

pub open spec fn edge_char(c: char) -> bool {
    c == '-' || c == '/' || c == '.'
}

pub open spec fn trim_edges_start(s: Seq<char>) -> Seq<char>
    decreases s.len(),
{
    if s.len() > 0 && edge_char(s[0]) {
        trim_edges_start(s.drop_first())
    } else {
        s
    }
}

pub open spec fn trim_edges_end(s: Seq<char>) -> Seq<char>
    decreases s.len(),
{
    if s.len() > 0 && edge_char(s.last()) {
        trim_edges_end(s.drop_last())
    } else {
        s
    }
}

pub open spec fn trim_edges(s: Seq<char>) -> Seq<char> {
    trim_edges_end(trim_edges_start(s))
}

proof fn lemma_trim_edges_start(s: Seq<char>)
    ensures
        trim_edges_start(s).len() <= s.len(),
        trim_edges_start(s) == s.skip(s.len() - trim_edges_start(s).len()),
        trim_edges_start(s).len() > 0 ==> !edge_char(trim_edges_start(s)[0]),
    decreases s.len(),
{
    if s.len() > 0 && edge_char(s[0]) {
        lemma_trim_edges_start(s.drop_first());
        let t = trim_edges_start(s.drop_first());
        assert(s.drop_first().skip(s.len() - 1 - t.len()) =~= s.skip(s.len() - t.len()));
    } else {
        assert(s.skip(0) =~= s);
    }
}

proof fn lemma_trim_edges_end(s: Seq<char>)
    ensures
        trim_edges_end(s).len() <= s.len(),
        trim_edges_end(s) == s.take(trim_edges_end(s).len() as int),
        trim_edges_end(s).len() > 0 ==> !edge_char(trim_edges_end(s).last()),
    decreases s.len(),
{
    if s.len() > 0 && edge_char(s.last()) {
        lemma_trim_edges_end(s.drop_last());
        let t = trim_edges_end(s.drop_last());
        assert(s.drop_last().take(t.len() as int) =~= s.take(t.len() as int));
    } else {
        assert(s.take(s.len() as int) =~= s);
    }
}

proof fn lemma_trim_edges(s: Seq<char>)
    ensures
        trim_edges(s).len() <= s.len(),
        trim_edges(s).len() == s.len() ==> trim_edges(s) == s,
        trim_edges(s).len() > 0 ==> !edge_char(trim_edges(s)[0]) && !edge_char(
            trim_edges(s).last(),
        ),
        forall|c: char| #[trigger] trim_edges(s).contains(c) ==> s.contains(c),
{
    lemma_trim_edges_start(s);
    let a = trim_edges_start(s);
    lemma_trim_edges_end(a);
    let b = trim_edges_end(a);
    if b.len() == s.len() {
        assert(a =~= s);
        assert(b =~= a);
    }
    if b.len() > 0 {
        assert(b[0] == a[0]);
    }
    assert forall|c: char| #[trigger] b.contains(c) implies s.contains(c) by {
        let k = choose|k: int| 0 <= k < b.len() && b[k] == c;
        assert(a[k] == c);
        assert(s[k + s.len() - a.len()] == c);
    }
}

fn trim_edges_vec(s: &Vec<char>) -> (r: Vec<char>)
    ensures
        r@ == trim_edges(s@),
{
    let n = s.len();
    let mut i: usize = 0;
    assert(s@.skip(0) =~= s@);
    while i < n && (s[i] == '-' || s[i] == '/' || s[i] == '.')
        invariant
            n == s.len(),
            i <= n,
            trim_edges_start(s@) == trim_edges_start(s@.skip(i as int)),
        decreases n - i,
    {
        assert(s@.skip(i as int).drop_first() =~= s@.skip(i + 1));
        i += 1;
    }
    let mut j: usize = n;
    assert(s@.subrange(i as int, n as int) =~= s@.skip(i as int));
    while j > i && (s[j - 1] == '-' || s[j - 1] == '/' || s[j - 1] == '.')
        invariant
            n == s.len(),
            i <= j <= n,
            trim_edges_end(s@.skip(i as int)) == trim_edges_end(s@.subrange(i as int, j as int)),
        decreases j,
    {
        assert(s@.subrange(i as int, j as int).drop_last() =~= s@.subrange(i as int, j - 1));
        j -= 1;
    }
    slice_vec(s, i, j)
}

// ---------------------------------------------------------------------------
// sanitize_branch_name

/// One pass of the rewrite loop.
pub open spec fn branch_pass(s: Seq<char>) -> Seq<char> {
    let a = replace_all(s, at_brace(), seq!['-']);
    let b = dedots(a);
    let c = collapse(b, '-');
    let d = collapse(c, '/');
    let e = filter_components(d);
    trim_edges(e)
}

/// Passes until nothing changes.
pub open spec fn branch_fixpoint(s: Seq<char>) -> Seq<char>
    decreases s.len(),
{
    let t = branch_pass(s);
    if t.len() < s.len() {
        branch_fixpoint(t)
    } else {
        s
    }
}

pub open spec fn at_sign() -> Seq<char> {
    seq!['@']
}

pub open spec fn head_name() -> Seq<char> {
    seq!['H', 'E', 'A', 'D']
}

/// What `sanitize_branch_name` makes of `raw`.
pub open spec fn sanitized(raw: Seq<char>) -> Seq<char> {
    let s = branch_fixpoint(map_forbidden(raw));
    if s == at_sign() || s == head_name() {
        Seq::empty()
    } else {
        s
    }
}

/// The rules of `git check-ref-format --branch`: not empty; no ASCII control
/// character, space, `~ ^ : ? * [ \`; no "..", "@{" or "//"; not starting
/// with '-', '/' or '.', not ending with '/' or '.'; no component that starts
/// with '.' or ends with ".lock"; neither "@" nor "HEAD".
pub open spec fn valid_branch_name(s: Seq<char>) -> bool {
    &&& s.len() > 0
    &&& ref_clean(s)
    &&& !contains_seq(s, two_dots())
    &&& !contains_seq(s, at_brace())
    &&& no_double(s, '/')
    &&& s[0] != '-' && s[0] != '/' && s[0] != '.'
    &&& s.last() != '/' && s.last() != '.'
    &&& parts_ok(split_on(s, '/'))
    &&& s != at_sign()
    &&& s != head_name()
}

/// A pass changes its input only by shortening it, and a pass that changes
/// nothing leaves a name with all the properties git asks of one (but emptiness
/// and the two reserved names).
proof fn lemma_pass(s: Seq<char>)
    requires
        ref_clean(s),
    ensures
        branch_pass(s).len() <= s.len(),
        branch_pass(s).len() == s.len() ==> branch_pass(s) == s,
        ref_clean(branch_pass(s)),
        branch_pass(s) == s ==> {
            &&& !contains_seq(s, two_dots())
            &&& !contains_seq(s, at_brace())
            &&& no_double(s, '/')
            &&& no_double(s, '-')
            &&& s.len() > 0 ==> !edge_char(s[0]) && !edge_char(s.last())
            &&& parts_ok(split_on(s, '/'))
        },
{
    let a = replace_all(s, at_brace(), seq!['-']);
    let b = dedots(a);
    let c = collapse(b, '-');
    let d = collapse(c, '/');
    let e = filter_components(d);
    let f = trim_edges(e);
    lemma_replace_shrinks(s, at_brace(), seq!['-']);
    lemma_dedots(a);
    lemma_collapse(b, '-');
    lemma_collapse(c, '/');
    lemma_filter_components(d);
    lemma_filter_chars(d);
    lemma_trim_edges(e);
    assert forall|ch: char| a.contains(ch) implies s.contains(ch) || ch == '-' by {
        if seq!['-'].contains(ch) {
            let k = choose|k: int| 0 <= k < 1 && seq!['-'][k] == ch;
        }
    }
    lemma_clean_sub(s, a);
    lemma_clean_sub(a, b);
    lemma_clean_sub(b, c);
    lemma_clean_sub(c, d);
    lemma_clean_sub(d, e);
    lemma_clean_sub(e, f);
    if f.len() == s.len() {
        assert(a == s);
        assert(b == a);
        assert(c == b);
        assert(d == c);
        assert(e == d);
        assert(f == e);
    }
}

proof fn lemma_fixpoint(s: Seq<char>)
    requires
        ref_clean(s),
    ensures
        ref_clean(branch_fixpoint(s)),
        branch_pass(branch_fixpoint(s)) == branch_fixpoint(s),
    decreases s.len(),
{
    lemma_pass(s);
    let t = branch_pass(s);
    if t.len() < s.len() {
        lemma_fixpoint(t);
    }
}

/// Law: whatever the input, the result is empty or a valid git branch name.
pub proof fn lemma_sanitized_is_valid(raw: Seq<char>)
    ensures
        sanitized(raw).len() == 0 || valid_branch_name(sanitized(raw)),
{
    let m = map_forbidden(raw);
    assert forall|i: int| 0 <= i < m.len() implies !ref_forbidden(#[trigger] m[i]) by {}
    lemma_fixpoint(m);
    let s = branch_fixpoint(m);
    lemma_pass(s);
}

/// Law: sanitizing a name that was already sanitized gives it back unchanged.
pub proof fn lemma_sanitize_is_idempotent(raw: Seq<char>)
    ensures
        sanitized(sanitized(raw)) == sanitized(raw),
{
    let m = map_forbidden(raw);
    assert forall|i: int| 0 <= i < m.len() implies !ref_forbidden(#[trigger] m[i]) by {}
    lemma_fixpoint(m);
    let f = branch_fixpoint(m);
    let s = sanitized(raw);
    assert(ref_clean(s));
    assert(map_forbidden(s) =~= s);
    lemma_pass(s);
    if s.len() == 0 {
        assert(branch_pass(s).len() == 0);
        assert(branch_fixpoint(s) == s);
    } else {
        assert(s == f);
        assert(branch_fixpoint(s) == s);
    }
}

pub fn vec_equal(a: &Vec<char>, b: &Vec<char>) -> (r: bool)
    ensures
        r == (a@ == b@),
{
    if a.len() != b.len() {
        return false;
    }
    let mut i: usize = 0;
    while i < a.len()
        invariant
            a.len() == b.len(),
            i <= a.len(),
            forall|k: int| 0 <= k < i ==> a@[k] == b@[k],
        decreases a.len() - i,
    {
        if a[i] != b[i] {
            return false;
        }
        i += 1;
    }
    assert(a@ =~= b@);
    true
}

fn branch_pass_vec(s: &Vec<char>) -> (r: Vec<char>)
    ensures
        r@ == branch_pass(s@),
{
    let at: Vec<char> = vec!['@', '{'];
    let dash: Vec<char> = vec!['-'];
    assert(at@ =~= at_brace());
    assert(dash@ =~= seq!['-']);
    let a = replace_vec(s, &at, &dash);
    let b = dedots_vec(&a);
    let c = collapse_runs(&b, '-');
    let d = collapse_runs(&c, '/');
    let e = filter_components_vec(&d);
    trim_edges_vec(&e)
}

/// Rewrite `raw` so it satisfies `git check-ref-format --branch`; empty when
/// nothing valid remains.
pub fn sanitize_branch_name(raw: &str) -> (r: String)
    ensures
        r@ == sanitized(raw@),
        r@.len() == 0 || valid_branch_name(r@),
{
    let v = chars_of(raw);
    let mut cur: Vec<char> = Vec::new();
    let mut i: usize = 0;
    while i < v.len()
        invariant
            i <= v.len(),
            v@ == raw@,
            cur@ == map_forbidden(raw@).take(i as int),
        decreases v.len() - i,
    {
        let c = v[i];
        if is_forbidden(c) {
            cur.push('-');
        } else {
            cur.push(c);
        }
        i += 1;
        assert(cur@ =~= map_forbidden(raw@).take(i as int));
    }
    assert(map_forbidden(raw@).take(v.len() as int) =~= map_forbidden(raw@));
    let ghost m = cur@;
    assert forall|k: int| 0 <= k < m.len() implies !ref_forbidden(#[trigger] m[k]) by {}
    let mut next = branch_pass_vec(&cur);
    proof {
        lemma_pass(cur@);
    }
    while !vec_equal(&next, &cur)
        invariant
            next@ == branch_pass(cur@),
            ref_clean(cur@),
            branch_fixpoint(cur@) == branch_fixpoint(m),
        decreases cur.len(),
    {
        proof {
            lemma_pass(cur@);
            lemma_pass(next@);
        }
        cur = next;
        next = branch_pass_vec(&cur);
    }
    proof {
        lemma_sanitized_is_valid(raw@);
    }
    let at: Vec<char> = vec!['@'];
    let head: Vec<char> = vec!['H', 'E', 'A', 'D'];
    assert(at@ =~= at_sign());
    assert(head@ =~= head_name());
    if vec_equal(&cur, &at) || vec_equal(&cur, &head) {
        String::new()
    } else {
        string_of(&cur)
    }
}

} // verus!
