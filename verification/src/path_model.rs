//! Paths as `Path` sees them with `/` separators: a list of components.
use vstd::prelude::*;

use crate::text::{concat2, file_name_spec, join_seq, join_strings, last_name, lemma_split_seq_nonempty, owned, path_join_spec,
    split_char, split_seq, string_views};
use crate::windows_installer::msi::paths::kept_segments;

verus! {

/// The components of a path: the root `/` when absolute, a leading `.`
/// when the path starts with one, then every segment that is neither empty
/// nor `.`.
pub open spec fn components_spec(s: Seq<char>) -> Seq<Seq<char>> {
    let parts = split_seq(s, '/');
    (if s.len() > 0 && s[0] == '/' {
        seq!["/"@]
    } else if parts.len() > 0 && parts[0] == "."@ {
        seq!["."@]
    } else {
        Seq::empty()
    }) + kept_segments(parts)
}

/// A list of components rendered as a path.
pub open spec fn render_spec(cs: Seq<Seq<char>>) -> Seq<char> {
    if cs.len() > 0 && cs[0] == "/"@ {
        "/"@ + join_seq(cs.drop_first(), "/"@)
    } else {
        join_seq(cs, "/"@)
    }
}

/// The path with its components collected again (`components().collect()`).
pub open spec fn normalize_spec(s: Seq<char>) -> Seq<char> {
    render_spec(components_spec(s))
}

/// Whether a segment between separators is a component: neither empty nor `.`.
pub open spec fn kept(seg: Seq<char>) -> bool {
    seg.len() > 0 && seg != "."@
}

/// The length of what comes before a path's body: the root `/`, or a
/// leading `.` component.
pub open spec fn body_start(s: Seq<char>) -> int {
    if s.len() > 0 && s[0] == '/' {
        1
    } else if s.len() > 0 && s[0] == '.' && (s.len() == 1 || s[1] == '/') {
        1
    } else {
        0
    }
}

/// The index of the last component among the first `n` segments.
pub open spec fn last_kept(parts: Seq<Seq<char>>, n: int) -> Option<int>
    decreases n,
{
    if n <= 0 {
        None
    } else if kept(parts[n - 1]) {
        Some(n - 1)
    } else {
        last_kept(parts, n - 1)
    }
}

/// The parent of a path (`Path::parent`): the text before its last
/// component, without the separators and `.` segments that end it; the
/// empty path for a single relative component; none for an empty path or
/// the root.
pub open spec fn parent_spec(s: Seq<char>) -> Option<Seq<char>> {
    let l = body_start(s);
    let ps = split_seq(s.skip(l), '/');
    match last_kept(ps, ps.len() as int) {
        Some(j) => match last_kept(ps, j) {
            Some(k) => Some(s.take(l) + join_seq(ps.take(k + 1), "/"@)),
            None => Some(s.take(l)),
        },
        None => if s.len() > 0 && s[0] == '/' {
            None
        } else if l == 1 {
            Some(Seq::empty())
        } else {
            None
        },
    }
}

proof fn lemma_last_kept_bounds(parts: Seq<Seq<char>>, n: int)
    ensures
        last_kept(parts, n) matches Some(j) ==> 0 <= j < n && kept(parts[j]),
    decreases n,
{
    if n > 0 && !kept(parts[n - 1]) {
        lemma_last_kept_bounds(parts, n - 1);
    }
}

fn last_kept_index(parts: &Vec<String>, n: usize) -> (r: Option<usize>)
    requires
        n <= parts@.len(),
    ensures
        match last_kept(string_views(parts@), n as int) {
            Some(j) => r == Some(j as usize),
            None => r is None,
        },
{
    proof { reveal_strlit("."); }
    let ghost pv = string_views(parts@);
    let mut m = n;
    while m > 0
        invariant
            m <= n <= parts@.len(),
            pv == string_views(parts@),
            last_kept(pv, n as int) == last_kept(pv, m as int),
        decreases m,
    {
        let seg = parts[m - 1].as_str();
        assert(pv[m - 1] == seg@);
        if seg.unicode_len() > 0 && !is_dot(seg) {
            return Some(m - 1);
        }
        m = m - 1;
    }
    None
}

fn is_dot(s: &str) -> (r: bool)
    ensures
        r == (s@ == "."@),
{
    proof { reveal_strlit("."); }
    let r = s.unicode_len() == 1 && s.get_char(0) == '.';
    proof {
        if r {
            assert(s@ =~= "."@);
        }
    }
    r
}

/// The components of a path.
pub fn components(s: &str) -> (r: Vec<String>)
    ensures
        string_views(r@) == components_spec(s@),
{
    let parts = split_char(s, '/');
    let ghost pv = split_seq(s@, '/');
    assert(string_views(parts@) =~= pv);
    let mut out: Vec<String> = Vec::new();
    if s.unicode_len() > 0 && s.get_char(0) == '/' {
        out.push("/".to_string());
    } else if is_dot(parts[0].as_str()) {
        out.push(".".to_string());
    }
    proof { reveal_strlit("/"); reveal_strlit("."); }
    let ghost prefix = string_views(out@);
    assert(prefix =~= (if s@.len() > 0 && s@[0] == '/' {
        seq!["/"@]
    } else if pv.len() > 0 && pv[0] == "."@ {
        seq!["."@]
    } else {
        Seq::<Seq<char>>::empty()
    }));
    let mut i: usize = 0;
    while i < parts.len()
        invariant
            i <= parts@.len(),
            string_views(parts@) == pv,
            string_views(out@) == prefix + kept_segments(pv.take(i as int)),
        decreases parts@.len() - i,
    {
        let part = &parts[i];
        assert(pv.take(i + 1).drop_last() == pv.take(i as int));
        assert(pv.take(i + 1).last() == part@);
        if part.unicode_len() > 0 && !is_dot(part.as_str()) {
            let ghost before = out@;
            out.push(part.clone());
            assert(string_views(out@) =~= string_views(before).push(part@));
        }
        i = i + 1;
    }
    assert(pv.take(i as int) == pv);
    out
}

/// A list of components rendered as a path.
pub fn render(cs: &Vec<String>) -> (r: String)
    ensures
        r@ == render_spec(string_views(cs@)),
{
    proof { reveal_strlit("/"); }
    if cs.len() > 0 && cs[0].unicode_len() == 1 && cs[0].as_str().get_char(0) == '/' {
        assert(string_views(cs@)[0] =~= "/"@);
        let mut rest: Vec<String> = Vec::new();
        let mut i: usize = 1;
        while i < cs.len()
            invariant
                1 <= i <= cs@.len(),
                string_views(rest@) == string_views(cs@).drop_first().take(i - 1),
            decreases cs@.len() - i,
        {
            let ghost before = rest@;
            rest.push(cs[i].clone());
            assert(string_views(rest@) =~= string_views(before).push(cs@[i as int]@));
            assert(string_views(rest@) =~= string_views(cs@).drop_first().take(i as int));
            i = i + 1;
        }
        assert(string_views(cs@).drop_first().take(i - 1) == string_views(cs@).drop_first());
        let joined = join_strings(rest.as_slice(), "/");
        crate::text::concat2("/", joined.as_str())
    } else {
        proof {
            if string_views(cs@).len() > 0 && string_views(cs@)[0] == "/"@ {
                assert(cs@[0]@.len() == 1);
            }
        }
        join_strings(cs.as_slice(), "/")
    }
}

/// The path with its components collected again.
pub fn normalize(s: &str) -> (r: String)
    ensures
        r@ == normalize_spec(s@),
{
    let cs = components(s);
    render(&cs)
}

/// The parent of a path, if it has one.
pub fn parent(s: &str) -> (r: Option<String>)
    ensures
        match parent_spec(s@) {
            Some(p) => r matches Some(v) && v@ == p,
            None => r is None,
        },
{
    let n = s.unicode_len();
    let l: usize = if n > 0 && s.get_char(0) == '/' {
        1
    } else if n > 0 && s.get_char(0) == '.' && (n == 1 || s.get_char(1) == '/') {
        1
    } else {
        0
    };
    assert(l == body_start(s@));
    let body = s.substring_char(l, n);
    assert(body@ == s@.skip(l as int));
    let head = s.substring_char(0, l);
    assert(head@ == s@.take(l as int));
    let parts = split_char(body, '/');
    let ghost ps = split_seq(s@.skip(l as int), '/');
    assert(string_views(parts@) =~= ps);
    match last_kept_index(&parts, parts.len()) {
        Some(j) => {
            proof { lemma_last_kept_bounds(ps, ps.len() as int); }
            match last_kept_index(&parts, j) {
                Some(k) => {
                    proof { lemma_last_kept_bounds(ps, j as int); }
                    let mut front: Vec<String> = Vec::new();
                    let mut i: usize = 0;
                    while i <= k
                        invariant
                            k < j < parts@.len(),
                            i <= k + 1,
                            ps == string_views(parts@),
                            string_views(front@) == ps.take(i as int),
                        decreases k + 1 - i,
                    {
                        let ghost before = front@;
                        let seg = parts[i].clone();
                        assert(seg@ == ps[i as int]);
                        front.push(seg);
                        assert(string_views(front@) =~= string_views(before).push(ps[i as int]));
                        assert(string_views(front@) =~= ps.take(i + 1));
                        i = i + 1;
                    }
                    proof { reveal_strlit("/"); }
                    let joined = join_strings(front.as_slice(), "/");
                    Some(concat2(head, joined.as_str()))
                },
                None => Some(owned(head)),
            }
        },
        None => {
            if n > 0 && s.get_char(0) == '/' {
                None
            } else if l == 1 {
                Some(String::new())
            } else {
                None
            }
        },
    }
}

/// Whether a text holds no `/`.
pub open spec fn no_sep(s: Seq<char>) -> bool {
    forall|i: int| 0 <= i < s.len() ==> s[i] != '/'
}

/// A single normal path component: not empty, not `.` or `..`, without `/`.
pub open spec fn normal_component(c: Seq<char>) -> bool {
    kept(c) && c != ".."@ && no_sep(c)
}

/// Text without `/` extends the last segment.
proof fn lemma_split_no_sep(x: Seq<char>, c: Seq<char>)
    requires
        no_sep(c),
    ensures
        split_seq(x + c, '/') == split_seq(x, '/').update(
            split_seq(x, '/').len() - 1,
            split_seq(x, '/').last() + c,
        ),
    decreases c.len(),
{
    lemma_split_seq_nonempty(x, '/');
    let px = split_seq(x, '/');
    if c.len() == 0 {
        assert(x + c =~= x);
        assert(px.last() + c =~= px.last());
        assert(px.update(px.len() - 1, px.last() + c) =~= px);
    } else {
        let c2 = c.drop_last();
        assert forall|i: int| 0 <= i < c2.len() implies c2[i] != '/' by {
            assert(c2[i] == c[i]);
        }
        lemma_split_no_sep(x, c2);
        assert((x + c).drop_last() =~= x + c2);
        assert((x + c).last() == c.last());
        assert(c.last() != '/');
        assert((px.last() + c2).push(c.last()) =~= px.last() + c);
        let init = split_seq(x + c2, '/');
        assert(split_seq(x + c, '/') == init.update(init.len() - 1, init.last().push(c.last())));
        assert(init.update(init.len() - 1, init.last().push(c.last())) =~= px.update(px.len() - 1, px.last() + c));
    }
}

/// A separator between two texts splits into the segments of each.
proof fn lemma_split_concat(x: Seq<char>, y: Seq<char>)
    ensures
        split_seq(x + seq!['/'] + y, '/') == split_seq(x, '/') + split_seq(y, '/'),
    decreases y.len(),
{
    let s = x + seq!['/'] + y;
    if y.len() == 0 {
        assert(s.drop_last() =~= x);
        assert(split_seq(y, '/') == seq![Seq::<char>::empty()]);
        assert(split_seq(x, '/').push(Seq::empty()) =~= split_seq(x, '/') + split_seq(y, '/'));
    } else {
        let y2 = y.drop_last();
        lemma_split_concat(x, y2);
        lemma_split_seq_nonempty(y2, '/');
        assert(s.drop_last() =~= x + seq!['/'] + y2);
        assert(s.last() == y.last());
        let a = split_seq(x, '/');
        let b = split_seq(y2, '/');
        if y.last() == '/' {
            assert((a + b).push(Seq::empty()) =~= a + b.push(Seq::empty()));
        } else {
            assert((a + b).update((a + b).len() - 1, (a + b).last().push(y.last())) =~= a + b.update(
                b.len() - 1,
                b.last().push(y.last()),
            ));
        }
    }
}

/// Splitting what was joined gives the parts back.
proof fn lemma_split_join(ps: Seq<Seq<char>>)
    requires
        ps.len() >= 1,
        forall|i: int| 0 <= i < ps.len() ==> no_sep(#[trigger] ps[i]),
    ensures
        split_seq(join_seq(ps, "/"@), '/') == ps,
    decreases ps.len(),
{
    reveal_strlit("/");
    assert(split_seq(Seq::<char>::empty(), '/') == seq![Seq::<char>::empty()]);
    if ps.len() == 1 {
        lemma_split_no_sep(Seq::empty(), ps[0]);
        assert(Seq::<char>::empty() + ps[0] =~= ps[0]);
        assert(seq![Seq::<char>::empty()].update(0, Seq::<char>::empty() + ps[0]) =~= ps);
    } else {
        let init = ps.drop_last();
        assert forall|i: int| 0 <= i < init.len() implies no_sep(#[trigger] init[i]) by {
            assert(init[i] == ps[i]);
        }
        lemma_split_join(init);
        assert(no_sep(ps[ps.len() - 1]));
        lemma_split_no_sep(Seq::empty(), ps.last());
        assert(Seq::<char>::empty() + ps.last() =~= ps.last());
        assert(split_seq(ps.last(), '/') =~= seq![ps.last()]);
        assert(join_seq(ps, "/"@) == join_seq(init, "/"@) + "/"@ + ps.last());
        assert("/"@ =~= seq!['/']);
        lemma_split_concat(join_seq(init, "/"@), ps.last());
        assert(init + seq![ps.last()] =~= ps);
    }
}

/// Joining the segments of a text gives the text back.
proof fn lemma_join_split(y: Seq<char>)
    ensures
        join_seq(split_seq(y, '/'), "/"@) == y,
    decreases y.len(),
{
    reveal_strlit("/");
    if y.len() > 0 {
        let y2 = y.drop_last();
        lemma_join_split(y2);
        lemma_split_seq_nonempty(y2, '/');
        let pr = split_seq(y2, '/');
        let sp = split_seq(y, '/');
        if y.last() == '/' {
            assert(sp == pr.push(Seq::empty()));
            assert(sp.drop_last() =~= pr);
            assert(join_seq(sp, "/"@) == join_seq(pr, "/"@) + "/"@ + Seq::empty());
            assert(y2 + "/"@ + Seq::<char>::empty() =~= y);
        } else {
            assert(sp == pr.update(pr.len() - 1, pr.last().push(y.last())));
            if pr.len() == 1 {
                assert(join_seq(pr, "/"@) == pr[0]);
                assert(sp[0] =~= y);
            } else {
                assert(sp.drop_last() =~= pr.drop_last());
                assert(join_seq(pr, "/"@) == join_seq(pr.drop_last(), "/"@) + "/"@ + pr.last());
                assert(join_seq(sp, "/"@) == join_seq(sp.drop_last(), "/"@) + "/"@ + sp.last());
                assert(sp.last() == pr.last().push(y.last()));
                assert(y =~= y2.push(y.last()));
                assert(join_seq(pr.drop_last(), "/"@) + "/"@ + pr.last().push(y.last()) =~= (join_seq(pr.drop_last(), "/"@) + "/"@ + pr.last()).push(y.last()));
                assert(join_seq(sp, "/"@) =~= y);
            }
        }
    } else {
        assert(split_seq(y, '/') == seq![Seq::<char>::empty()]);
    }
}

/// Every segment of a split holds no separator.
proof fn lemma_split_parts_no_sep(y: Seq<char>)
    ensures
        forall|i: int| 0 <= i < split_seq(y, '/').len() ==> no_sep(#[trigger] split_seq(y, '/')[i]),
    decreases y.len(),
{
    if y.len() > 0 {
        let y2 = y.drop_last();
        lemma_split_parts_no_sep(y2);
        lemma_split_seq_nonempty(y2, '/');
        let pr = split_seq(y2, '/');
        let sp = split_seq(y, '/');
        assert forall|i: int| 0 <= i < sp.len() implies no_sep(#[trigger] sp[i]) by {
            if y.last() == '/' {
                if i < pr.len() {
                    assert(sp[i] == pr[i]);
                } else {
                    assert(sp[i] == Seq::<char>::empty());
                }
            } else {
                if i < pr.len() - 1 {
                    assert(sp[i] == pr[i]);
                } else {
                    assert(no_sep(pr[pr.len() - 1]));
                    assert(sp[i] == pr.last().push(y.last()));
                    assert forall|k: int| 0 <= k < sp[i].len() implies sp[i][k] != '/' by {
                        if k < pr.last().len() {
                            assert(sp[i][k] == pr.last()[k]);
                        }
                    }
                }
            }
        }
    } else {
        assert(split_seq(y, '/') == seq![Seq::<char>::empty()]);
    }
}

/// Joining splits at any part boundary.
proof fn lemma_join_take(ps: Seq<Seq<char>>, m: int)
    requires
        1 <= m < ps.len(),
    ensures
        join_seq(ps, "/"@) == join_seq(ps.take(m), "/"@) + "/"@ + join_seq(ps.skip(m), "/"@),
    decreases ps.len(),
{
    let init = ps.drop_last();
    assert(join_seq(ps, "/"@) == join_seq(init, "/"@) + "/"@ + ps.last());
    if m == ps.len() - 1 {
        assert(ps.take(m) =~= init);
        assert(ps.skip(m) =~= seq![ps.last()]);
    } else {
        lemma_join_take(init, m);
        assert(init.take(m) =~= ps.take(m));
        let rest = ps.skip(m);
        assert(rest.drop_last() =~= init.skip(m));
        assert(rest.last() == ps.last());
        assert(join_seq(rest, "/"@) == join_seq(rest.drop_last(), "/"@) + "/"@ + rest.last());
        assert(join_seq(ps, "/"@) =~= join_seq(ps.take(m), "/"@) + "/"@ + join_seq(ps.skip(m), "/"@));
    }
}

/// Where the last component among the first `n` segments stands, and that
/// none follows it.
proof fn lemma_last_kept_after(ps: Seq<Seq<char>>, n: int)
    requires
        0 <= n <= ps.len(),
    ensures
        match last_kept(ps, n) {
            Some(k) => 0 <= k < n && kept(ps[k]) && forall|i: int| k < i < n ==> !kept(#[trigger] ps[i]),
            None => forall|i: int| 0 <= i < n ==> !kept(#[trigger] ps[i]),
        },
    decreases n,
{
    if n > 0 && !kept(ps[n - 1]) {
        lemma_last_kept_after(ps, n - 1);
    }
}

/// The last component depends only on the segments looked at.
proof fn lemma_last_kept_same(ps: Seq<Seq<char>>, qs: Seq<Seq<char>>, n: int)
    requires
        0 <= n <= ps.len(),
        n <= qs.len(),
        forall|i: int| 0 <= i < n ==> ps[i] == qs[i],
    ensures
        last_kept(ps, n) == last_kept(qs, n),
    decreases n,
{
    if n > 0 {
        assert(ps[n - 1] == qs[n - 1]);
        lemma_last_kept_same(ps, qs, n - 1);
    }
}

/// Segments that are no components do not change the file name.
proof fn lemma_last_name_unkept_tail(a: Seq<Seq<char>>, b: Seq<Seq<char>>)
    requires
        forall|i: int| 0 <= i < b.len() ==> !kept(#[trigger] b[i]),
    ensures
        last_name(a + b) == last_name(a),
    decreases b.len(),
{
    reveal_strlit(".");
    if b.len() == 0 {
        assert(a + b =~= a);
    } else {
        let b2 = b.drop_last();
        assert forall|i: int| 0 <= i < b2.len() implies !kept(#[trigger] b2[i]) by {
            assert(b2[i] == b[i]);
        }
        lemma_last_name_unkept_tail(a, b2);
        assert((a + b).drop_last() =~= a + b2);
        assert(!kept(b[b.len() - 1]));
        assert("."@ =~= seq!['.']);
        assert((a + b).last() == b.last());
    }
}

/// With a component among the later segments, the earlier ones do not
/// matter for the file name.
proof fn lemma_last_name_kept_tail(a: Seq<Seq<char>>, b: Seq<Seq<char>>)
    requires
        exists|i: int| 0 <= i < b.len() && kept(#[trigger] b[i]),
    ensures
        last_name(a + b) == last_name(b),
    decreases b.len(),
{
    reveal_strlit(".");
    assert("."@ =~= seq!['.']);
    let i = choose|i: int| 0 <= i < b.len() && kept(#[trigger] b[i]);
    assert((a + b).last() == b.last());
    if !kept(b.last()) {
        let b2 = b.drop_last();
        assert(i < b.len() - 1);
        assert(b2[i] == b[i]);
        lemma_last_name_kept_tail(a, b2);
        assert((a + b).drop_last() =~= a + b2);
    }
}

/// The file name of a path joined with a normal component is that component.
pub proof fn lemma_file_name_join(x: Seq<char>, c: Seq<char>)
    requires
        normal_component(c),
    ensures
        split_seq(path_join_spec(x, c), '/').last() == c,
        file_name_spec(path_join_spec(x, c)) == Some(c),
{
    reveal_strlit(".");
    reveal_strlit("..");
    assert("."@ =~= seq!['.']);
    assert(".."@ =~= seq!['.', '.']);
    let s = path_join_spec(x, c);
    assert(c[0] != '/');
    if x.len() == 0 {
        lemma_split_no_sep(x, c);
        assert(x + c =~= c);
        assert(split_seq(x, '/') == seq![Seq::<char>::empty()]);
    } else if x.last() == '/' {
        lemma_split_no_sep(x, c);
        assert(x.drop_last().push('/') =~= x);
        assert(split_seq(x, '/').last() == Seq::<char>::empty());
        assert(Seq::<char>::empty() + c =~= c);
    } else {
        lemma_split_concat(x, c);
        lemma_split_no_sep(Seq::empty(), c);
        assert(Seq::<char>::empty() + c =~= c);
        assert(split_seq(Seq::<char>::empty(), '/') == seq![Seq::<char>::empty()]);
        assert(x + seq!['/'] + c == s);
    }
    assert(split_seq(s, '/').last() == c);
}

/// A path without the separators and `.` segments that end it: what
/// `Path::parent` gives of the path with one more component.
pub open spec fn trim_path(x: Seq<char>) -> Seq<char> {
    let l = body_start(x);
    let pb = split_seq(x.skip(l), '/');
    match last_kept(pb, pb.len() as int) {
        Some(k) => x.take(l) + join_seq(pb.take(k + 1), "/"@),
        None => x.take(l),
    }
}

/// The parent of a path joined with a normal component is the path without
/// what ends it; the join keeps the path's root or leading `.`.
pub proof fn lemma_parent_of_join(x: Seq<char>, c: Seq<char>)
    requires
        x.len() > 0,
        normal_component(c),
    ensures
        body_start(path_join_spec(x, c)) == body_start(x),
        parent_spec(path_join_spec(x, c)) == Some(trim_path(x)),
        x.last() != '/' ==> split_seq(path_join_spec(x, c).skip(body_start(x)), '/') == split_seq(
            x.skip(body_start(x)),
            '/',
        ) + seq![c],
{
    reveal_strlit(".");
    reveal_strlit("/");
    let s = path_join_spec(x, c);
    let l = body_start(x);
    let bx = x.skip(l);
    let pb = split_seq(bx, '/');
    lemma_split_seq_nonempty(bx, '/');
    assert(c[0] != '/');
    assert(c.len() > 0);
    let ps = split_seq(s.skip(l), '/');
    if x.last() == '/' {
        assert(s == x + c);
        assert(s[0] == x[0]);
        if x.len() > 1 {
            assert(s[1] == x[1]);
        }
        assert(s.skip(l) =~= bx + c);
        lemma_split_no_sep(bx, c);
        if bx.len() == 0 {
            assert(pb == seq![Seq::<char>::empty()]);
        } else {
            assert(bx.last() == x.last());
            assert(bx.drop_last().push('/') =~= bx);
            assert(pb.last() == Seq::<char>::empty());
        }
        assert(pb.last() + c =~= c);
        assert(ps == pb.update(pb.len() - 1, c));
        assert(!kept(pb[pb.len() - 1]));
        lemma_last_kept_same(ps, pb, pb.len() - 1);
        assert(last_kept(ps, ps.len() as int) == Some(ps.len() - 1));
        assert(last_kept(pb, pb.len() as int) == last_kept(pb, pb.len() - 1));
        lemma_last_kept_after(pb, pb.len() - 1);
        match last_kept(pb, pb.len() as int) {
            Some(k) => {
                assert(ps.take(k + 1) =~= pb.take(k + 1));
            },
            None => {},
        }
    } else {
        assert(s == x + seq!['/'] + c);
        assert(s[0] == x[0]);
        if x.len() > 1 {
            assert(s[1] == x[1]);
        }
        assert(s.skip(l) =~= bx + seq!['/'] + c);
        lemma_split_concat(bx, c);
        lemma_split_no_sep(Seq::empty(), c);
        assert(Seq::<char>::empty() + c =~= c);
        assert(split_seq(Seq::<char>::empty(), '/') == seq![Seq::<char>::empty()]);
        assert(split_seq(c, '/') =~= seq![c]);
        assert(ps =~= pb + seq![c]);
        lemma_last_kept_same(ps, pb, pb.len() as int);
        assert(last_kept(ps, ps.len() as int) == Some(ps.len() - 1));
        lemma_last_kept_after(pb, pb.len() as int);
        match last_kept(pb, pb.len() as int) {
            Some(k) => {
                assert(ps.take(k + 1) =~= pb.take(k + 1));
            },
            None => {},
        }
    }
    assert(s.take(l) =~= x.take(l));
}

proof fn lemma_split_dot()
    ensures
        split_seq(seq!['.'], '/') == seq![seq!['.']],
        last_name(seq![seq!['.']]) is None,
        split_seq(Seq::<char>::empty(), '/') == seq![Seq::<char>::empty()],
        last_name(seq![Seq::<char>::empty()]) is None,
{
    let e = Seq::<char>::empty();
    let s = seq!['.'];
    assert(s.drop_last() =~= e);
    assert(s.last() == '.');
    assert(split_seq(e, '/') == seq![e]);
    assert(e.push('.') =~= s);
    assert(seq![e].update(0, e.push('.')) =~= seq![s]);
    assert(split_seq(s, '/') == seq![e].update(0, e.push('.')));
    assert(seq![s].last() == s);
    assert(last_name(Seq::<Seq<char>>::empty()) is None);
    assert(last_name(seq![s]) == last_name(seq![s].drop_last()));
    assert(last_name(seq![e]) == last_name(seq![e].drop_last()));
    assert(seq![seq!['.']].drop_last() =~= Seq::<Seq<char>>::empty());
    assert(seq![Seq::<char>::empty()].drop_last() =~= Seq::<Seq<char>>::empty());
}

/// The empty path has no file name.
pub proof fn lemma_file_name_of_empty()
    ensures
        file_name_spec(Seq::empty()) is None,
{
    lemma_split_dot();
}

/// Trimming what ends a path keeps its file name.
pub proof fn lemma_trim_file_name(x: Seq<char>)
    requires
        file_name_spec(x) is Some,
    ensures
        file_name_spec(trim_path(x)) == file_name_spec(x),
{
    reveal_strlit(".");
    reveal_strlit("/");
    assert("/"@ =~= seq!['/']);
    assert("."@ =~= seq!['.']);
    lemma_split_dot();
    let l = body_start(x);
    let bx = x.skip(l);
    let pb = split_seq(bx, '/');
    lemma_split_seq_nonempty(bx, '/');
    lemma_split_parts_no_sep(bx);
    lemma_last_kept_after(pb, pb.len() as int);
    let e = Seq::<char>::empty();
    if l == 0 {
        assert(bx =~= x);
        assert(x.take(0) =~= e);
        match last_kept(pb, pb.len() as int) {
            None => {
                lemma_last_name_unkept_tail(Seq::empty(), pb);
                assert(Seq::<Seq<char>>::empty() + pb =~= pb);
                assert(false);
            },
            Some(k) => {
                let front = pb.take(k + 1);
                assert forall|i: int| 0 <= i < front.len() implies no_sep(#[trigger] front[i]) by {
                    assert(front[i] == pb[i]);
                }
                lemma_split_join(front);
                assert(trim_path(x) =~= join_seq(front, "/"@));
                assert forall|i: int| 0 <= i < pb.skip(k + 1).len() implies !kept(#[trigger] pb.skip(k + 1)[i]) by {
                    assert(pb.skip(k + 1)[i] == pb[k + 1 + i]);
                }
                lemma_last_name_unkept_tail(front, pb.skip(k + 1));
                assert(front + pb.skip(k + 1) =~= pb);
            },
        }
    } else if x[0] == '/' {
        assert(x =~= e + seq!['/'] + bx);
        lemma_split_concat(e, bx);
        let root = seq![e];
        assert(split_seq(x, '/') == root + pb);
        match last_kept(pb, pb.len() as int) {
            None => {
                lemma_last_name_unkept_tail(root, pb);
                assert(false);
            },
            Some(k) => {
                let front = pb.take(k + 1);
                assert forall|i: int| 0 <= i < front.len() implies no_sep(#[trigger] front[i]) by {
                    assert(front[i] == pb[i]);
                }
                lemma_split_join(front);
                assert(x.take(1) =~= seq!['/']);
                assert(trim_path(x) =~= e + seq!['/'] + join_seq(front, "/"@));
                lemma_split_concat(e, join_seq(front, "/"@));
                assert(front[k] == pb[k]);
                lemma_last_name_kept_tail(root, front);
                assert forall|i: int| 0 <= i < pb.skip(k + 1).len() implies !kept(#[trigger] pb.skip(k + 1)[i]) by {
                    assert(pb.skip(k + 1)[i] == pb[k + 1 + i]);
                }
                lemma_last_name_unkept_tail(front, pb.skip(k + 1));
                assert(front + pb.skip(k + 1) =~= pb);
                lemma_last_name_kept_tail(root, pb);
            },
        }
    } else {
        assert(x[0] == '.');
        if x.len() == 1 {
            assert(x =~= seq!['.']);
            assert(false);
        } else {
            assert(x[1] == '/');
            let rx = x.skip(2);
            let rb = split_seq(rx, '/');
            lemma_split_seq_nonempty(rx, '/');
            assert(bx =~= e + seq!['/'] + rx);
            lemma_split_concat(e, rx);
            assert(pb == seq![e] + rb);
            assert(x =~= seq!['.'] + seq!['/'] + rx);
            lemma_split_concat(seq!['.'], rx);
            let dot = seq![seq!['.']];
            assert(split_seq(x, '/') == dot + rb);
            assert(!kept(pb[0]));
            match last_kept(pb, pb.len() as int) {
                None => {
                    assert forall|i: int| 0 <= i < rb.len() implies !kept(#[trigger] rb[i]) by {
                        assert(rb[i] == pb[i + 1]);
                    }
                    lemma_last_name_unkept_tail(dot, rb);
                    assert(false);
                },
                Some(k) => {
                    assert(k >= 1);
                    let front = pb.take(k + 1);
                    let rfront = rb.take(k);
                    assert(front.take(1) =~= seq![e]);
                    assert(front.skip(1) =~= rfront);
                    lemma_join_take(front, 1);
                    assert(join_seq(seq![e], "/"@) == e);
                    assert forall|i: int| 0 <= i < rfront.len() implies no_sep(#[trigger] rfront[i]) by {
                        assert(rfront[i] == pb[i + 1]);
                    }
                    lemma_split_join(rfront);
                    assert(x.take(1) =~= seq!['.']);
                    assert(trim_path(x) =~= seq!['.'] + seq!['/'] + join_seq(rfront, "/"@));
                    lemma_split_concat(seq!['.'], join_seq(rfront, "/"@));
                    assert(rfront[k - 1] == pb[k]);
                    lemma_last_name_kept_tail(dot, rfront);
                    assert forall|i: int| 0 <= i < rb.skip(k).len() implies !kept(#[trigger] rb.skip(k)[i]) by {
                        assert(rb.skip(k)[i] == pb[k + 1 + i]);
                    }
                    lemma_last_name_unkept_tail(rfront, rb.skip(k));
                    assert(rfront + rb.skip(k) =~= rb);
                    assert(rb[k - 1] == pb[k]);
                    lemma_last_name_kept_tail(dot, rb);
                },
            }
        }
    }
}

/// A path that ends in a component, or is `.`, is its own trimmed form.
pub proof fn lemma_trim_whole(x: Seq<char>)
    requires
        x.len() > 0,
        x.last() != '/',
        x == "."@ || split_seq(x, '/').last() != "."@,
    ensures
        trim_path(x) == x,
{
    reveal_strlit(".");
    reveal_strlit("/");
    assert("."@ =~= seq!['.']);
    lemma_split_dot();
    let l = body_start(x);
    let bx = x.skip(l);
    let pb = split_seq(bx, '/');
    lemma_split_seq_nonempty(bx, '/');
    let e = Seq::<char>::empty();
    if x == "."@ {
        assert(bx =~= e);
        assert(pb == seq![e]);
        assert(!kept(pb[0]));
        assert(last_kept(pb, 0) is None);
        assert(x.take(1) =~= x);
    } else {
        if bx.len() == 0 {
            assert(x.len() == 1);
            if x[0] == '.' {
                assert(x =~= seq!['.']);
            }
        }
        assert(bx.len() > 0);
        assert(bx.last() == x.last());
        let init = split_seq(bx.drop_last(), '/');
        lemma_split_seq_nonempty(bx.drop_last(), '/');
        assert(pb.last() == init.last().push(bx.last()));
        assert(pb.last().len() > 0);
        if l == 0 {
            assert(bx =~= x);
        } else if x[0] == '/' {
            assert(x =~= e + seq!['/'] + bx);
            lemma_split_concat(e, bx);
            assert(split_seq(x, '/').last() == pb.last());
        } else {
            let rx = x.skip(2);
            assert(bx =~= e + seq!['/'] + rx);
            lemma_split_concat(e, rx);
            assert(x =~= seq!['.'] + seq!['/'] + rx);
            lemma_split_concat(seq!['.'], rx);
            lemma_split_seq_nonempty(rx, '/');
            assert(split_seq(x, '/').last() == pb.last());
        }
        assert(kept(pb.last()));
        assert(last_kept(pb, pb.len() as int) == Some(pb.len() - 1));
        assert(pb.take(pb.len() as int) =~= pb);
        lemma_join_split(bx);
        assert(x.take(l) + bx =~= x);
    }
}

} // verus!
