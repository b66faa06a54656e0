use vstd::prelude::*;

use crate::text::{
    chars_of, collapse_whitespace, collapse_ws, extend_chars, is_ws, join, lemma_join_extend_last, lemma_join_push,
    string_from_chars, words,
};

verus! {

/// `s` with every occurrence of `pat`, taken left to right without overlap,
/// replaced by `rep`, as `str::replace` does for a non-empty pattern.
pub open spec fn replace_all(s: Seq<char>, pat: Seq<char>, rep: Seq<char>) -> Seq<char>
    decreases s.len(),
{
    if s.len() == 0 {
        Seq::empty()
    } else if pat.len() > 0 && pat.len() <= s.len() && s.take(pat.len() as int) == pat {
        rep + replace_all(s.skip(pat.len() as int), pat, rep)
    } else {
        seq![s[0]] + replace_all(s.drop_first(), pat, rep)
    }
}

/// Whether `pat` occurs in `s` at position `i`.
fn occurs_at(s: &[char], i: usize, pat: &[char]) -> (b: bool)
    requires
        i <= s.len(),
    ensures
        b == (pat.len() <= s.len() - i && s@.skip(i as int).take(pat.len() as int) == pat@),
{
    if pat.len() > s.len() - i {
        return false;
    }
    let mut k: usize = 0;
    while k < pat.len()
        invariant
            k <= pat.len() <= s.len() - i,
            forall|m: int| 0 <= m < k ==> s@[i + m] == pat@[m],
        decreases pat.len() - k,
    {
        if s[i + k] != pat[k] {
            assert(s@.skip(i as int).take(pat.len() as int)[k as int] != pat@[k as int]);
            return false;
        }
        k += 1;
    }
    assert(s@.skip(i as int).take(pat.len() as int) =~= pat@);
    true
}

/// Replaces every occurrence of the non-empty `pat` in `s` by `rep`.
pub fn replace_chars(s: &[char], pat: &[char], rep: &[char]) -> (out: Vec<char>)
    requires
        pat.len() > 0,
    ensures
        out@ == replace_all(s@, pat@, rep@),
{
    let mut out: Vec<char> = Vec::new();
    let mut i: usize = 0;
    assert(s@.skip(0) =~= s@);
    while i < s.len()
        invariant
            i <= s.len(),
            pat.len() > 0,
            out@ + replace_all(s@.skip(i as int), pat@, rep@) == replace_all(s@, pat@, rep@),
        decreases s.len() - i,
    {
        let ghost rest = s@.skip(i as int);
        let ghost out0 = out@;
        if occurs_at(s, i, pat) {
            assert(rest.skip(pat.len() as int) =~= s@.skip(i + pat.len()));
            let ghost tail = replace_all(s@.skip(i + pat.len()), pat@, rep@);
            assert(replace_all(rest, pat@, rep@) == rep@ + tail);
            extend_chars(&mut out, rep);
            assert(out@ + tail =~= out0 + (rep@ + tail));
            i += pat.len();
        } else {
            assert(rest.drop_first() =~= s@.skip(i + 1));
            assert(rest[0] == s@[i as int]);
            let ghost tail = replace_all(s@.skip(i + 1), pat@, rep@);
            assert(replace_all(rest, pat@, rep@) == seq![s@[i as int]] + tail);
            out.push(s[i]);
            assert(out@ + tail =~= out0 + (seq![s@[i as int]] + tail));
            i += 1;
        }
    }
    assert(s@.skip(i as int) =~= Seq::<char>::empty());
    assert(out@ + Seq::<char>::empty() =~= out@);
    out
}


/// The characters of each line.
pub open spec fn lines_view(v: Seq<Vec<char>>) -> Seq<Seq<char>> {
    v.map_values(|x: Vec<char>| x@)
}

/// The characters `cs`, as a vector.
fn chars_vec(cs: &[char]) -> (v: Vec<char>)
    ensures
        v@ == cs@,
{
    let mut v: Vec<char> = Vec::new();
    crate::text::extend_chars(&mut v, cs);
    v
}

/// `s` cut at every line feed; `n` line feeds give `n + 1` pieces.
pub open spec fn split_lines(s: Seq<char>) -> Seq<Seq<char>>
    decreases s.len(),
{
    if s.len() == 0 {
        seq![Seq::empty()]
    } else {
        let p = split_lines(s.drop_last());
        if s.last() == '\n' {
            p.push(Seq::empty())
        } else {
            p.update(p.len() - 1, p.last().push(s.last()))
        }
    }
}

/// The pieces of `s` between line feeds.
pub fn split_at_line_feeds(s: &[char]) -> (out: Vec<Vec<char>>)
    ensures
        lines_view(out@) == split_lines(s@),
{
    let mut done: Vec<Vec<char>> = Vec::new();
    let mut cur: Vec<char> = Vec::new();
    let mut i: usize = 0;
    while i < s.len()
        invariant
            i <= s.len(),
            lines_view(done@).push(cur@) == split_lines(s@.take(i as int)),
        decreases s.len() - i,
    {
        let ghost now = s@.take(i + 1);
        assert(now.drop_last() =~= s@.take(i as int));
        assert(now.last() == s@[i as int]);
        let ghost before = lines_view(done@).push(cur@);
        if s[i] == '\n' {
            done.push(cur);
            cur = Vec::new();
            assert(lines_view(done@).push(cur@) =~= before.push(Seq::empty()));
        } else {
            cur.push(s[i]);
            assert(lines_view(done@).push(cur@) =~= before.update(
                before.len() - 1,
                before.last().push(s@[i as int]),
            ));
        }
        i += 1;
    }
    assert(s@.take(s.len() as int) =~= s@);
    done.push(cur);
    done
}

/// The lines to keep: blank lines are dropped at the start and at the end,
/// and each run of blank lines between two non-blank ones becomes one blank line.
pub open spec fn keep_lines(ls: Seq<Seq<char>>) -> Seq<Seq<char>>
    decreases ls.len(),
{
    if ls.len() == 0 {
        Seq::empty()
    } else {
        let k = keep_lines(ls.drop_last());
        let l = ls.last();
        if l.len() == 0 {
            k
        } else if k.len() > 0 && ls.len() >= 2 && ls[ls.len() - 2].len() == 0 {
            k.push(Seq::empty()).push(l)
        } else {
            k.push(l)
        }
    }
}

/// Drops and merges blank lines as `keep_lines` states.
pub fn squeeze_blank_lines(ls: &Vec<Vec<char>>) -> (out: Vec<Vec<char>>)
    ensures
        lines_view(out@) == keep_lines(lines_view(ls@)),
{
    let ghost all = lines_view(ls@);
    let mut out: Vec<Vec<char>> = Vec::new();
    let mut i: usize = 0;
    while i < ls.len()
        invariant
            i <= ls.len(),
            all == lines_view(ls@),
            lines_view(out@) == keep_lines(all.take(i as int)),
        decreases ls.len() - i,
    {
        let ghost now = all.take(i + 1);
        assert(now.drop_last() =~= all.take(i as int));
        assert(now.last() == ls@[i as int]@);
        let ghost before = lines_view(out@);
        if ls[i].len() > 0 {
            if out.len() > 0 && i >= 1 && ls[i - 1].len() == 0 {
                assert(now[now.len() - 2] == ls@[i - 1]@);
                out.push(Vec::new());
                out.push(ls[i].clone());
                assert(lines_view(out@) =~= before.push(Seq::empty()).push(ls@[i as int]@));
            } else {
                assert(i >= 1 ==> now[now.len() - 2] == ls@[i - 1]@);
                out.push(ls[i].clone());
                assert(lines_view(out@) =~= before.push(ls@[i as int]@));
            }
        }
        i += 1;
    }
    assert(all.take(ls.len() as int) =~= all);
    out
}

/// The parts joined with `sep` between neighbours.
pub fn join_parts(parts: &Vec<Vec<char>>, sep: &[char]) -> (out: Vec<char>)
    ensures
        out@ == join(lines_view(parts@), sep@),
{
    let ghost all = lines_view(parts@);
    let mut out: Vec<char> = Vec::new();
    let mut i: usize = 0;
    while i < parts.len()
        invariant
            i <= parts.len(),
            all == lines_view(parts@),
            out@ == join(all.take(i as int), sep@),
        decreases parts.len() - i,
    {
        proof {
            lemma_join_push(all.take(i as int), sep@, all[i as int]);
        }
        assert(all.take(i + 1) =~= all.take(i as int).push(all[i as int]));
        if i > 0 {
            extend_chars(&mut out, sep);
        }
        extend_chars(&mut out, &parts[i]);
        i += 1;
    }
    assert(all.take(parts.len() as int) =~= all);
    out
}

/// `s` with line breaks unified: CR LF, lone CR and the escaped forms `\r\n`
/// and `\n` all become LF.
pub open spec fn normalize_breaks(s: Seq<char>) -> Seq<char> {
    let lf = seq!['\n'];
    replace_all(
        replace_all(
            replace_all(replace_all(s, seq!['\r', '\n'], lf), seq!['\r'], lf),
            seq!['\\', 'r', '\\', 'n'],
            lf,
        ),
        seq!['\\', 'n'],
        lf,
    )
}

/// Metadata text as the info panel shows it: line breaks unified, each line's
/// whitespace collapsed to single spaces, blank lines dropped at both ends and
/// merged to one between paragraphs.
pub open spec fn clean_text(s: Seq<char>) -> Seq<char> {
    join(
        keep_lines(split_lines(normalize_breaks(s)).map_values(|l: Seq<char>| collapse_ws(l))),
        seq!['\n'],
    )
}

/// Cleans a metadata value (title, description, ...) for display.
pub fn metadata_clean_text(value: &str) -> (r: String)
    ensures
        r@ == clean_text(value@),
{
    let v = chars_of(value);
    let lf: [char; 1] = ['\n'];
    let crlf: [char; 2] = ['\r', '\n'];
    let cr: [char; 1] = ['\r'];
    let esc_crlf: [char; 4] = ['\\', 'r', '\\', 'n'];
    let esc_lf: [char; 2] = ['\\', 'n'];
    assert(lf@ =~= seq!['\n']);
    assert(crlf@ =~= seq!['\r', '\n']);
    assert(cr@ =~= seq!['\r']);
    assert(esc_crlf@ =~= seq!['\\', 'r', '\\', 'n']);
    assert(esc_lf@ =~= seq!['\\', 'n']);
    let s1 = replace_chars(&v, &crlf, &lf);
    let s2 = replace_chars(&s1, &cr, &lf);
    let s3 = replace_chars(&s2, &esc_crlf, &lf);
    let s4 = replace_chars(&s3, &esc_lf, &lf);
    assert(s4@ == normalize_breaks(value@));
    let pieces = split_at_line_feeds(&s4);
    let ghost pv = lines_view(pieces@);
    let mut collapsed: Vec<Vec<char>> = Vec::new();
    let mut i: usize = 0;
    while i < pieces.len()
        invariant
            i <= pieces.len(),
            pv == lines_view(pieces@),
            lines_view(collapsed@) == pv.take(i as int).map_values(|l: Seq<char>| collapse_ws(l)),
        decreases pieces.len() - i,
    {
        let c = collapse_whitespace(&pieces[i]);
        assert(c@ == collapse_ws(pv[i as int]));
        let ghost before = lines_view(collapsed@);
        collapsed.push(c);
        assert(lines_view(collapsed@) =~= before.push(collapse_ws(pv[i as int])));
        assert(pv.take(i + 1).map_values(|l: Seq<char>| collapse_ws(l)) =~= pv.take(
            i as int,
        ).map_values(|l: Seq<char>| collapse_ws(l)).push(collapse_ws(pv[i as int])));
        assert(lines_view(collapsed@) =~= pv.take(i + 1).map_values(|l: Seq<char>| collapse_ws(l)));
        i += 1;
    }
    assert(pv.take(pieces.len() as int) =~= pv);
    let kept = squeeze_blank_lines(&collapsed);
    let out = join_parts(&kept, &lf);
    string_from_chars(&out)
}

/// Whether `w` is a word: non-empty, without whitespace.
pub open spec fn is_solid(w: Seq<char>) -> bool {
    w.len() > 0 && forall|j: int| 0 <= j < w.len() ==> !is_ws(#[trigger] w[j])
}

/// Whether `l` is one line of collapsed text: its only whitespace is single
/// plain spaces between visible characters.
pub open spec fn is_collapsed_line(l: Seq<char>) -> bool {
    &&& forall|i: int| 0 <= i < l.len() && is_ws(#[trigger] l[i]) ==> l[i] == ' '
    &&& l.len() > 0 ==> !is_ws(l[0]) && !is_ws(l[l.len() - 1])
    &&& forall|i: int, j: int|
        #![trigger l[i], l[j]]
        0 <= i && j == i + 1 && j < l.len() ==> !(is_ws(l[i]) && is_ws(l[j]))
}

/// Whether `ls` are paragraph lines: each collapsed, the first one not blank,
/// and never two blank lines in a row.
pub open spec fn is_paragraph_lines(ls: Seq<Seq<char>>) -> bool {
    &&& forall|k: int| 0 <= k < ls.len() ==> is_collapsed_line(#[trigger] ls[k])
    &&& ls.len() > 0 ==> ls[0].len() > 0
    &&& forall|i: int, j: int|
        #![trigger ls[i], ls[j]]
        0 <= i && j == i + 1 && j < ls.len() ==> ls[i].len() > 0 || ls[j].len() > 0
}

/// Whether the whitespace of `r` is in order: only spaces and line feeds, no
/// space next to other whitespace, and never three line feeds in a row.
pub open spec fn has_tidy_spacing(r: Seq<char>) -> bool {
    &&& forall|i: int| 0 <= i < r.len() && is_ws(#[trigger] r[i]) ==> r[i] == ' ' || r[i] == '\n'
    &&& forall|i: int, j: int|
        #![trigger r[i], r[j]]
        0 <= i && j == i + 1 && j < r.len() ==> !(r[i] == ' ' && is_ws(r[j])) && !(is_ws(r[i])
            && r[j] == ' ')
    &&& forall|i: int, j: int, k: int|
        #![trigger r[i], r[j], r[k]]
        0 <= i && j == i + 1 && k == j + 1 && k < r.len() ==> !(r[i] == '\n' && r[j] == '\n' && r[k]
            == '\n')
}

/// Whether `r` reads as tidy paragraphs: tidy spacing, and no whitespace at
/// either end.
pub open spec fn is_tidy_text(r: Seq<char>) -> bool {
    &&& has_tidy_spacing(r)
    &&& r.len() > 0 ==> !is_ws(r[0]) && !is_ws(r[r.len() - 1])
}

/// The words of any text are non-empty and free of whitespace.
proof fn lemma_words_solid(s: Seq<char>)
    ensures
        forall|k: int| 0 <= k < words(s).len() ==> is_solid(#[trigger] words(s)[k]),
        s.len() > 0 && !is_ws(s[s.len() - 1]) ==> words(s).len() > 0,
    decreases s.len(),
{
    if s.len() > 0 {
        let p = s.drop_last();
        lemma_words_solid(p);
        let w = words(p);
        let c = s.last();
        if is_ws(c) {
        } else if s.len() >= 2 && !is_ws(s[s.len() - 2]) {
            assert(p[p.len() - 1] == s[s.len() - 2]);
            let up = w.update(w.len() - 1, w.last().push(c));
            assert(is_solid(w[w.len() - 1]));
            assert forall|k: int| 0 <= k < up.len() implies is_solid(#[trigger] up[k]) by {
                if k == w.len() - 1 {
                    assert forall|j: int| 0 <= j < up[k].len() implies !is_ws(#[trigger] up[k][j]) by {
                        if j < w[k].len() {
                            assert(up[k][j] == w[k][j]);
                        }
                    }
                } else {
                    assert(up[k] == w[k]);
                }
            }
        } else {
            let pu = w.push(seq![c]);
            assert forall|k: int| 0 <= k < pu.len() implies is_solid(#[trigger] pu[k]) by {
                if k < w.len() {
                    assert(pu[k] == w[k]);
                }
            }
        }
    }
}

/// Words joined by single spaces make one collapsed line, non-empty when
/// there is a word.
proof fn lemma_join_solid(ws: Seq<Seq<char>>)
    requires
        forall|k: int| 0 <= k < ws.len() ==> is_solid(#[trigger] ws[k]),
    ensures
        is_collapsed_line(join(ws, seq![' '])),
        ws.len() > 0 ==> join(ws, seq![' ']).len() > 0,
    decreases ws.len(),
{
    let sp = seq![' '];
    if ws.len() == 1 {
        assert(is_solid(ws[0]));
    } else if ws.len() >= 2 {
        let init = ws.drop_last();
        assert forall|k: int| 0 <= k < init.len() implies is_solid(#[trigger] init[k]) by {
            assert(init[k] == ws[k]);
        }
        lemma_join_solid(init);
        let a = join(init, sp);
        let b = ws[ws.len() - 1];
        assert(is_solid(b));
        let r = a + sp + b;
        assert(join(ws, sp) == r);
        assert forall|i: int| 0 <= i < r.len() && is_ws(#[trigger] r[i]) implies r[i] == ' ' by {
            if i < a.len() {
                assert(r[i] == a[i]);
            } else if i > a.len() {
                assert(r[i] == b[i - a.len() - 1]);
            }
        }
        assert(r[0] == a[0]);
        assert(r[r.len() - 1] == b[b.len() - 1]);
        assert forall|i: int, j: int| 0 <= i && j == i + 1 && j < r.len() implies !(is_ws(
            #[trigger] r[i],
        ) && is_ws(#[trigger] r[j])) by {
            if j < a.len() {
                assert(r[i] == a[i]);
                assert(r[j] == a[j]);
            } else if j == a.len() {
                assert(r[i] == a[a.len() - 1]);
            } else if i == a.len() {
                assert(r[j] == b[0]);
            } else {
                assert(r[i] == b[i - a.len() - 1]);
                assert(r[j] == b[j - a.len() - 1]);
            }
        }
    }
}

/// Collapsing the whitespace of any text gives a collapsed line.
pub proof fn lemma_collapse_ws_line(s: Seq<char>)
    ensures
        is_collapsed_line(collapse_ws(s)),
{
    lemma_words_solid(s);
    lemma_join_solid(words(s));
}

/// Keeping lines of collapsed text gives paragraph lines that end with a
/// line that is not blank.
proof fn lemma_keep_lines_paragraphs(ls: Seq<Seq<char>>)
    requires
        forall|k: int| 0 <= k < ls.len() ==> is_collapsed_line(#[trigger] ls[k]),
    ensures
        is_paragraph_lines(keep_lines(ls)),
        keep_lines(ls).len() > 0 ==> keep_lines(ls)[keep_lines(ls).len() - 1].len() > 0,
    decreases ls.len(),
{
    if ls.len() > 0 {
        let init = ls.drop_last();
        assert forall|k: int| 0 <= k < init.len() implies is_collapsed_line(#[trigger] init[k]) by {
            assert(init[k] == ls[k]);
        }
        lemma_keep_lines_paragraphs(init);
        let k = keep_lines(init);
        let l = ls[ls.len() - 1];
        assert(is_collapsed_line(l));
        if l.len() == 0 {
        } else if k.len() > 0 && ls.len() >= 2 && ls[ls.len() - 2].len() == 0 {
            let e = Seq::<char>::empty();
            let r = k.push(e).push(l);
            assert(is_collapsed_line(e));
            assert forall|m: int| 0 <= m < r.len() implies is_collapsed_line(#[trigger] r[m]) by {
                if m < k.len() {
                    assert(r[m] == k[m]);
                }
            }
            assert(r[0] == k[0]);
            assert forall|i: int, j: int| 0 <= i && j == i + 1 && j < r.len() implies (
            #[trigger] r[i]).len() > 0 || (#[trigger] r[j]).len() > 0 by {
                if j < k.len() {
                    assert(r[i] == k[i]);
                    assert(r[j] == k[j]);
                } else if j == k.len() {
                    assert(r[i] == k[k.len() - 1]);
                }
            }
        } else {
            let r = k.push(l);
            assert forall|m: int| 0 <= m < r.len() implies is_collapsed_line(#[trigger] r[m]) by {
                if m < k.len() {
                    assert(r[m] == k[m]);
                }
            }
            if k.len() > 0 {
                assert(r[0] == k[0]);
            }
            assert forall|i: int, j: int| 0 <= i && j == i + 1 && j < r.len() implies (
            #[trigger] r[i]).len() > 0 || (#[trigger] r[j]).len() > 0 by {
                if j < k.len() {
                    assert(r[i] == k[i]);
                    assert(r[j] == k[j]);
                }
            }
        }
    }
}

/// Paragraph lines joined by line feeds have tidy spacing and start with a
/// visible character; they end with one, or, after a blank last line, with
/// a line feed that follows one.
proof fn lemma_join_paragraphs(ls: Seq<Seq<char>>)
    requires
        is_paragraph_lines(ls),
        ls.len() > 0,
    ensures
        has_tidy_spacing(join(ls, seq!['\n'])),
        join(ls, seq!['\n']).len() > 0,
        !is_ws(join(ls, seq!['\n'])[0]),
        ls[ls.len() - 1].len() > 0 ==> !is_ws(
            join(ls, seq!['\n'])[join(ls, seq!['\n']).len() - 1],
        ),
        ls[ls.len() - 1].len() == 0 ==> {
            let r = join(ls, seq!['\n']);
            &&& r.len() >= 2
            &&& r[r.len() - 1] == '\n'
            &&& !is_ws(r[r.len() - 2])
        },
    decreases ls.len(),
{
    let lf = seq!['\n'];
    if ls.len() == 1 {
        let l = ls[0];
        assert(is_collapsed_line(l));
        assert(join(ls, lf) == l);
        assert forall|i: int, j: int, k: int|
            #![trigger l[i], l[j], l[k]]
            0 <= i && j == i + 1 && k == j + 1 && k < l.len() implies !(l[i] == '\n' && l[j] == '\n'
            && l[k] == '\n') by {
            if l[i] == '\n' {
                assert(is_ws(l[i]));
            }
        }
    } else {
        let init = ls.drop_last();
        assert forall|k: int| 0 <= k < init.len() implies is_collapsed_line(#[trigger] init[k]) by {
            assert(init[k] == ls[k]);
        }
        assert forall|i: int, j: int|
            #![trigger init[i], init[j]]
            0 <= i && j == i + 1 && j < init.len() implies init[i].len() > 0 || init[j].len() > 0 by {
            assert(init[i] == ls[i]);
            assert(init[j] == ls[j]);
        }
        assert(init[0] == ls[0]);
        lemma_join_paragraphs(init);
        let a = join(init, lf);
        let l = ls[ls.len() - 1];
        let prev = ls[ls.len() - 2];
        assert(init[init.len() - 1] == prev);
        assert(is_collapsed_line(l));
        assert(prev.len() > 0 || l.len() > 0);
        let r = a + lf + l;
        assert(join(ls, lf) == r);
        assert(r[0] == a[0]);
        assert(r[a.len() as int] == '\n');
        assert forall|i: int| 0 <= i < r.len() && is_ws(#[trigger] r[i]) implies r[i] == ' ' || r[i]
            == '\n' by {
            if i < a.len() {
                assert(r[i] == a[i]);
            } else if i > a.len() {
                assert(r[i] == l[i - a.len() - 1]);
            }
        }
        assert forall|i: int, j: int|
            #![trigger r[i], r[j]]
            0 <= i && j == i + 1 && j < r.len() implies !(r[i] == ' ' && is_ws(r[j])) && !(is_ws(r[i])
                && r[j] == ' ') by {
            if j < a.len() {
                assert(r[i] == a[i]);
                assert(r[j] == a[j]);
            } else if j == a.len() {
                assert(r[i] == a[a.len() - 1]);
            } else if i == a.len() {
                assert(r[j] == l[0]);
            } else {
                assert(r[i] == l[i - a.len() - 1]);
                assert(r[j] == l[j - a.len() - 1]);
            }
        }
        assert forall|i: int, j: int, k: int|
            #![trigger r[i], r[j], r[k]]
            0 <= i && j == i + 1 && k == j + 1 && k < r.len() implies !(r[i] == '\n' && r[j] == '\n'
            && r[k] == '\n') by {
            if k < a.len() {
                assert(r[i] == a[i]);
                assert(r[j] == a[j]);
                assert(r[k] == a[k]);
            } else if k == a.len() {
                assert(r[i] == a[a.len() - 2]);
                assert(r[j] == a[a.len() - 1]);
            } else if j == a.len() {
                assert(r[i] == a[a.len() - 1]);
                assert(r[k] == l[0]);
            } else if i == a.len() {
                assert(r[j] == l[0]);
            } else {
                assert(r[j] == l[j - a.len() - 1]);
                assert(is_ws(l[j - a.len() - 1]) ==> l[j - a.len() - 1] == ' ');
            }
        }
        if l.len() > 0 {
            assert(r[r.len() - 1] == l[l.len() - 1]);
        } else {
            assert(r.len() == a.len() + 1);
            assert(r[r.len() - 2] == a[a.len() - 1]);
        }
    }
}

/// Cleaned metadata text reads as tidy paragraphs: it neither starts nor ends
/// with whitespace, its only whitespace is spaces and line feeds, no space
/// stands next to other whitespace, and at most one blank line separates two
/// paragraphs.
pub proof fn lemma_clean_text_is_tidy(s: Seq<char>)
    ensures
        is_tidy_text(clean_text(s)),
{
    let pieces = split_lines(normalize_breaks(s));
    let lines = pieces.map_values(|l: Seq<char>| collapse_ws(l));
    assert forall|k: int| 0 <= k < lines.len() implies is_collapsed_line(#[trigger] lines[k]) by {
        lemma_collapse_ws_line(pieces[k]);
    }
    lemma_keep_lines_paragraphs(lines);
    let kept = keep_lines(lines);
    if kept.len() > 0 {
        lemma_join_paragraphs(kept);
    }
}

/// Whether `r` holds no carriage return and no backslash followed by `n`.
pub open spec fn is_unescaped(r: Seq<char>) -> bool {
    &&& forall|i: int| 0 <= i < r.len() ==> #[trigger] r[i] != '\r'
    &&& forall|i: int, j: int|
        #![trigger r[i], r[j]]
        0 <= i && j == i + 1 && j < r.len() ==> !(r[i] == '\\' && r[j] == 'n')
}

/// Replacing by a line feed leaves no carriage return where there was none,
/// and the result starts with the line feed at a match, else with the first
/// character.
proof fn lemma_replace_by_lf(s: Seq<char>, pat: Seq<char>)
    requires
        pat.len() > 0,
    ensures
        ({
            let r = replace_all(s, pat, seq!['\n']);
            &&& (forall|i: int| 0 <= i < s.len() ==> #[trigger] s[i] != '\r') ==> (forall|i: int|
                0 <= i < r.len() ==> #[trigger] r[i] != '\r')
            &&& s.len() > 0 ==> r.len() > 0 && r[0] == (if pat.len() <= s.len() && s.take(pat.len() as int)
                == pat {
                '\n'
            } else {
                s[0]
            })
        }),
    decreases s.len(),
{
    let lf = seq!['\n'];
    if s.len() > 0 {
        if pat.len() <= s.len() && s.take(pat.len() as int) == pat {
            let t = s.skip(pat.len() as int);
            lemma_replace_by_lf(t, pat);
            let r = lf + replace_all(t, pat, lf);
            if forall|i: int| 0 <= i < s.len() ==> #[trigger] s[i] != '\r' {
                assert forall|i: int| 0 <= i < t.len() implies #[trigger] t[i] != '\r' by {
                    assert(t[i] == s[i + pat.len()]);
                }
                assert forall|i: int| 0 <= i < r.len() implies #[trigger] r[i] != '\r' by {
                    if i > 0 {
                        assert(r[i] == replace_all(t, pat, lf)[i - 1]);
                    }
                }
            }
        } else {
            let t = s.drop_first();
            lemma_replace_by_lf(t, pat);
            let r = seq![s[0]] + replace_all(t, pat, lf);
            if forall|i: int| 0 <= i < s.len() ==> #[trigger] s[i] != '\r' {
                assert forall|i: int| 0 <= i < t.len() implies #[trigger] t[i] != '\r' by {
                    assert(t[i] == s[i + 1]);
                }
                assert forall|i: int| 0 <= i < r.len() implies #[trigger] r[i] != '\r' by {
                    if i > 0 {
                        assert(r[i] == replace_all(t, pat, lf)[i - 1]);
                    } else {
                        assert(s[0] != '\r');
                    }
                }
            }
        }
    }
}

/// Replacing each carriage return by a line feed leaves none.
proof fn lemma_replace_cr(s: Seq<char>)
    ensures
        forall|i: int|
            0 <= i < replace_all(s, seq!['\r'], seq!['\n']).len() ==> #[trigger] replace_all(
                s,
                seq!['\r'],
                seq!['\n'],
            )[i] != '\r',
    decreases s.len(),
{
    let lf = seq!['\n'];
    let cr = seq!['\r'];
    if s.len() > 0 {
        if s.take(1) == cr {
            let t = s.skip(1);
            lemma_replace_cr(t);
            let r = lf + replace_all(t, cr, lf);
            assert forall|i: int| 0 <= i < r.len() implies #[trigger] r[i] != '\r' by {
                if i > 0 {
                    assert(r[i] == replace_all(t, cr, lf)[i - 1]);
                }
            }
        } else {
            assert(s[0] != '\r') by {
                if s[0] == '\r' {
                    assert(s.take(1) =~= cr);
                }
            }
            let t = s.drop_first();
            lemma_replace_cr(t);
            let r = seq![s[0]] + replace_all(t, cr, lf);
            assert forall|i: int| 0 <= i < r.len() implies #[trigger] r[i] != '\r' by {
                if i > 0 {
                    assert(r[i] == replace_all(t, cr, lf)[i - 1]);
                }
            }
        }
    }
}

/// Replacing each escaped `\n` by a line feed leaves no backslash followed
/// by `n`.
proof fn lemma_replace_escaped_lf(s: Seq<char>)
    ensures
        ({
            let r = replace_all(s, seq!['\\', 'n'], seq!['\n']);
            forall|i: int, j: int|
                #![trigger r[i], r[j]]
                0 <= i && j == i + 1 && j < r.len() ==> !(r[i] == '\\' && r[j] == 'n')
        }),
    decreases s.len(),
{
    let lf = seq!['\n'];
    let pat = seq!['\\', 'n'];
    if s.len() > 0 {
        if pat.len() <= s.len() && s.take(2) == pat {
            let t = s.skip(2);
            lemma_replace_escaped_lf(t);
            let q = replace_all(t, pat, lf);
            let r = lf + q;
            assert forall|i: int, j: int|
                #![trigger r[i], r[j]]
                0 <= i && j == i + 1 && j < r.len() implies !(r[i] == '\\' && r[j] == 'n') by {
                if i > 0 {
                    assert(r[i] == q[i - 1]);
                    assert(r[j] == q[j - 1]);
                }
            }
        } else {
            let t = s.drop_first();
            lemma_replace_escaped_lf(t);
            lemma_replace_by_lf(t, pat);
            let q = replace_all(t, pat, lf);
            let r = seq![s[0]] + q;
            assert forall|i: int, j: int|
                #![trigger r[i], r[j]]
                0 <= i && j == i + 1 && j < r.len() implies !(r[i] == '\\' && r[j] == 'n') by {
                if i > 0 {
                    assert(r[i] == q[i - 1]);
                    assert(r[j] == q[j - 1]);
                } else if s[0] == '\\' && t.len() > 0 {
                    assert(r[j] == q[0]);
                    if q[0] == 'n' {
                        assert(!(pat.len() <= t.len() && t.take(2) == pat));
                        assert(t[0] == 'n');
                        assert(s[1] == t[0]);
                        assert(s.take(2) =~= pat);
                    }
                }
            }
        }
    }
}

/// Unified line breaks hold no carriage return and no escaped `\n`.
proof fn lemma_normalize_unescaped(s: Seq<char>)
    ensures
        is_unescaped(normalize_breaks(s)),
{
    let lf = seq!['\n'];
    let s1 = replace_all(s, seq!['\r', '\n'], lf);
    let s2 = replace_all(s1, seq!['\r'], lf);
    let s3 = replace_all(s2, seq!['\\', 'r', '\\', 'n'], lf);
    let s4 = replace_all(s3, seq!['\\', 'n'], lf);
    lemma_replace_cr(s1);
    lemma_replace_by_lf(s2, seq!['\\', 'r', '\\', 'n']);
    lemma_replace_by_lf(s3, seq!['\\', 'n']);
    lemma_replace_escaped_lf(s3);
}

/// The pieces between line feeds of text without escapes are without escapes
/// and without line feeds; the last piece, when not empty, ends where the
/// text ends.
proof fn lemma_split_unescaped(s: Seq<char>)
    requires
        is_unescaped(s),
    ensures
        split_lines(s).len() > 0,
        forall|k: int| 0 <= k < split_lines(s).len() ==> is_unescaped(#[trigger] split_lines(s)[k]),
        forall|k: int, i: int|
            0 <= k < split_lines(s).len() && 0 <= i < split_lines(s)[k].len() ==> #[trigger] split_lines(
                s,
            )[k][i] != '\n',
        split_lines(s)[split_lines(s).len() - 1].len() > 0 ==> s.len() > 0 && split_lines(s)[split_lines(
            s,
        ).len() - 1][split_lines(s)[split_lines(s).len() - 1].len() - 1] == s[s.len() - 1],
    decreases s.len(),
{
    if s.len() > 0 {
        let q = s.drop_last();
        assert forall|i: int| 0 <= i < q.len() implies #[trigger] q[i] != '\r' by {
            assert(q[i] == s[i]);
        }
        assert forall|i: int, j: int|
            #![trigger q[i], q[j]]
            0 <= i && j == i + 1 && j < q.len() implies !(q[i] == '\\' && q[j] == 'n') by {
            assert(q[i] == s[i]);
            assert(q[j] == s[j]);
        }
        lemma_split_unescaped(q);
        let p = split_lines(q);
        let c = s[s.len() - 1];
        assert(c != '\r');
        if c == '\n' {
            let r = p.push(Seq::<char>::empty());
            assert(split_lines(s) == r);
            assert forall|k: int| 0 <= k < r.len() implies is_unescaped(#[trigger] r[k]) by {
                if k < p.len() {
                    assert(r[k] == p[k]);
                }
            }
            assert forall|k: int, i: int| 0 <= k < r.len() && 0 <= i < r[k].len() implies #[trigger] r[k][i]
                != '\n' by {
                assert(r[k] == p[k]);
            }
        } else {
            let l = p[p.len() - 1];
            let nl = l.push(c);
            let r = p.update(p.len() - 1, nl);
            assert(split_lines(s) == r);
            assert(is_unescaped(l));
            assert(is_unescaped(nl)) by {
                assert forall|i: int| 0 <= i < nl.len() implies #[trigger] nl[i] != '\r' by {
                    if i < l.len() {
                        assert(nl[i] == l[i]);
                    }
                }
                assert forall|i: int, j: int|
                    #![trigger nl[i], nl[j]]
                    0 <= i && j == i + 1 && j < nl.len() implies !(nl[i] == '\\' && nl[j] == 'n') by {
                    if j < l.len() {
                        assert(nl[i] == l[i]);
                        assert(nl[j] == l[j]);
                    } else {
                        assert(nl[i] == l[l.len() - 1]);
                        assert(l[l.len() - 1] == q[q.len() - 1]);
                        assert(q[q.len() - 1] == s[s.len() - 2]);
                    }
                }
            }
            assert forall|k: int| 0 <= k < r.len() implies is_unescaped(#[trigger] r[k]) by {
                if k < p.len() - 1 {
                    assert(r[k] == p[k]);
                }
            }
            assert forall|k: int, i: int| 0 <= k < r.len() && 0 <= i < r[k].len() implies #[trigger] r[k][i]
                != '\n' by {
                if k < p.len() - 1 {
                    assert(r[k] == p[k]);
                } else if i < l.len() {
                    assert(r[k][i] == l[i]);
                }
            }
        }
    }
}

/// The words of text without escapes are without escapes; the last word
/// ends where the text ends, when the text ends with a visible character.
proof fn lemma_words_unescaped(s: Seq<char>)
    requires
        is_unescaped(s),
    ensures
        forall|k: int| 0 <= k < words(s).len() ==> is_unescaped(#[trigger] words(s)[k]),
        s.len() > 0 && !is_ws(s[s.len() - 1]) ==> words(s).len() > 0 && words(s)[words(s).len() - 1][words(
            s,
        )[words(s).len() - 1].len() - 1] == s[s.len() - 1],
    decreases s.len(),
{
    lemma_words_solid(s);
    if s.len() > 0 {
        let q = s.drop_last();
        assert forall|i: int| 0 <= i < q.len() implies #[trigger] q[i] != '\r' by {
            assert(q[i] == s[i]);
        }
        assert forall|i: int, j: int|
            #![trigger q[i], q[j]]
            0 <= i && j == i + 1 && j < q.len() implies !(q[i] == '\\' && q[j] == 'n') by {
            assert(q[i] == s[i]);
            assert(q[j] == s[j]);
        }
        lemma_words_unescaped(q);
        lemma_words_solid(q);
        let w = words(q);
        let c = s[s.len() - 1];
        if is_ws(c) {
        } else if s.len() >= 2 && !is_ws(s[s.len() - 2]) {
            assert(q[q.len() - 1] == s[s.len() - 2]);
            let l = w[w.len() - 1];
            let nl = l.push(c);
            let r = w.update(w.len() - 1, nl);
            assert(words(s) == r);
            assert(is_solid(l));
            assert(is_unescaped(nl)) by {
                assert forall|i: int| 0 <= i < nl.len() implies #[trigger] nl[i] != '\r' by {
                    if i < l.len() {
                        assert(nl[i] == l[i]);
                    }
                }
                assert forall|i: int, j: int|
                    #![trigger nl[i], nl[j]]
                    0 <= i && j == i + 1 && j < nl.len() implies !(nl[i] == '\\' && nl[j] == 'n') by {
                    if j < l.len() {
                        assert(nl[i] == l[i]);
                        assert(nl[j] == l[j]);
                    } else {
                        assert(nl[i] == l[l.len() - 1]);
                    }
                }
            }
            assert forall|k: int| 0 <= k < r.len() implies is_unescaped(#[trigger] r[k]) by {
                if k < w.len() - 1 {
                    assert(r[k] == w[k]);
                }
            }
        } else {
            let r = w.push(seq![c]);
            assert(words(s) == r);
            assert forall|k: int| 0 <= k < r.len() implies is_unescaped(#[trigger] r[k]) by {
                if k < w.len() {
                    assert(r[k] == w[k]);
                } else {
                    assert(r[k] =~= seq![c]);
                }
            }
        }
    }
}

/// Parts without escapes joined by a separator that is neither a
/// backslash, `n` nor a carriage return give text without escapes.
proof fn lemma_join_unescaped(parts: Seq<Seq<char>>, sep: char)
    requires
        sep != '\\' && sep != 'n' && sep != '\r',
        forall|k: int| 0 <= k < parts.len() ==> is_unescaped(#[trigger] parts[k]),
    ensures
        is_unescaped(join(parts, seq![sep])),
    decreases parts.len(),
{
    if parts.len() == 1 {
        assert(is_unescaped(parts[0]));
    } else if parts.len() >= 2 {
        let init = parts.drop_last();
        assert forall|k: int| 0 <= k < init.len() implies is_unescaped(#[trigger] init[k]) by {
            assert(init[k] == parts[k]);
        }
        lemma_join_unescaped(init, sep);
        let a = join(init, seq![sep]);
        let b = parts[parts.len() - 1];
        assert(is_unescaped(b));
        let r = a + seq![sep] + b;
        assert(join(parts, seq![sep]) == r);
        assert forall|i: int| 0 <= i < r.len() implies #[trigger] r[i] != '\r' by {
            if i < a.len() {
                assert(r[i] == a[i]);
            } else if i > a.len() {
                assert(r[i] == b[i - a.len() - 1]);
            }
        }
        assert forall|i: int, j: int|
            #![trigger r[i], r[j]]
            0 <= i && j == i + 1 && j < r.len() implies !(r[i] == '\\' && r[j] == 'n') by {
            if j < a.len() {
                assert(r[i] == a[i]);
                assert(r[j] == a[j]);
            } else if j == a.len() {
            } else if i == a.len() {
            } else {
                assert(r[i] == b[i - a.len() - 1]);
                assert(r[j] == b[j - a.len() - 1]);
            }
        }
    }
}

/// Keeping lines keeps only lines of the input and blank lines.
proof fn lemma_keep_lines_from(ls: Seq<Seq<char>>)
    ensures
        forall|k: int|
            0 <= k < keep_lines(ls).len() ==> (#[trigger] keep_lines(ls)[k]).len() == 0 || exists|m: int|
                0 <= m < ls.len() && ls[m] == keep_lines(ls)[k],
    decreases ls.len(),
{
    if ls.len() > 0 {
        let init = ls.drop_last();
        lemma_keep_lines_from(init);
        let k = keep_lines(init);
        let r = keep_lines(ls);
        assert forall|x: int| 0 <= x < r.len() implies (#[trigger] r[x]).len() == 0 || exists|m: int|
            0 <= m < ls.len() && ls[m] == r[x] by {
            if x < k.len() {
                assert(r[x] == k[x]);
                if k[x].len() > 0 {
                    let m = choose|m: int| 0 <= m < init.len() && init[m] == k[x];
                    assert(ls[m] == init[m]);
                }
            } else if r[x].len() > 0 {
                assert(r[x] == ls[ls.len() - 1]);
            }
        }
    }
}

/// Cleaned metadata text holds no carriage return and no backslash followed
/// by `n`: escaped line breaks all became real ones.
pub proof fn lemma_clean_text_unescaped(s: Seq<char>)
    ensures
        is_unescaped(clean_text(s)),
{
    let n = normalize_breaks(s);
    lemma_normalize_unescaped(s);
    lemma_split_unescaped(n);
    let pieces = split_lines(n);
    let lines = pieces.map_values(|l: Seq<char>| collapse_ws(l));
    assert forall|k: int| 0 <= k < lines.len() implies is_unescaped(#[trigger] lines[k]) by {
        lemma_words_unescaped(pieces[k]);
        lemma_join_unescaped(words(pieces[k]), ' ');
    }
    lemma_keep_lines_from(lines);
    let kept = keep_lines(lines);
    assert forall|k: int| 0 <= k < kept.len() implies is_unescaped(#[trigger] kept[k]) by {
        if kept[k].len() > 0 {
            let m = choose|m: int| 0 <= m < lines.len() && lines[m] == kept[k];
        }
    }
    lemma_join_unescaped(kept, '\n');
}

/// Replacing a pattern that does not occur changes nothing.
proof fn lemma_replace_absent(s: Seq<char>, pat: Seq<char>, rep: Seq<char>)
    requires
        pat.len() > 0,
        forall|i: int| 0 <= i && i + pat.len() <= s.len() ==> #[trigger] s.subrange(i, i + pat.len()) != pat,
    ensures
        replace_all(s, pat, rep) == s,
    decreases s.len(),
{
    if s.len() > 0 {
        if pat.len() <= s.len() {
            let w = s.subrange(0int, 0int + pat.len());
            assert(w != pat);
            assert(s.take(pat.len() as int) =~= w);
        }
        let t = s.drop_first();
        assert forall|i: int| 0 <= i && i + pat.len() <= t.len() implies #[trigger] t.subrange(i, i + pat.len())
            != pat by {
            assert(t.subrange(i, i + pat.len()) =~= s.subrange(i + 1, i + 1 + pat.len()));
        }
        lemma_replace_absent(t, pat, rep);
        assert(seq![s[0]] + t =~= s);
    }
}

/// Text without escapes is its own unified form.
proof fn lemma_normalize_fixed(r: Seq<char>)
    requires
        is_unescaped(r),
    ensures
        normalize_breaks(r) == r,
{
    let lf = seq!['\n'];
    let p1 = seq!['\r', '\n'];
    let p2 = seq!['\r'];
    let p3 = seq!['\\', 'r', '\\', 'n'];
    let p4 = seq!['\\', 'n'];
    assert forall|i: int| 0 <= i && i + p1.len() <= r.len() implies #[trigger] r.subrange(i, i + p1.len()) != p1 by {
        assert(r.subrange(i, i + p1.len())[0] == r[i]);
    }
    lemma_replace_absent(r, p1, lf);
    assert forall|i: int| 0 <= i && i + p2.len() <= r.len() implies #[trigger] r.subrange(i, i + p2.len()) != p2 by {
        assert(r.subrange(i, i + p2.len())[0] == r[i]);
    }
    lemma_replace_absent(r, p2, lf);
    assert forall|i: int| 0 <= i && i + p3.len() <= r.len() implies #[trigger] r.subrange(i, i + p3.len()) != p3 by {
        let w = r.subrange(i, i + p3.len());
        assert(w[2] == r[i + 2]);
        assert(w[3] == r[i + 3]);
        assert(!(r[i + 2] == '\\' && r[i + 3] == 'n'));
        if w == p3 {
            assert(w[2] == '\\');
        }
    }
    lemma_replace_absent(r, p3, lf);
    assert forall|i: int| 0 <= i && i + p4.len() <= r.len() implies #[trigger] r.subrange(i, i + p4.len()) != p4 by {
        let w = r.subrange(i, i + p4.len());
        assert(w[0] == r[i]);
        assert(w[1] == r[i + 1]);
        assert(!(r[i] == '\\' && r[i + 1] == 'n'));
        if w == p4 {
            assert(w[0] == '\\');
        }
    }
    lemma_replace_absent(r, p4, lf);
}

/// Text without line feeds is one piece.
proof fn lemma_split_single(b: Seq<char>)
    requires
        forall|i: int| 0 <= i < b.len() ==> #[trigger] b[i] != '\n',
    ensures
        split_lines(b) == seq![b],
    decreases b.len(),
{
    if b.len() > 0 {
        let q = b.drop_last();
        assert forall|i: int| 0 <= i < q.len() implies #[trigger] q[i] != '\n' by {
            assert(q[i] == b[i]);
        }
        lemma_split_single(q);
        assert(b[b.len() - 1] != '\n');
        assert(q.push(b[b.len() - 1]) =~= b);
        assert(seq![q].update(0, q.push(b[b.len() - 1])) =~= seq![b]);
    } else {
        assert(b =~= Seq::<char>::empty());
    }
}

/// Cutting `a`, a line feed and `b` (without line feeds) gives the pieces
/// of `a` and then `b`.
proof fn lemma_split_append(a: Seq<char>, b: Seq<char>)
    requires
        forall|i: int| 0 <= i < b.len() ==> #[trigger] b[i] != '\n',
    ensures
        split_lines(a + seq!['\n'] + b) == split_lines(a).push(b),
    decreases b.len(),
{
    let lf = seq!['\n'];
    if b.len() == 0 {
        assert(a + lf + b =~= a.push('\n'));
        assert((a + lf + b).drop_last() =~= a);
        assert(b =~= Seq::<char>::empty());
    } else {
        let q = b.drop_last();
        assert forall|i: int| 0 <= i < q.len() implies #[trigger] q[i] != '\n' by {
            assert(q[i] == b[i]);
        }
        lemma_split_append(a, q);
        let s = a + lf + b;
        assert(s.drop_last() =~= a + lf + q);
        assert(s[s.len() - 1] == b[b.len() - 1]);
        let p = split_lines(a).push(q);
        assert(q.push(b[b.len() - 1]) =~= b);
        assert(p.update(p.len() - 1, p[p.len() - 1].push(b[b.len() - 1])) =~= split_lines(a).push(b));
    }
}

/// Lines without line feeds joined by line feeds cut back into the same lines.
proof fn lemma_split_join(ls: Seq<Seq<char>>)
    requires
        ls.len() > 0,
        forall|k: int, i: int| 0 <= k < ls.len() && 0 <= i < ls[k].len() ==> #[trigger] ls[k][i] != '\n',
    ensures
        split_lines(join(ls, seq!['\n'])) == ls,
    decreases ls.len(),
{
    if ls.len() == 1 {
        let b = ls[0];
        assert forall|i: int| 0 <= i < b.len() implies #[trigger] b[i] != '\n' by {
            assert(ls[0][i] != '\n');
        }
        lemma_split_single(b);
        assert(seq![b] =~= ls);
    } else {
        let init = ls.drop_last();
        assert forall|k: int, i: int| 0 <= k < init.len() && 0 <= i < init[k].len() implies #[trigger] init[k][i]
            != '\n' by {
            assert(init[k] == ls[k]);
        }
        lemma_split_join(init);
        let b = ls[ls.len() - 1];
        assert forall|i: int| 0 <= i < b.len() implies #[trigger] b[i] != '\n' by {
            assert(ls[ls.len() - 1][i] != '\n');
        }
        lemma_split_append(join(init, seq!['\n']), b);
        assert(init.push(b) =~= ls);
    }
}

/// A collapsed line is its own collapsed form.
proof fn lemma_collapse_fixed(l: Seq<char>)
    requires
        is_collapsed_line(l),
    ensures
        collapse_ws(l) == l,
    decreases l.len(),
{
    let sp = seq![' '];
    if l.len() == 1 {
        assert(l.drop_last() =~= Seq::<char>::empty());
        assert(words(l.drop_last()) == Seq::<Seq<char>>::empty());
        assert(words(l) =~= seq![seq![l[0]]]);
        assert(seq![l[0]] =~= l);
    } else if l.len() >= 2 {
        let c = l[l.len() - 1];
        let l1 = l.drop_last();
        assert(!is_ws(c));
        if !is_ws(l[l.len() - 2]) {
            assert(is_collapsed_line(l1)) by {
                assert forall|i: int| 0 <= i < l1.len() && is_ws(#[trigger] l1[i]) implies l1[i] == ' ' by {
                    assert(l1[i] == l[i]);
                }
                assert(l1[0] == l[0]);
                assert(l1[l1.len() - 1] == l[l.len() - 2]);
                assert forall|i: int, j: int|
                    #![trigger l1[i], l1[j]]
                    0 <= i && j == i + 1 && j < l1.len() implies !(is_ws(l1[i]) && is_ws(l1[j])) by {
                    assert(l1[i] == l[i]);
                    assert(l1[j] == l[j]);
                }
            }
            lemma_collapse_fixed(l1);
            lemma_words_solid(l1);
            assert(l1[l1.len() - 1] == l[l.len() - 2]);
            lemma_join_extend_last(words(l1), sp, c);
            assert(l1.push(c) =~= l);
        } else {
            assert(l.len() >= 3) by {
                if l.len() == 2 {
                    assert(l[l.len() - 2] == l[0]);
                }
            }
            let l2 = l1.drop_last();
            assert(!is_ws(l[l.len() - 3])) by {
                assert(!(is_ws(l[l.len() - 3]) && is_ws(l[l.len() - 2])));
            }
            assert(l[l.len() - 2] == ' ');
            assert(is_collapsed_line(l2)) by {
                assert forall|i: int| 0 <= i < l2.len() && is_ws(#[trigger] l2[i]) implies l2[i] == ' ' by {
                    assert(l2[i] == l[i]);
                }
                assert(l2[0] == l[0]);
                assert(l2[l2.len() - 1] == l[l.len() - 3]);
                assert forall|i: int, j: int|
                    #![trigger l2[i], l2[j]]
                    0 <= i && j == i + 1 && j < l2.len() implies !(is_ws(l2[i]) && is_ws(l2[j])) by {
                    assert(l2[i] == l[i]);
                    assert(l2[j] == l[j]);
                }
            }
            lemma_collapse_fixed(l2);
            lemma_words_solid(l2);
            assert(l2[l2.len() - 1] == l[l.len() - 3]);
            assert(l1[l1.len() - 1] == l[l.len() - 2]);
            assert(l1.drop_last() == l2);
            assert(words(l1) == words(l2));
            assert(words(l) == words(l1).push(seq![c]));
            lemma_join_push(words(l2), sp, seq![c]);
            assert(l2 + sp + seq![c] =~= l);
        }
    }
}

/// The first `n` of paragraph lines are paragraph lines.
proof fn lemma_paragraph_prefix(ls: Seq<Seq<char>>, n: int)
    requires
        is_paragraph_lines(ls),
        0 <= n <= ls.len(),
    ensures
        is_paragraph_lines(ls.take(n)),
{
    let t = ls.take(n);
    assert forall|k: int| 0 <= k < t.len() implies is_collapsed_line(#[trigger] t[k]) by {
        assert(t[k] == ls[k]);
    }
    if n > 0 {
        assert(t[0] == ls[0]);
    }
    assert forall|i: int, j: int|
        #![trigger t[i], t[j]]
        0 <= i && j == i + 1 && j < t.len() implies t[i].len() > 0 || t[j].len() > 0 by {
        assert(t[i] == ls[i]);
        assert(t[j] == ls[j]);
    }
}

/// Paragraph lines ending with a line that is not blank are kept as they are.
proof fn lemma_keep_lines_fixed(ls: Seq<Seq<char>>)
    requires
        is_paragraph_lines(ls),
        ls.len() > 0 ==> ls[ls.len() - 1].len() > 0,
    ensures
        keep_lines(ls) == ls,
    decreases ls.len(),
{
    if ls.len() > 0 {
        let init = ls.drop_last();
        let l = ls[ls.len() - 1];
        if ls.len() >= 2 && ls[ls.len() - 2].len() == 0 {
            assert(ls.len() >= 3) by {
                if ls.len() == 2 {
                    assert(ls[0].len() > 0);
                }
            }
            let init2 = init.drop_last();
            lemma_paragraph_prefix(ls, ls.len() - 2);
            assert(ls.take(ls.len() - 2) =~= init2);
            assert(ls[ls.len() - 3].len() > 0) by {
                assert(ls[ls.len() - 3].len() > 0 || ls[ls.len() - 2].len() > 0);
            }
            assert(init2[init2.len() - 1] == ls[ls.len() - 3]);
            lemma_keep_lines_fixed(init2);
            assert(init[init.len() - 1] == ls[ls.len() - 2]);
            assert(init.drop_last() == init2);
            assert(keep_lines(init) == init2);
            assert(ls[ls.len() - 2] =~= Seq::<char>::empty());
            assert forall|k: int| 0 <= k < init2.len() implies #[trigger] init2[k] == ls[k] by {}
            assert(init2.push(Seq::<char>::empty()).push(l) =~= ls);
        } else {
            lemma_paragraph_prefix(ls, ls.len() - 1);
            assert(ls.take(ls.len() - 1) =~= init);
            if init.len() > 0 {
                assert(init[init.len() - 1] == ls[ls.len() - 2]);
            }
            lemma_keep_lines_fixed(init);
            assert(init.push(l) =~= ls);
        }
    }
}

/// Cleaning cleaned metadata text changes nothing.
pub proof fn lemma_clean_text_idempotent(s: Seq<char>)
    ensures
        clean_text(clean_text(s)) == clean_text(s),
{
    let pieces = split_lines(normalize_breaks(s));
    let lines = pieces.map_values(|l: Seq<char>| collapse_ws(l));
    assert forall|k: int| 0 <= k < lines.len() implies is_collapsed_line(#[trigger] lines[k]) by {
        lemma_collapse_ws_line(pieces[k]);
    }
    lemma_keep_lines_paragraphs(lines);
    let kept = keep_lines(lines);
    let r = clean_text(s);
    assert(r == join(kept, seq!['\n']));
    lemma_clean_text_unescaped(s);
    lemma_normalize_fixed(r);
    if kept.len() == 0 {
        assert(r =~= Seq::<char>::empty());
        let e = Seq::<char>::empty();
        assert(split_lines(e) =~= seq![e]);
        assert(words(e) =~= Seq::<Seq<char>>::empty());
        assert(collapse_ws(e) =~= e);
        let l2 = seq![e].map_values(|l: Seq<char>| collapse_ws(l));
        assert(l2 =~= seq![e]);
        assert(seq![e].drop_last() =~= Seq::<Seq<char>>::empty());
        assert(keep_lines(seq![e].drop_last()) == Seq::<Seq<char>>::empty());
        assert(seq![e][0] == e);
        assert(keep_lines(seq![e]) =~= Seq::<Seq<char>>::empty());
    } else {
        assert forall|k: int, i: int| 0 <= k < kept.len() && 0 <= i < kept[k].len() implies #[trigger] kept[k][i]
            != '\n' by {
            assert(is_collapsed_line(kept[k]));
            if kept[k][i] == '\n' {
                assert(is_ws(kept[k][i]));
            }
        }
        lemma_split_join(kept);
        let again = kept.map_values(|l: Seq<char>| collapse_ws(l));
        assert forall|k: int| 0 <= k < kept.len() implies #[trigger] again[k] == kept[k] by {
            lemma_collapse_fixed(kept[k]);
        }
        assert(again =~= kept);
        lemma_keep_lines_fixed(kept);
    }
}

/// Replacing in a text none of whose characters begins the pattern changes
/// nothing.
proof fn lemma_replace_absent_first(s: Seq<char>, pat: Seq<char>, rep: Seq<char>)
    requires
        pat.len() > 0,
        forall|i: int| 0 <= i < s.len() ==> #[trigger] s[i] != pat[0],
    ensures
        replace_all(s, pat, rep) == s,
{
    assert forall|i: int| 0 <= i && i + pat.len() <= s.len() implies #[trigger] s.subrange(i, i + pat.len()) != pat by {
        assert(s.subrange(i, i + pat.len())[0] == s[i]);
    }
    lemma_replace_absent(s, pat, rep);
}

/// Replacing in `a` followed by `t`, when no character of `a` begins the
/// pattern, leaves `a` as it is in front.
proof fn lemma_replace_after_prefix(a: Seq<char>, t: Seq<char>, pat: Seq<char>, rep: Seq<char>)
    requires
        pat.len() > 0,
        forall|i: int| 0 <= i < a.len() ==> #[trigger] a[i] != pat[0],
    ensures
        replace_all(a + t, pat, rep) == a + replace_all(t, pat, rep),
    decreases a.len(),
{
    let s = a + t;
    if a.len() == 0 {
        assert(s =~= t);
        assert(a + replace_all(t, pat, rep) =~= replace_all(t, pat, rep));
    } else {
        assert(s[0] == a[0]);
        if pat.len() <= s.len() {
            assert(s.take(pat.len() as int)[0] == s[0]);
        }
        let a1 = a.drop_first();
        assert forall|i: int| 0 <= i < a1.len() implies #[trigger] a1[i] != pat[0] by {
            assert(a1[i] == a[i + 1]);
        }
        lemma_replace_after_prefix(a1, t, pat, rep);
        assert(s.drop_first() =~= a1 + t);
        assert(seq![a[0]] + (a1 + replace_all(t, pat, rep)) =~= a + replace_all(t, pat, rep));
    }
}

/// Whether `a` is plain text on one line: no line feed, carriage return or
/// backslash.
pub open spec fn is_plain_line(a: Seq<char>) -> bool {
    forall|i: int| 0 <= i < a.len() ==> #[trigger] a[i] != '\n' && a[i] != '\r' && a[i] != '\\'
}

/// Two plain lines around one line feed come out as their collapsed forms
/// around one line feed.
proof fn lemma_clean_two_lines(a: Seq<char>, b: Seq<char>)
    requires
        is_plain_line(a),
        is_plain_line(b),
        collapse_ws(a).len() > 0,
        collapse_ws(b).len() > 0,
        normalize_breaks(a + seq!['\n'] + b) == a + seq!['\n'] + b,
    ensures
        clean_text(a + seq!['\n'] + b) == collapse_ws(a) + seq!['\n'] + collapse_ws(b),
{
    let lf = seq!['\n'];
    assert forall|i: int| 0 <= i < b.len() implies #[trigger] b[i] != '\n' by {}
    assert forall|i: int| 0 <= i < a.len() implies #[trigger] a[i] != '\n' by {}
    lemma_split_append(a, b);
    lemma_split_single(a);
    let pieces = split_lines(a + lf + b);
    assert(pieces =~= seq![a, b]);
    let ca = collapse_ws(a);
    let cb = collapse_ws(b);
    let lines = pieces.map_values(|l: Seq<char>| collapse_ws(l));
    assert(lines =~= seq![ca, cb]);
    assert(seq![ca, cb].drop_last() =~= seq![ca]);
    assert(seq![ca].drop_last() =~= Seq::<Seq<char>>::empty());
    assert(keep_lines(seq![ca].drop_last()) == Seq::<Seq<char>>::empty());
    assert(seq![ca][0] == ca);
    assert(keep_lines(seq![ca]) =~= seq![ca]);
    assert(seq![ca, cb][1] == cb);
    assert(seq![ca, cb][0] == ca);
    assert(keep_lines(seq![ca, cb]) =~= seq![ca, cb]);
    assert(join(seq![ca], lf) == ca);
    assert(join(seq![ca, cb], lf) == ca + lf + cb);
}

/// A line break is one line break however it is written: plain lines
/// joined by CR LF, by a lone LF, or by a lone CR all clean to the two
/// lines, each collapsed, around one line feed; a CR LF pair never makes an
/// extra blank line.
pub proof fn lemma_clean_text_crlf_is_one_break(a: Seq<char>, b: Seq<char>)
    requires
        is_plain_line(a),
        is_plain_line(b),
        collapse_ws(a).len() > 0,
        collapse_ws(b).len() > 0,
    ensures
        clean_text(a + seq!['\r', '\n'] + b) == collapse_ws(a) + seq!['\n'] + collapse_ws(b),
        clean_text(a + seq!['\n'] + b) == collapse_ws(a) + seq!['\n'] + collapse_ws(b),
        clean_text(a + seq!['\r'] + b) == collapse_ws(a) + seq!['\n'] + collapse_ws(b),
{
    let lf = seq!['\n'];
    let crlf = seq!['\r', '\n'];
    let cr = seq!['\r'];
    let p3 = seq!['\\', 'r', '\\', 'n'];
    let p4 = seq!['\\', 'n'];
    let m = a + lf + b;
    assert forall|i: int| 0 <= i < m.len() implies #[trigger] m[i] != '\r' && m[i] != '\\' by {
        if i < a.len() {
            assert(m[i] == a[i]);
        } else if i > a.len() {
            assert(m[i] == b[i - a.len() - 1]);
        }
    }
    // With the line feed alone, nothing is replaced.
    lemma_replace_absent_first(m, crlf, lf);
    lemma_replace_absent_first(m, cr, lf);
    lemma_replace_absent_first(m, p3, lf);
    lemma_replace_absent_first(m, p4, lf);
    assert(normalize_breaks(m) == m);
    lemma_clean_two_lines(a, b);
    // CR LF becomes one line feed in the first pass.
    let s1 = a + crlf + b;
    assert forall|i: int| 0 <= i < a.len() implies #[trigger] a[i] != crlf[0] by {}
    assert(s1 =~= a + (crlf + b));
    lemma_replace_after_prefix(a, crlf + b, crlf, lf);
    assert((crlf + b).take(2) =~= crlf);
    assert((crlf + b).skip(2) =~= b);
    assert forall|i: int| 0 <= i < b.len() implies #[trigger] b[i] != crlf[0] by {}
    lemma_replace_absent_first(b, crlf, lf);
    assert(replace_all(crlf + b, crlf, lf) == lf + b);
    assert(a + (lf + b) =~= m);
    assert(replace_all(s1, crlf, lf) == m);
    assert(normalize_breaks(s1) == m);
    // A lone CR is left by the first pass and becomes a line feed in the second.
    let s2 = a + cr + b;
    assert forall|i: int| 0 <= i && i + crlf.len() <= s2.len() implies #[trigger] s2.subrange(i, i + crlf.len())
        != crlf by {
        let w = s2.subrange(i, i + crlf.len());
        assert(w[0] == s2[i]);
        assert(w[1] == s2[i + 1]);
        if i < a.len() {
            assert(s2[i] == a[i]);
        } else if i == a.len() {
            assert(s2[i + 1] == b[0]);
        } else {
            assert(s2[i] == b[i - a.len() - 1]);
        }
    }
    lemma_replace_absent(s2, crlf, lf);
    assert forall|i: int| 0 <= i < a.len() implies #[trigger] a[i] != cr[0] by {}
    assert(s2 =~= a + (cr + b));
    lemma_replace_after_prefix(a, cr + b, cr, lf);
    assert((cr + b).take(1) =~= cr);
    assert((cr + b).skip(1) =~= b);
    assert forall|i: int| 0 <= i < b.len() implies #[trigger] b[i] != cr[0] by {}
    lemma_replace_absent_first(b, cr, lf);
    assert(replace_all(cr + b, cr, lf) == lf + b);
    assert(replace_all(s2, cr, lf) == m);
    assert(normalize_breaks(s2) == m);
}

} // verus!
