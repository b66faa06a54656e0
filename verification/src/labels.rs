use vstd::prelude::*;

use crate::text::{
    chars_of, extend_chars, is_blank, join, lemma_join_push, string_from_chars, trim,
    trimmed_chars,
};

verus! {

/// The characters of an optional string.
pub open spec fn opt_view(o: Option<&str>) -> Option<Seq<char>> {
    match o {
        Some(s) => Some(s@),
        None => None,
    }
}

/// `label`, followed by ` [shortcut]` when a shortcut that is not blank is given.
pub open spec fn label_with_shortcut(label: Seq<char>, shortcut: Option<Seq<char>>) -> Seq<char> {
    match shortcut {
        Some(sc) => if trim(sc).len() > 0 {
            label + seq![' ', '['] + sc + seq![']']
        } else {
            label
        },
        None => label,
    }
}

/// A tooltip label with its keyboard shortcut in brackets, when there is one.
pub fn native_label_with_shortcut(label: &str, shortcut: Option<&str>) -> (r: String)
    ensures
        r@ == label_with_shortcut(label@, opt_view(shortcut)),
{
    let mut out = chars_of(label);
    match shortcut {
        Some(sc) => {
            if !is_blank(sc) {
                out.push(' ');
                out.push('[');
                let sc_chars = chars_of(sc);
                extend_chars(&mut out, &sc_chars);
                out.push(']');
                assert(out@ =~= label@ + seq![' ', '['] + sc@ + seq![']']);
            }
        },
        None => {},
    }
    string_from_chars(&out)
}

/// The trimmed shortcuts that are present and not blank, in order.
pub open spec fn shortcut_labels(s: Seq<Option<Seq<char>>>) -> Seq<Seq<char>>
    decreases s.len(),
{
    if s.len() == 0 {
        Seq::empty()
    } else {
        let rest = shortcut_labels(s.drop_last());
        match s.last() {
            Some(x) => if trim(x).len() > 0 {
                rest.push(trim(x))
            } else {
                rest
            },
            None => rest,
        }
    }
}

/// The characters of each optional shortcut.
pub open spec fn opt_views(s: Seq<Option<&str>>) -> Seq<Option<Seq<char>>> {
    s.map_values(|o: Option<&str>| opt_view(o))
}

/// `sep` for joined shortcuts: ` / `.
pub open spec fn shortcut_sep() -> Seq<char> {
    seq![' ', '/', ' ']
}

/// What joining the given shortcuts yields: `None` when none is present and
/// not blank, else the trimmed ones joined by ` / `.
pub open spec fn joined_shortcuts(s: Seq<Option<Seq<char>>>) -> Option<Seq<char>> {
    let labels = shortcut_labels(s);
    if labels.len() == 0 {
        None
    } else {
        Some(join(labels, shortcut_sep()))
    }
}

/// Several alternative shortcuts for one action, as one label.
pub fn native_joined_shortcuts(shortcuts: &[Option<&str>]) -> (r: Option<String>)
    ensures
        r matches Some(x) ==> joined_shortcuts(opt_views(shortcuts@)) == Some(x@),
        r is None <==> joined_shortcuts(opt_views(shortcuts@)) is None,
{
    let ghost all = opt_views(shortcuts@);
    let mut out: Vec<char> = Vec::new();
    let mut any = false;
    let mut i: usize = 0;
    while i < shortcuts.len()
        invariant
            i <= shortcuts.len(),
            all == opt_views(shortcuts@),
            out@ == join(shortcut_labels(all.take(i as int)), shortcut_sep()),
            any == (shortcut_labels(all.take(i as int)).len() > 0),
        decreases shortcuts.len() - i,
    {
        let ghost pre = all.take(i as int);
        let ghost now = all.take(i + 1);
        assert(now.drop_last() =~= pre);
        assert(now.last() == opt_view(shortcuts@[i as int]));
        match shortcuts[i] {
            Some(sc) => {
                let t = trimmed_chars(sc);
                if t.len() > 0 {
                    proof {
                        lemma_join_push(shortcut_labels(pre), shortcut_sep(), t@);
                    }
                    if any {
                        out.push(' ');
                        out.push('/');
                        out.push(' ');
                    }
                    extend_chars(&mut out, &t);
                    assert(out@ =~= join(shortcut_labels(now), shortcut_sep()));
                    any = true;
                }
            },
            None => {},
        }
        i += 1;
    }
    assert(all.take(shortcuts.len() as int) =~= all);
    if any {
        Some(string_from_chars(&out))
    } else {
        None
    }
}

/// At most `max` characters of `s`, with `...` appended when some were cut.
pub open spec fn truncated(s: Seq<char>, max: nat) -> Seq<char> {
    if s.len() <= max {
        s
    } else {
        s.take(max as int) + seq!['.', '.', '.']
    }
}

/// Shortens `text` to `max_chars` characters for a fixed-width overlay label.
pub fn truncate_overlay_text(text: &str, max_chars: usize) -> (r: String)
    ensures
        r@ == truncated(text@, max_chars as nat),
{
    let all = chars_of(text);
    if all.len() <= max_chars {
        return string_from_chars(&all);
    }
    let mut out: Vec<char> = Vec::new();
    let mut i: usize = 0;
    while i < max_chars
        invariant
            i <= max_chars < all.len(),
            out@ == all@.take(i as int),
        decreases max_chars - i,
    {
        out.push(all[i]);
        assert(all@.take(i + 1) =~= all@.take(i as int).push(all@[i as int]));
        i += 1;
    }
    out.push('.');
    out.push('.');
    out.push('.');
    assert(out@ =~= all@.take(max_chars as int) + seq!['.', '.', '.']);
    string_from_chars(&out)
}

/// Part `m` of a join stands in it, whole, from the returned place on.
proof fn lemma_join_contains_part(parts: Seq<Seq<char>>, sep: Seq<char>, m: int) -> (k: int)
    requires
        0 <= m < parts.len(),
    ensures
        0 <= k,
        k + parts[m].len() <= join(parts, sep).len(),
        join(parts, sep).subrange(k, k + parts[m].len()) == parts[m],
    decreases parts.len(),
{
    if parts.len() == 1 {
        assert(join(parts, sep).subrange(0, 0int + parts[m].len()) =~= parts[m]);
        0
    } else {
        let init = parts.drop_last();
        let a = join(init, sep);
        let r = a + sep + parts[parts.len() - 1];
        assert(join(parts, sep) == r);
        if m == parts.len() - 1 {
            let k: int = (a.len() + sep.len()) as int;
            assert(r.subrange(k, k + parts[m].len()) =~= parts[m]);
            k
        } else {
            let k = lemma_join_contains_part(init, sep, m);
            assert(init[m] == parts[m]);
            assert(r.subrange(k, k + parts[m].len()) =~= a.subrange(k, k + init[m].len()));
            k
        }
    }
}

/// Every shortcut that is present and not blank is among the labels, trimmed.
proof fn lemma_shortcut_labels_cover(s: Seq<Option<Seq<char>>>)
    ensures
        forall|i: int|
            0 <= i < s.len() && (#[trigger] s[i]) is Some && trim(s[i]->0).len() > 0 ==> exists|m: int|
                0 <= m < shortcut_labels(s).len() && shortcut_labels(s)[m] == trim(s[i]->0),
    decreases s.len(),
{
    if s.len() > 0 {
        let p = s.drop_last();
        lemma_shortcut_labels_cover(p);
        let q = shortcut_labels(p);
        let r = shortcut_labels(s);
        assert forall|i: int|
            0 <= i < s.len() && (#[trigger] s[i]) is Some && trim(s[i]->0).len() > 0 implies exists|m: int|
                0 <= m < r.len() && r[m] == trim(s[i]->0) by {
            if i == s.len() - 1 {
                assert(r[r.len() - 1] == trim(s[i]->0));
            } else {
                assert(p[i] == s[i]);
                let m = choose|m: int| 0 <= m < q.len() && q[m] == trim(p[i]->0);
                assert(r[m] == q[m]);
            }
        }
    }
}

/// Joining shortcuts keeps every one of them: when a shortcut is present and
/// not blank, there is a joined label, and the shortcut, trimmed, stands in it.
pub proof fn lemma_joined_shortcuts_keep_all(s: Seq<Option<Seq<char>>>)
    ensures
        forall|i: int|
            0 <= i < s.len() && (#[trigger] s[i]) is Some && trim(s[i]->0).len() > 0 ==> {
                &&& joined_shortcuts(s) is Some
                &&& exists|k: int|
                    0 <= k && k + trim(s[i]->0).len() <= joined_shortcuts(s)->0.len()
                        && #[trigger] joined_shortcuts(s)->0.subrange(k, k + trim(s[i]->0).len()) == trim(s[i]->0)
            },
{
    lemma_shortcut_labels_cover(s);
    let labels = shortcut_labels(s);
    assert forall|i: int|
        0 <= i < s.len() && (#[trigger] s[i]) is Some && trim(s[i]->0).len() > 0 implies {
            &&& joined_shortcuts(s) is Some
            &&& exists|k: int|
                0 <= k && k + trim(s[i]->0).len() <= joined_shortcuts(s)->0.len()
                    && #[trigger] joined_shortcuts(s)->0.subrange(k, k + trim(s[i]->0).len()) == trim(s[i]->0)
        } by {
        let m = choose|m: int| 0 <= m < labels.len() && labels[m] == trim(s[i]->0);
        let k = lemma_join_contains_part(labels, shortcut_sep(), m);
        assert(joined_shortcuts(s)->0.subrange(k, k + trim(s[i]->0).len()) == trim(s[i]->0));
    }
}

} // verus!
