use vstd::prelude::*;

verus! {

/// One tag as the tag buttons and the tag picker list it.
#[derive(Clone, Debug)]
pub struct NativeOverlayTagDef {
    /// The name shown after `#`.
    pub name: String,
    /// The normalized key that identifies the tag.
    pub tag_key: String,
    /// How many items carry the tag.
    pub count: u64,
    /// Whether the tag is pinned to the picker.
    pub pinned: bool,
    /// When the tag was last applied (0 or less: never).
    pub last_applied_at: i64,
}

/// The plain value of a tag definition.
pub struct TagDefModel {
    pub name: Seq<char>,
    pub tag_key: Seq<char>,
    pub count: u64,
    pub pinned: bool,
    pub last_applied_at: i64,
}

impl View for NativeOverlayTagDef {
    type V = TagDefModel;

    open spec fn view(&self) -> TagDefModel {
        TagDefModel {
            name: self.name@,
            tag_key: self.tag_key@,
            count: self.count,
            pinned: self.pinned,
            last_applied_at: self.last_applied_at,
        }
    }
}

impl NativeOverlayTagDef {
    /// A copy with the same fields.
    pub fn duplicate(&self) -> (r: Self)
        ensures
            r@ == self@,
    {
        NativeOverlayTagDef {
            name: self.name.clone(),
            tag_key: self.tag_key.clone(),
            count: self.count,
            pinned: self.pinned,
            last_applied_at: self.last_applied_at,
        }
    }
}

/// A tag that the current item carries: its normalized key, and its text
/// without the display `#`, as the tag store gives them.
#[derive(Clone, Debug)]
pub struct NativeOverlayCurrentTag {
    pub tag_key: String,
    pub display_name: String,
}

/// What the tag panel reads of the current item.
#[derive(Clone, Debug)]
pub struct NativeOverlayTagMetadata {
    /// The key of the item being shown.
    pub item_key: String,
    /// The tags the item carries, in order.
    pub current_tags: Vec<NativeOverlayCurrentTag>,
    /// The tags that have keyboard shortcuts.
    pub shortcut_tags: Vec<NativeOverlayTagDef>,
    /// All known tags, for the picker.
    pub tag_choices: Vec<NativeOverlayTagDef>,
}

/// The plain values of a list of tag definitions.
pub open spec fn defs_view(v: Seq<NativeOverlayTagDef>) -> Seq<TagDefModel> {
    v.map_values(|d: NativeOverlayTagDef| d@)
}

/// The keys of a list of tag definitions.
pub open spec fn keys_of(v: Seq<TagDefModel>) -> Seq<Seq<char>> {
    v.map_values(|d: TagDefModel| d.tag_key)
}

/// The name of the first definition with key `key`, if any.
pub open spec fn find_name(defs: Seq<TagDefModel>, key: Seq<char>) -> Option<Seq<char>>
    decreases defs.len(),
{
    if defs.len() == 0 {
        None
    } else if defs[0].tag_key == key {
        Some(defs[0].name)
    } else {
        find_name(defs.drop_first(), key)
    }
}

/// The name shown for the tag with key `key`: the name of the first
/// definition with that key among the picker choices, then the shortcut
/// tags; else `fallback`.
pub open spec fn tag_display_name(
    choices: Seq<TagDefModel>,
    shortcuts: Seq<TagDefModel>,
    key: Seq<char>,
    fallback: Seq<char>,
) -> Seq<char> {
    match find_name(choices + shortcuts, key) {
        Some(n) => n,
        None => fallback,
    }
}

/// Looking past a prefix without a match leaves the first match unchanged.
proof fn lemma_find_name_skip(defs: Seq<TagDefModel>, key: Seq<char>, i: int)
    requires
        0 <= i < defs.len(),
        defs[i].tag_key != key,
    ensures
        find_name(defs.skip(i), key) == find_name(defs.skip(i + 1), key),
{
    assert(defs.skip(i).drop_first() =~= defs.skip(i + 1));
}

/// The first definition in `a` then `b` is the first in `a`, or else the first in `b`.
proof fn lemma_find_name_append(a: Seq<TagDefModel>, b: Seq<TagDefModel>, key: Seq<char>)
    ensures
        find_name(a + b, key) == match find_name(a, key) {
            Some(n) => Some(n),
            None => find_name(b, key),
        },
    decreases a.len(),
{
    if a.len() == 0 {
        assert(a + b =~= b);
    } else {
        assert((a + b).drop_first() =~= a.drop_first() + b);
        lemma_find_name_append(a.drop_first(), b, key);
    }
}

/// The name of the first definition in `defs` whose key is `key`.
fn find_def_name(defs: &Vec<NativeOverlayTagDef>, key: &String) -> (r: Option<String>)
    ensures
        r matches Some(n) ==> find_name(defs_view(defs@), key@) == Some(n@),
        r is None <==> find_name(defs_view(defs@), key@) is None,
{
    let ghost all = defs_view(defs@);
    let mut i: usize = 0;
    assert(all.skip(0) =~= all);
    while i < defs.len()
        invariant
            i <= defs.len(),
            all == defs_view(defs@),
            find_name(all, key@) == find_name(all.skip(i as int), key@),
        decreases defs.len() - i,
    {
        if defs[i].tag_key == *key {
            assert(all.skip(i as int)[0] == all[i as int]);
            return Some(defs[i].name.clone());
        }
        proof {
            lemma_find_name_skip(all, key@, i as int);
        }
        i += 1;
    }
    assert(all.skip(i as int) =~= Seq::<TagDefModel>::empty());
    None
}

/// The name that the tag with key `tag_key` is shown under, falling back to
/// `fallback` (the tag's own text without `#`) when no definition has the key.
pub fn native_tag_display_name(
    metadata: &NativeOverlayTagMetadata,
    tag_key: &String,
    fallback: &String,
) -> (r: String)
    ensures
        r@ == tag_display_name(
            defs_view(metadata.tag_choices@),
            defs_view(metadata.shortcut_tags@),
            tag_key@,
            fallback@,
        ),
{
    proof {
        lemma_find_name_append(
            defs_view(metadata.tag_choices@),
            defs_view(metadata.shortcut_tags@),
            tag_key@,
        );
    }
    match find_def_name(&metadata.tag_choices, tag_key) {
        Some(n) => n,
        None => match find_def_name(&metadata.shortcut_tags, tag_key) {
            Some(n) => n,
            None => fallback.clone(),
        },
    }
}

/// The keys of the tags that an item carries.
pub open spec fn current_keys(v: Seq<NativeOverlayCurrentTag>) -> Seq<Seq<char>> {
    v.map_values(|t: NativeOverlayCurrentTag| t.tag_key@)
}

/// Whether the item carries the tag with key `tag_key`.
pub fn native_tag_is_on(current_tags: &[NativeOverlayCurrentTag], tag_key: &String) -> (b: bool)
    ensures
        b == current_keys(current_tags@).contains(tag_key@),
{
    let mut i: usize = 0;
    while i < current_tags.len()
        invariant
            i <= current_tags.len(),
            forall|k: int| 0 <= k < i ==> current_tags@[k].tag_key@ != tag_key@,
        decreases current_tags.len() - i,
    {
        if current_tags[i].tag_key == *tag_key {
            assert(current_keys(current_tags@)[i as int] == tag_key@);
            return true;
        }
        i += 1;
    }
    assert forall|k: int| 0 <= k < current_keys(current_tags@).len() implies current_keys(
        current_tags@,
    )[k] != tag_key@ by {}
    false
}


/// `d` appended to `p` when its key is not empty, not in `excluded` and not
/// yet the key of an entry of `p`.
pub open spec fn add_unique(p: Seq<TagDefModel>, d: TagDefModel, excluded: Seq<Seq<char>>) -> Seq<
    TagDefModel,
> {
    if d.tag_key.len() > 0 && !excluded.contains(d.tag_key) && !keys_of(p).contains(d.tag_key) {
        p.push(d)
    } else {
        p
    }
}

/// The entries of `s` added one after another to `p` by `add_unique`.
pub open spec fn add_all_unique(p: Seq<TagDefModel>, s: Seq<TagDefModel>, excluded: Seq<Seq<char>>) -> Seq<
    TagDefModel,
>
    decreases s.len(),
{
    if s.len() == 0 {
        p
    } else {
        add_unique(add_all_unique(p, s.drop_last(), excluded), s.last(), excluded)
    }
}

/// Whether some definition in `defs` has key `key`.
fn has_key(defs: &Vec<NativeOverlayTagDef>, key: &String) -> (b: bool)
    ensures
        b == keys_of(defs_view(defs@)).contains(key@),
{
    let mut i: usize = 0;
    while i < defs.len()
        invariant
            i <= defs.len(),
            forall|k: int| 0 <= k < i ==> defs@[k].tag_key@ != key@,
        decreases defs.len() - i,
    {
        if defs[i].tag_key == *key {
            assert(keys_of(defs_view(defs@))[i as int] == key@);
            return true;
        }
        i += 1;
    }
    assert forall|k: int| 0 <= k < keys_of(defs_view(defs@)).len() implies keys_of(
        defs_view(defs@),
    )[k] != key@ by {}
    false
}

/// Appends `d` to `out` as `add_unique` states, with nothing excluded.
pub(crate) fn push_unique(out: &mut Vec<NativeOverlayTagDef>, d: NativeOverlayTagDef)
    ensures
        defs_view(final(out)@) == add_unique(defs_view(old(out)@), d@, Seq::empty()),
{
    if !d.tag_key.as_str().is_empty() && !has_key(out, &d.tag_key) {
        out.push(d);
        assert(defs_view(out@) =~= defs_view(old(out)@).push(d@));
    }
}

/// A definition for a tag known only from the item: count 0, not pinned, never applied.
pub open spec fn plain_def(name: Seq<char>, key: Seq<char>) -> TagDefModel {
    TagDefModel { name, tag_key: key, count: 0, pinned: false, last_applied_at: 0 }
}

/// The definitions made for the item's own tags, named by `tag_display_name`.
pub open spec fn current_defs(m: NativeOverlayTagMetadata) -> Seq<TagDefModel> {
    m.current_tags@.map_values(
        |t: NativeOverlayCurrentTag|
            plain_def(
                tag_display_name(
                    defs_view(m.tag_choices@),
                    defs_view(m.shortcut_tags@),
                    t.tag_key@,
                    t.display_name@,
                ),
                t.tag_key@,
            ),
    )
}

/// The definition made for the `i`-th tag of the item.
fn current_def(metadata: &NativeOverlayTagMetadata, i: usize) -> (r: NativeOverlayTagDef)
    requires
        i < metadata.current_tags.len(),
    ensures
        r@ == current_defs(*metadata)[i as int],
{
    let t = &metadata.current_tags[i];
    let name = native_tag_display_name(metadata, &t.tag_key, &t.display_name);
    NativeOverlayTagDef {
        name,
        tag_key: t.tag_key.clone(),
        count: 0,
        pinned: false,
        last_applied_at: 0,
    }
}

/// The tag buttons of the panel: the shortcut tags, then the sticky tags,
/// then the item's own tags, each key once (its first definition) and no empty key.
pub open spec fn visible_tag_choices(m: NativeOverlayTagMetadata, sticky: Seq<TagDefModel>) -> Seq<
    TagDefModel,
> {
    add_all_unique(
        add_all_unique(add_all_unique(Seq::empty(), defs_view(m.shortcut_tags@), Seq::empty()), sticky, Seq::empty()),
        current_defs(m),
        Seq::empty(),
    )
}

/// The tags to show as buttons in the info panel.
pub fn native_visible_tag_choices(
    metadata: &NativeOverlayTagMetadata,
    sticky_tags: &[NativeOverlayTagDef],
) -> (r: Vec<NativeOverlayTagDef>)
    ensures
        defs_view(r@) == visible_tag_choices(*metadata, defs_view(sticky_tags@)),
{
    let ghost none: Seq<Seq<char>> = Seq::empty();
    let mut out: Vec<NativeOverlayTagDef> = Vec::new();
    let ghost sv = defs_view(metadata.shortcut_tags@);
    let mut i: usize = 0;
    while i < metadata.shortcut_tags.len()
        invariant
            i <= metadata.shortcut_tags.len(),
            sv == defs_view(metadata.shortcut_tags@),
            none == Seq::<Seq<char>>::empty(),
            defs_view(out@) == add_all_unique(Seq::empty(), sv.take(i as int), none),
        decreases metadata.shortcut_tags.len() - i,
    {
        assert(sv.take(i + 1).drop_last() =~= sv.take(i as int));
        push_unique(&mut out, metadata.shortcut_tags[i].duplicate());
        i += 1;
    }
    assert(sv.take(i as int) =~= sv);
    let ghost after_shortcuts = defs_view(out@);
    let ghost kv = defs_view(sticky_tags@);
    let mut j: usize = 0;
    while j < sticky_tags.len()
        invariant
            j <= sticky_tags.len(),
            kv == defs_view(sticky_tags@),
            none == Seq::<Seq<char>>::empty(),
            defs_view(out@) == add_all_unique(after_shortcuts, kv.take(j as int), none),
        decreases sticky_tags.len() - j,
    {
        assert(kv.take(j + 1).drop_last() =~= kv.take(j as int));
        push_unique(&mut out, sticky_tags[j].duplicate());
        j += 1;
    }
    assert(kv.take(j as int) =~= kv);
    let ghost after_sticky = defs_view(out@);
    let ghost cv = current_defs(*metadata);
    let mut k: usize = 0;
    while k < metadata.current_tags.len()
        invariant
            k <= metadata.current_tags.len(),
            cv == current_defs(*metadata),
            none == Seq::<Seq<char>>::empty(),
            defs_view(out@) == add_all_unique(after_sticky, cv.take(k as int), none),
        decreases metadata.current_tags.len() - k,
    {
        assert(cv.take(k + 1).drop_last() =~= cv.take(k as int));
        push_unique(&mut out, current_def(metadata, k));
        k += 1;
    }
    assert(cv.take(k as int) =~= cv);
    out
}

/// What the sticky list becomes for the item: emptied when the item changed,
/// then each of the item's own tags added unless its key is empty, a shortcut
/// tag's key, or already in the list.
pub open spec fn synced_sticky(m: NativeOverlayTagMetadata, sticky_key: Option<Seq<char>>, sticky: Seq<TagDefModel>) -> Seq<
    TagDefModel,
> {
    let base = if sticky_key == Some(m.item_key@) {
        sticky
    } else {
        Seq::empty()
    };
    add_all_unique(base, current_defs(m), keys_of(defs_view(m.shortcut_tags@)))
}

/// No key is empty and no two entries share a key.
pub open spec fn keys_distinct_nonempty(p: Seq<TagDefModel>) -> bool {
    &&& forall|i: int| 0 <= i < p.len() ==> (#[trigger] p[i]).tag_key.len() > 0
    &&& forall|i: int, j: int| 0 <= i < j < p.len() ==> (#[trigger] p[i]).tag_key != (#[trigger] p[j]).tag_key
}

/// Adding entries one by one keeps keys distinct and not empty, keeps what
/// was there in front, and leaves every added key present.
proof fn lemma_add_all_unique(p: Seq<TagDefModel>, s: Seq<TagDefModel>, excluded: Seq<Seq<char>>)
    ensures
        keys_distinct_nonempty(p) ==> keys_distinct_nonempty(add_all_unique(p, s, excluded)),
        add_all_unique(p, s, excluded).len() >= p.len(),
        add_all_unique(p, s, excluded).take(p.len() as int) == p,
        forall|i: int|
            0 <= i < s.len() && (#[trigger] s[i]).tag_key.len() > 0 && !excluded.contains(s[i].tag_key)
                ==> keys_of(add_all_unique(p, s, excluded)).contains(s[i].tag_key),
        forall|k: Seq<char>|
            keys_of(p).contains(k) ==> #[trigger] keys_of(add_all_unique(p, s, excluded)).contains(k),
    decreases s.len(),
{
    if s.len() == 0 {
        assert(p.take(p.len() as int) =~= p);
    } else {
        let q = add_all_unique(p, s.drop_last(), excluded);
        lemma_add_all_unique(p, s.drop_last(), excluded);
        let d = s.last();
        let r = add_unique(q, d, excluded);
        if d.tag_key.len() > 0 && !excluded.contains(d.tag_key) && !keys_of(q).contains(d.tag_key) {
            assert(r == q.push(d));
            assert(keys_of(r) =~= keys_of(q).push(d.tag_key));
            assert(r.take(p.len() as int) =~= q.take(p.len() as int));
            if keys_distinct_nonempty(p) {
                assert forall|i: int, j: int| 0 <= i < j < r.len() implies (#[trigger] r[i]).tag_key
                    != (#[trigger] r[j]).tag_key by {
                    if j == r.len() - 1 {
                        assert(keys_of(q)[i] == q[i].tag_key);
                    }
                }
            }
            assert forall|k: Seq<char>| keys_of(p).contains(k) implies #[trigger] keys_of(r).contains(k) by {
                assert(keys_of(q).contains(k));
                let w = choose|w: int| 0 <= w < keys_of(q).len() && keys_of(q)[w] == k;
                assert(keys_of(r)[w] == k);
            }
            assert forall|i: int|
                0 <= i < s.len() && (#[trigger] s[i]).tag_key.len() > 0 && !excluded.contains(s[i].tag_key)
                    implies keys_of(r).contains(s[i].tag_key) by {
                if i == s.len() - 1 {
                    assert(keys_of(r)[r.len() - 1] == d.tag_key);
                } else {
                    assert(s.drop_last()[i] == s[i]);
                    assert(keys_of(q).contains(s[i].tag_key));
                    let w = choose|w: int| 0 <= w < keys_of(q).len() && keys_of(q)[w] == s[i].tag_key;
                    assert(keys_of(r)[w] == s[i].tag_key);
                }
            }
        } else {
            assert(r == q);
            assert forall|i: int|
                0 <= i < s.len() && (#[trigger] s[i]).tag_key.len() > 0 && !excluded.contains(s[i].tag_key)
                    implies keys_of(r).contains(s[i].tag_key) by {
                if i < s.len() - 1 {
                    assert(s.drop_last()[i] == s[i]);
                }
            }
        }
    }
}

/// Adding entries that are all turned away (empty key, excluded key, or a
/// key already present) changes nothing.
proof fn lemma_add_all_unique_blocked(p: Seq<TagDefModel>, s: Seq<TagDefModel>, excluded: Seq<Seq<char>>)
    requires
        forall|i: int|
            0 <= i < s.len() ==> (#[trigger] s[i]).tag_key.len() == 0 || excluded.contains(s[i].tag_key)
                || keys_of(p).contains(s[i].tag_key),
    ensures
        add_all_unique(p, s, excluded) == p,
    decreases s.len(),
{
    if s.len() > 0 {
        assert forall|i: int|
            0 <= i < s.drop_last().len() implies (#[trigger] s.drop_last()[i]).tag_key.len() == 0
                || excluded.contains(s.drop_last()[i].tag_key) || keys_of(p).contains(
                s.drop_last()[i].tag_key,
            ) by {
            assert(s.drop_last()[i] == s[i]);
        }
        lemma_add_all_unique_blocked(p, s.drop_last(), excluded);
        assert(s[s.len() - 1] == s.last());
    }
}

/// The tag buttons never show a key twice, nor an empty key.
pub proof fn lemma_visible_tags_distinct(m: NativeOverlayTagMetadata, sticky: Seq<TagDefModel>)
    ensures
        keys_distinct_nonempty(visible_tag_choices(m, sticky)),
{
    let none = Seq::<Seq<char>>::empty();
    let a = add_all_unique(Seq::empty(), defs_view(m.shortcut_tags@), none);
    let b = add_all_unique(a, sticky, none);
    lemma_add_all_unique(Seq::empty(), defs_view(m.shortcut_tags@), none);
    lemma_add_all_unique(a, sticky, none);
    lemma_add_all_unique(b, current_defs(m), none);
}

/// Every tag the item carries, and every shortcut tag and sticky tag, has a
/// button (when its key is not empty).
pub proof fn lemma_visible_tags_cover(m: NativeOverlayTagMetadata, sticky: Seq<TagDefModel>)
    ensures
        forall|i: int|
            0 <= i < m.current_tags@.len() && (#[trigger] m.current_tags@[i]).tag_key@.len() > 0
                ==> keys_of(visible_tag_choices(m, sticky)).contains(m.current_tags@[i].tag_key@),
        forall|i: int|
            0 <= i < m.shortcut_tags@.len() && (#[trigger] m.shortcut_tags@[i]).tag_key@.len() > 0
                ==> keys_of(visible_tag_choices(m, sticky)).contains(m.shortcut_tags@[i].tag_key@),
        forall|i: int|
            0 <= i < sticky.len() && (#[trigger] sticky[i]).tag_key.len() > 0 ==> keys_of(
                visible_tag_choices(m, sticky),
            ).contains(sticky[i].tag_key),
{
    let none = Seq::<Seq<char>>::empty();
    let sv = defs_view(m.shortcut_tags@);
    let cv = current_defs(m);
    let a = add_all_unique(Seq::empty(), sv, none);
    let b = add_all_unique(a, sticky, none);
    lemma_add_all_unique(Seq::empty(), sv, none);
    lemma_add_all_unique(a, sticky, none);
    lemma_add_all_unique(b, cv, none);
    assert forall|i: int|
        0 <= i < m.current_tags@.len() && (#[trigger] m.current_tags@[i]).tag_key@.len() > 0
            implies keys_of(visible_tag_choices(m, sticky)).contains(m.current_tags@[i].tag_key@) by {
        assert(cv[i].tag_key == m.current_tags@[i].tag_key@);
    }
    assert forall|i: int|
        0 <= i < m.shortcut_tags@.len() && (#[trigger] m.shortcut_tags@[i]).tag_key@.len() > 0
            implies keys_of(visible_tag_choices(m, sticky)).contains(m.shortcut_tags@[i].tag_key@) by {
        assert(sv[i].tag_key == m.shortcut_tags@[i].tag_key@);
        assert(keys_of(a).contains(sv[i].tag_key));
        assert(keys_of(b).contains(sv[i].tag_key));
    }
    assert forall|i: int|
        0 <= i < sticky.len() && (#[trigger] sticky[i]).tag_key.len() > 0 implies keys_of(
            visible_tag_choices(m, sticky),
        ).contains(sticky[i].tag_key) by {
        assert(keys_of(b).contains(sticky[i].tag_key));
    }
}

/// Syncing again for the same item changes nothing; and while the item
/// stays, syncing only appends to the list, so a tag taken off the item
/// keeps its button.
pub proof fn lemma_sticky_sync_stable(
    m: NativeOverlayTagMetadata,
    sticky_key: Option<Seq<char>>,
    sticky: Seq<TagDefModel>,
)
    ensures
        synced_sticky(m, Some(m.item_key@), synced_sticky(m, sticky_key, sticky)) == synced_sticky(
            m,
            sticky_key,
            sticky,
        ),
        sticky_key == Some(m.item_key@) ==> synced_sticky(m, sticky_key, sticky).take(
            sticky.len() as int,
        ) == sticky,
{
    let ex = keys_of(defs_view(m.shortcut_tags@));
    let cv = current_defs(m);
    let base = if sticky_key == Some(m.item_key@) {
        sticky
    } else {
        Seq::empty()
    };
    let r = add_all_unique(base, cv, ex);
    lemma_add_all_unique(base, cv, ex);
    lemma_add_all_unique_blocked(r, cv, ex);
}

/// The entries that adding puts after `p` have non-empty keys that are not
/// excluded, and each key differs from that of every entry before it.
proof fn lemma_add_all_unique_added(p: Seq<TagDefModel>, s: Seq<TagDefModel>, excluded: Seq<Seq<char>>)
    ensures
        ({
            let r = add_all_unique(p, s, excluded);
            &&& forall|i: int|
                p.len() <= i < r.len() ==> (#[trigger] r[i]).tag_key.len() > 0 && !excluded.contains(
                    r[i].tag_key,
                )
            &&& forall|i: int, j: int|
                0 <= i < j < r.len() && p.len() <= j ==> (#[trigger] r[i]).tag_key != (#[trigger] r[j]).tag_key
        }),
    decreases s.len(),
{
    if s.len() > 0 {
        let q = add_all_unique(p, s.drop_last(), excluded);
        lemma_add_all_unique_added(p, s.drop_last(), excluded);
        lemma_add_all_unique(p, s.drop_last(), excluded);
        let d = s.last();
        let r = add_unique(q, d, excluded);
        if d.tag_key.len() > 0 && !excluded.contains(d.tag_key) && !keys_of(q).contains(d.tag_key) {
            assert(r == q.push(d));
            assert forall|i: int, j: int|
                0 <= i < j < r.len() && p.len() <= j implies (#[trigger] r[i]).tag_key != (#[trigger] r[j]).tag_key by {
                if j == r.len() - 1 {
                    assert(keys_of(q)[i] == q[i].tag_key);
                } else {
                    assert(r[i] == q[i]);
                    assert(r[j] == q[j]);
                }
            }
            assert forall|i: int|
                p.len() <= i < r.len() implies (#[trigger] r[i]).tag_key.len() > 0 && !excluded.contains(
                    r[i].tag_key,
                ) by {
                if i < r.len() - 1 {
                    assert(r[i] == q[i]);
                }
            }
        } else {
            assert(r == q);
        }
    }
}

/// The tags that syncing adds for an item have non-empty keys, keys that no
/// shortcut tag has, and keys that no other entry of the list has; what was
/// kept comes first, unchanged. When the item changed, the whole list is
/// such tags.
pub proof fn lemma_sticky_sync_added_keys(
    m: NativeOverlayTagMetadata,
    sticky_key: Option<Seq<char>>,
    sticky: Seq<TagDefModel>,
)
    ensures
        ({
            let base = if sticky_key == Some(m.item_key@) {
                sticky
            } else {
                Seq::empty()
            };
            let r = synced_sticky(m, sticky_key, sticky);
            let shortcut_keys = keys_of(defs_view(m.shortcut_tags@));
            &&& r.len() >= base.len()
            &&& r.take(base.len() as int) == base
            &&& forall|i: int|
                base.len() <= i < r.len() ==> (#[trigger] r[i]).tag_key.len() > 0 && !shortcut_keys.contains(
                    r[i].tag_key,
                )
            &&& forall|i: int, j: int|
                0 <= i < j < r.len() && base.len() <= j ==> (#[trigger] r[i]).tag_key != (#[trigger] r[j]).tag_key
        }),
        sticky_key != Some(m.item_key@) ==> keys_distinct_nonempty(synced_sticky(m, sticky_key, sticky)),
{
    let ex = keys_of(defs_view(m.shortcut_tags@));
    let cv = current_defs(m);
    let base = if sticky_key == Some(m.item_key@) {
        sticky
    } else {
        Seq::empty()
    };
    lemma_add_all_unique(base, cv, ex);
    lemma_add_all_unique_added(base, cv, ex);
}

/// The characters of an optional string.
pub open spec fn opt_string_view(o: Option<String>) -> Option<Seq<char>> {
    match o {
        Some(s) => Some(s@),
        None => None,
    }
}

/// Keeps the item's tags on the panel while it is shown, so that a tag that is
/// taken off stays as a button. Returns whether the item changed, which
/// resets the list.
pub fn sync_native_tag_sticky(
    metadata: &NativeOverlayTagMetadata,
    sticky_item_key: &mut Option<String>,
    sticky_tags: &mut Vec<NativeOverlayTagDef>,
) -> (changed: bool)
    ensures
        changed == (opt_string_view(*old(sticky_item_key)) != Some(metadata.item_key@)),
        opt_string_view(*final(sticky_item_key)) == Some(metadata.item_key@),
        defs_view(final(sticky_tags)@) == synced_sticky(
            *metadata,
            opt_string_view(*old(sticky_item_key)),
            defs_view(old(sticky_tags)@),
        ),
{
    let changed = match sticky_item_key {
        Some(k) => *k != metadata.item_key,
        None => true,
    };
    if changed {
        *sticky_item_key = Some(metadata.item_key.clone());
        *sticky_tags = Vec::new();
    }
    let ghost base = defs_view(sticky_tags@);
    let ghost excluded = keys_of(defs_view(metadata.shortcut_tags@));
    let ghost cv = current_defs(*metadata);
    assert(base == if opt_string_view(*old(sticky_item_key)) == Some(metadata.item_key@) {
        defs_view(old(sticky_tags)@)
    } else {
        Seq::empty()
    });
    let mut k: usize = 0;
    while k < metadata.current_tags.len()
        invariant
            k <= metadata.current_tags.len(),
            cv == current_defs(*metadata),
            excluded == keys_of(defs_view(metadata.shortcut_tags@)),
            defs_view(sticky_tags@) == add_all_unique(base, cv.take(k as int), excluded),
        decreases metadata.current_tags.len() - k,
    {
        assert(cv.take(k + 1).drop_last() =~= cv.take(k as int));
        let key = &metadata.current_tags[k].tag_key;
        if !key.as_str().is_empty() && !has_key(&metadata.shortcut_tags, key) && !has_key(
            sticky_tags,
            key,
        ) {
            let d = current_def(metadata, k);
            sticky_tags.push(d);
            assert(defs_view(sticky_tags@) =~= add_all_unique(base, cv.take(k as int), excluded).push(
                cv[k as int],
            ));
        }
        k += 1;
    }
    assert(cv.take(k as int) =~= cv);
    changed
}

} // verus!
