use vstd::prelude::*;
use crate::error::DeriveError;
use crate::model::{MetaItem, NestedMetaItem};
use crate::text::{is_int_name, is_int_ty, str_eq};

verus! {

/// The values behind a sequence of references.
pub open spec fn derefs<T>(s: Seq<&T>) -> Seq<T> {
    s.map_values(|x: &T| *x)
}

/// The views of a sequence of borrowed vectors.
pub open spec fn vec_views<T>(s: Seq<&Vec<T>>) -> Seq<Seq<T>> {
    s.map_values(|v: &Vec<T>| v@)
}

/// The entries of `m` when it is a list named `ident`.
pub open spec fn list_named(m: MetaItem, ident: Seq<char>) -> Option<Seq<NestedMetaItem>> {
    match m {
        MetaItem::List(n, items) => if n@ == ident {
            Some(items@)
        } else {
            None
        },
        _ => None,
    }
}

/// The entries of each item of `ms` that is a list named `ident`, in order.
pub open spec fn lists_named(ms: Seq<MetaItem>, ident: Seq<char>) -> Seq<Seq<NestedMetaItem>>
    decreases ms.len(),
{
    if ms.len() == 0 {
        Seq::empty()
    } else {
        let prev = lists_named(ms.drop_last(), ident);
        match list_named(ms.last(), ident) {
            Some(items) => prev.push(items),
            None => prev,
        }
    }
}

/// The nested entry as an item, unless it is a literal.
pub open spec fn item_of(n: NestedMetaItem) -> Option<MetaItem> {
    match n {
        NestedMetaItem::MetaItem(m) => Some(m),
        NestedMetaItem::Literal(_) => None,
    }
}

/// The entries of `ns` that are items, in order.
pub open spec fn items_of(ns: Seq<NestedMetaItem>) -> Seq<MetaItem>
    decreases ns.len(),
{
    if ns.len() == 0 {
        Seq::empty()
    } else {
        let prev = items_of(ns.drop_last());
        match item_of(ns.last()) {
            Some(m) => prev.push(m),
            None => prev,
        }
    }
}

/// Whether `n` is the bare word `ident`.
pub open spec fn is_word_named(n: NestedMetaItem, ident: Seq<char>) -> bool {
    match n {
        NestedMetaItem::MetaItem(MetaItem::Word(w)) => w@ == ident,
        _ => false,
    }
}

/// The bare words among `ns`, in order.
pub open spec fn words_of(ns: Seq<NestedMetaItem>) -> Seq<String>
    decreases ns.len(),
{
    if ns.len() == 0 {
        Seq::empty()
    } else {
        let prev = words_of(ns.drop_last());
        match ns.last() {
            NestedMetaItem::MetaItem(MetaItem::Word(w)) => prev.push(w),
            _ => prev,
        }
    }
}

/// The bare words inside the `other(...)` lists of each block of `blocks`,
/// block after block, in order.
pub open spec fn other_words(blocks: Seq<Seq<NestedMetaItem>>) -> Seq<String>
    decreases blocks.len(),
{
    if blocks.len() == 0 {
        Seq::empty()
    } else {
        other_words(blocks.drop_last()) + other_words_in(
            lists_named(items_of(blocks.last()), "other"@),
        )
    }
}

/// The bare words of each list of `lists`, in order.
pub open spec fn other_words_in(lists: Seq<Seq<NestedMetaItem>>) -> Seq<String>
    decreases lists.len(),
{
    if lists.len() == 0 {
        Seq::empty()
    } else {
        other_words_in(lists.drop_last()) + words_of(lists.last())
    }
}

/// Whether some block of `blocks` holds the bare word `impl_from`.
pub open spec fn asks_total(blocks: Seq<Seq<NestedMetaItem>>) -> bool {
    exists|i: int, j: int|
        0 <= i < blocks.len() && 0 <= j < blocks[i].len() && #[trigger] is_word_named(
            blocks[i][j],
            "impl_from"@,
        )
}

/// The name of the first item of `ms` that names an integer type.
pub open spec fn first_int(ms: Seq<MetaItem>) -> Option<String>
    decreases ms.len(),
{
    if ms.len() == 0 {
        None
    } else if is_int_name(ms[0].spec_name()) {
        Some(ms[0].name_string())
    } else {
        first_int(ms.drop_first())
    }
}

/// The representation type that the attributes `attrs` give: the first
/// integer type named in the first `repr(...)` list.
pub open spec fn repr_of(attrs: Seq<MetaItem>) -> Result<String, DeriveError> {
    let lists = lists_named(attrs, "repr"@);
    if lists.len() == 0 {
        Err(DeriveError::MissingRepr)
    } else {
        match first_int(items_of(lists[0])) {
            Some(n) => Ok(n),
            None => Err(DeriveError::NoIntegerRepr),
        }
    }
}

/// The entry as an item, unless it is a literal.
pub fn as_item(item: &NestedMetaItem) -> (r: Option<&MetaItem>)
    ensures
        match item_of(*item) {
            Some(m) => r is Some && *r->0 == m,
            None => r is None,
        },
{
    match item {
        NestedMetaItem::MetaItem(m) => Some(m),
        NestedMetaItem::Literal(_) => None,
    }
}

/// References to the items of `v`, in order.
pub fn item_refs<'a>(v: &'a Vec<MetaItem>) -> (r: Vec<&'a MetaItem>)
    ensures
        derefs(r@) == v@,
{
    let mut r: Vec<&'a MetaItem> = Vec::new();
    let mut i: usize = 0;
    while i < v.len()
        invariant
            i <= v@.len(),
            derefs(r@) == v@.subrange(0, i as int),
        decreases v@.len() - i,
    {
        let ghost prev = r@;
        let m: &'a MetaItem = &v[i];
        r.push(m);
        assert(derefs(r@) =~= derefs(prev).push(v@[i as int]));
        i = i + 1;
        assert(derefs(r@) =~= v@.subrange(0, i as int));
    }
    assert(v@.subrange(0, v@.len() as int) =~= v@);
    r
}

/// The entries of `items` that are items, not literals, in order.
pub fn nested_items<'a>(items: &'a Vec<NestedMetaItem>) -> (r: Vec<&'a MetaItem>)
    ensures
        derefs(r@) == items_of(items@),
{
    let mut r: Vec<&'a MetaItem> = Vec::new();
    let mut i: usize = 0;
    while i < items.len()
        invariant
            i <= items@.len(),
            derefs(r@) == items_of(items@.subrange(0, i as int)),
        decreases items@.len() - i,
    {
        let ghost prev = r@;
        assert(items@.subrange(0, i + 1).drop_last() =~= items@.subrange(0, i as int));
        match as_item(&items[i]) {
            Some(m) => {
                r.push(m);
                assert(derefs(r@) =~= derefs(prev).push(*m));
            },
            None => {},
        }
        i = i + 1;
    }
    assert(items@.subrange(0, items@.len() as int) =~= items@);
    r
}

/// The entries of each item of `items` that is a list named `ident`.
pub fn meta_items<'a>(items: &Vec<&'a MetaItem>, ident: &str) -> (r: Vec<&'a Vec<NestedMetaItem>>)
    ensures
        vec_views(r@) == lists_named(derefs(items@), ident@),
{
    let mut r: Vec<&'a Vec<NestedMetaItem>> = Vec::new();
    let mut i: usize = 0;
    while i < items.len()
        invariant
            i <= items@.len(),
            vec_views(r@) == lists_named(derefs(items@).subrange(0, i as int), ident@),
        decreases items@.len() - i,
    {
        let ghost prev = r@;
        assert(derefs(items@).subrange(0, i + 1).drop_last() =~= derefs(items@).subrange(
            0,
            i as int,
        ));
        assert(derefs(items@).subrange(0, i + 1).last() == *items@[i as int]);
        let m: &'a MetaItem = items[i];
        match m {
            MetaItem::List(id, list) => {
                if str_eq(id.as_str(), ident) {
                    r.push(list);
                    assert(vec_views(r@) =~= vec_views(prev).push(list@));
                }
            },
            _ => {},
        }
        i = i + 1;
    }
    assert(derefs(items@).subrange(0, items@.len() as int) =~= derefs(items@));
    r
}

/// The name of the first item of `ms` that names an integer type.
pub fn first_int_name<'a>(ms: &Vec<&'a MetaItem>) -> (r: Option<&'a String>)
    ensures
        match first_int(derefs(ms@)) {
            Some(n) => r is Some && *r->0 == n,
            None => r is None,
        },
{
    let ghost all = derefs(ms@);
    let mut i: usize = 0;
    assert(all.subrange(0, all.len() as int) =~= all);
    while i < ms.len()
        invariant
            i <= ms@.len(),
            all == derefs(ms@),
            first_int(all) == first_int(all.subrange(i as int, all.len() as int)),
        decreases ms@.len() - i,
    {
        let ghost rest = all.subrange(i as int, all.len() as int);
        assert(rest[0] == *ms@[i as int]);
        assert(rest.drop_first() =~= all.subrange(i + 1, all.len() as int));
        let m: &'a MetaItem = ms[i];
        let n: &'a String = m.name();
        if is_int_ty(n.as_str()) {
            return Some(n);
        }
        i = i + 1;
    }
    assert(all.subrange(i as int, all.len() as int).len() == 0);
    None
}

/// The representation type named by the attributes `attrs`.
pub fn repr_type<'a>(attrs: &Vec<&'a MetaItem>) -> (r: Result<&'a String, DeriveError>)
    ensures
        match repr_of(derefs(attrs@)) {
            Ok(n) => r is Ok && *r->Ok_0 == n,
            Err(e) => r == Err::<&String, DeriveError>(e),
        },
{
    let lists = meta_items(attrs, "repr");
    if lists.len() == 0 {
        return Err(DeriveError::MissingRepr);
    }
    assert(vec_views(lists@)[0] == lists@[0]@);
    let items = nested_items(lists[0]);
    match first_int_name(&items) {
        Some(n) => Ok(n),
        None => Err(DeriveError::NoIntegerRepr),
    }
}

/// Whether some block of `blocks` holds the bare word `impl_from`.
pub fn has_impl_from(blocks: &Vec<&Vec<NestedMetaItem>>) -> (r: bool)
    ensures
        r == asks_total(vec_views(blocks@)),
{
    let ghost bs = vec_views(blocks@);
    let mut i: usize = 0;
    while i < blocks.len()
        invariant
            i <= blocks@.len(),
            bs == vec_views(blocks@),
            forall|a: int, b: int|
                0 <= a < i && 0 <= b < bs[a].len() ==> !#[trigger] is_word_named(
                    bs[a][b],
                    "impl_from"@,
                ),
        decreases blocks@.len() - i,
    {
        let block: &Vec<NestedMetaItem> = blocks[i];
        assert(bs[i as int] == block@);
        let mut j: usize = 0;
        while j < block.len()
            invariant
                i < blocks@.len(),
                bs == vec_views(blocks@),
                bs[i as int] == block@,
                j <= block@.len(),
                forall|a: int, b: int|
                    0 <= a < i && 0 <= b < bs[a].len() ==> !#[trigger] is_word_named(
                        bs[a][b],
                        "impl_from"@,
                    ),
                forall|b: int| 0 <= b < j ==> !#[trigger] is_word_named(bs[i as int][b], "impl_from"@),
            decreases block@.len() - j,
        {
            match &block[j] {
                NestedMetaItem::MetaItem(MetaItem::Word(w)) => {
                    if str_eq(w.as_str(), "impl_from") {
                        assert(is_word_named(bs[i as int][j as int], "impl_from"@));
                        return true;
                    }
                },
                _ => {},
            }
            j = j + 1;
        }
        i = i + 1;
    }
    false
}

/// Appends the bare words of `ns` to `r`.
fn push_words(r: &mut Vec<String>, ns: &Vec<NestedMetaItem>)
    ensures
        final(r)@ == old(r)@ + words_of(ns@),
{
    let ghost start = r@;
    let mut i: usize = 0;
    while i < ns.len()
        invariant
            i <= ns@.len(),
            r@ == start + words_of(ns@.subrange(0, i as int)),
        decreases ns@.len() - i,
    {
        assert(ns@.subrange(0, i + 1).drop_last() =~= ns@.subrange(0, i as int));
        match &ns[i] {
            NestedMetaItem::MetaItem(MetaItem::Word(w)) => {
                let ghost prev = r@;
                r.push(w.clone());
                assert(r@ =~= start + words_of(ns@.subrange(0, i + 1)));
            },
            _ => {
                assert(r@ =~= start + words_of(ns@.subrange(0, i + 1)));
            },
        }
        i = i + 1;
    }
    assert(ns@.subrange(0, ns@.len() as int) =~= ns@);
}

/// The types listed in the `other(...)` lists of each block of `blocks`,
/// in order, repeats kept.
pub fn other_types(blocks: &Vec<&Vec<NestedMetaItem>>) -> (r: Vec<String>)
    ensures
        r@ == other_words(vec_views(blocks@)),
{
    let ghost bs = vec_views(blocks@);
    let mut r: Vec<String> = Vec::new();
    let mut i: usize = 0;
    while i < blocks.len()
        invariant
            i <= blocks@.len(),
            bs == vec_views(blocks@),
            r@ == other_words(bs.subrange(0, i as int)),
        decreases blocks@.len() - i,
    {
        let ghost start = r@;
        let block: &Vec<NestedMetaItem> = blocks[i];
        assert(bs.subrange(0, i + 1).drop_last() =~= bs.subrange(0, i as int));
        assert(bs.subrange(0, i + 1).last() == block@);
        let metas = nested_items(block);
        let lists = meta_items(&metas, "other");
        let ghost ls = vec_views(lists@);
        let mut j: usize = 0;
        while j < lists.len()
            invariant
                j <= lists@.len(),
                ls == vec_views(lists@),
                r@ == start + other_words_in(ls.subrange(0, j as int)),
            decreases lists@.len() - j,
        {
            assert(ls.subrange(0, j + 1).drop_last() =~= ls.subrange(0, j as int));
            assert(ls.subrange(0, j + 1).last() == lists@[j as int]@);
            push_words(&mut r, lists[j]);
            assert(r@ =~= start + other_words_in(ls.subrange(0, j + 1)));
            j = j + 1;
        }
        assert(ls.subrange(0, ls.len() as int) =~= ls);
        i = i + 1;
        assert(r@ =~= other_words(bs.subrange(0, i as int)));
    }
    assert(bs.subrange(0, bs.len() as int) =~= bs);
    r
}

} // verus!
