//! Choosing the DRM device nodes to program.
//!
//! The gamma engine programs every primary DRM node in `/dev/dri` (the
//! `card*` entries, not the render nodes), in path order. Listing the
//! directory is the caller's job; this module picks and orders the names.

use vstd::prelude::*;
use vstd::relations::{sorted_by, total_ordering};

use crate::helper_command::texts;
use crate::text::str_eq;

verus! {

/// Lexicographic order of names by character, which is also the byte order
/// of their UTF-8 encodings and so the order in which their paths sort.
pub open spec fn chars_le(a: Seq<char>, b: Seq<char>) -> bool
    decreases a.len(),
{
    if a.len() == 0 {
        true
    } else if b.len() == 0 {
        false
    } else if a[0] != b[0] {
        a[0] < b[0]
    } else {
        chars_le(a.drop_first(), b.drop_first())
    }
}

/// [`chars_le`] as a relation.
pub open spec fn name_order() -> spec_fn(Seq<char>, Seq<char>) -> bool {
    |a: Seq<char>, b: Seq<char>| chars_le(a, b)
}

/// Whether a directory entry is a primary DRM node: its name starts with
/// `card`.
pub open spec fn is_card_node(name: Seq<char>) -> bool {
    name.len() >= 4 && name.take(4) == "card"@
}

/// [`is_card_node`] as a predicate.
pub open spec fn card_filter() -> spec_fn(Seq<char>) -> bool {
    |name: Seq<char>| is_card_node(name)
}

proof fn lemma_le_reflexive(a: Seq<char>)
    ensures
        chars_le(a, a),
    decreases a.len(),
{
    if a.len() > 0 {
        lemma_le_reflexive(a.drop_first());
    }
}

proof fn lemma_le_antisymmetric(a: Seq<char>, b: Seq<char>)
    requires
        chars_le(a, b),
        chars_le(b, a),
    ensures
        a == b,
    decreases a.len(),
{
    if a.len() == 0 {
        assert(b.len() == 0);
        assert(a =~= b);
    } else {
        assert(b.len() > 0);
        assert(a[0] == b[0]);
        lemma_le_antisymmetric(a.drop_first(), b.drop_first());
        assert forall|i: int| 0 <= i < a.len() implies a[i] == b[i] by {
            if i > 0 {
                assert(a[i] == a.drop_first()[i - 1]);
                assert(b[i] == b.drop_first()[i - 1]);
            }
        }
        assert(a =~= b);
    }
}

proof fn lemma_le_transitive(a: Seq<char>, b: Seq<char>, c: Seq<char>)
    requires
        chars_le(a, b),
        chars_le(b, c),
    ensures
        chars_le(a, c),
    decreases a.len(),
{
    if a.len() > 0 && b.len() > 0 && c.len() > 0 && a[0] == b[0] && b[0] == c[0] {
        lemma_le_transitive(a.drop_first(), b.drop_first(), c.drop_first());
    }
}

proof fn lemma_le_total(a: Seq<char>, b: Seq<char>)
    ensures
        chars_le(a, b) || chars_le(b, a),
    decreases a.len(),
{
    if a.len() > 0 && b.len() > 0 && a[0] == b[0] {
        lemma_le_total(a.drop_first(), b.drop_first());
    }
}

/// [`name_order`] is a total order, so a list sorted by it is determined by
/// its elements.
pub proof fn name_order_is_total()
    ensures
        total_ordering(name_order()),
{
    assert forall|a: Seq<char>| #[trigger] name_order()(a, a) by {
        lemma_le_reflexive(a);
    }
    assert forall|a: Seq<char>, b: Seq<char>|
        #[trigger] name_order()(a, b) && #[trigger] name_order()(b, a) implies a == b by {
        lemma_le_antisymmetric(a, b);
    }
    assert forall|a: Seq<char>, b: Seq<char>, c: Seq<char>|
        #[trigger] name_order()(a, b) && #[trigger] name_order()(b, c) implies name_order()(
        a,
        c,
    ) by {
        lemma_le_transitive(a, b, c);
    }
    assert forall|a: Seq<char>, b: Seq<char>|
        #[trigger] name_order()(a, b) || #[trigger] name_order()(b, a) by {
        lemma_le_total(a, b);
    }
}

/// Compares two names in [`chars_le`] order.
pub fn name_le(a: &str, b: &str) -> (res: bool)
    ensures
        res == chars_le(a@, b@),
{
    let la = a.unicode_len();
    let lb = b.unicode_len();
    let mut i: usize = 0;
    assert(a@.skip(0) =~= a@);
    assert(b@.skip(0) =~= b@);
    while i < la && i < lb
        invariant
            i <= la,
            i <= lb,
            la == a@.len(),
            lb == b@.len(),
            chars_le(a@, b@) == chars_le(a@.skip(i as int), b@.skip(i as int)),
        decreases la - i,
    {
        let ca = a.get_char(i);
        let cb = b.get_char(i);
        assert(a@.skip(i as int)[0] == ca);
        assert(b@.skip(i as int)[0] == cb);
        if ca != cb {
            return ca < cb;
        }
        assert(a@.skip(i as int).drop_first() =~= a@.skip(i + 1));
        assert(b@.skip(i as int).drop_first() =~= b@.skip(i + 1));
        i = i + 1;
    }
    i == la
}

/// Whether a directory entry name is a primary DRM node.
pub fn is_card(name: &str) -> (res: bool)
    ensures
        res == is_card_node(name@),
{
    if name.unicode_len() < 4 {
        return false;
    }
    let head = name.substring_char(0, 4);
    assert(head@ =~= name@.take(4));
    str_eq(head, "card")
}

proof fn lemma_texts_insert(list: Seq<String>, k: int, item: String)
    requires
        0 <= k <= list.len(),
    ensures
        texts(list.insert(k, item)) == texts(list).insert(k, item@),
{
    list.insert_ensures(k, item);
    texts(list).insert_ensures(k, item@);
    assert(texts(list.insert(k, item)) =~= texts(list).insert(k, item@));
}

proof fn lemma_multiset_insert(list: Seq<Seq<char>>, k: int, item: Seq<char>)
    requires
        0 <= k <= list.len(),
    ensures
        list.insert(k, item).to_multiset() == list.to_multiset().insert(item),
{
    let bigger = list.insert(k, item);
    list.insert_ensures(k, item);
    assert(bigger.remove(k) =~= list);
    bigger.to_multiset_ensures();
    assert(bigger[k] == item);
    assert(bigger.contains(item));
    assert(list.to_multiset() =~= bigger.to_multiset().remove(item));
    assert(bigger.to_multiset() =~= list.to_multiset().insert(item));
}

proof fn lemma_sorted_after_insert(before: Seq<Seq<char>>, k: int, item: Seq<char>)
    requires
        0 <= k <= before.len(),
        sorted_by(before, name_order()),
        forall|j: int| 0 <= j < k ==> chars_le(#[trigger] before[j], item),
        k < before.len() ==> chars_le(item, before[k]),
    ensures
        sorted_by(before.insert(k, item), name_order()),
{
    let after = before.insert(k, item);
    before.insert_ensures(k, item);
    assert forall|a: int, b: int| 0 <= a < b < after.len() implies #[trigger] name_order()(
        after[a],
        after[b],
    ) by {
        if b < k {
            assert(name_order()(before[a], before[b]));
        } else if b == k {
            assert(chars_le(before[a], item));
        } else if a < k {
            assert(name_order()(before[a], before[b - 1]));
        } else if a == k {
            if b - 1 > k {
                assert(name_order()(before[k], before[b - 1]));
                lemma_le_transitive(item, before[k], before[b - 1]);
            }
        } else {
            assert(name_order()(before[a - 1], before[b - 1]));
        }
    }
}

/// The primary DRM node names among the entries of `/dev/dri`, sorted.
pub fn card_names(entries: &Vec<String>) -> (res: Vec<String>)
    ensures
        sorted_by(texts(res@), name_order()),
        texts(res@).to_multiset() == texts(entries@).filter(card_filter()).to_multiset(),
{
    let mut res: Vec<String> = Vec::new();
    let mut i: usize = 0;
    proof {
        reveal(Seq::filter);
        assert(texts(entries@).take(0) =~= Seq::<Seq<char>>::empty());
        assert(texts(entries@).take(0).filter(card_filter()) =~= Seq::<Seq<char>>::empty());
        assert(texts(res@) =~= Seq::<Seq<char>>::empty());
    }
    while i < entries.len()
        invariant
            i <= entries.len(),
            sorted_by(texts(res@), name_order()),
            texts(res@).to_multiset() == texts(entries@).take(i as int).filter(
                card_filter(),
            ).to_multiset(),
        decreases entries.len() - i,
    {
        let name = &entries[i];
        proof {
            assert(texts(entries@).take(i + 1) =~= texts(entries@).take(i as int).push(name@));
            texts(entries@).take(i as int).lemma_filter_push(name@, card_filter());
            texts(entries@).take(i as int).filter(card_filter()).to_multiset_ensures();
        }
        if is_card(name.as_str()) {
            let ghost before = texts(res@);
            let mut k: usize = 0;
            while k < res.len() && name_le(res[k].as_str(), name.as_str())
                invariant
                    k <= res.len(),
                    before == texts(res@),
                    forall|j: int| 0 <= j < k ==> chars_le(#[trigger] before[j], name@),
                decreases res.len() - k,
            {
                k = k + 1;
            }
            proof {
                if k < res.len() {
                    lemma_le_total(before[k as int], name@);
                }
            }
            let copy = name.clone();
            let ghost old_list = res@;
            res.insert(k, copy);
            proof {
                lemma_texts_insert(old_list, k as int, copy);
                lemma_multiset_insert(before, k as int, name@);
                lemma_sorted_after_insert(before, k as int, name@);
            }
        }
        i = i + 1;
    }
    proof {
        assert(texts(entries@).take(entries.len() as int) =~= texts(entries@));
    }
    res
}

} // verus!
