//! Tag lists: ordered, without repetition when filled through [`add_tag`].

use vstd::prelude::*;
use crate::text::{same_text, texts};

verus! {

/// `tags` with `tag` added at the end, unless it is there already.
pub open spec fn with_tag(tags: Seq<Seq<char>>, tag: Seq<char>) -> Seq<Seq<char>> {
    if tags.contains(tag) {
        tags
    } else {
        tags.push(tag)
    }
}

/// The test that every text but `tag` passes.
pub open spec fn other_than(tag: Seq<char>) -> spec_fn(Seq<char>) -> bool {
    |t: Seq<char>| t != tag
}

/// `tags` without any occurrence of `tag`, the others in their order.
pub open spec fn without_tag(tags: Seq<Seq<char>>, tag: Seq<char>) -> Seq<Seq<char>> {
    tags.filter(other_than(tag))
}

/// Whether `tag` occurs in `tags`.
pub fn has_tag(tags: &Vec<String>, tag: &str) -> (r: bool)
    ensures
        r == texts(tags@).contains(tag@),
{
    let mut i: usize = 0;
    while i < tags.len()
        invariant
            i <= tags.len(),
            forall|j: int| 0 <= j < i ==> texts(tags@)[j] != tag@,
        decreases tags.len() - i,
    {
        if same_text(tags[i].as_str(), tag) {
            assert(texts(tags@)[i as int] == tag@);
            return true;
        }
        i += 1;
    }
    false
}

/// Adds `tag` at the end of `tags` unless it occurs there already.
pub fn add_tag(tags: &mut Vec<String>, tag: String)
    ensures
        texts(final(tags)@) == with_tag(texts(old(tags)@), tag@),
        texts(old(tags)@).no_duplicates() ==> texts(final(tags)@).no_duplicates(),
{
    proof {
        if texts(tags@).no_duplicates() {
            lemma_add_tag_keeps_unique(texts(tags@), tag@);
        }
    }
    if !has_tag(tags, tag.as_str()) {
        tags.push(tag);
        assert(texts(tags@) =~= texts(old(tags)@).push(tag@));
    }
}

/// Removes every occurrence of `tag` from `tags`.
pub fn remove_tag(tags: &mut Vec<String>, tag: &str)
    ensures
        texts(final(tags)@) == without_tag(texts(old(tags)@), tag@),
        texts(old(tags)@).no_duplicates() ==> texts(final(tags)@).no_duplicates(),
{
    let ghost all = texts(tags@);
    let ghost keep = other_than(tag@);
    let ghost mut seen: int = 0;
    let mut i: usize = 0;
    proof {
        reveal(Seq::filter);
        assert(all.take(0).filter(keep) =~= Seq::<Seq<char>>::empty());
        assert(all.skip(0) =~= all);
    }
    while i < tags.len()
        invariant
            all == texts(old(tags)@),
            keep == other_than(tag@),
            0 <= seen <= all.len(),
            i == all.take(seen).filter(keep).len(),
            texts(tags@) == all.take(seen).filter(keep) + all.skip(seen),
        decreases all.len() - seen,
    {
        proof {
            assert(texts(tags@).len() == tags@.len());
            assert(seen < all.len());
            assert(texts(tags@)[i as int] == all.skip(seen)[0]);
            all.lemma_take_succ_push(seen);
            all.take(seen).lemma_filter_push(all[seen], keep);
        }
        let ghost before = tags@;
        if same_text(tags[i].as_str(), tag) {
            let _ = tags.remove(i);
            proof {
                assert(texts(tags@) =~= texts(before).remove(i as int));
                assert(texts(before).remove(i as int) =~= all.take(seen).filter(keep) + all.skip(
                    seen + 1,
                ));
                seen = seen + 1;
            }
        } else {
            i += 1;
            proof {
                assert(texts(tags@) =~= all.take(seen + 1).filter(keep) + all.skip(seen + 1));
                seen = seen + 1;
            }
        }
    }
    proof {
        assert(texts(tags@).len() == tags@.len());
        assert(all.skip(seen).len() == 0);
        assert(seen == all.len());
        assert(all.take(seen) =~= all);
        assert(texts(tags@) =~= all.filter(keep));
        if all.no_duplicates() {
            lemma_remove_tag_keeps_unique(all, tag@);
        }
    }
}

/// Adding a tag a second time changes nothing.
pub proof fn lemma_add_tag_idempotent(tags: Seq<Seq<char>>, tag: Seq<char>)
    ensures
        with_tag(tags, tag).contains(tag),
        with_tag(with_tag(tags, tag), tag) == with_tag(tags, tag),
{
    if !tags.contains(tag) {
        assert(tags.push(tag)[tags.len() as int] == tag);
    }
}

/// Adding a tag keeps a list free of repetitions.
pub proof fn lemma_add_tag_keeps_unique(tags: Seq<Seq<char>>, tag: Seq<char>)
    requires
        tags.no_duplicates(),
    ensures
        with_tag(tags, tag).no_duplicates(),
{
    if !tags.contains(tag) {
        let after = tags.push(tag);
        assert forall|i: int, j: int| 0 <= i < after.len() && 0 <= j < after.len() && i != j implies after[i]
            != after[j] by {
            if i == tags.len() {
                assert(tags[j] == after[j]);
            } else if j == tags.len() {
                assert(tags[i] == after[i]);
            }
        }
    }
}

/// Removing a tag keeps a list free of repetitions.
pub proof fn lemma_remove_tag_keeps_unique(tags: Seq<Seq<char>>, tag: Seq<char>)
    requires
        tags.no_duplicates(),
    ensures
        without_tag(tags, tag).no_duplicates(),
    decreases tags.len(),
{
    reveal(Seq::filter);
    let keep = other_than(tag);
    if tags.len() > 0 {
        let front = tags.drop_last();
        let last = tags.last();
        lemma_remove_tag_keeps_unique(front, tag);
        let kept = front.filter(keep);
        if keep(last) {
            if kept.contains(last) {
                front.lemma_filter_contains_rev(keep, last);
                let k = choose|k: int| 0 <= k < front.len() && front[k] == last;
                assert(tags[k] == tags[tags.len() - 1]);
            }
            let after = kept.push(last);
            assert forall|i: int, j: int|
                0 <= i < after.len() && 0 <= j < after.len() && i != j implies after[i]
                != after[j] by {
                if i == kept.len() {
                    assert(kept.contains(after[j]));
                } else if j == kept.len() {
                    assert(kept.contains(after[i]));
                }
            }
        }
    }
}

/// Removing a tag leaves no occurrence of it and keeps every other tag.
pub proof fn lemma_remove_tag_removes_all(tags: Seq<Seq<char>>, tag: Seq<char>)
    ensures
        !without_tag(tags, tag).contains(tag),
        forall|t: Seq<char>| t != tag ==> (without_tag(tags, tag).contains(t) <==> tags.contains(t)),
{
    let keep = other_than(tag);
    let rest = tags.filter(keep);
    if rest.contains(tag) {
        let i = choose|i: int| 0 <= i < rest.len() && rest[i] == tag;
        tags.lemma_filter_pred(keep, i);
    }
    assert forall|t: Seq<char>| t != tag implies (without_tag(tags, tag).contains(t)
        <==> tags.contains(t)) by {
        if rest.contains(t) {
            tags.lemma_filter_contains_rev(keep, t);
        }
        if tags.contains(t) {
            let i = choose|i: int| 0 <= i < tags.len() && tags[i] == t;
            tags.lemma_filter_contains(keep, i);
        }
    }
}

} // verus!
