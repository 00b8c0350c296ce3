//! What holds of the vault's operations across calls.

use vstd::prelude::*;

use crate::entry::EntryView;
use crate::text::same_name;
use crate::vault::{
    first_position, has_name, is_first_named, is_named, lemma_has_name, lemma_position_of, not_named,
    position_of, renamed_at,
};

verus! {

broadcast use vstd::seq_lib::group_seq_properties;

/// Names that differ only in case find the same entry: either both find
/// nothing, or both find the entry at the same position.
pub proof fn lookup_ignores_case(s: Seq<EntryView>, a: Seq<char>, b: Seq<char>)
    requires
        same_name(a, b),
    ensures
        has_name(s, a) == has_name(s, b),
        has_name(s, a) ==> position_of(s, a) == position_of(s, b),
{
    assert forall|i: int| 0 <= i < s.len() implies is_named(#[trigger] s[i], a) == is_named(s[i], b) by {}
    if has_name(s, a) {
        lemma_has_name(s, a);
        let p = position_of(s, a);
        assert(is_first_named(s, b, p));
        lemma_position_of(s, b, p);
    }
}

/// Appending an entry changes what no name finds, except a name that found
/// nothing and is the new entry's: that name then finds the new entry.
pub proof fn lookup_after_append(s: Seq<EntryView>, e: EntryView, name: Seq<char>)
    ensures
        has_name(s, name) ==> {
            &&& has_name(s.push(e), name)
            &&& position_of(s.push(e), name) == position_of(s, name)
        },
        !has_name(s, name) ==> {
            &&& has_name(s.push(e), name) == is_named(e, name)
            &&& is_named(e, name) ==> position_of(s.push(e), name) == s.len()
        },
{
    let t = s.push(e);
    if has_name(s, name) {
        let w = choose|w: int| 0 <= w < s.len() && is_named(#[trigger] s[w], name);
        assert(t[w] == s[w]);
        let p = first_position(s, name, w);
        lemma_position_of(s, name, p);
        assert(is_first_named(t, name, p));
        lemma_position_of(t, name, p);
    } else {
        if is_named(e, name) {
            assert(t[s.len() as int] == e);
            assert(is_first_named(t, name, s.len() as int));
            lemma_position_of(t, name, s.len() as int);
        } else {
            assert forall|i: int| 0 <= i < t.len() implies !is_named(#[trigger] t[i], name) by {
                if i < s.len() {
                    assert(t[i] == s[i]);
                }
            }
        }
    }
}

/// After removing the entries found by `name`, that name finds nothing.
pub proof fn lookup_after_delete(s: Seq<EntryView>, name: Seq<char>)
    ensures
        !has_name(s.filter(not_named(name)), name),
{
    let f = s.filter(not_named(name));
    assert forall|i: int| 0 <= i < f.len() implies !is_named(#[trigger] f[i], name) by {
        s.lemma_filter_pred(not_named(name), i);
    }
}

/// Removing the entries found by `name` a second time removes nothing.
pub proof fn delete_is_idempotent(s: Seq<EntryView>, name: Seq<char>)
    ensures
        s.filter(not_named(name)).filter(not_named(name)) == s.filter(not_named(name)),
    decreases s.len(),
{
    reveal(Seq::filter);
    if s.len() > 0 {
        delete_is_idempotent(s.drop_last(), name);
        let f = s.drop_last().filter(not_named(name));
        if not_named(name)(s.last()) {
            f.lemma_filter_push(s.last(), not_named(name));
        }
    }
}

/// Removing the entries found by `name` changes nothing that a different
/// name finds.
pub proof fn delete_keeps_other_lookups(s: Seq<EntryView>, name: Seq<char>, other: Seq<char>)
    requires
        !same_name(name, other),
    ensures
        has_name(s.filter(not_named(name)), other) == has_name(s, other),
        has_name(s, other) ==> s.filter(not_named(name))[position_of(
            s.filter(not_named(name)),
            other,
        )] == s[position_of(s, other)],
    decreases s.len(),
{
    reveal(Seq::filter);
    if s.len() == 0 {
        assert(s.filter(not_named(name)) =~= s);
    } else {
        let t = s.drop_last();
        let x = s.last();
        assert(s =~= t.push(x));
        delete_keeps_other_lookups(t, name, other);
        let ft = t.filter(not_named(name));
        t.lemma_filter_push(x, not_named(name));
        let fs = s.filter(not_named(name));
        lookup_after_append(t, x, other);
        lookup_after_append(ft, x, other);
        if has_name(t, other) {
            lemma_has_name(t, other);
            lemma_has_name(ft, other);
            lemma_has_name(s, other);
            lemma_has_name(fs, other);
        }
        if has_name(t, other) {
            if not_named(name)(x) {
                assert(fs == ft.push(x));
                assert(fs[position_of(fs, other)] == ft[position_of(ft, other)]);
            } else {
                assert(fs == ft);
            }
            assert(s[position_of(s, other)] == t[position_of(t, other)]);
        } else if is_named(x, other) {
            assert(not_named(name)(x));
            assert(fs == ft.push(x));
        } else {
            if not_named(name)(x) {
                assert(fs == ft.push(x));
            } else {
                assert(fs == ft);
            }
        }
    }
}

/// After a rename, the new name finds an entry.
pub proof fn lookup_after_rename(s: Seq<EntryView>, old_name: Seq<char>, new_name: Seq<char>)
    requires
        has_name(s, old_name),
    ensures
        has_name(renamed_at(s, position_of(s, old_name), new_name), new_name),
{
    let w = choose|w: int| 0 <= w < s.len() && is_named(#[trigger] s[w], old_name);
    let p = first_position(s, old_name, w);
    lemma_position_of(s, old_name, p);
    let r = renamed_at(s, p, new_name);
    assert(is_named(r[p], new_name));
}

/// Renaming changes only the name of the renamed entry: its other fields,
/// every other entry and the number of entries stay as they were.
pub proof fn rename_keeps_other_fields(s: Seq<EntryView>, i: int, name: Seq<char>)
    requires
        0 <= i < s.len(),
    ensures
        renamed_at(s, i, name).len() == s.len(),
        renamed_at(s, i, name)[i].name == name,
        renamed_at(s, i, name)[i].username == s[i].username,
        renamed_at(s, i, name)[i].password == s[i].password,
        renamed_at(s, i, name)[i].url == s[i].url,
        renamed_at(s, i, name)[i].notes == s[i].notes,
        forall|j: int| 0 <= j < s.len() && j != i ==> #[trigger] renamed_at(s, i, name)[j] == s[j],
{
}

/// No two entries of `s` are found by the same name.
pub open spec fn names_distinct(s: Seq<EntryView>) -> bool {
    forall|i: int, j: int|
        0 <= i < j < s.len() ==> !same_name(#[trigger] s[i].name, #[trigger] s[j].name)
}

/// Appending an entry whose name finds nothing keeps names distinct.
pub proof fn add_new_keeps_names_distinct(s: Seq<EntryView>, e: EntryView)
    requires
        names_distinct(s),
        !has_name(s, e.name),
    ensures
        names_distinct(s.push(e)),
{
    let t = s.push(e);
    assert forall|i: int, j: int| 0 <= i < j < t.len() implies !same_name(
        #[trigger] t[i].name,
        #[trigger] t[j].name,
    ) by {
        if j == s.len() {
            assert(t[i] == s[i]);
            assert(!is_named(s[i], e.name));
        } else {
            assert(t[i] == s[i] && t[j] == s[j]);
        }
    }
}

/// Removing the entries found by a name keeps names distinct.
pub proof fn delete_keeps_names_distinct(s: Seq<EntryView>, name: Seq<char>)
    requires
        names_distinct(s),
    ensures
        names_distinct(s.filter(not_named(name))),
    decreases s.len(),
{
    reveal(Seq::filter);
    if s.len() > 0 {
        let t = s.drop_last();
        let x = s.last();
        assert(names_distinct(t)) by {
            assert forall|i: int, j: int| 0 <= i < j < t.len() implies !same_name(
                #[trigger] t[i].name,
                #[trigger] t[j].name,
            ) by {
                assert(t[i] == s[i] && t[j] == s[j]);
            }
        }
        delete_keeps_names_distinct(t, name);
        let ft = t.filter(not_named(name));
        if not_named(name)(x) {
            let fs = ft.push(x);
            assert forall|i: int, j: int| 0 <= i < j < fs.len() implies !same_name(
                #[trigger] fs[i].name,
                #[trigger] fs[j].name,
            ) by {
                if j == ft.len() {
                    assert(fs[i] == ft[i]);
                    assert(ft.contains(ft[i]));
                    t.lemma_filter_contains_rev(not_named(name), ft[i]);
                    let k = choose|k: int| 0 <= k < t.len() && t[k] == ft[i];
                    assert(s[k] == t[k]);
                    assert(!same_name(s[k].name, s[s.len() - 1].name));
                } else {
                    assert(fs[i] == ft[i] && fs[j] == ft[j]);
                }
            }
        }
    }
}

} // verus!
