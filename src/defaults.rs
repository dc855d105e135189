//! Completing stored settings with defaults: a stored settings tree keeps its
//! values, and every field that it lacks, at any depth, is taken from the
//! tree of defaults.

use vstd::prelude::*;

verus! {

/// A settings document: objects of named fields, and values that the merge
/// does not look into.
#[derive(Debug, PartialEq, Eq)]
pub enum SettingsTree<L> {
    Object(Vec<(String, SettingsTree<L>)>),
    Leaf(L),
}

/// A settings document as a mathematical value.
pub enum TreeModel<L> {
    Object(Seq<(Seq<char>, TreeModel<L>)>),
    Leaf(L),
}

/// Model of the fields of an object.
pub open spec fn entries_model<L>(e: Seq<(String, SettingsTree<L>)>) -> Seq<(Seq<char>, TreeModel<L>)>
    decreases e,
{
    if e.len() == 0 {
        Seq::empty()
    } else {
        entries_model(e.drop_last()).push((e.last().0@, tree_model(e.last().1)))
    }
}

/// Model of a settings document.
pub open spec fn tree_model<L>(t: SettingsTree<L>) -> TreeModel<L>
    decreases t,
{
    match t {
        SettingsTree::Object(v) => TreeModel::Object(entries_model(v@)),
        SettingsTree::Leaf(l) => TreeModel::Leaf(l),
    }
}

/// Whether `i` is the first field of `e` named `k`.
pub open spec fn first_with_key<L>(e: Seq<(Seq<char>, TreeModel<L>)>, k: Seq<char>, i: int) -> bool {
    &&& 0 <= i < e.len()
    &&& e[i].0 == k
    &&& forall|j: int| 0 <= j < i ==> #[trigger] e[j].0 != k
}

/// Position of the first field of `e` named `k`, if there is one.
pub open spec fn find_key<L>(e: Seq<(Seq<char>, TreeModel<L>)>, k: Seq<char>) -> Option<int> {
    if exists|i: int| first_with_key(e, k, i) {
        Some(choose|i: int| first_with_key(e, k, i))
    } else {
        None
    }
}

/// `stored` completed from `default`, and whether any field was missing.
/// Only an object is completed from an object; any other stored value stays
/// as it is.
pub open spec fn merge_model<L>(stored: TreeModel<L>, default: TreeModel<L>) -> (TreeModel<L>, bool)
    decreases default,
{
    match (stored, default) {
        (TreeModel::Object(se), TreeModel::Object(de)) => {
            let (e, m) = merge_entries(se, de);
            (TreeModel::Object(e), m)
        },
        _ => (stored, false),
    }
}

/// The fields `se` completed from the default fields `de`, taken in order:
/// a missing field is appended with its default; a present field whose
/// default is an object is completed in turn and replaced when something
/// was missing in it; any other present field stays.
pub open spec fn merge_entries<L>(se: Seq<(Seq<char>, TreeModel<L>)>, de: Seq<(Seq<char>, TreeModel<L>)>) -> (
    Seq<(Seq<char>, TreeModel<L>)>,
    bool,
)
    decreases de,
{
    if de.len() == 0 {
        (se, false)
    } else {
        let (acc, m) = merge_entries(se, de.drop_last());
        let (k, dv) = de.last();
        match find_key(acc, k) {
            None => (acc.push((k, dv)), true),
            Some(i) => if dv is Object {
                let (mv, mm) = merge_model(acc[i].1, dv);
                if mm {
                    (acc.update(i, (k, mv)), true)
                } else {
                    (acc, m)
                }
            } else {
                (acc, m)
            },
        }
    }
}

/// The model of a list of fields, field by field.
pub proof fn lemma_entries_model_index<L>(e: Seq<(String, SettingsTree<L>)>)
    ensures
        entries_model(e).len() == e.len(),
        forall|i: int|
            0 <= i < e.len() ==> #[trigger] entries_model(e)[i] == (e[i].0@, tree_model(e[i].1)),
    decreases e.len(),
{
    if e.len() > 0 {
        lemma_entries_model_index(e.drop_last());
    }
}

/// Completing from defaults that leave nothing missing changes nothing.
pub proof fn lemma_nothing_missing_keeps_stored<L>(stored: TreeModel<L>, default: TreeModel<L>)
    ensures
        !merge_model(stored, default).1 ==> merge_model(stored, default).0 == stored,
    decreases default,
{
    match (stored, default) {
        (TreeModel::Object(se), TreeModel::Object(de)) => {
            lemma_nothing_missing_keeps_entries(se, de);
        },
        _ => {},
    }
}

/// Completing fields from defaults that leave nothing missing changes
/// nothing.
pub proof fn lemma_nothing_missing_keeps_entries<L>(
    se: Seq<(Seq<char>, TreeModel<L>)>,
    de: Seq<(Seq<char>, TreeModel<L>)>,
)
    ensures
        !merge_entries(se, de).1 ==> merge_entries(se, de).0 == se,
    decreases de,
{
    if de.len() > 0 {
        lemma_nothing_missing_keeps_entries(se, de.drop_last());
    }
}

/// Completes `stored` from `default`: returns the completed tree and whether
/// any field was missing at any depth.
#[verifier::loop_isolation(false)]
pub fn merge_with_defaults<L>(stored: SettingsTree<L>, default: SettingsTree<L>) -> (r: (
    SettingsTree<L>,
    bool,
))
    ensures
        (tree_model(r.0), r.1) == merge_model(tree_model(stored), tree_model(default)),
    decreases default,
{
    let ghost dparam = default;
    let (stored_fields, default_fields) = match (stored, default) {
        (SettingsTree::Object(se), SettingsTree::Object(de)) => (se, de),
        (other, _) => {
            return (other, false);
        },
    };
    let ghost d0 = default_fields@;
    let ghost s0 = entries_model(stored_fields@);
    proof {
        lemma_entries_model_index(d0);
        assert(tree_model(dparam) == TreeModel::Object(entries_model(d0)));
    }
    let total = default_fields.len();
    let mut acc = stored_fields;
    let mut missing = false;
    let mut rest = default_fields;
    let mut j: usize = 0;
    while rest.len() > 0
        invariant
            j <= d0.len(),
            total == d0.len(),
            rest@ == d0.subrange(j as int, d0.len() as int),
            dparam matches SettingsTree::Object(dv0) && dv0@ == d0,
            entries_model(d0).len() == d0.len(),
            forall|i: int|
                0 <= i < d0.len() ==> #[trigger] entries_model(d0)[i] == (d0[i].0@, tree_model(
                    d0[i].1,
                )),
            (entries_model(acc@), missing) == merge_entries(
                s0,
                entries_model(d0.subrange(0, j as int)),
            ),
        decreases rest@.len(),
    {
        let ghost prefix = d0.subrange(0, j as int);
        let ghost next = d0.subrange(0, j + 1);
        proof {
            lemma_entries_model_index(prefix);
            lemma_entries_model_index(next);
            assert(entries_model(next).drop_last() =~= entries_model(prefix));
            assert(entries_model(next).last() == entries_model(d0)[j as int]);
        }
        let (key, dv) = rest.remove(0);
        proof {
            assert(key == d0[j as int].0 && dv == d0[j as int].1);
        }
        let ghost acc_model = entries_model(acc@);
        match find_entry(&acc, &key) {
            None => {
                let ghost before = acc@;
                acc.push((key, dv));
                missing = true;
                proof {
                    assert(acc@.drop_last() =~= before);
                }
            },
            Some(i) => {
                if let SettingsTree::Object(_) = &dv {
                    proof {
                        lemma_entries_model_index(acc@);
                        let dv0 = dparam->Object_0;
                        vstd::std_specs::vec::axiom_vec_index_decreases(dv0, j as int);
                        assert(decreases_to!(dparam => dv0));
                        assert(decreases_to!(dv0 => dv0[j as int]));
                        assert(decreases_to!(dv0[j as int] => dv0[j as int].1));
                        assert(decreases_to!(dparam => dv));
                    }
                    let (stored_key, sv) = acc.remove(i);
                    let (mv, mm) = merge_with_defaults(sv, dv);
                    acc.insert(i, (stored_key, mv));
                    proof {
                        lemma_entries_model_index(acc@);
                        lemma_nothing_missing_keeps_stored(tree_model(sv), tree_model(dv));
                        if mm {
                            assert(entries_model(acc@) =~= acc_model.update(
                                i as int,
                                (key@, tree_model(mv)),
                            ));
                        } else {
                            assert(entries_model(acc@) =~= acc_model);
                        }
                    }
                    if mm {
                        missing = true;
                    }
                }
            },
        }
        j = j + 1;
        proof {
            assert(rest@ =~= d0.subrange(j as int, d0.len() as int));
        }
    }
    proof {
        assert(d0.subrange(0, j as int) =~= d0);
    }
    (SettingsTree::Object(acc), missing)
}

/// Position of the first field named `key`.
fn find_entry<L>(entries: &Vec<(String, SettingsTree<L>)>, key: &String) -> (r: Option<usize>)
    ensures
        match r {
            Some(i) => find_key(entries_model(entries@), key@) == Some(i as int),
            None => find_key(entries_model(entries@), key@) is None,
        },
{
    proof {
        lemma_entries_model_index(entries@);
    }
    let ghost e = entries_model(entries@);
    let mut i: usize = 0;
    while i < entries.len()
        invariant
            i <= entries@.len(),
            e == entries_model(entries@),
            e.len() == entries@.len(),
            forall|j: int| 0 <= j < e.len() ==> #[trigger] e[j].0 == entries@[j].0@,
            forall|j: int| 0 <= j < i ==> #[trigger] e[j].0 != key@,
        decreases entries@.len() - i,
    {
        if entries[i].0 == *key {
            proof {
                assert(first_with_key(e, key@, i as int));
                let c = choose|c: int| first_with_key(e, key@, c);
                assert(first_with_key(e, key@, c));
                if c < i {
                    assert(e[c].0 != key@);
                } else if c > i {
                    assert(e[i as int].0 != key@);
                }
            }
            return Some(i);
        }
        i = i + 1;
    }
    proof {
        assert forall|c: int| !first_with_key(e, key@, c) by {
            if 0 <= c < e.len() {
                assert(e[c].0 != key@);
            }
        }
    }
    None
}

} // verus!
