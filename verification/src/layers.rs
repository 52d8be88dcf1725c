//! Layered configuration: each layer is a tree of tables whose leaves are
//! TOML values, and later layers are merged over earlier ones key by key.
use vstd::prelude::*;
use vstd::string::*;
use crate::text::str_eq;

verus! {

#[verifier::external_type_specification]
#[verifier::external_body]
pub struct ExTomlValue(toml::Value);

/// A configuration layer: a table of named entries, or a single value that
/// is not a table.
pub enum ConfigTree {
    Table(Vec<(String, ConfigTree)>),
    Leaf(toml::Value),
}

/// A layer as values: a table as a list of keys with their subtrees, or a
/// single value.
pub enum TreeView {
    Table(Seq<(Seq<char>, TreeView)>),
    Leaf(toml::Value),
}

/// The value of a layer.
pub open spec fn tree_view(t: ConfigTree) -> TreeView
    decreases t, 1nat,
{
    match t {
        ConfigTree::Table(entries) => TreeView::Table(entries_view(entries@)),
        ConfigTree::Leaf(v) => TreeView::Leaf(v),
    }
}

/// The values of a list of table entries.
pub open spec fn entries_view(es: Seq<(String, ConfigTree)>) -> Seq<(Seq<char>, TreeView)>
    decreases es, 0nat,
{
    if es.len() == 0 {
        Seq::empty()
    } else {
        entries_view(es.drop_last()).push((es.last().0@, tree_view(es.last().1)))
    }
}

/// The first position of key `k` in a table, if it is there.
pub open spec fn key_index(es: Seq<(Seq<char>, TreeView)>, k: Seq<char>) -> Option<int>
    decreases es.len(),
{
    if es.len() == 0 {
        None
    } else {
        match key_index(es.drop_last(), k) {
            Some(i) => Some(i),
            None => if es.last().0 == k {
                Some(es.len() - 1)
            } else {
                None
            },
        }
    }
}

/// `overlay` merged over `base`: two tables merge entry by entry, anything
/// else is replaced by the overlay.
pub open spec fn merged(base: TreeView, overlay: TreeView) -> TreeView
    decreases overlay, 1nat,
{
    match overlay {
        TreeView::Table(os) => match base {
            TreeView::Table(bs) => TreeView::Table(merged_entries(bs, os)),
            TreeView::Leaf(_) => overlay,
        },
        TreeView::Leaf(_) => overlay,
    }
}

/// The entries of `os` merged, one after another, into the table `bs`: an
/// entry whose key is in the table merges into that entry; a new key is
/// added at the end.
pub open spec fn merged_entries(bs: Seq<(Seq<char>, TreeView)>, os: Seq<(Seq<char>, TreeView)>) -> Seq<(Seq<char>, TreeView)>
    decreases os, 0nat,
{
    if os.len() == 0 {
        bs
    } else {
        let acc = merged_entries(bs, os.drop_last());
        let k = os.last().0;
        let v = os.last().1;
        match key_index(acc, k) {
            Some(i) => if 0 <= i < acc.len() {
                acc.update(i, (k, merged(acc[i].1, v)))
            } else {
                acc
            },
            None => acc.push((k, v)),
        }
    }
}

proof fn lemma_entries_view(es: Seq<(String, ConfigTree)>)
    ensures
        entries_view(es).len() == es.len(),
        forall|j: int| 0 <= j < es.len() ==> #[trigger] entries_view(es)[j] == (es[j].0@, tree_view(es[j].1)),
    decreases es.len(),
{
    if es.len() > 0 {
        lemma_entries_view(es.drop_last());
    }
}

proof fn lemma_key_index(es: Seq<(Seq<char>, TreeView)>, k: Seq<char>)
    ensures
        match key_index(es, k) {
            Some(i) => 0 <= i < es.len() && es[i].0 == k && forall|j: int| 0 <= j < i ==> #[trigger] es[j].0 != k,
            None => forall|j: int| 0 <= j < es.len() ==> #[trigger] es[j].0 != k,
        },
    decreases es.len(),
{
    if es.len() > 0 {
        let d = es.drop_last();
        lemma_key_index(d, k);
        assert forall|j: int| 0 <= j < d.len() implies #[trigger] d[j] == es[j] by {}
        match key_index(d, k) {
            Some(i) => {
                assert(es[i] == d[i]);
                assert forall|j: int| 0 <= j < i implies #[trigger] es[j].0 != k by {
                    assert(es[j] == d[j]);
                }
            },
            None => {
                assert(es.last() == es[es.len() - 1]);
                if es.last().0 == k {
                    assert(key_index(es, k) == Some(es.len() - 1));
                    assert forall|j: int| 0 <= j < es.len() - 1 implies #[trigger] es[j].0 != k by {
                        assert(es[j] == d[j]);
                    }
                } else {
                    assert forall|j: int| 0 <= j < es.len() implies #[trigger] es[j].0 != k by {
                        if j < d.len() {
                            assert(es[j] == d[j]);
                        }
                    }
                }
            },
        }
    }
}

/// The position of key `k` among `entries`, if it is there.
fn find_key(entries: &Vec<(String, ConfigTree)>, k: &str) -> (r: Option<usize>)
    ensures
        match r {
            Some(i) => key_index(entries_view(entries@), k@) == Some(i as int),
            None => key_index(entries_view(entries@), k@) is None,
        },
{
    proof {
        lemma_entries_view(entries@);
        lemma_key_index(entries_view(entries@), k@);
    }
    let mut i: usize = 0;
    while i < entries.len()
        invariant
            i <= entries@.len(),
            entries_view(entries@).len() == entries@.len(),
            forall|j: int| 0 <= j < entries@.len() ==> #[trigger] entries_view(entries@)[j] == (entries@[j].0@, tree_view(entries@[j].1)),
            forall|j: int| 0 <= j < i ==> #[trigger] entries@[j].0@ != k@,
        decreases entries@.len() - i,
    {
        if str_eq(entries[i].0.as_str(), k) {
            proof {
                lemma_key_index(entries_view(entries@), k@);
                let ev = entries_view(entries@);
                match key_index(ev, k@) {
                    Some(w) => {
                        if w < i {
                            assert(ev[w].0 == entries@[w].0@);
                        } else if w > i {
                            assert(ev[i as int].0 == k@);
                        }
                    },
                    None => {
                        assert(ev[i as int].0 == k@);
                    },
                }
            }
            return Some(i);
        }
        i = i + 1;
    }
    proof {
        lemma_entries_view(entries@);
        lemma_key_index(entries_view(entries@), k@);
        let ev = entries_view(entries@);
        match key_index(ev, k@) {
            Some(w) => {
                assert(ev[w].0 == entries@[w].0@);
            },
            None => {},
        }
    }
    None
}

/// Merges `overlay` over `base` in place: two tables merge entry by entry,
/// and anything else in the overlay replaces the base.
pub fn deep_merge(base: &mut ConfigTree, overlay: ConfigTree)
    ensures
        tree_view(*final(base)) == merged(tree_view(*old(base)), tree_view(overlay)),
    decreases overlay, 1nat,
{
    let mut taken = ConfigTree::Table(Vec::new());
    std::mem::swap(base, &mut taken);
    match overlay {
        ConfigTree::Table(os) => match taken {
            ConfigTree::Table(bs) => {
                let mut bs = bs;
                merge_entries(&mut bs, os);
                *base = ConfigTree::Table(bs);
            },
            ConfigTree::Leaf(v) => {
                *base = ConfigTree::Table(os);
            },
        },
        ConfigTree::Leaf(v) => {
            *base = ConfigTree::Leaf(v);
        },
    }
}

/// Merges the entries `os`, in order, into the entries `bs`.
fn merge_entries(bs: &mut Vec<(String, ConfigTree)>, os: Vec<(String, ConfigTree)>)
    ensures
        entries_view(final(bs)@) == merged_entries(entries_view(old(bs)@), entries_view(os@)),
    decreases os, 0nat,
{
    let ghost start = entries_view(bs@);
    let ghost entry: Vec<(String, ConfigTree)> = os;
    let ghost all = os@;
    proof {
        assert(all.len() == os.len());
    }
    let mut rest = os;
    let mut done: usize = 0;
    proof {
        assert(all.subrange(0, 0) =~= Seq::<(String, ConfigTree)>::empty());
        assert(rest@ =~= all.subrange(0, all.len() as int));
    }
    while rest.len() > 0
        invariant
            done <= all.len(),
            all.len() <= usize::MAX,
            entry == os,
            all == entry@,
            rest@ == all.subrange(done as int, all.len() as int),
            entries_view(bs@) == merged_entries(start, entries_view(all.subrange(0, done as int))),
        decreases rest@.len(),
    {
        let (k, v) = rest.remove(0);
        proof {
            assert(all[done as int] == (k, v));
            lemma_entries_view(all.subrange(0, done + 1));
            assert(all.subrange(0, done + 1).drop_last() =~= all.subrange(0, done as int));
        }
        let ghost before = entries_view(bs@);
        let ghost pre = bs@;
        proof {
            lemma_entries_view(pre);
            lemma_key_index(before, k@);
        }
        match find_key(bs, k.as_str()) {
            Some(i) => {
                let (kk, mut slot) = bs.remove(i);
                proof {
                    assert(decreases_to!(entry => entry@));
                    assert(decreases_to!(entry@ => entry@[done as int]));
                    assert(decreases_to!(entry@[done as int] => entry@[done as int].1));
                }
                deep_merge(&mut slot, v);
                bs.insert(i, (kk, slot));
                proof {
                    lemma_entries_view(bs@);
                    assert(entries_view(bs@) =~= before.update(i as int, (k@, merged(before[i as int].1, tree_view(v)))));
                }
            },
            None => {
                bs.push((k, v));
                proof {
                    assert(bs@.drop_last() =~= pre);
                }
            },
        }
        proof {
            let prefix = entries_view(all.subrange(0, done + 1));
            assert(prefix.drop_last() == entries_view(all.subrange(0, done as int)));
            assert(prefix.last() == (k@, tree_view(v)));
        }
        done = done + 1;
        proof {
            assert(rest@ =~= all.subrange(done as int, all.len() as int));
        }
    }
    proof {
        assert(all.subrange(0, done as int) =~= all);
    }
}

/// What a TOML document parses to, as a layer; `None` when it is not valid
/// TOML.
pub uninterp spec fn parsed_layer(text: Seq<char>) -> Option<TreeView>;

/// A TOML value as a layer, tables taken apart entry by entry.
#[verifier::external_body]
fn tree_of(value: toml::Value) -> (r: ConfigTree) {
    match value {
        toml::Value::Table(table) => ConfigTree::Table(table.into_iter().map(|(k, v)| (k, tree_of(v))).collect()),
        other => ConfigTree::Leaf(other),
    }
}

/// Parses a TOML document (`toml::from_str` into a table) as a layer; a
/// document is always a table. The error is the parser's message.
#[verifier::external_body]
fn parse_layer(text: &str) -> (r: Result<ConfigTree, String>)
    ensures
        match r {
            Ok(t) => t is Table && parsed_layer(text@) == Some(tree_view(t)),
            Err(_) => parsed_layer(text@) is None,
        },
{
    match toml::from_str::<toml::Table>(text) {
        Ok(table) => Ok(tree_of(toml::Value::Table(table))),
        Err(e) => Err(e.to_string()),
    }
}

/// The layers `(path, text)` merged in order over `start`; the first layer
/// that is not valid TOML stops the merge with a message naming its path.
pub open spec fn layered(start: TreeView, layers: Seq<(Seq<char>, Seq<char>)>) -> Result<TreeView, Seq<char>>
    decreases layers.len(),
{
    if layers.len() == 0 {
        Ok(start)
    } else {
        match layered(start, layers.drop_last()) {
            Err(e) => Err(e),
            Ok(acc) => match parsed_layer(layers.last().1) {
                Some(t) => Ok(merged(acc, t)),
                None => Err("invalid TOML in "@ + layers.last().0),
            },
        }
    }
}

proof fn lemma_layered_stops_at_error(start: TreeView, s: Seq<(Seq<char>, Seq<char>)>, k: int)
    requires
        0 <= k <= s.len(),
        layered(start, s.subrange(0, k)) is Err,
    ensures
        layered(start, s) == layered(start, s.subrange(0, k)),
    decreases s.len() - k,
{
    if k < s.len() {
        let p = s.subrange(0, k + 1);
        assert(p.drop_last() =~= s.subrange(0, k));
        lemma_layered_stops_at_error(start, s, k + 1);
    } else {
        assert(s.subrange(0, k) =~= s);
    }
}

/// The paths and texts of a list of layers.
pub open spec fn layer_texts(layers: Seq<(String, String)>) -> Seq<(Seq<char>, Seq<char>)> {
    layers.map_values(|l: (String, String)| (l.0@, l.1@))
}

/// Merges configuration layers, given as `(path, text)` with the lowest
/// precedence first, over an empty table.
pub fn merge_layers(layers: &Vec<(String, String)>) -> (r: Result<ConfigTree, String>)
    ensures
        match r {
            Ok(t) => layered(TreeView::Table(Seq::empty()), layer_texts(layers@)) == Ok::<TreeView, Seq<char>>(tree_view(t)),
            Err(e) => layered(TreeView::Table(Seq::empty()), layer_texts(layers@)) == Err::<TreeView, Seq<char>>(e@),
        },
{
    let mut merged_tree = ConfigTree::Table(Vec::new());
    let ghost empty = TreeView::Table(Seq::empty());
    proof {
        assert(tree_view(merged_tree) == empty) by {
            assert(entries_view(Seq::<(String, ConfigTree)>::empty()) =~= Seq::<(Seq<char>, TreeView)>::empty());
        }
        assert(layer_texts(layers@).subrange(0, 0) =~= Seq::<(Seq<char>, Seq<char>)>::empty());
    }
    let mut i: usize = 0;
    while i < layers.len()
        invariant
            i <= layers@.len(),
            empty == TreeView::Table(Seq::empty()),
            layered(empty, layer_texts(layers@).subrange(0, i as int)) == Ok::<TreeView, Seq<char>>(tree_view(merged_tree)),
        decreases layers@.len() - i,
    {
        let ghost prefix = layer_texts(layers@).subrange(0, i + 1);
        proof {
            assert(prefix.drop_last() =~= layer_texts(layers@).subrange(0, i as int));
            assert(prefix.last() == (layers@[i as int].0@, layers@[i as int].1@));
        }
        match parse_layer(layers[i].1.as_str()) {
            Ok(layer) => {
                deep_merge(&mut merged_tree, layer);
            },
            Err(_) => {
                let mut message = crate::text::owned("invalid TOML in ");
                message.append(layers[i].0.as_str());
                proof {
                    lemma_layered_stops_at_error(empty, layer_texts(layers@), i + 1);
                }
                return Err(message);
            },
        }
        i = i + 1;
    }
    proof {
        assert(layer_texts(layers@).subrange(0, layers@.len() as int) =~= layer_texts(layers@));
    }
    Ok(merged_tree)
}

/// Whether a layer is a table with no entries.
pub fn is_empty_table(t: &ConfigTree) -> (r: bool)
    ensures
        r == (tree_view(*t) matches TreeView::Table(es) && es.len() == 0),
{
    proof {
        match t {
            ConfigTree::Table(es) => lemma_entries_view(es@),
            ConfigTree::Leaf(_) => {},
        }
    }
    match t {
        ConfigTree::Table(entries) => entries.len() == 0,
        ConfigTree::Leaf(_) => false,
    }
}

/// Whether a table has an entry with key `k`.
pub open spec fn has_key(es: Seq<(Seq<char>, TreeView)>, k: Seq<char>) -> bool {
    exists|i: int| 0 <= i < es.len() && #[trigger] es[i].0 == k
}

/// Merging tables loses no key and invents none: the merged table has
/// exactly the keys of the base and of the overlay.
pub proof fn lemma_merge_keeps_keys(bs: Seq<(Seq<char>, TreeView)>, os: Seq<(Seq<char>, TreeView)>, k: Seq<char>)
    ensures
        has_key(merged_entries(bs, os), k) <==> (has_key(bs, k) || has_key(os, k)),
    decreases os.len(),
{
    if os.len() > 0 {
        let d = os.drop_last();
        lemma_merge_keeps_keys(bs, d, k);
        let acc = merged_entries(bs, d);
        let kk = os.last().0;
        lemma_key_index(acc, kk);
        let r = merged_entries(bs, os);
        assert(has_key(os, k) <==> (has_key(d, k) || kk == k)) by {
            if has_key(os, k) {
                let i = choose|i: int| 0 <= i < os.len() && #[trigger] os[i].0 == k;
                if i < d.len() {
                    assert(d[i] == os[i]);
                }
            }
            if has_key(d, k) {
                let i = choose|i: int| 0 <= i < d.len() && #[trigger] d[i].0 == k;
                assert(os[i] == d[i]);
            }
            if kk == k {
                assert(os[os.len() - 1].0 == k);
            }
        }
        assert(has_key(r, k) <==> (has_key(acc, k) || kk == k)) by {
            match key_index(acc, kk) {
                Some(i) => {
                    assert(r == acc.update(i, (kk, merged(acc[i].1, os.last().1))));
                    if has_key(r, k) {
                        let j = choose|j: int| 0 <= j < r.len() && #[trigger] r[j].0 == k;
                        if j != i {
                            assert(acc[j].0 == k);
                        }
                    }
                    if has_key(acc, k) {
                        let j = choose|j: int| 0 <= j < acc.len() && #[trigger] acc[j].0 == k;
                        assert(r[j].0 == k);
                    }
                    if kk == k {
                        assert(r[i].0 == k);
                    }
                },
                None => {
                    assert(r == acc.push((kk, os.last().1)));
                    if has_key(r, k) {
                        let j = choose|j: int| 0 <= j < r.len() && #[trigger] r[j].0 == k;
                        if j < acc.len() {
                            assert(acc[j].0 == k);
                        }
                    }
                    if has_key(acc, k) {
                        let j = choose|j: int| 0 <= j < acc.len() && #[trigger] acc[j].0 == k;
                        assert(r[j].0 == k);
                    }
                    if kk == k {
                        assert(r[acc.len() as int].0 == k);
                    }
                },
            }
        }
    }
}

/// A value that is not a table replaces whatever it is merged over, and a
/// table replaces a value that is not a table.
pub proof fn lemma_overlay_replaces_non_tables(base: TreeView, overlay: TreeView)
    requires
        overlay is Leaf || base is Leaf,
    ensures
        merged(base, overlay) == overlay,
{
}

/// The subtree a table holds under key `k` (its first entry with that key).
pub open spec fn lookup(es: Seq<(Seq<char>, TreeView)>, k: Seq<char>) -> Option<TreeView> {
    match key_index(es, k) {
        Some(i) => Some(es[i].1),
        None => None,
    }
}

/// No key occurs twice in the table.
pub open spec fn distinct_keys(es: Seq<(Seq<char>, TreeView)>) -> bool {
    forall|i: int, j: int| 0 <= i < j < es.len() ==> #[trigger] es[i].0 != #[trigger] es[j].0
}

proof fn lemma_same_keys_same_index(a: Seq<(Seq<char>, TreeView)>, b: Seq<(Seq<char>, TreeView)>, k: Seq<char>)
    requires
        a.len() == b.len(),
        forall|j: int| 0 <= j < a.len() ==> #[trigger] a[j].0 == b[j].0,
    ensures
        key_index(a, k) == key_index(b, k),
    decreases a.len(),
{
    if a.len() > 0 {
        let da = a.drop_last();
        let db = b.drop_last();
        assert forall|j: int| 0 <= j < da.len() implies #[trigger] da[j].0 == db[j].0 by {
            assert(da[j] == a[j]);
            assert(db[j] == b[j]);
        }
        lemma_same_keys_same_index(da, db, k);
        assert(a.last().0 == b.last().0) by {
            assert(a[a.len() - 1].0 == b[b.len() - 1].0);
        }
    }
}

/// Merging tables takes every key as the layers have it: where both the
/// base and the overlay hold a key, the merged table holds the overlay's
/// subtree merged over the base's (so tables nested under it are merged in
/// turn); where only one of them holds it, that one's subtree is kept
/// unchanged. The overlay is a table as TOML writes it, each key once.
pub proof fn lemma_merge_takes_each_key(bs: Seq<(Seq<char>, TreeView)>, os: Seq<(Seq<char>, TreeView)>, k: Seq<char>)
    requires
        distinct_keys(os),
    ensures
        lookup(merged_entries(bs, os), k) == match (lookup(bs, k), lookup(os, k)) {
            (Some(b), Some(o)) => Some(merged(b, o)),
            (Some(b), None) => Some(b),
            (None, Some(o)) => Some(o),
            (None, None) => None,
        },
    decreases os.len(),
{
    if os.len() == 0 {
        assert(key_index(os, k) is None);
    } else {
        let d = os.drop_last();
        assert(distinct_keys(d)) by {
            assert forall|i: int, j: int| 0 <= i < j < d.len() implies #[trigger] d[i].0 != #[trigger] d[j].0 by {
                assert(d[i] == os[i] && d[j] == os[j]);
            }
        }
        lemma_merge_takes_each_key(bs, d, k);
        let acc = merged_entries(bs, d);
        let kk = os.last().0;
        let v = os.last().1;
        let r = merged_entries(bs, os);
        lemma_key_index(acc, kk);
        lemma_key_index(d, k);
        lemma_key_index(d, kk);
        match key_index(d, kk) {
            Some(w) => {
                assert(d[w] == os[w]);
                assert(os[os.len() - 1].0 == kk);
                assert(false);
            },
            None => {},
        }
        // the overlay's own entry for k
        if k == kk {
            assert(lookup(os, k) == Some(v));
        } else {
            assert(key_index(os, k) == key_index(d, k));
            match key_index(d, k) {
                Some(w) => {
                    assert(d[w] == os[w]);
                },
                None => {},
            }
            assert(lookup(os, k) == lookup(d, k));
        }
        match key_index(acc, kk) {
            Some(i) => {
                assert(r == acc.update(i, (kk, merged(acc[i].1, v))));
                lemma_same_keys_same_index(r, acc, k);
                lemma_key_index(acc, k);
                if k == kk {
                    assert(lookup(acc, k) == Some(acc[i].1));
                    assert(lookup(r, k) == Some(merged(acc[i].1, v)));
                } else {
                    match key_index(acc, k) {
                        Some(w) => {
                            assert(w != i);
                            assert(r[w] == acc[w]);
                        },
                        None => {},
                    }
                }
            },
            None => {
                assert(r == acc.push((kk, v)));
                assert(r.drop_last() =~= acc);
                if k == kk {
                    assert(lookup(acc, k) is None);
                    assert(key_index(r, k) == Some(acc.len() as int));
                } else {
                    assert(key_index(r, k) == key_index(acc, k));
                    lemma_key_index(acc, k);
                    match key_index(acc, k) {
                        Some(w) => {
                            assert(r[w] == acc[w]);
                        },
                        None => {},
                    }
                }
            },
        }
    }
}

/// A key that a nested table of the base holds survives when the overlay
/// holds a table under the same key: merging goes down into the nested
/// tables rather than replacing them.
pub proof fn lemma_nested_base_keys_survive(
    bs: Seq<(Seq<char>, TreeView)>,
    os: Seq<(Seq<char>, TreeView)>,
    k: Seq<char>,
    inner_base: Seq<(Seq<char>, TreeView)>,
    inner_overlay: Seq<(Seq<char>, TreeView)>,
    k2: Seq<char>,
)
    requires
        distinct_keys(os),
        lookup(bs, k) == Some(TreeView::Table(inner_base)),
        lookup(os, k) == Some(TreeView::Table(inner_overlay)),
        has_key(inner_base, k2),
    ensures
        exists|es: Seq<(Seq<char>, TreeView)>| lookup(merged_entries(bs, os), k) == Some(TreeView::Table(es)) && has_key(es, k2),
{
    lemma_merge_takes_each_key(bs, os, k);
    lemma_merge_keeps_keys(inner_base, inner_overlay, k2);
    assert(lookup(merged_entries(bs, os), k) == Some(TreeView::Table(merged_entries(inner_base, inner_overlay))));
}

} // verus!
