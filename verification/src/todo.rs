//! The TODO list of a repository: items form a forest through their parent
//! ids, and the popup lists them depth first, each item followed by its
//! children, siblings by their `order` (then by position).

use vstd::prelude::*;
use vstd::relations::{sorted_by, total_ordering};
use vstd::seq_lib::lemma_no_dup_in_concat;
use crate::actions::Action;
use crate::keys::{
    handle_confirmation_with_enter, handle_text_input, text_input_spec, confirmation_spec, Confirmation,
    KeyEvent, TextInputResult,
};
use crate::state::{AsyncAction, InputMode};
use crate::text::str_eq;
use crate::text_input::TextInput;

verus! {

/// A TODO item.
#[derive(Debug)]
pub struct TodoItem {
    pub id: String,
    /// The item this one is nested under (`None`: a top-level item)
    pub parent_id: Option<String>,
    pub title: String,
    pub description: Option<String>,
    pub completed: bool,
    /// Position among its siblings
    pub order: i32,
}

/// The text of an optional string.
pub open spec fn opt_text(o: Option<String>) -> Option<Seq<char>> {
    match o {
        Some(s) => Some(s@),
        None => None,
    }
}

/// Sibling order: lower `order` first, ties by position in the list.
pub open spec fn sibling_leq(items: Seq<TodoItem>) -> spec_fn(usize, usize) -> bool {
    |a: usize, b: usize|
        items[a as int].order < items[b as int].order || (items[a as int].order
            == items[b as int].order && a <= b)
}

/// The positions of the items nested directly under `parent`, in list order.
pub open spec fn children_of(items: Seq<TodoItem>, parent: Option<Seq<char>>) -> Seq<usize>
    decreases items.len(),
{
    if items.len() == 0 {
        seq![]
    } else {
        let earlier = children_of(items.drop_last(), parent);
        if opt_text(items.last().parent_id) == parent {
            earlier.push((items.len() - 1) as usize)
        } else {
            earlier
        }
    }
}

/// The children of `parent` in sibling order.
pub open spec fn sorted_children(items: Seq<TodoItem>, parent: Option<Seq<char>>) -> Seq<usize> {
    children_of(items, parent).sort_by(sibling_leq(items))
}

/// The items under `parent`, depth first, going at most `depth` levels down.
pub open spec fn subtree_order(items: Seq<TodoItem>, parent: Option<Seq<char>>, depth: nat) -> Seq<
    usize,
>
    decreases depth, 0int, 0int,
{
    if depth == 0 {
        seq![]
    } else {
        forest_order(items, sorted_children(items, parent), (depth - 1) as nat)
    }
}

/// Each item of `list` followed by the items under it, going at most `depth`
/// levels below the list.
pub open spec fn forest_order(items: Seq<TodoItem>, list: Seq<usize>, depth: nat) -> Seq<usize>
    decreases depth, 1int, list.len(),
{
    if list.len() == 0 {
        seq![]
    } else {
        seq![list[0]] + subtree_order(items, Some(items[list[0] as int].id@), depth) + forest_order(
            items,
            list.drop_first(),
            depth,
        )
    }
}

/// The display order of the whole list, `items.len()` levels deep: a depth
/// first listing that goes deeper meets some item twice on one chain of
/// parents, and then never ends.
pub open spec fn display_order_spec(items: Seq<TodoItem>) -> Seq<usize> {
    subtree_order(items, None, items.len())
}

proof fn lemma_sibling_leq_total(items: Seq<TodoItem>)
    ensures
        total_ordering(sibling_leq(items)),
{
}

proof fn lemma_children_in_range(items: Seq<TodoItem>, parent: Option<Seq<char>>)
    requires
        items.len() <= usize::MAX,
    ensures
        forall|k: int|
            0 <= k < children_of(items, parent).len() ==> (#[trigger] children_of(items, parent)[k])
                < items.len(),
    decreases items.len(),
{
    if items.len() > 0 {
        let p = items.drop_last();
        lemma_children_in_range(p, parent);
        assert forall|k: int| 0 <= k < children_of(p, parent).len() implies (#[trigger] children_of(
            p,
            parent,
        )[k]) < items.len() by {}
    }
}

proof fn lemma_sorted_children_in_range(items: Seq<TodoItem>, parent: Option<Seq<char>>)
    requires
        items.len() <= usize::MAX,
    ensures
        forall|k: int|
            0 <= k < sorted_children(items, parent).len() ==> (#[trigger] sorted_children(
                items,
                parent,
            )[k]) < items.len(),
{
    let c = children_of(items, parent);
    let s = sorted_children(items, parent);
    lemma_children_in_range(items, parent);
    lemma_sibling_leq_total(items);
    c.lemma_sort_by_ensures(sibling_leq(items));
    assert forall|k: int| 0 <= k < s.len() implies (#[trigger] s[k]) < items.len() by {
        assert(s.contains(s[k]));
        if !c.contains(s[k]) {
            assert(!s.contains(s[k]));
        }
    }
}

/// The positions of the items directly under `parent`, in list order.
fn collect_children(items: &[TodoItem], parent: Option<&str>) -> (r: Vec<usize>)
    ensures
        r@ == children_of(
            items@,
            match parent {
                Some(p) => Some(p@),
                None => None,
            },
        ),
{
    let ghost want = match parent {
        Some(p) => Some(p@),
        None => None,
    };
    let mut r: Vec<usize> = Vec::new();
    let mut j: usize = 0;
    while j < items.len()
        invariant
            j <= items@.len(),
            want == match parent {
                Some(p) => Some(p@),
                None => None,
            },
            r@ == children_of(items@.take(j as int), want),
        decreases items.len() - j,
    {
        assert(items@.take(j + 1).drop_last() =~= items@.take(j as int));
        let is_child = match (&items[j].parent_id, parent) {
            (Some(a), Some(b)) => str_eq(a.as_str(), b),
            (None, None) => true,
            _ => false,
        };
        if is_child {
            r.push(j);
        }
        j = j + 1;
    }
    assert(items@.take(j as int) =~= items@);
    r
}

/// Whether position `a` comes before or with `b` among siblings.
fn sibling_le(items: &[TodoItem], a: usize, b: usize) -> (r: bool)
    requires
        a < items@.len(),
        b < items@.len(),
    ensures
        r == (sibling_leq(items@))(a, b),
{
    items[a].order < items[b].order || (items[a].order == items[b].order && a <= b)
}

/// The positions sorted in sibling order (a stable sort by `order`).
fn sort_siblings(items: &[TodoItem], v: Vec<usize>) -> (r: Vec<usize>)
    requires
        forall|k: int| 0 <= k < v@.len() ==> (#[trigger] v@[k]) < items@.len(),
    ensures
        r@ == v@.sort_by(sibling_leq(items@)),
{
    let ghost leq = sibling_leq(items@);
    proof {
        lemma_sibling_leq_total(items@);
    }
    let mut r: Vec<usize> = Vec::new();
    let mut i: usize = 0;
    proof {
        broadcast use vstd::seq_lib::group_to_multiset_ensures;

        assert(v@.take(0) =~= r@);
    }
    while i < v.len()
        invariant
            i <= v@.len(),
            leq == sibling_leq(items@),
            total_ordering(leq),
            forall|k: int| 0 <= k < v@.len() ==> (#[trigger] v@[k]) < items@.len(),
            forall|k: int| 0 <= k < r@.len() ==> (#[trigger] r@[k]) < items@.len(),
            sorted_by(r@, leq),
            r@.to_multiset() == v@.take(i as int).to_multiset(),
        decreases v.len() - i,
    {
        let x = v[i];
        let mut p: usize = 0;
        while p < r.len() && sibling_le(items, r[p], x)
            invariant
                p <= r@.len(),
                x < items@.len(),
                forall|k: int| 0 <= k < r@.len() ==> (#[trigger] r@[k]) < items@.len(),
                forall|k: int| 0 <= k < p ==> leq(#[trigger] r@[k], x),
                leq == sibling_leq(items@),
            decreases r.len() - p,
        {
            p = p + 1;
        }
        let ghost before = r@;
        r.insert(p, x);
        proof {
            broadcast use vstd::seq_lib::group_to_multiset_ensures;

            assert(v@.take(i + 1) =~= v@.take(i as int).push(x));
            assert forall|a: int, b: int| 0 <= a < b < r@.len() implies #[trigger] leq(r@[a], r@[b]) by {
                if p < before.len() {
                    assert(!leq(before[p as int], x));
                    assert(leq(x, before[p as int]));
                }
                if b < p {
                    assert(leq(before[a], before[b]));
                } else if b == p {
                    assert(leq(before[a], x));
                } else if a < p {
                    assert(leq(before[a], x));
                    assert(leq(x, before[p as int]));
                    assert(leq(before[p as int], before[b - 1]) || p == b - 1);
                } else if a == p {
                    assert(leq(x, before[p as int]));
                    assert(leq(before[p as int], before[b - 1]) || p == b - 1);
                } else {
                    assert(leq(before[a - 1], before[b - 1]));
                }
            }
        }
        i = i + 1;
    }
    proof {
        assert(v@.take(v@.len() as int) =~= v@);
        v@.lemma_sort_by_ensures(leq);
        vstd::seq_lib::lemma_sorted_unique(r@, v@.sort_by(leq), leq);
    }
    r
}

/// Append the items under `parent`, depth first, at most `depth` levels down.
fn push_subtree(items: &[TodoItem], parent: Option<&str>, depth: usize, order: &mut Vec<usize>)
    ensures
        final(order)@ == old(order)@ + subtree_order(
            items@,
            match parent {
                Some(p) => Some(p@),
                None => None,
            },
            depth as nat,
        ),
    decreases depth,
{
    if depth == 0 {
        assert(old(order)@ + seq![] =~= old(order)@);
        return;
    }
    let ghost want = match parent {
        Some(p) => Some(p@),
        None => None,
    };
    let n = items.len();
    assert(items@.len() == n);
    let children = collect_children(items, parent);
    proof {
        lemma_children_in_range(items@, want);
    }
    let kids = sort_siblings(items, children);
    proof {
        lemma_sorted_children_in_range(items@, want);
        assert(kids@ == sorted_children(items@, want));
    }
    let ghost start = order@;
    let ghost d = (depth - 1) as nat;
    let mut i: usize = 0;
    assert(kids@.skip(0) =~= kids@);
    assert(start + forest_order(items@, kids@, d) =~= order@ + forest_order(items@, kids@.skip(0), d));
    while i < kids.len()
        invariant
            i <= kids@.len(),
            kids@ == sorted_children(items@, want),
            forall|k: int| 0 <= k < kids@.len() ==> (#[trigger] kids@[k]) < items@.len(),
            d == depth - 1,
            start + forest_order(items@, kids@, d) == order@ + forest_order(items@, kids@.skip(i as int), d),
        decreases kids.len() - i,
    {
        let c = kids[i];
        let ghost rest = kids@.skip(i as int);
        assert(rest[0] == c);
        assert(rest.drop_first() =~= kids@.skip(i + 1));
        let ghost here = order@;
        order.push(c);
        push_subtree(items, Some(items[c].id.as_str()), depth - 1, order);
        assert(here + forest_order(items@, rest, d) =~= order@ + forest_order(items@, kids@.skip(i + 1), d));
        i = i + 1;
    }
    assert(kids@.skip(i as int) =~= seq![]);
    assert(order@ + seq![] =~= order@);
}

/// The order in which the popup lists the items.
pub fn display_order(items: &[TodoItem]) -> (r: Vec<usize>)
    ensures
        r@ == display_order_spec(items@),
{
    let mut order: Vec<usize> = Vec::new();
    push_subtree(items, None, items.len(), &mut order);
    assert(seq![] + display_order_spec(items@) =~= display_order_spec(items@));
    order
}

/// The position of the first item with the id.
pub open spec fn position_of_id(items: Seq<TodoItem>, id: Seq<char>) -> Option<int> {
    if exists|j: int| 0 <= j < items.len() && (#[trigger] items[j]).id@ == id {
        Some(
            choose|j: int|
                0 <= j < items.len() && (#[trigger] items[j]).id@ == id && forall|k: int|
                    0 <= k < j ==> (#[trigger] items[k]).id@ != id,
        )
    } else {
        None
    }
}

/// The position of the item's parent, when it has one that is in the list.
pub open spec fn parent_position(items: Seq<TodoItem>, i: int) -> Option<int> {
    match items[i].parent_id {
        Some(p) => position_of_id(items, p@),
        None => None,
    }
}

/// How many parents lie above item `i`, following at most `steps` links
/// (`None` when the chain is longer).
pub open spec fn depth_within(items: Seq<TodoItem>, i: int, steps: nat) -> Option<nat>
    decreases steps,
{
    if steps == 0 {
        None
    } else {
        match parent_position(items, i) {
            None => Some(0),
            Some(p) => match depth_within(items, p, (steps - 1) as nat) {
                Some(d) => Some(d + 1),
                None => None,
            },
        }
    }
}

proof fn lemma_position_of_id(items: Seq<TodoItem>, id: Seq<char>, j: int)
    requires
        0 <= j < items.len(),
        items[j].id@ == id,
        forall|k: int| 0 <= k < j ==> (#[trigger] items[k]).id@ != id,
    ensures
        position_of_id(items, id) == Some(j),
{
    let c = choose|c: int|
        0 <= c < items.len() && (#[trigger] items[c]).id@ == id && forall|k: int|
            0 <= k < c ==> (#[trigger] items[k]).id@ != id;
    if c < j {
        assert(items[c].id@ != id);
    }
    if j < c {
        assert(items[j].id@ != id);
    }
}

proof fn lemma_depth_below_steps(items: Seq<TodoItem>, i: int, steps: nat)
    requires
        depth_within(items, i, steps) is Some,
    ensures
        depth_within(items, i, steps)->Some_0 < steps,
    decreases steps,
{
    if let Some(p) = parent_position(items, i) {
        lemma_depth_below_steps(items, p, (steps - 1) as nat);
    }
}

/// The position of the first item with the id.
fn find_item(items: &[TodoItem], id: &str) -> (r: Option<usize>)
    ensures
        match r {
            Some(j) => position_of_id(items@, id@) == Some(j as int) && j < items@.len(),
            None => position_of_id(items@, id@) is None,
        },
{
    let mut j: usize = 0;
    while j < items.len()
        invariant
            j <= items@.len(),
            forall|k: int| 0 <= k < j ==> (#[trigger] items@[k]).id@ != id@,
        decreases items.len() - j,
    {
        if str_eq(items[j].id.as_str(), id) {
            proof {
                lemma_position_of_id(items@, id@, j as int);
            }
            return Some(j);
        }
        j = j + 1;
    }
    None
}

/// No two items share an id.
pub open spec fn unique_ids(items: Seq<TodoItem>) -> bool {
    forall|a: int, b: int| 0 <= a < items.len() && 0 <= b < items.len() && #[trigger] items[a].id@ == #[trigger] items[b].id@ ==> a == b
}

/// Following more links never loses a depth that was found.
proof fn lemma_depth_more_steps(items: Seq<TodoItem>, i: int, s: nat, t: nat)
    requires
        s <= t,
        depth_within(items, i, s) is Some,
    ensures
        depth_within(items, i, t) == depth_within(items, i, s),
    decreases s,
{
    match parent_position(items, i) {
        None => {},
        Some(p) => {
            lemma_depth_more_steps(items, p, (s - 1) as nat, (t - 1) as nat);
        },
    }
}

/// The children of `parent` are items of the list whose parent is `parent`.
proof fn lemma_children_props(items: Seq<TodoItem>, parent: Option<Seq<char>>)
    requires
        items.len() <= usize::MAX,
    ensures
        forall|k: int|
            0 <= k < children_of(items, parent).len() ==> {
                let c = #[trigger] children_of(items, parent)[k] as int;
                0 <= c < items.len() && opt_text(items[c].parent_id) == parent
            },
    decreases items.len(),
{
    if items.len() > 0 {
        let p = items.drop_last();
        lemma_children_props(p, parent);
        assert forall|k: int| 0 <= k < children_of(p, parent).len() implies {
            let c = #[trigger] children_of(p, parent)[k] as int;
            items[c] == p[c]
        } by {}
    }
}

/// The sorted children of `parent` are items of the list whose parent is `parent`.
proof fn lemma_sorted_children_props(items: Seq<TodoItem>, parent: Option<Seq<char>>)
    requires
        items.len() <= usize::MAX,
    ensures
        forall|k: int|
            0 <= k < sorted_children(items, parent).len() ==> {
                let c = #[trigger] sorted_children(items, parent)[k] as int;
                0 <= c < items.len() && opt_text(items[c].parent_id) == parent
            },
{
    let c = children_of(items, parent);
    let s = sorted_children(items, parent);
    lemma_children_props(items, parent);
    lemma_sibling_leq_total(items);
    c.lemma_sort_by_ensures(sibling_leq(items));
    assert forall|k: int| 0 <= k < s.len() implies {
        let x = #[trigger] s[k] as int;
        0 <= x < items.len() && opt_text(items[x].parent_id) == parent
    } by {
        assert(s.contains(s[k]));
        if !c.contains(s[k]) {
            assert(!s.contains(s[k]));
        }
        let j = choose|j: int| 0 <= j < c.len() && c[j] == s[k];
        assert(c[j] == s[k]);
    }
}

/// With unique ids, the item with an item's id is that item.
proof fn lemma_unique_position(items: Seq<TodoItem>, a: int)
    requires
        unique_ids(items),
        0 <= a < items.len(),
    ensures
        position_of_id(items, items[a].id@) == Some(a),
{
    let j = choose|j: int|
        0 <= j < items.len() && (#[trigger] items[j]).id@ == items[a].id@ && forall|k: int|
            0 <= k < j ==> (#[trigger] items[k]).id@ != items[a].id@;
    assert(items[a].id@ == items[a].id@);
}

/// Whether `parent` is the parent of the items at nesting level `level`:
/// none at the top, else an item at the level above.
pub open spec fn parent_at_level(items: Seq<TodoItem>, parent: Option<Seq<char>>, level: nat) -> bool {
    match parent {
        None => level == 0,
        Some(p) => level > 0 && exists|a: int|
            0 <= a < items.len() && (#[trigger] items[a]).id@ == p && depth_within(items, a, level) == Some(
                (level - 1) as nat,
            ),
    }
}

/// The items under a parent at level `level - 1`, listed at most `depth`
/// levels down, all have a depth within `level + depth` links.
proof fn lemma_subtree_depths(items: Seq<TodoItem>, parent: Option<Seq<char>>, level: nat, depth: nat)
    requires
        unique_ids(items),
        items.len() <= usize::MAX,
        parent_at_level(items, parent, level),
    ensures
        forall|k: int|
            0 <= k < subtree_order(items, parent, depth).len() ==> {
                let x = #[trigger] subtree_order(items, parent, depth)[k] as int;
                0 <= x < items.len() && depth_within(items, x, level + depth) is Some
            },
    decreases depth, 0int, 0int,
{
    if depth > 0 {
        let kids = sorted_children(items, parent);
        lemma_sorted_children_props(items, parent);
        assert forall|k: int| 0 <= k < kids.len() implies {
            let c = #[trigger] kids[k] as int;
            0 <= c < items.len() && depth_within(items, c, level + 1) == Some(level)
        } by {
            let c = kids[k] as int;
            match parent {
                None => {
                    assert(items[c].parent_id is None);
                },
                Some(p) => {
                    let a = choose|a: int|
                        0 <= a < items.len() && (#[trigger] items[a]).id@ == p && depth_within(items, a, level) == Some(
                            (level - 1) as nat,
                        );
                    lemma_unique_position(items, a);
                    assert(parent_position(items, c) == Some(a));
                },
            }
        }
        lemma_forest_depths(items, kids, level, (depth - 1) as nat);
    }
}

/// Each item of `list` (all at level `level`) and the items under it, at
/// most `depth` levels below, have a depth within `level + 1 + depth` links.
proof fn lemma_forest_depths(items: Seq<TodoItem>, list: Seq<usize>, level: nat, depth: nat)
    requires
        unique_ids(items),
        items.len() <= usize::MAX,
        forall|k: int|
            0 <= k < list.len() ==> {
                let c = #[trigger] list[k] as int;
                0 <= c < items.len() && depth_within(items, c, level + 1) == Some(level)
            },
    ensures
        forall|k: int|
            0 <= k < forest_order(items, list, depth).len() ==> {
                let x = #[trigger] forest_order(items, list, depth)[k] as int;
                0 <= x < items.len() && depth_within(items, x, level + 1 + depth) is Some
            },
    decreases depth, 1int, list.len(),
{
    if list.len() > 0 {
        let c = list[0] as int;
        assert(depth_within(items, c, level + 1) == Some(level));
        lemma_depth_more_steps(items, c, level + 1, level + 1 + depth);
        assert(parent_at_level(items, Some(items[c].id@), level + 1));
        lemma_subtree_depths(items, Some(items[c].id@), level + 1, depth);
        assert forall|k: int| 0 <= k < list.drop_first().len() implies {
            let y = #[trigger] list.drop_first()[k] as int;
            0 <= y < items.len() && depth_within(items, y, level + 1) == Some(level)
        } by {
            assert(list.drop_first()[k] == list[k + 1]);
        }
        lemma_forest_depths(items, list.drop_first(), level, depth);
        let head = seq![list[0]];
        let sub = subtree_order(items, Some(items[c].id@), depth);
        let rest = forest_order(items, list.drop_first(), depth);
        assert(forest_order(items, list, depth) == head + sub + rest);
    }
}

/// Every item the TODO list shows has a depth: when no two items share an
/// id, the chain of parents of a listed item ends within the list.
pub proof fn law_listed_todos_have_depth(items: Seq<TodoItem>)
    requires
        unique_ids(items),
        items.len() <= usize::MAX,
    ensures
        forall|k: int|
            0 <= k < display_order_spec(items).len() ==> {
                let i = #[trigger] display_order_spec(items)[k] as int;
                0 <= i < items.len() && depth_within(items, i, items.len() + 1) is Some
            },
{
    lemma_subtree_depths(items, None, 0, items.len());
    assert forall|k: int| 0 <= k < display_order_spec(items).len() implies {
        let i = #[trigger] display_order_spec(items)[k] as int;
        0 <= i < items.len() && depth_within(items, i, items.len() + 1) is Some
    } by {
        let i = display_order_spec(items)[k] as int;
        lemma_depth_more_steps(items, i, items.len(), items.len() + 1);
    }
}

/// The item reached from item `i` by following `n` parent links.
pub open spec fn ancestor(items: Seq<TodoItem>, i: int, n: nat) -> Option<int>
    decreases n,
{
    if n == 0 {
        Some(i)
    } else {
        match parent_position(items, i) {
            None => None,
            Some(p) => ancestor(items, p, (n - 1) as nat),
        }
    }
}

/// One more link past an ancestor reaches that ancestor's parent.
proof fn lemma_ancestor_extend(items: Seq<TodoItem>, x: int, n: nat, c: int, a: int)
    requires
        ancestor(items, x, n) == Some(c),
        parent_position(items, c) == Some(a),
    ensures
        ancestor(items, x, n + 1) == Some(a),
    decreases n,
{
    if n == 0 {
        assert(ancestor(items, a, 0) == Some(a));
    } else {
        let p = parent_position(items, x)->Some_0;
        lemma_ancestor_extend(items, p, (n - 1) as nat, c, a);
        assert(((n - 1) as nat + 1) as nat == n);
    }
}

/// No position is a child twice.
proof fn lemma_children_no_duplicates(items: Seq<TodoItem>, parent: Option<Seq<char>>)
    requires
        items.len() <= usize::MAX,
    ensures
        children_of(items, parent).no_duplicates(),
    decreases items.len(),
{
    if items.len() > 0 {
        let p = items.drop_last();
        lemma_children_no_duplicates(p, parent);
        lemma_children_in_range(p, parent);
    }
}

/// Sorting the children keeps them distinct.
proof fn lemma_sorted_children_no_duplicates(items: Seq<TodoItem>, parent: Option<Seq<char>>)
    requires
        items.len() <= usize::MAX,
    ensures
        sorted_children(items, parent).no_duplicates(),
{
    let c = children_of(items, parent);
    let s = sorted_children(items, parent);
    lemma_children_no_duplicates(items, parent);
    lemma_sibling_leq_total(items);
    c.lemma_sort_by_ensures(sibling_leq(items));
    c.lemma_multiset_has_no_duplicates();
    s.lemma_multiset_has_no_duplicates_conv();
}

/// The items under a parent at level `level - 1`, listed at most `depth`
/// levels down, are distinct; each lies at a level of at least `level`, and
/// the parent is its ancestor at level `level - 1`.
proof fn lemma_subtree_distinct(items: Seq<TodoItem>, parent: Option<Seq<char>>, level: nat, depth: nat)
    requires
        unique_ids(items),
        items.len() <= usize::MAX,
        parent_at_level(items, parent, level),
    ensures
        subtree_order(items, parent, depth).no_duplicates(),
        forall|k: int|
            0 <= k < subtree_order(items, parent, depth).len() ==> {
                let x = #[trigger] subtree_order(items, parent, depth)[k] as int;
                let d = depth_within(items, x, level + depth);
                &&& 0 <= x < items.len()
                &&& d is Some
                &&& d->Some_0 >= level
                &&& parent is Some ==> ancestor(items, x, (d->Some_0 + 1 - level) as nat)
                    == position_of_id(items, parent->Some_0)
            },
    decreases depth, 0int, 0int,
{
    if depth > 0 {
        let kids = sorted_children(items, parent);
        lemma_sorted_children_props(items, parent);
        lemma_sorted_children_no_duplicates(items, parent);
        assert forall|k: int| 0 <= k < kids.len() implies {
            let c = #[trigger] kids[k] as int;
            &&& 0 <= c < items.len()
            &&& depth_within(items, c, level + 1) == Some(level)
            &&& parent is Some ==> parent_position(items, c) == position_of_id(items, parent->Some_0)
        } by {
            let c = kids[k] as int;
            match parent {
                None => {
                    assert(items[c].parent_id is None);
                },
                Some(p) => {
                    let a = choose|a: int|
                        0 <= a < items.len() && (#[trigger] items[a]).id@ == p && depth_within(items, a, level) == Some(
                            (level - 1) as nat,
                        );
                    lemma_unique_position(items, a);
                    assert(parent_position(items, c) == Some(a));
                },
            }
        }
        lemma_forest_distinct(items, kids, level, (depth - 1) as nat);
        let listed = subtree_order(items, parent, depth);
        assert forall|k: int| 0 <= k < listed.len() implies {
            let x = #[trigger] listed[k] as int;
            let d = depth_within(items, x, level + depth);
            &&& 0 <= x < items.len()
            &&& d is Some
            &&& d->Some_0 >= level
            &&& parent is Some ==> ancestor(items, x, (d->Some_0 + 1 - level) as nat)
                == position_of_id(items, parent->Some_0)
        } by {
            let x = listed[k] as int;
            let d = depth_within(items, x, level + depth)->Some_0;
            assert(level + 1 + (depth - 1) as nat == level + depth);
            if parent is Some {
                let j = choose|j: int|
                    0 <= j < kids.len() && ancestor(items, x, (d - level) as nat) == Some(
                        #[trigger] kids[j] as int,
                    );
                let c = kids[j] as int;
                let a = position_of_id(items, parent->Some_0)->Some_0;
                assert(parent_position(items, c) == Some(a));
                lemma_ancestor_extend(items, x, (d - level) as nat, c, a);
                assert((d - level) as nat + 1 == (d + 1 - level) as nat);
            }
        }
    }
}

/// The items of `list` (distinct, all at level `level`), each followed by
/// the items under it at most `depth` levels below, are distinct; each lies
/// at a level of at least `level`, with an item of `list` as its ancestor at
/// level `level`.
proof fn lemma_forest_distinct(items: Seq<TodoItem>, list: Seq<usize>, level: nat, depth: nat)
    requires
        unique_ids(items),
        items.len() <= usize::MAX,
        list.no_duplicates(),
        forall|k: int|
            0 <= k < list.len() ==> {
                let c = #[trigger] list[k] as int;
                0 <= c < items.len() && depth_within(items, c, level + 1) == Some(level)
            },
    ensures
        forest_order(items, list, depth).no_duplicates(),
        forall|k: int|
            0 <= k < forest_order(items, list, depth).len() ==> {
                let x = #[trigger] forest_order(items, list, depth)[k] as int;
                let d = depth_within(items, x, level + 1 + depth);
                &&& 0 <= x < items.len()
                &&& d is Some
                &&& d->Some_0 >= level
                &&& exists|j: int|
                    0 <= j < list.len() && ancestor(items, x, (d->Some_0 - level) as nat) == Some(
                        #[trigger] list[j] as int,
                    )
            },
    decreases depth, 1int, list.len(),
{
    if list.len() > 0 {
        let c = list[0] as int;
        let bound = level + 1 + depth;
        assert(depth_within(items, c, level + 1) == Some(level));
        lemma_depth_more_steps(items, c, level + 1, bound);
        assert(parent_at_level(items, Some(items[c].id@), level + 1));
        lemma_subtree_distinct(items, Some(items[c].id@), level + 1, depth);
        lemma_unique_position(items, c);
        let tail = list.drop_first();
        assert forall|k: int| 0 <= k < tail.len() implies {
            let y = #[trigger] tail[k] as int;
            0 <= y < items.len() && depth_within(items, y, level + 1) == Some(level)
        } by {
            assert(tail[k] == list[k + 1]);
        }
        lemma_forest_distinct(items, tail, level, depth);
        let head = seq![list[0]];
        let sub = subtree_order(items, Some(items[c].id@), depth);
        let rest = forest_order(items, tail, depth);
        assert(level + 1 + depth == bound);
        assert(forest_order(items, list, depth) == head + sub + rest);
        assert forall|i: int, j: int| 0 <= i < head.len() && 0 <= j < sub.len() implies head[i]
            != sub[j] by {
            let x = sub[j] as int;
            if x == c {
                assert(depth_within(items, x, bound) == Some(level));
            }
        }
        lemma_no_dup_in_concat(head, sub);
        let front = head + sub;
        assert forall|i: int, j: int| 0 <= i < front.len() && 0 <= j < rest.len() implies front[i]
            != rest[j] by {
            let x = rest[j] as int;
            let d = depth_within(items, x, bound)->Some_0;
            let jj = choose|jj: int|
                0 <= jj < tail.len() && ancestor(items, x, (d - level) as nat) == Some(
                    #[trigger] tail[jj] as int,
                );
            assert(tail[jj] == list[jj + 1]);
            if front[i] as int == x {
                if i == 0 {
                    assert(depth_within(items, c, bound) == Some(level));
                    assert(ancestor(items, x, 0) == Some(x));
                } else {
                    assert(front[i] == sub[i - 1]);
                    assert((d - level) as nat == (d + 1 - (level + 1)) as nat);
                }
                assert(list[0] == list[jj + 1]);
            }
        }
        lemma_no_dup_in_concat(front, rest);
        let all = forest_order(items, list, depth);
        assert forall|k: int| 0 <= k < all.len() implies {
            let x = #[trigger] all[k] as int;
            let d = depth_within(items, x, bound);
            &&& 0 <= x < items.len()
            &&& d is Some
            &&& d->Some_0 >= level
            &&& exists|j: int|
                0 <= j < list.len() && ancestor(items, x, (d->Some_0 - level) as nat) == Some(
                    #[trigger] list[j] as int,
                )
        } by {
            let x = all[k] as int;
            if k == 0 {
                assert(all[k] == list[0]);
                assert(ancestor(items, x, 0) == Some(x));
                assert(ancestor(items, x, (level - level) as nat) == Some(list[0] as int));
            } else if k < 1 + sub.len() {
                assert(all[k] == sub[k - 1]);
                let d = depth_within(items, x, bound)->Some_0;
                assert((d - level) as nat == (d + 1 - (level + 1)) as nat);
                assert(ancestor(items, x, (d - level) as nat) == Some(list[0] as int));
            } else {
                assert(all[k] == rest[k - 1 - sub.len()]);
                let d = depth_within(items, x, bound)->Some_0;
                let jj = choose|jj: int|
                    0 <= jj < tail.len() && ancestor(items, x, (d - level) as nat) == Some(
                        #[trigger] tail[jj] as int,
                    );
                assert(tail[jj] == list[jj + 1]);
            }
        }
    }
}

/// The TODO list shows each item at most once: when no two items share an
/// id, no position occurs twice in the display order.
pub proof fn law_listed_todos_are_distinct(items: Seq<TodoItem>)
    requires
        unique_ids(items),
        items.len() <= usize::MAX,
    ensures
        display_order_spec(items).no_duplicates(),
{
    lemma_subtree_distinct(items, None, 0, items.len());
}

/// Whether following `d` parent links from item `i` reaches a top-level item
/// (one with no parent id), each link to an item of the list.
pub open spec fn reaches_top(items: Seq<TodoItem>, i: int, d: nat) -> bool
    decreases d,
{
    match items[i].parent_id {
        None => d == 0,
        Some(p) => d > 0 && match position_of_id(items, p@) {
            Some(q) => reaches_top(items, q, (d - 1) as nat),
            None => false,
        },
    }
}

/// The position found for an id holds an item with that id.
proof fn lemma_position_found(items: Seq<TodoItem>, id: Seq<char>)
    requires
        position_of_id(items, id) is Some,
    ensures
        0 <= position_of_id(items, id)->Some_0 < items.len(),
        items[position_of_id(items, id)->Some_0].id@ == id,
{
    assert(exists|j: int| 0 <= j < items.len() && (#[trigger] items[j]).id@ == id);
    let w = choose|j: int| 0 <= j < items.len() && (#[trigger] items[j]).id@ == id;
    assert(exists|j: int|
        0 <= j < items.len() && (#[trigger] items[j]).id@ == id && forall|k: int|
            0 <= k < j ==> (#[trigger] items[k]).id@ != id) by {
        lemma_least_position(items, id, w);
    }
}

proof fn lemma_least_position(items: Seq<TodoItem>, id: Seq<char>, w: int)
    requires
        0 <= w < items.len(),
        items[w].id@ == id,
    ensures
        exists|j: int|
            0 <= j < items.len() && (#[trigger] items[j]).id@ == id && forall|k: int|
                0 <= k < j ==> (#[trigger] items[k]).id@ != id,
    decreases w,
{
    if exists|k: int| 0 <= k < w && (#[trigger] items[k]).id@ == id {
        let k = choose|k: int| 0 <= k < w && (#[trigger] items[k]).id@ == id;
        lemma_least_position(items, id, k);
    } else {
        assert(forall|k: int| 0 <= k < w ==> (#[trigger] items[k]).id@ != id);
    }
}

/// An item is among the children of its parent.
proof fn lemma_child_listed(items: Seq<TodoItem>, x: int)
    requires
        0 <= x < items.len(),
        items.len() <= usize::MAX,
    ensures
        sorted_children(items, opt_text(items[x].parent_id)).contains(x as usize),
{
    let parent = opt_text(items[x].parent_id);
    lemma_children_contains(items, parent, x);
    let c = children_of(items, parent);
    lemma_sibling_leq_total(items);
    c.lemma_sort_by_ensures(sibling_leq(items));
    vstd::seq_lib::to_multiset_contains(c, x as usize);
    vstd::seq_lib::to_multiset_contains(sorted_children(items, parent), x as usize);
}

proof fn lemma_children_contains(items: Seq<TodoItem>, parent: Option<Seq<char>>, x: int)
    requires
        0 <= x < items.len(),
        items.len() <= usize::MAX,
        opt_text(items[x].parent_id) == parent,
    ensures
        children_of(items, parent).contains(x as usize),
    decreases items.len(),
{
    let p = items.drop_last();
    let earlier = children_of(p, parent);
    if x == items.len() - 1 {
        assert(children_of(items, parent) == earlier.push(x as usize));
        assert(earlier.push(x as usize)[earlier.len() as int] == x as usize);
    } else {
        assert(p[x] == items[x]);
        lemma_children_contains(p, parent, x);
        let j = choose|j: int| 0 <= j < earlier.len() && earlier[j] == x as usize;
        if opt_text(items.last().parent_id) == parent {
            assert(earlier.push((items.len() - 1) as usize)[j] == x as usize);
        }
    }
}

/// Every item of the list is listed in the forest.
proof fn lemma_forest_lists_heads(items: Seq<TodoItem>, list: Seq<usize>, depth: nat, c: usize)
    requires
        list.contains(c),
    ensures
        forest_order(items, list, depth).contains(c),
    decreases list.len(),
{
    let all = forest_order(items, list, depth);
    if list[0] == c {
        assert(all[0] == c);
    } else {
        let j = choose|j: int| 0 <= j < list.len() && list[j] == c;
        assert(list.drop_first()[j - 1] == c);
        lemma_forest_lists_heads(items, list.drop_first(), depth, c);
        let rest = forest_order(items, list.drop_first(), depth);
        let sub = subtree_order(items, Some(items[list[0] as int].id@), depth);
        let k = choose|k: int| 0 <= k < rest.len() && rest[k] == c;
        assert(all == seq![list[0]] + sub + rest);
        assert(all[1 + sub.len() + k] == c);
    }
}

/// Every item listed under an item of the list is listed in the forest.
proof fn lemma_forest_lists_subtrees(items: Seq<TodoItem>, list: Seq<usize>, depth: nat, c: usize, y: usize)
    requires
        list.contains(c),
        subtree_order(items, Some(items[c as int].id@), depth).contains(y),
    ensures
        forest_order(items, list, depth).contains(y),
    decreases list.len(),
{
    let all = forest_order(items, list, depth);
    let sub = subtree_order(items, Some(items[list[0] as int].id@), depth);
    let rest = forest_order(items, list.drop_first(), depth);
    assert(all == seq![list[0]] + sub + rest);
    if list[0] == c {
        let k = choose|k: int| 0 <= k < sub.len() && sub[k] == y;
        assert(all[1 + k] == y);
    } else {
        let j = choose|j: int| 0 <= j < list.len() && list[j] == c;
        assert(list.drop_first()[j - 1] == c);
        lemma_forest_lists_subtrees(items, list.drop_first(), depth, c, y);
        let k = choose|k: int| 0 <= k < rest.len() && rest[k] == y;
        assert(all[1 + sub.len() + k] == y);
    }
}

/// An item `d` links below the top, with `budget` levels to list, is listed,
/// and so is everything listed under it with the levels left.
proof fn lemma_reached_listed(items: Seq<TodoItem>, x: int, d: nat, budget: nat)
    requires
        0 <= x < items.len(),
        items.len() <= usize::MAX,
        reaches_top(items, x, d),
        d < budget,
    ensures
        subtree_order(items, None, budget).contains(x as usize),
        forall|y: usize|
            #[trigger] subtree_order(items, Some(items[x].id@), (budget - 1 - d) as nat).contains(y)
                ==> subtree_order(items, None, budget).contains(y),
    decreases d,
{
    let top = subtree_order(items, None, budget);
    lemma_child_listed(items, x);
    match items[x].parent_id {
        None => {
            let roots = sorted_children(items, None);
            assert(opt_text(items[x].parent_id) == None::<Seq<char>>);
            assert(top == forest_order(items, roots, (budget - 1) as nat));
            lemma_forest_lists_heads(items, roots, (budget - 1) as nat, x as usize);
            assert forall|y: usize|
                #[trigger] subtree_order(items, Some(items[x].id@), (budget - 1 - d) as nat).contains(y)
                    implies top.contains(y) by {
                lemma_forest_lists_subtrees(items, roots, (budget - 1) as nat, x as usize, y);
            }
        },
        Some(p) => {
            let q = position_of_id(items, p@)->Some_0;
            lemma_position_found(items, p@);
            lemma_reached_listed(items, q, (d - 1) as nat, budget);
            let left = (budget - 1 - d) as nat;
            assert((budget - 1 - (d - 1) as nat) as nat == left + 1);
            let kids = sorted_children(items, Some(items[q].id@));
            assert(opt_text(items[x].parent_id) == Some(items[q].id@));
            let under_q = subtree_order(items, Some(items[q].id@), left + 1);
            assert(under_q == forest_order(items, kids, left));
            lemma_forest_lists_heads(items, kids, left, x as usize);
            assert(under_q.contains(x as usize));
            assert forall|y: usize|
                #[trigger] subtree_order(items, Some(items[x].id@), left).contains(y) implies top.contains(
                    y,
                ) by {
                lemma_forest_lists_subtrees(items, kids, left, x as usize, y);
                assert(under_q.contains(y));
            }
        },
    }
}

/// The TODO list shows every item whose chain of parents reaches a top-level
/// item within the list's depth: each item that hangs, link by link, from an
/// item without a parent.
pub proof fn law_reachable_todos_are_listed(items: Seq<TodoItem>, i: int, d: nat)
    requires
        0 <= i < items.len(),
        items.len() <= usize::MAX,
        reaches_top(items, i, d),
        d < items.len(),
    ensures
        display_order_spec(items).contains(i as usize),
{
    lemma_reached_listed(items, i, d, items.len());
}

/// How deeply the item is nested: the number of parents above it. Its chain
/// of parents must end: on a loop of parents the nesting has no depth.
pub fn calculate_depth(items: &[TodoItem], item_idx: usize) -> (r: usize)
    requires
        item_idx < items@.len(),
        depth_within(items@, item_idx as int, items@.len() + 1) is Some,
    ensures
        r == depth_within(items@, item_idx as int, items@.len() + 1)->Some_0,
{
    let ghost steps_total = items@.len() + 1;
    let ghost mut steps: nat = steps_total;
    let mut cur = item_idx;
    let mut depth: usize = 0;
    let n = items.len();
    loop
        invariant
            n == items@.len(),
            cur < items@.len(),
            depth + steps == steps_total,
            steps_total == items@.len() + 1,
            depth_within(items@, cur as int, steps) is Some,
            depth_within(items@, item_idx as int, steps_total)->Some_0 == depth_within(
                items@,
                cur as int,
                steps,
            )->Some_0 + depth,
        decreases steps,
    {
        let parent = match &items[cur].parent_id {
            Some(p) => find_item(items, p.as_str()),
            None => None,
        };
        match parent {
            None => {
                return depth;
            },
            Some(p) => {
                proof {
                    lemma_depth_below_steps(items@, p as int, (steps - 1) as nat);
                    steps = (steps - 1) as nat;
                }
                cur = p;
                depth = depth + 1;
            },
        }
    }
}

/// The TODO popup: the items, the order they are listed in, and the cursor
/// in that listing.
#[derive(Debug)]
pub struct TodoState {
    pub items: Vec<TodoItem>,
    /// Positions in `items`, in listing order
    pub display_order: Vec<usize>,
    /// Row of the listing under the cursor
    pub cursor: usize,
    pub scroll_offset: usize,
    pub show_completed: bool,
}

impl TodoState {
    /// The item under the cursor, by position in `items`.
    pub open spec fn selected_spec(&self) -> Option<int> {
        if self.cursor < self.display_order@.len() && self.display_order@[self.cursor as int]
            < self.items@.len() {
            Some(self.display_order@[self.cursor as int] as int)
        } else {
            None
        }
    }

    /// The item under the cursor.
    fn selected(&self) -> (r: Option<usize>)
        ensures
            match r {
                Some(i) => self.selected_spec() == Some(i as int),
                None => self.selected_spec() is None,
            },
    {
        if self.cursor < self.display_order.len() && self.display_order[self.cursor] < self.items.len() {
            Some(self.display_order[self.cursor])
        } else {
            None
        }
    }

    /// Take the daemon's list of items and list them anew.
    pub fn set_items(&mut self, items: Vec<TodoItem>)
        ensures
            final(self).items == items,
            final(self).display_order@ == display_order_spec(items@),
            final(self).cursor == old(self).cursor,
            final(self).scroll_offset == old(self).scroll_offset,
            final(self).show_completed == old(self).show_completed,
    {
        self.items = items;
        self.rebuild_todo_display_order();
    }

    /// List the items depth first, children after their parent.
    pub fn rebuild_todo_display_order(&mut self)
        ensures
            final(self).display_order@ == display_order_spec(old(self).items@),
            final(self).items == old(self).items,
            final(self).cursor == old(self).cursor,
            final(self).scroll_offset == old(self).scroll_offset,
            final(self).show_completed == old(self).show_completed,
    {
        self.display_order = display_order(self.items.as_slice());
    }

    /// The last row of the listing (0 when it is empty).
    pub open spec fn last_row(&self) -> usize {
        if self.display_order@.len() > 0 {
            (self.display_order@.len() - 1) as usize
        } else {
            0
        }
    }

    /// Carry out an action of the TODO popup. Editing actions open the dialog
    /// in `input_mode` with the text field `input` prepared; others move the
    /// cursor or return the request for the daemon.
    pub fn execute_todo_action(&mut self, action: Action, input_mode: &mut InputMode, input: &mut TextInput) -> (r:
        Option<AsyncAction>)
        requires
            old(input).wf(),
        ensures
            final(input).wf(),
            final(self).items == old(self).items,
            final(self).display_order == old(self).display_order,
            final(self).scroll_offset == old(self).scroll_offset,
            action != Action::ToggleShowCompleted ==> final(self).show_completed == old(self).show_completed,
            !(action == Action::MoveDown || action == Action::MoveUp || action == Action::GotoTop
                || action == Action::GotoBottom) ==> final(self).cursor == old(self).cursor,
            match action {
                Action::MoveDown => {
                    &&& r is None
                    &&& final(self).cursor == if old(self).cursor < old(self).last_row() {
                        (old(self).cursor + 1) as usize
                    } else {
                        old(self).cursor
                    }
                    &&& *final(input_mode) == *old(input_mode)
                    &&& final(input)@ == old(input)@
                },
                Action::MoveUp => {
                    &&& r is None
                    &&& final(self).cursor == if old(self).cursor > 0 {
                        (old(self).cursor - 1) as usize
                    } else {
                        0
                    }
                    &&& *final(input_mode) == *old(input_mode)
                    &&& final(input)@ == old(input)@
                },
                Action::GotoTop => r is None && final(self).cursor == 0 && *final(input_mode)
                    == *old(input_mode) && final(input)@ == old(input)@,
                Action::GotoBottom => r is None && final(self).cursor == old(self).last_row()
                    && *final(input_mode) == *old(input_mode) && final(input)@ == old(input)@,
                Action::ToggleTodoComplete => *final(input_mode) == *old(input_mode) && final(input)@
                    == old(input)@ && match old(self).selected_spec() {
                    Some(i) => r matches Some(AsyncAction::ToggleTodo { todo_id }) && todo_id@
                        == old(self).items@[i].id@,
                    None => r is None,
                },
                Action::AddTodo => r is None && *final(input_mode) == (InputMode::AddTodo {
                    parent_id: None,
                }) && final(input)@.text.len() == 0,
                Action::AddChildTodo => r is None && match old(self).selected_spec() {
                    Some(i) => {
                        &&& final(input)@.text.len() == 0
                        &&& *final(input_mode) matches InputMode::AddTodo { parent_id: Some(p) } && p@
                            == old(self).items@[i].id@
                    },
                    None => *final(input_mode) == *old(input_mode) && final(input)@ == old(input)@,
                },
                Action::EditTodoTitle => r is None && match old(self).selected_spec() {
                    Some(i) => {
                        &&& final(input)@.text == old(self).items@[i].title@
                        &&& final(input)@.cursor == final(input)@.text.len()
                        &&& *final(input_mode) matches InputMode::EditTodo { todo_id } && todo_id@
                            == old(self).items@[i].id@
                    },
                    None => *final(input_mode) == *old(input_mode) && final(input)@ == old(input)@,
                },
                Action::EditTodoDescription => r is None && match old(self).selected_spec() {
                    Some(i) => {
                        &&& final(input)@.text == match old(self).items@[i].description {
                            Some(d) => d@,
                            None => Seq::empty(),
                        }
                        &&& final(input)@.cursor == final(input)@.text.len()
                        &&& *final(input_mode) matches InputMode::EditTodoDescription { todo_id }
                            && todo_id@ == old(self).items@[i].id@
                    },
                    None => *final(input_mode) == *old(input_mode) && final(input)@ == old(input)@,
                },
                Action::DeleteTodo => r is None && final(input)@ == old(input)@ && match old(
                    self,
                ).selected_spec() {
                    Some(i) => *final(input_mode) matches InputMode::ConfirmDeleteTodo { todo_id, title }
                        && todo_id@ == old(self).items@[i].id@ && title@ == old(self).items@[i].title@,
                    None => *final(input_mode) == *old(input_mode),
                },
                Action::RefreshTodos => r matches Some(AsyncAction::LoadTodos) && *final(input_mode)
                    == *old(input_mode) && final(input)@ == old(input)@ && final(self).show_completed
                    == old(self).show_completed,
                Action::ToggleShowCompleted => r matches Some(AsyncAction::LoadTodos)
                    && final(self).show_completed == !old(self).show_completed && *final(input_mode)
                    == *old(input_mode) && final(input)@ == old(input)@,
                _ => r is None && *final(input_mode) == *old(input_mode) && final(input)@ == old(input)@,
            },
    {
        match action {
            Action::MoveDown => {
                let last = if self.display_order.len() > 0 {
                    self.display_order.len() - 1
                } else {
                    0
                };
                if self.cursor < last {
                    self.cursor = self.cursor + 1;
                }
                None
            },
            Action::MoveUp => {
                if self.cursor > 0 {
                    self.cursor = self.cursor - 1;
                }
                None
            },
            Action::GotoTop => {
                self.cursor = 0;
                None
            },
            Action::GotoBottom => {
                self.cursor = if self.display_order.len() > 0 {
                    self.display_order.len() - 1
                } else {
                    0
                };
                None
            },
            Action::ToggleTodoComplete => match self.selected() {
                Some(i) => Some(AsyncAction::ToggleTodo { todo_id: self.items[i].id.clone() }),
                None => None,
            },
            Action::AddTodo => {
                *input_mode = InputMode::AddTodo { parent_id: None };
                input.clear();
                None
            },
            Action::AddChildTodo => {
                if let Some(i) = self.selected() {
                    *input_mode = InputMode::AddTodo { parent_id: Some(self.items[i].id.clone()) };
                    input.clear();
                }
                None
            },
            Action::EditTodoTitle => {
                if let Some(i) = self.selected() {
                    *input_mode = InputMode::EditTodo { todo_id: self.items[i].id.clone() };
                    input.set_content(self.items[i].title.as_str());
                }
                None
            },
            Action::EditTodoDescription => {
                if let Some(i) = self.selected() {
                    *input_mode = InputMode::EditTodoDescription { todo_id: self.items[i].id.clone() };
                    match &self.items[i].description {
                        Some(d) => input.set_content(d.as_str()),
                        None => input.clear(),
                    }
                }
                None
            },
            Action::DeleteTodo => {
                if let Some(i) = self.selected() {
                    *input_mode = InputMode::ConfirmDeleteTodo {
                        todo_id: self.items[i].id.clone(),
                        title: self.items[i].title.clone(),
                    };
                }
                None
            },
            Action::ToggleShowCompleted => {
                self.show_completed = !self.show_completed;
                Some(AsyncAction::LoadTodos)
            },
            Action::RefreshTodos => Some(AsyncAction::LoadTodos),
            _ => None,
        }
    }

    /// Close the popup: back to normal input, cursor and scroll at the top.
    pub fn close_popup(&mut self, input_mode: &mut InputMode)
        ensures
            *final(input_mode) == InputMode::Normal,
            final(self).cursor == 0,
            final(self).scroll_offset == 0,
            final(self).items == old(self).items,
            final(self).display_order == old(self).display_order,
            final(self).show_completed == old(self).show_completed,
    {
        *input_mode = InputMode::Normal;
        self.cursor = 0;
        self.scroll_offset = 0;
    }
}

/// The parent of the item being added, when the dialog adds one.
pub open spec fn adding_under(mode: InputMode) -> Option<Option<Seq<char>>> {
    match mode {
        InputMode::AddTodo { parent_id } => Some(opt_text(parent_id)),
        _ => None,
    }
}

/// A key in the add-item dialog. Esc closes it empty; Enter on an empty
/// field closes it; Enter with a title asks to create the item (under the
/// parent the dialog was opened for) and closes it empty.
pub fn handle_add_todo_key(key: &KeyEvent, input_mode: &mut InputMode, input: &mut TextInput) -> (r:
    Option<AsyncAction>)
    requires
        old(input).wf(),
        old(input)@.text.len() < usize::MAX,
    ensures
        final(input).wf(),
        ({
            let (res, after) = text_input_spec(*key, old(input)@);
            match res {
                TextInputResult::Cancel => {
                    &&& r is None
                    &&& *final(input_mode) == InputMode::TodoPopup
                    &&& final(input)@.text.len() == 0
                },
                TextInputResult::Submit => if after.text.len() == 0 {
                    &&& r is None
                    &&& *final(input_mode) == InputMode::TodoPopup
                    &&& final(input)@ == after
                } else {
                    &&& *final(input_mode) == InputMode::TodoPopup
                    &&& final(input)@.text.len() == 0
                    &&& match adding_under(*old(input_mode)) {
                        Some(parent) => r matches Some(
                            AsyncAction::CreateTodo { title, description: None, parent_id },
                        ) && title@ == after.text && opt_text(parent_id) == parent,
                        None => r is None,
                    }
                },
                _ => r is None && *final(input_mode) == *old(input_mode) && final(input)@ == after,
            }
        }),
{
    match handle_text_input(key, input) {
        TextInputResult::Cancel => {
            *input_mode = InputMode::TodoPopup;
            input.clear();
            None
        },
        TextInputResult::Submit => {
            if input.is_empty() {
                *input_mode = InputMode::TodoPopup;
                return None;
            }
            let title = input.content().to_owned();
            input.clear();
            let mut previous = InputMode::TodoPopup;
            std::mem::swap(&mut previous, input_mode);
            match previous {
                InputMode::AddTodo { parent_id } => Some(
                    AsyncAction::CreateTodo { title, description: None, parent_id },
                ),
                _ => None,
            }
        },
        TextInputResult::Handled | TextInputResult::Unhandled => None,
    }
}

/// The item whose title or description the dialog edits, if it does.
pub open spec fn editing(mode: InputMode, description: bool) -> Option<Seq<char>> {
    match mode {
        InputMode::EditTodo { todo_id } => if description {
            None
        } else {
            Some(todo_id@)
        },
        InputMode::EditTodoDescription { todo_id } => if description {
            Some(todo_id@)
        } else {
            None
        },
        _ => None,
    }
}

/// A key in the edit-title dialog. Esc closes it empty; Enter on an empty
/// field closes it; Enter with a title asks to update the item's title and
/// closes it empty.
pub fn handle_edit_todo_key(key: &KeyEvent, input_mode: &mut InputMode, input: &mut TextInput) -> (r:
    Option<AsyncAction>)
    requires
        old(input).wf(),
        old(input)@.text.len() < usize::MAX,
    ensures
        final(input).wf(),
        ({
            let (res, after) = text_input_spec(*key, old(input)@);
            match res {
                TextInputResult::Cancel => {
                    &&& r is None
                    &&& *final(input_mode) == InputMode::TodoPopup
                    &&& final(input)@.text.len() == 0
                },
                TextInputResult::Submit => if after.text.len() == 0 {
                    &&& r is None
                    &&& *final(input_mode) == InputMode::TodoPopup
                    &&& final(input)@ == after
                } else {
                    &&& *final(input_mode) == InputMode::TodoPopup
                    &&& final(input)@.text.len() == 0
                    &&& match editing(*old(input_mode), false) {
                        Some(id) => r matches Some(
                            AsyncAction::UpdateTodo { todo_id, title: Some(t), description: None },
                        ) && todo_id@ == id && t@ == after.text,
                        None => r is None,
                    }
                },
                _ => r is None && *final(input_mode) == *old(input_mode) && final(input)@ == after,
            }
        }),
{
    match handle_text_input(key, input) {
        TextInputResult::Cancel => {
            *input_mode = InputMode::TodoPopup;
            input.clear();
            None
        },
        TextInputResult::Submit => {
            if input.is_empty() {
                *input_mode = InputMode::TodoPopup;
                return None;
            }
            let title = input.content().to_owned();
            input.clear();
            let mut previous = InputMode::TodoPopup;
            std::mem::swap(&mut previous, input_mode);
            match previous {
                InputMode::EditTodo { todo_id } => Some(
                    AsyncAction::UpdateTodo { todo_id, title: Some(title), description: None },
                ),
                _ => None,
            }
        },
        TextInputResult::Handled | TextInputResult::Unhandled => None,
    }
}

/// A key in the edit-description dialog. Esc closes it empty; Enter asks to
/// set the description (to none when the field is empty) and closes it empty.
pub fn handle_edit_todo_description_key(
    key: &KeyEvent,
    input_mode: &mut InputMode,
    input: &mut TextInput,
) -> (r: Option<AsyncAction>)
    requires
        old(input).wf(),
        old(input)@.text.len() < usize::MAX,
    ensures
        final(input).wf(),
        ({
            let (res, after) = text_input_spec(*key, old(input)@);
            match res {
                TextInputResult::Cancel => {
                    &&& r is None
                    &&& *final(input_mode) == InputMode::TodoPopup
                    &&& final(input)@.text.len() == 0
                },
                TextInputResult::Submit => {
                    &&& *final(input_mode) == InputMode::TodoPopup
                    &&& final(input)@.text.len() == 0
                    &&& match editing(*old(input_mode), true) {
                        Some(id) => r matches Some(
                            AsyncAction::UpdateTodo { todo_id, title: None, description },
                        ) && todo_id@ == id && opt_text(description) == if after.text.len() == 0 {
                            None
                        } else {
                            Some(after.text)
                        },
                        None => r is None,
                    }
                },
                _ => r is None && *final(input_mode) == *old(input_mode) && final(input)@ == after,
            }
        }),
{
    match handle_text_input(key, input) {
        TextInputResult::Cancel => {
            *input_mode = InputMode::TodoPopup;
            input.clear();
            None
        },
        TextInputResult::Submit => {
            let description = if input.is_empty() {
                None
            } else {
                Some(input.content().to_owned())
            };
            input.clear();
            let mut previous = InputMode::TodoPopup;
            std::mem::swap(&mut previous, input_mode);
            match previous {
                InputMode::EditTodoDescription { todo_id } => Some(
                    AsyncAction::UpdateTodo { todo_id, title: None, description },
                ),
                _ => None,
            }
        },
        TextInputResult::Handled | TextInputResult::Unhandled => None,
    }
}

/// A key in the delete confirmation: y, Y or Enter asks to delete the item
/// (the whole list is refreshed instead when the dialog has no item); n, N or
/// Esc go back to the list; other keys do nothing.
pub fn handle_confirm_delete_todo_key(key: &KeyEvent, input_mode: &mut InputMode) -> (r: Option<
    AsyncAction,
>)
    ensures
        match confirmation_spec(*key, true) {
            Confirmation::Confirm => *final(input_mode) == *old(input_mode) && match *old(input_mode) {
                InputMode::ConfirmDeleteTodo { todo_id, title } => r matches Some(
                    AsyncAction::DeleteTodo { todo_id: id },
                ) && id@ == todo_id@,
                _ => r matches Some(AsyncAction::RefreshAll),
            },
            Confirmation::Cancel => r is None && *final(input_mode) == InputMode::TodoPopup,
            Confirmation::Ignore => r is None && *final(input_mode) == *old(input_mode),
        },
{
    match handle_confirmation_with_enter(key) {
        Confirmation::Confirm => match input_mode {
            InputMode::ConfirmDeleteTodo { todo_id, .. } => Some(
                AsyncAction::DeleteTodo { todo_id: todo_id.clone() },
            ),
            _ => Some(AsyncAction::RefreshAll),
        },
        Confirmation::Cancel => {
            *input_mode = InputMode::TodoPopup;
            None
        },
        Confirmation::Ignore => None,
    }
}

} // verus!
