//! What holds of every coordinate tree and of every mapping of one.

use crate::coord::Coord;
use crate::tree::{composed, each_accepted, each_mapped, identity, CoordTree};
use vstd::prelude::*;

verus! {

/// Applying a function to every coordinate keeps the topology.
pub proof fn lemma_map_keeps_topology<T, NT>(t: CoordTree<T>, g: spec_fn(Coord<T>) -> Coord<NT>)
    ensures
        t.map(g).topology() == t.topology(),
    decreases t,
{
    match t {
        CoordTree::Run { .. } => {},
        CoordTree::Group { kind, parts } => {
            let mapped = t.map(g);
            assert(mapped->parts.len() == parts.len());
            assert forall|i: int| 0 <= i < parts.len() implies (#[trigger] mapped->parts[i]).topology()
                == parts[i].topology() by {
                lemma_map_keeps_topology(parts[i], g);
            }
            assert(mapped.topology()->parts =~= t.topology()->parts);
        },
    }
}

/// Rows that are mapped row by row are mapped as one joined row.
proof fn lemma_flatten_mapped<T, NT, F: Fn(Coord<T>) -> Coord<NT>>(
    a: Seq<Seq<Coord<T>>>,
    b: Seq<Seq<Coord<NT>>>,
    f: F,
)
    requires
        a.len() == b.len(),
        forall|i: int| 0 <= i < a.len() ==> each_mapped(f, #[trigger] a[i], b[i]),
    ensures
        each_mapped(f, a.flatten(), b.flatten()),
    decreases a.len(),
{
    if a.len() > 0 {
        lemma_flatten_mapped(a.drop_first(), b.drop_first(), f);
        assert(each_mapped(f, a[0], b[0]));
    }
}

/// A function is accepted by a joined row exactly if each row accepts it.
proof fn lemma_flatten_accepted<T, NT, F: Fn(Coord<T>) -> Coord<NT>>(a: Seq<Seq<Coord<T>>>, f: F)
    ensures
        each_accepted(f, a.flatten()) <==> forall|i: int|
            0 <= i < a.len() ==> each_accepted(f, #[trigger] a[i]),
    decreases a.len(),
{
    if a.len() > 0 {
        let rest = a.drop_first();
        lemma_flatten_accepted(rest, f);
        let joined = a.flatten();
        assert(joined == a[0] + rest.flatten());
        if each_accepted(f, joined) {
            assert forall|i: int| 0 <= i < a.len() implies each_accepted(f, #[trigger] a[i]) by {
                assert forall|k: int| 0 <= k < rest.flatten().len() implies call_requires(
                    f,
                    (#[trigger] rest.flatten()[k],),
                ) by {
                    assert(joined[a[0].len() + k] == rest.flatten()[k]);
                }
                if i == 0 {
                    assert forall|k: int| 0 <= k < a[0].len() implies call_requires(
                        f,
                        (#[trigger] a[0][k],),
                    ) by {
                        assert(joined[k] == a[0][k]);
                    }
                } else {
                    assert(a[i] == rest[i - 1]);
                }
            }
        }
        if forall|i: int| 0 <= i < a.len() ==> each_accepted(f, #[trigger] a[i]) {
            assert(each_accepted(f, a[0]));
            assert forall|i: int| 0 <= i < rest.len() implies each_accepted(f, #[trigger] rest[i]) by {
                assert(rest[i] == a[i + 1]);
            }
        }
    }
}

/// Applying a function to a joined row is joining the rows it was applied
/// to.
proof fn lemma_flatten_map_values<T, NT>(
    a: Seq<Seq<Coord<T>>>,
    b: Seq<Seq<Coord<NT>>>,
    g: spec_fn(Coord<T>) -> Coord<NT>,
)
    requires
        a.len() == b.len(),
        forall|i: int| 0 <= i < a.len() ==> #[trigger] b[i] == a[i].map_values(g),
    ensures
        b.flatten() == a.flatten().map_values(g),
    decreases a.len(),
{
    if a.len() > 0 {
        lemma_flatten_map_values(a.drop_first(), b.drop_first(), g);
        assert(b[0] == a[0].map_values(g));
        assert(b.flatten() =~= a.flatten().map_values(g));
    } else {
        assert(b.flatten() =~= a.flatten().map_values(g));
    }
}

/// The coordinates of a tree with `g` applied are the coordinates of the
/// tree, each with `g` applied.
pub proof fn lemma_map_coords<T, NT>(t: CoordTree<T>, g: spec_fn(Coord<T>) -> Coord<NT>)
    ensures
        t.map(g).coords() == t.coords().map_values(g),
    decreases t,
{
    match t {
        CoordTree::Run { .. } => {},
        CoordTree::Group { kind, parts } => {
            let rows = t.part_coords();
            let to_rows = t.map(g).part_coords();
            assert forall|i: int| 0 <= i < rows.len() implies #[trigger] to_rows[i] == rows[i].map_values(
                g,
            ) by {
                lemma_map_coords(parts[i], g);
            }
            lemma_flatten_map_values(rows, to_rows, g);
        },
    }
}

/// Applying `g` and then `h` to every coordinate is applying their
/// composition once.
pub proof fn lemma_map_map<T, U, V>(
    t: CoordTree<T>,
    g: spec_fn(Coord<T>) -> Coord<U>,
    h: spec_fn(Coord<U>) -> Coord<V>,
)
    ensures
        t.map(g).map(h) == t.map(composed(g, h)),
    decreases t,
{
    let gh = composed(g, h);
    match t {
        CoordTree::Run { kind, points } => {
            assert(t.map(g).map(h)->points =~= t.map(gh)->points);
        },
        CoordTree::Group { kind, parts } => {
            assert forall|i: int| 0 <= i < parts.len() implies #[trigger] t.map(g).map(h)->parts[i]
                == t.map(gh)->parts[i] by {
                lemma_map_map(parts[i], g, h);
            }
            assert(t.map(g).map(h)->parts =~= t.map(gh)->parts);
        },
    }
}

/// Two functions give the same tree exactly if they agree on every
/// coordinate of the tree they are applied to.
pub proof fn lemma_map_agrees<T, NT>(
    t: CoordTree<T>,
    g: spec_fn(Coord<T>) -> Coord<NT>,
    h: spec_fn(Coord<T>) -> Coord<NT>,
)
    ensures
        t.map(g) == t.map(h) <==> forall|i: int|
            0 <= i < t.coords().len() ==> g(#[trigger] t.coords()[i]) == h(t.coords()[i]),
    decreases t,
{
    lemma_map_coords(t, g);
    lemma_map_coords(t, h);
    if t.map(g) == t.map(h) {
        assert forall|i: int| 0 <= i < t.coords().len() implies g(#[trigger] t.coords()[i]) == h(
            t.coords()[i],
        ) by {
            assert(t.coords().map_values(g)[i] == t.coords().map_values(h)[i]);
        }
    }
    if forall|i: int| 0 <= i < t.coords().len() ==> g(#[trigger] t.coords()[i]) == h(t.coords()[i]) {
        match t {
            CoordTree::Run { kind, points } => {
                assert(t.map(g)->points =~= t.map(h)->points);
            },
            CoordTree::Group { kind, parts } => {
                assert forall|i: int| 0 <= i < parts.len() implies #[trigger] t.map(g)->parts[i]
                    == t.map(h)->parts[i] by {
                    let part = parts[i];
                    assert forall|k: int| 0 <= k < part.coords().len() implies g(
                        #[trigger] part.coords()[k],
                    ) == h(part.coords()[k]) by {
                        let at = lemma_part_coord_place(t, i, k);
                        assert(t.coords()[at] == part.coords()[k]);
                    }
                    lemma_map_agrees(part, g, h);
                }
                assert(t.map(g)->parts =~= t.map(h)->parts);
            },
        }
    }
}

/// A function that leaves every coordinate of a tree as it is leaves the
/// tree as it is.
pub proof fn lemma_map_identity<T>(t: CoordTree<T>, g: spec_fn(Coord<T>) -> Coord<T>)
    requires
        forall|i: int| 0 <= i < t.coords().len() ==> g(#[trigger] t.coords()[i]) == t.coords()[i],
    ensures
        t.map(g) == t,
{
    lemma_map_agrees(t, g, identity());
    lemma_map_same(t);
}

/// Applying the identity changes nothing.
pub proof fn lemma_map_same<T>(t: CoordTree<T>)
    ensures
        t.map(identity()) == t,
    decreases t,
{
    let id = identity::<T>();
    match t {
        CoordTree::Run { kind, points } => {
            assert(t.map(id)->points =~= points);
        },
        CoordTree::Group { kind, parts } => {
            assert forall|i: int| 0 <= i < parts.len() implies #[trigger] t.map(id)->parts[i]
                == parts[i] by {
                lemma_map_same(parts[i]);
            }
            assert(t.map(id)->parts =~= parts);
        },
    }
}

/// Every coordinate of a part of a group has a place among the coordinates
/// of the group.
proof fn lemma_part_coord_place<T>(t: CoordTree<T>, i: int, k: int) -> (at: int)
    requires
        t is Group,
        0 <= i < t->parts.len(),
        0 <= k < t->parts[i].coords().len(),
    ensures
        0 <= at < t.coords().len(),
        t.coords()[at] == t->parts[i].coords()[k],
{
    lemma_flatten_place(t.part_coords(), i, k)
}

/// Every element of a row has a place in the joined row.
proof fn lemma_flatten_place<A>(a: Seq<Seq<A>>, i: int, k: int) -> (at: int)
    requires
        0 <= i < a.len(),
        0 <= k < a[i].len(),
    ensures
        0 <= at < a.flatten().len(),
        a.flatten()[at] == a[i][k],
    decreases a.len(),
{
    assert(a.flatten() == a[0] + a.drop_first().flatten());
    if i == 0 {
        k
    } else {
        let rest = a.drop_first();
        assert(rest[i - 1] == a[i]);
        let at = lemma_flatten_place(rest, i - 1, k);
        a[0].len() + at
    }
}

/// Rows of the same lengths join to rows of the same length.
proof fn lemma_flatten_same_len<A, B>(a: Seq<Seq<A>>, b: Seq<Seq<B>>)
    requires
        a.len() == b.len(),
        forall|i: int| 0 <= i < a.len() ==> (#[trigger] a[i]).len() == b[i].len(),
    ensures
        a.flatten().len() == b.flatten().len(),
    decreases a.len(),
{
    if a.len() > 0 {
        assert(a[0].len() == b[0].len());
        lemma_flatten_same_len(a.drop_first(), b.drop_first());
    }
}

/// Rows of the same lengths that join to the same row are the same rows.
proof fn lemma_flatten_injective<A>(a: Seq<Seq<A>>, b: Seq<Seq<A>>)
    requires
        a.len() == b.len(),
        forall|i: int| 0 <= i < a.len() ==> (#[trigger] a[i]).len() == b[i].len(),
        a.flatten() == b.flatten(),
    ensures
        a == b,
    decreases a.len(),
{
    if a.len() > 0 {
        let rest_a = a.drop_first();
        let rest_b = b.drop_first();
        let n = a[0].len() as int;
        assert(a[0].len() == b[0].len());
        assert(a.flatten() == a[0] + rest_a.flatten());
        assert(b.flatten() == b[0] + rest_b.flatten());
        assert(a[0] =~= a.flatten().subrange(0, n));
        assert(b[0] =~= b.flatten().subrange(0, n));
        assert(rest_a.flatten() =~= a.flatten().subrange(n, a.flatten().len() as int));
        assert(rest_b.flatten() =~= b.flatten().subrange(n, b.flatten().len() as int));
        assert forall|i: int| 0 <= i < rest_a.len() implies (#[trigger] rest_a[i]).len()
            == rest_b[i].len() by {
            assert(rest_a[i] == a[i + 1]);
            assert(rest_b[i] == b[i + 1]);
        }
        lemma_flatten_injective(rest_a, rest_b);
        assert forall|i: int| 0 <= i < a.len() implies #[trigger] a[i] == b[i] by {
            if i > 0 {
                assert(a[i] == rest_a[i - 1]);
                assert(b[i] == rest_b[i - 1]);
            }
        }
    }
    assert(a =~= b);
}

/// Trees of one topology have the same number of coordinates.
pub proof fn lemma_topology_fixes_count<T, U>(a: CoordTree<T>, b: CoordTree<U>)
    requires
        a.topology() == b.topology(),
    ensures
        a.coords().len() == b.coords().len(),
    decreases a,
{
    match a {
        CoordTree::Run { .. } => {},
        CoordTree::Group { kind, parts } => {
            let rows_a = a.part_coords();
            let rows_b = b.part_coords();
            assert(a.topology()->parts.len() == parts.len());
            assert(b.topology()->parts.len() == b->parts.len());
            assert forall|i: int| 0 <= i < rows_a.len() implies (#[trigger] rows_a[i]).len()
                == rows_b[i].len() by {
                assert(a.topology()->parts[i] == parts[i].topology());
                assert(b.topology()->parts[i] == b->parts[i].topology());
                lemma_topology_fixes_count(parts[i], b->parts[i]);
            }
            lemma_flatten_same_len(rows_a, rows_b);
        },
    }
}

/// A tree is its topology together with its coordinates in traversal
/// order: two trees that agree in both are the same tree.
pub proof fn lemma_tree_determined<T>(a: CoordTree<T>, b: CoordTree<T>)
    requires
        a.topology() == b.topology(),
        a.coords() == b.coords(),
    ensures
        a == b,
    decreases a,
{
    match a {
        CoordTree::Run { .. } => {},
        CoordTree::Group { kind, parts } => {
            let rows_a = a.part_coords();
            let rows_b = b.part_coords();
            assert(a.topology()->parts.len() == parts.len());
            assert(b.topology()->parts.len() == b->parts.len());
            assert forall|i: int| 0 <= i < parts.len() implies (#[trigger] parts[i]).topology()
                == b->parts[i].topology() by {
                assert(a.topology()->parts[i] == parts[i].topology());
                assert(b.topology()->parts[i] == b->parts[i].topology());
            }
            assert forall|i: int| 0 <= i < rows_a.len() implies (#[trigger] rows_a[i]).len()
                == rows_b[i].len() by {
                lemma_topology_fixes_count(parts[i], b->parts[i]);
            }
            lemma_flatten_injective(rows_a, rows_b);
            assert forall|i: int| 0 <= i < parts.len() implies #[trigger] parts[i] == b->parts[i] by {
                assert(rows_a[i] == rows_b[i]);
                lemma_tree_determined(parts[i], b->parts[i]);
            }
            assert(parts =~= b->parts);
        },
    }
}

/// A function that a group accepts is accepted by each of its parts.
pub proof fn lemma_group_accepted<T, NT, F: Fn(Coord<T>) -> Coord<NT>>(t: CoordTree<T>, f: F)
    requires
        t is Group,
        t.accepted_by(f),
    ensures
        forall|i: int| 0 <= i < t->parts.len() ==> (#[trigger] t->parts[i]).accepted_by(f),
{
    let rows = t.part_coords();
    lemma_flatten_accepted(rows, f);
    assert forall|i: int| 0 <= i < t->parts.len() implies (#[trigger] t->parts[i]).accepted_by(f) by {
        assert(each_accepted(f, rows[i]));
    }
}

/// Two groups of one kind whose parts are mapped one by one are mapped as
/// wholes.
pub proof fn lemma_group_mapped<T, NT, F: Fn(Coord<T>) -> Coord<NT>>(
    a: CoordTree<T>,
    b: CoordTree<NT>,
    f: F,
)
    requires
        a is Group,
        b is Group,
        b.kind() == a.kind(),
        b->parts.len() == a->parts.len(),
        forall|i: int| 0 <= i < a->parts.len() ==> (#[trigger] a->parts[i]).mapped_by(f, b->parts[i]),
    ensures
        a.mapped_by(f, b),
{
    let rows_a = a.part_coords();
    let rows_b = b.part_coords();
    assert forall|i: int| 0 <= i < rows_a.len() implies each_mapped(f, #[trigger] rows_a[i], rows_b[i]) by {
        assert(a->parts[i].mapped_by(f, b->parts[i]));
    }
    lemma_flatten_mapped(rows_a, rows_b, f);
    assert forall|i: int| 0 <= i < a->parts.len() implies #[trigger] b.topology()->parts[i]
        == a.topology()->parts[i] by {
        assert(a->parts[i].mapped_by(f, b->parts[i]));
    }
    assert(b.topology()->parts =~= a.topology()->parts);
}

/// Where `f` returns on each coordinate what `g` gives for it, mapping by
/// `f` yields the tree with `g` applied.
pub proof fn lemma_mapped_is_map<T, NT, F: Fn(Coord<T>) -> Coord<NT>>(
    t: CoordTree<T>,
    f: F,
    to: CoordTree<NT>,
    g: spec_fn(Coord<T>) -> Coord<NT>,
)
    requires
        t.mapped_by(f, to),
        forall|c: Coord<T>, d: Coord<NT>| #[trigger] call_ensures(f, (c,), d) ==> d == g(c),
    ensures
        to == t.map(g),
{
    lemma_map_keeps_topology(t, g);
    lemma_map_coords(t, g);
    assert(to.coords() =~= t.coords().map_values(g));
    lemma_tree_determined(to, t.map(g));
}

/// Where `f` can return only one coordinate for each coordinate, mapping
/// by `f` has only one result: mapping into a new shape and mapping in
/// place then give the same tree.
pub proof fn lemma_mapped_unique<T, NT, F: Fn(Coord<T>) -> Coord<NT>>(
    t: CoordTree<T>,
    f: F,
    a: CoordTree<NT>,
    b: CoordTree<NT>,
)
    requires
        t.mapped_by(f, a),
        t.mapped_by(f, b),
        forall|c: Coord<T>, d: Coord<NT>, e: Coord<NT>|
            #[trigger] call_ensures(f, (c,), d) && #[trigger] call_ensures(f, (c,), e) ==> d == e,
    ensures
        a == b,
{
    assert(a.coords() =~= b.coords());
    lemma_tree_determined(a, b);
}

} // verus!
