use vstd::prelude::*;

use crate::graph::{
    byte_len, edges_upto, flat_entries, graph_edges, in_before, in_degree, is_graph_of,
    kind_entries, larger, node_kinds, node_matches, out_before, out_degree, row_edges,
    total_values, CollectedNode, GraphEdge,
};
use crate::kind::{links_to, SystemComponentKind};

verus! {

/// An edge of `graph_edges(ks)` joins two boxes whose kinds are linked, and
/// its ports are the ones counted before it.
pub open spec fn edge_ok(ks: Seq<SystemComponentKind>, e: (int, int, int, int)) -> bool {
    &&& 0 <= e.0 < ks.len()
    &&& 0 <= e.2 < ks.len()
    &&& links_to(ks[e.0], ks[e.2])
    &&& e.1 == out_before(ks, e.0, e.2)
    &&& e.3 == in_before(ks, e.0, e.2)
}

pub open spec fn pair_before(x: (int, int, int, int), y: (int, int, int, int)) -> bool {
    x.0 < y.0 || (x.0 == y.0 && x.2 < y.2)
}

/// Some edge leaves box `a` through outgoing port `p`.
pub open spec fn uses_out_port(edges: Seq<GraphEdge>, a: int, p: int) -> bool {
    exists|k: int| 0 <= k < edges.len() && #[trigger] edges[k].from_node == a && edges[k].from_port == p
}

/// Some edge enters box `a` through incoming port `q`.
pub open spec fn uses_in_port(edges: Seq<GraphEdge>, a: int, q: int) -> bool {
    exists|k: int| 0 <= k < edges.len() && #[trigger] edges[k].to_node == a && edges[k].to_port == q
}

proof fn lemma_out_before_monotone(ks: Seq<SystemComponentKind>, i: int, j1: int, j2: int)
    requires
        j1 <= j2,
    ensures
        out_before(ks, i, j1) <= out_before(ks, i, j2),
    decreases j2 - j1,
{
    if j1 < j2 {
        lemma_out_before_monotone(ks, i, j1, j2 - 1);
    }
}

proof fn lemma_in_before_monotone(ks: Seq<SystemComponentKind>, i1: int, i2: int, j: int)
    requires
        i1 <= i2,
    ensures
        in_before(ks, i1, j) <= in_before(ks, i2, j),
    decreases i2 - i1,
{
    if i1 < i2 {
        lemma_in_before_monotone(ks, i1, i2 - 1, j);
    }
}

proof fn lemma_row_edges(ks: Seq<SystemComponentKind>, i: int, j: int)
    requires
        0 <= i < ks.len(),
        0 <= j <= ks.len(),
    ensures
        forall|k: int|
            0 <= k < row_edges(ks, i, j).len() ==> {
                let e = #[trigger] row_edges(ks, i, j)[k];
                edge_ok(ks, e) && e.0 == i && e.2 < j
            },
        forall|k1: int, k2: int|
            0 <= k1 < k2 < row_edges(ks, i, j).len() ==> #[trigger] row_edges(ks, i, j)[k1].2
                < #[trigger] row_edges(ks, i, j)[k2].2,
        forall|b: int|
            0 <= b < j && #[trigger] links_to(ks[i], ks[b]) ==> exists|k: int|
                0 <= k < row_edges(ks, i, j).len() && #[trigger] row_edges(ks, i, j)[k].2 == b,
    decreases j,
{
    if j > 0 {
        lemma_row_edges(ks, i, j - 1);
        let prev = row_edges(ks, i, j - 1);
        let cur = row_edges(ks, i, j);
        if links_to(ks[i], ks[j - 1]) {
            assert(cur == prev.push(
                (i, out_before(ks, i, j - 1) as int, j - 1, in_before(ks, i, j - 1) as int),
            ));
            assert forall|b: int| 0 <= b < j && #[trigger] links_to(ks[i], ks[b]) implies exists|
                k: int,
            | 0 <= k < cur.len() && #[trigger] cur[k].2 == b by {
                if b == j - 1 {
                    assert(cur[prev.len() as int].2 == b);
                } else {
                    let k = choose|k: int| 0 <= k < prev.len() && #[trigger] prev[k].2 == b;
                    assert(cur[k].2 == b);
                }
            }
        }
    }
}

proof fn lemma_edges_upto(ks: Seq<SystemComponentKind>, i: int)
    requires
        0 <= i <= ks.len(),
    ensures
        forall|k: int|
            0 <= k < edges_upto(ks, i).len() ==> {
                let e = #[trigger] edges_upto(ks, i)[k];
                edge_ok(ks, e) && e.0 < i
            },
        forall|k1: int, k2: int|
            0 <= k1 < k2 < edges_upto(ks, i).len() ==> pair_before(
                #[trigger] edges_upto(ks, i)[k1],
                #[trigger] edges_upto(ks, i)[k2],
            ),
        forall|a: int, b: int|
            0 <= a < i && 0 <= b < ks.len() && #[trigger] links_to(ks[a], ks[b]) ==> exists|k: int|
                0 <= k < edges_upto(ks, i).len() && #[trigger] edges_upto(ks, i)[k].0 == a
                    && edges_upto(ks, i)[k].2 == b,
    decreases i,
{
    if i > 0 {
        let n = ks.len() as int;
        lemma_edges_upto(ks, i - 1);
        lemma_row_edges(ks, i - 1, n);
        let prev = edges_upto(ks, i - 1);
        let row = row_edges(ks, i - 1, n);
        let cur = edges_upto(ks, i);
        assert(cur == prev + row);
        assert forall|k: int| 0 <= k < cur.len() implies {
            let e = #[trigger] cur[k];
            edge_ok(ks, e) && e.0 < i
        } by {
            if k >= prev.len() {
                assert(cur[k] == row[k - prev.len()]);
            }
        }
        assert forall|k1: int, k2: int| 0 <= k1 < k2 < cur.len() implies pair_before(
            #[trigger] cur[k1],
            #[trigger] cur[k2],
        ) by {
            if k2 < prev.len() {
            } else if k1 < prev.len() {
                assert(cur[k2] == row[k2 - prev.len()]);
            } else {
                assert(cur[k1] == row[k1 - prev.len()]);
                assert(cur[k2] == row[k2 - prev.len()]);
            }
        }
        assert forall|a: int, b: int|
            0 <= a < i && 0 <= b < n && #[trigger] links_to(ks[a], ks[b]) implies exists|k: int|
            0 <= k < cur.len() && #[trigger] cur[k].0 == a && cur[k].2 == b by {
            if a < i - 1 {
                let k = choose|k: int|
                    0 <= k < prev.len() && #[trigger] prev[k].0 == a && prev[k].2 == b;
                assert(cur[k] == prev[k]);
            } else {
                let k = choose|k: int| 0 <= k < row.len() && #[trigger] row[k].2 == b;
                assert(cur[k + prev.len()] == row[k]);
            }
        }
    }
}

/// The shape of `graph_edges`: every edge is well formed, edges come sorted by
/// source and then target box, and every linked pair of boxes has an edge.
pub proof fn lemma_graph_edges(ks: Seq<SystemComponentKind>)
    ensures
        forall|k: int|
            0 <= k < graph_edges(ks).len() ==> edge_ok(ks, #[trigger] graph_edges(ks)[k]),
        forall|k1: int, k2: int|
            0 <= k1 < k2 < graph_edges(ks).len() ==> pair_before(
                #[trigger] graph_edges(ks)[k1],
                #[trigger] graph_edges(ks)[k2],
            ),
        forall|a: int, b: int|
            0 <= a < ks.len() && 0 <= b < ks.len() && #[trigger] links_to(ks[a], ks[b])
                ==> exists|k: int|
                0 <= k < graph_edges(ks).len() && #[trigger] graph_edges(ks)[k].0 == a
                    && graph_edges(ks)[k].2 == b,
{
    lemma_edges_upto(ks, ks.len() as int);
}

proof fn lemma_flat_len(ans: Seq<(SystemComponentKind, Seq<Seq<char>>)>)
    ensures
        flat_entries(ans).len() == total_values(ans),
    decreases ans.len(),
{
    if ans.len() > 0 {
        lemma_flat_len(ans.drop_last());
    }
}

/// One box per value: a graph built from the catalog's answers has as many
/// boxes as there are values over all kinds; a kind with no values adds none.
pub proof fn law_node_count(nodes: Seq<CollectedNode>, edges: Seq<GraphEdge>, ans: Seq<(SystemComponentKind, Seq<Seq<char>>)>)
    requires
        is_graph_of(nodes, edges, ans),
    ensures
        nodes.len() == total_values(ans),
{
    lemma_flat_len(ans);
}

/// Every box is at least two rows high, and (unless its texts are too long
/// for the width to be counted in a `usize`) two cells wider than the longer of
/// its title and its body.
pub proof fn law_node_size(
    nodes: Seq<CollectedNode>,
    edges: Seq<GraphEdge>,
    ans: Seq<(SystemComponentKind, Seq<Seq<char>>)>,
    i: int,
)
    requires
        is_graph_of(nodes, edges, ans),
        0 <= i < nodes.len(),
    ensures
        nodes[i].height >= 2,
        larger(byte_len(nodes[i].title@), byte_len(nodes[i].body@)) + 2 <= usize::MAX ==> nodes[i].width
            >= larger(byte_len(nodes[i].title@), byte_len(nodes[i].body@)) + 2,
{
    assert(node_matches(nodes[i], ans, i));
}

proof fn lemma_out_ports_cover(ks: Seq<SystemComponentKind>, a: int, j: int, p: int)
    requires
        0 <= a < ks.len(),
        0 <= j <= ks.len(),
        0 <= p < out_before(ks, a, j),
    ensures
        exists|b: int| 0 <= b < j && links_to(ks[a], ks[b]) && #[trigger] out_before(ks, a, b) == p,
    decreases j,
{
    if p < out_before(ks, a, j - 1) {
        lemma_out_ports_cover(ks, a, j - 1, p);
    } else {
        assert(links_to(ks[a], ks[j - 1]) && out_before(ks, a, j - 1) == p);
    }
}

proof fn lemma_in_ports_cover(ks: Seq<SystemComponentKind>, b: int, i: int, q: int)
    requires
        0 <= b < ks.len(),
        0 <= i <= ks.len(),
        0 <= q < in_before(ks, i, b),
    ensures
        exists|a: int| 0 <= a < i && links_to(ks[a], ks[b]) && #[trigger] in_before(ks, a, b) == q,
    decreases i,
{
    if q < in_before(ks, i - 1, b) {
        lemma_in_ports_cover(ks, b, i - 1, q);
    } else {
        assert(links_to(ks[i - 1], ks[b]) && in_before(ks, i - 1, b) == q);
    }
}

/// Ports are dense and unique: the outgoing ports of box `a` are exactly
/// `0..out_degree(a)`, each used by one edge, and likewise its incoming ports
/// are exactly `0..in_degree(a)`.
pub proof fn law_ports_dense(
    nodes: Seq<CollectedNode>,
    edges: Seq<GraphEdge>,
    ans: Seq<(SystemComponentKind, Seq<Seq<char>>)>,
    a: int,
)
    requires
        is_graph_of(nodes, edges, ans),
        0 <= a < nodes.len(),
    ensures
        forall|k: int|
            0 <= k < edges.len() && #[trigger] edges[k].from_node == a ==> edges[k].from_port
                < out_degree(node_kinds(ans), a),
        forall|k: int|
            0 <= k < edges.len() && #[trigger] edges[k].to_node == a ==> edges[k].to_port
                < in_degree(node_kinds(ans), a),
        forall|k1: int, k2: int|
            0 <= k1 < edges.len() && 0 <= k2 < edges.len() && k1 != k2 && #[trigger] edges[k1].from_node
                == a && #[trigger] edges[k2].from_node == a ==> edges[k1].from_port
                != edges[k2].from_port,
        forall|k1: int, k2: int|
            0 <= k1 < edges.len() && 0 <= k2 < edges.len() && k1 != k2 && #[trigger] edges[k1].to_node
                == a && #[trigger] edges[k2].to_node == a ==> edges[k1].to_port != edges[k2].to_port,
        forall|p: int|
            0 <= p < out_degree(node_kinds(ans), a) ==> #[trigger] uses_out_port(edges, a, p),
        forall|q: int|
            0 <= q < in_degree(node_kinds(ans), a) ==> #[trigger] uses_in_port(edges, a, q),
{
    let ks = node_kinds(ans);
    let g = graph_edges(ks);
    let n = ks.len() as int;
    lemma_graph_edges(ks);
    assert(edges.len() == g.len());
    assert forall|k: int| 0 <= k < edges.len() && #[trigger] edges[k].from_node == a implies edges[k].from_port
        < out_degree(ks, a) by {
        assert(edges[k]@ == g[k]);
        assert(edge_ok(ks, g[k]));
        lemma_out_before_monotone(ks, a, g[k].2 + 1, n);
    }
    assert forall|k: int| 0 <= k < edges.len() && #[trigger] edges[k].to_node == a implies edges[k].to_port
        < in_degree(ks, a) by {
        assert(edges[k]@ == g[k]);
        assert(edge_ok(ks, g[k]));
        lemma_in_before_monotone(ks, g[k].0 + 1, n, a);
    }
    assert forall|k1: int, k2: int|
        0 <= k1 < edges.len() && 0 <= k2 < edges.len() && k1 != k2 && #[trigger] edges[k1].from_node
            == a && #[trigger] edges[k2].from_node == a implies edges[k1].from_port
        != edges[k2].from_port by {
        assert(edges[k1]@ == g[k1]);
        assert(edges[k2]@ == g[k2]);
        assert(edge_ok(ks, g[k1]) && edge_ok(ks, g[k2]));
        let (lo, hi) = if k1 < k2 {
            (k1, k2)
        } else {
            (k2, k1)
        };
        assert(pair_before(g[lo], g[hi]));
        lemma_out_before_monotone(ks, a, g[lo].2 + 1, g[hi].2);
    }
    assert forall|k1: int, k2: int|
        0 <= k1 < edges.len() && 0 <= k2 < edges.len() && k1 != k2 && #[trigger] edges[k1].to_node
            == a && #[trigger] edges[k2].to_node == a implies edges[k1].to_port
        != edges[k2].to_port by {
        assert(edges[k1]@ == g[k1]);
        assert(edges[k2]@ == g[k2]);
        assert(edge_ok(ks, g[k1]) && edge_ok(ks, g[k2]));
        let (lo, hi) = if k1 < k2 {
            (k1, k2)
        } else {
            (k2, k1)
        };
        assert(pair_before(g[lo], g[hi]));
        lemma_in_before_monotone(ks, g[lo].0 + 1, g[hi].0, a);
    }
    assert forall|p: int| 0 <= p < out_degree(ks, a) implies #[trigger] uses_out_port(edges, a, p) by {
        lemma_out_ports_cover(ks, a, n, p);
        let b = choose|b: int| 0 <= b < n && links_to(ks[a], ks[b]) && #[trigger] out_before(ks, a, b) == p;
        let k = choose|k: int| 0 <= k < g.len() && #[trigger] g[k].0 == a && g[k].2 == b;
        assert(edges[k]@ == g[k]);
        assert(edge_ok(ks, g[k]));
    }
    assert forall|q: int| 0 <= q < in_degree(ks, a) implies #[trigger] uses_in_port(edges, a, q) by {
        lemma_in_ports_cover(ks, a, n, q);
        let b = choose|b: int| 0 <= b < n && links_to(ks[b], ks[a]) && #[trigger] in_before(ks, b, a) == q;
        let k = choose|k: int| 0 <= k < g.len() && #[trigger] g[k].0 == b && g[k].2 == a;
        assert(edges[k]@ == g[k]);
        assert(edge_ok(ks, g[k]));
    }
}

/// Edges follow the adjacency rule and nothing else: boxes `a` and `b` are
/// joined by an edge from `a` to `b` exactly when `b`'s kind is a link target of
/// `a`'s kind, and by at most one such edge.
pub proof fn law_edges_follow_links(
    nodes: Seq<CollectedNode>,
    edges: Seq<GraphEdge>,
    ans: Seq<(SystemComponentKind, Seq<Seq<char>>)>,
    a: int,
    b: int,
)
    requires
        is_graph_of(nodes, edges, ans),
        0 <= a < nodes.len(),
        0 <= b < nodes.len(),
    ensures
        (exists|k: int|
            0 <= k < edges.len() && #[trigger] edges[k].from_node == a && edges[k].to_node == b)
            <==> links_to(node_kinds(ans)[a], node_kinds(ans)[b]),
        forall|k1: int, k2: int|
            0 <= k1 < k2 < edges.len() && #[trigger] edges[k1].from_node == a && edges[k1].to_node
                == b && #[trigger] edges[k2].from_node == a ==> edges[k2].to_node != b,
        forall|k: int|
            0 <= k < edges.len() ==> #[trigger] edges[k].from_node < nodes.len() && edges[k].to_node
                < nodes.len(),
{
    let ks = node_kinds(ans);
    let g = graph_edges(ks);
    lemma_graph_edges(ks);
    if exists|k: int| 0 <= k < edges.len() && #[trigger] edges[k].from_node == a && edges[k].to_node == b {
        let k = choose|k: int|
            0 <= k < edges.len() && #[trigger] edges[k].from_node == a && edges[k].to_node == b;
        assert(edges[k]@ == g[k]);
        assert(edge_ok(ks, g[k]));
    }
    if links_to(ks[a], ks[b]) {
        let k = choose|k: int| 0 <= k < g.len() && #[trigger] g[k].0 == a && g[k].2 == b;
        assert(edges[k]@ == g[k]);
        assert(edges[k].from_node == a && edges[k].to_node == b);
    }
    assert forall|k1: int, k2: int|
        0 <= k1 < k2 < edges.len() && #[trigger] edges[k1].from_node == a && edges[k1].to_node == b
            && #[trigger] edges[k2].from_node == a implies edges[k2].to_node != b by {
        assert(edges[k1]@ == g[k1]);
        assert(edges[k2]@ == g[k2]);
        assert(pair_before(g[k1], g[k2]));
    }
    assert forall|k: int| 0 <= k < edges.len() implies #[trigger] edges[k].from_node < nodes.len()
        && edges[k].to_node < nodes.len() by {
        assert(edges[k]@ == g[k]);
        assert(edge_ok(ks, g[k]));
    }
}

/// A kind that answered nothing leaves no trace: no box has that kind, and so
/// no edge starts or ends at one, even where other kinds link to it.
pub proof fn law_absent_kind(
    nodes: Seq<CollectedNode>,
    edges: Seq<GraphEdge>,
    ans: Seq<(SystemComponentKind, Seq<Seq<char>>)>,
    absent: SystemComponentKind,
)
    requires
        is_graph_of(nodes, edges, ans),
        forall|f: int| 0 <= f < ans.len() && (#[trigger] ans[f]).0 == absent ==> ans[f].1.len() == 0,
    ensures
        forall|i: int| 0 <= i < nodes.len() ==> #[trigger] node_kinds(ans)[i] != absent,
        forall|k: int|
            0 <= k < edges.len() ==> node_kinds(ans)[(#[trigger] edges[k]).from_node as int] != absent
                && node_kinds(ans)[edges[k].to_node as int] != absent,
{
    let ks = node_kinds(ans);
    assert forall|i: int| 0 <= i < nodes.len() implies #[trigger] ks[i] != absent by {
        lemma_flat_kinds_nonempty(ans, i);
    }
    lemma_graph_edges(ks);
    assert forall|k: int| 0 <= k < edges.len() implies ks[(#[trigger] edges[k]).from_node as int] != absent
        && ks[edges[k].to_node as int] != absent by {
        assert(edges[k]@ == graph_edges(ks)[k]);
        assert(edge_ok(ks, graph_edges(ks)[k]));
        assert(ks[edges[k].from_node as int] != absent);
        assert(ks[edges[k].to_node as int] != absent);
    }
}

proof fn lemma_flat_kinds_nonempty(ans: Seq<(SystemComponentKind, Seq<Seq<char>>)>, i: int)
    requires
        0 <= i < flat_entries(ans).len(),
    ensures
        exists|f: int|
            0 <= f < ans.len() && (#[trigger] ans[f]).0 == flat_entries(ans)[i].0 && ans[f].1.len()
                > 0,
    decreases ans.len(),
{
    let prev = ans.drop_last();
    let last = kind_entries(ans.last());
    assert(flat_entries(ans) == flat_entries(prev) + last);
    if i < flat_entries(prev).len() {
        lemma_flat_kinds_nonempty(prev, i);
        let f = choose|f: int|
            0 <= f < prev.len() && (#[trigger] prev[f]).0 == flat_entries(prev)[i].0
                && prev[f].1.len() > 0;
        assert(ans[f] == prev[f]);
    } else {
        assert(flat_entries(ans)[i] == last[i - flat_entries(prev).len()]);
        assert(ans[ans.len() - 1] == ans.last());
    }
}

/// Building twice from the same answers gives the same graph: the same boxes,
/// with the same titles, bodies and sizes, and the same edges.
pub proof fn law_build_repeatable(
    nodes1: Seq<CollectedNode>,
    edges1: Seq<GraphEdge>,
    ans1: Seq<(SystemComponentKind, Seq<Seq<char>>)>,
    nodes2: Seq<CollectedNode>,
    edges2: Seq<GraphEdge>,
    ans2: Seq<(SystemComponentKind, Seq<Seq<char>>)>,
)
    requires
        is_graph_of(nodes1, edges1, ans1),
        is_graph_of(nodes2, edges2, ans2),
        ans1 == ans2,
    ensures
        nodes1.len() == nodes2.len(),
        forall|i: int|
            0 <= i < nodes1.len() ==> (#[trigger] nodes1[i]).title@ == nodes2[i].title@
                && nodes1[i].body@ == nodes2[i].body@ && nodes1[i].width == nodes2[i].width
                && nodes1[i].height == nodes2[i].height,
        edges1 == edges2,
{
    assert forall|i: int| 0 <= i < nodes1.len() implies (#[trigger] nodes1[i]).title@
        == nodes2[i].title@ && nodes1[i].body@ == nodes2[i].body@ && nodes1[i].width
        == nodes2[i].width && nodes1[i].height == nodes2[i].height by {
        assert(node_matches(nodes1[i], ans1, i));
        assert(node_matches(nodes2[i], ans2, i));
    }
    assert forall|k: int| 0 <= k < edges1.len() implies edges1[k] == edges2[k] by {
        assert(edges1[k]@ == edges2[k]@);
    }
    assert(edges1 =~= edges2);
}

} // verus!
