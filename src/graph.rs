use vstd::prelude::*;
use vstd::string::StringExecFns;
use vstd::utf8::encode_utf8;

use crate::kind::{kind_title, links_to, SystemComponentKind};

verus! {

/// What the catalog answered for one kind: zero or more values.
pub struct KindFacts {
    pub kind: SystemComponentKind,
    pub values: Vec<String>,
}

/// A box of the graph, ready to be laid out.
#[derive(Debug, Clone, PartialEq, Eq)]
pub struct CollectedNode {
    pub width: usize,
    pub height: usize,
    pub title: &'static str,
    pub body: String,
}

/// An edge from an outgoing port of one box to an incoming port of another.
#[derive(Debug, Clone, Copy, PartialEq, Eq, Structural)]
pub struct GraphEdge {
    pub from_node: usize,
    pub from_port: usize,
    pub to_node: usize,
    pub to_port: usize,
}

impl View for GraphEdge {
    type V = (int, int, int, int);

    open spec fn view(&self) -> (int, int, int, int) {
        (self.from_node as int, self.from_port as int, self.to_node as int, self.to_port as int)
    }
}

/// The catalog's answers as plain values: each kind with the texts of its values.
pub open spec fn answers(facts: Seq<KindFacts>) -> Seq<(SystemComponentKind, Seq<Seq<char>>)> {
    facts.map_values(|f: KindFacts| (f.kind, f.values@.map_values(|v: String| v@)))
}

/// One box before it is measured: its kind and the value it shows.
pub open spec fn entry_of(kind: SystemComponentKind, value: String) -> (SystemComponentKind, Seq<
    char,
>) {
    (kind, value@)
}

/// The values of one kind, each tagged with the kind.
pub open spec fn kind_entries(a: (SystemComponentKind, Seq<Seq<char>>)) -> Seq<
    (SystemComponentKind, Seq<char>),
> {
    a.1.map_values(|v: Seq<char>| (a.0, v))
}

/// Every value of every kind, in the order given: box `i` shows entry `i`.
pub open spec fn flat_entries(ans: Seq<(SystemComponentKind, Seq<Seq<char>>)>) -> Seq<
    (SystemComponentKind, Seq<char>),
>
    decreases ans.len(),
{
    if ans.len() == 0 {
        seq![]
    } else {
        flat_entries(ans.drop_last()) + kind_entries(ans.last())
    }
}

/// The total number of values over all kinds.
pub open spec fn total_values(ans: Seq<(SystemComponentKind, Seq<Seq<char>>)>) -> nat
    decreases ans.len(),
{
    if ans.len() == 0 {
        0
    } else {
        total_values(ans.drop_last()) + ans.last().1.len()
    }
}

/// The kind of each box.
pub open spec fn node_kinds(ans: Seq<(SystemComponentKind, Seq<Seq<char>>)>) -> Seq<
    SystemComponentKind,
> {
    flat_entries(ans).map_values(|e: (SystemComponentKind, Seq<char>)| e.0)
}

/// Number of boxes among `ks[0..j)` that box `i` links to.
pub open spec fn out_before(ks: Seq<SystemComponentKind>, i: int, j: int) -> nat
    decreases j,
{
    if j <= 0 {
        0
    } else {
        out_before(ks, i, j - 1) + if links_to(ks[i], ks[j - 1]) {
            1nat
        } else {
            0nat
        }
    }
}

/// Number of boxes among `ks[0..i)` that link to box `j`.
pub open spec fn in_before(ks: Seq<SystemComponentKind>, i: int, j: int) -> nat
    decreases i,
{
    if i <= 0 {
        0
    } else {
        in_before(ks, i - 1, j) + if links_to(ks[i - 1], ks[j]) {
            1nat
        } else {
            0nat
        }
    }
}

pub open spec fn out_degree(ks: Seq<SystemComponentKind>, i: int) -> nat {
    out_before(ks, i, ks.len() as int)
}

pub open spec fn in_degree(ks: Seq<SystemComponentKind>, j: int) -> nat {
    in_before(ks, ks.len() as int, j)
}

/// The edges that leave box `i` towards boxes `0..j`: each takes the next free
/// outgoing port of `i` and the next free incoming port of its target, ports
/// being handed out in the order in which edges are discovered (row by row).
pub open spec fn row_edges(ks: Seq<SystemComponentKind>, i: int, j: int) -> Seq<
    (int, int, int, int),
>
    decreases j,
{
    if j <= 0 {
        seq![]
    } else if links_to(ks[i], ks[j - 1]) {
        row_edges(ks, i, j - 1).push(
            (i, out_before(ks, i, j - 1) as int, j - 1, in_before(ks, i, j - 1) as int),
        )
    } else {
        row_edges(ks, i, j - 1)
    }
}

/// The edges that leave boxes `0..i`.
pub open spec fn edges_upto(ks: Seq<SystemComponentKind>, i: int) -> Seq<(int, int, int, int)>
    decreases i,
{
    if i <= 0 {
        seq![]
    } else {
        edges_upto(ks, i - 1) + row_edges(ks, i - 1, ks.len() as int)
    }
}

/// Every edge of the graph whose boxes have kinds `ks`, in discovery order.
pub open spec fn graph_edges(ks: Seq<SystemComponentKind>) -> Seq<(int, int, int, int)> {
    edges_upto(ks, ks.len() as int)
}

/// The length of a text in bytes, as `str::len` reports it.
pub open spec fn byte_len(s: Seq<char>) -> int {
    encode_utf8(s).len() as usize as int
}

/// The text shown in a box: the value with one space on each side.
pub open spec fn padded(value: Seq<char>) -> Seq<char> {
    seq![' '] + value + seq![' ']
}

/// A content size plus two cells of border, capped at the largest `usize`.
pub open spec fn with_border(x: int) -> int {
    if x + 2 <= usize::MAX {
        x + 2
    } else {
        usize::MAX as int
    }
}

pub open spec fn larger(a: int, b: int) -> int {
    if a >= b {
        a
    } else {
        b
    }
}

/// What box `i` of a graph built from `facts` holds.
pub open spec fn node_matches(
    n: CollectedNode,
    ans: Seq<(SystemComponentKind, Seq<Seq<char>>)>,
    i: int,
) -> bool {
    let e = flat_entries(ans)[i];
    let ks = node_kinds(ans);
    &&& n.title@ == kind_title(e.0)
    &&& n.body@ == padded(e.1)
    &&& n.width == with_border(larger(byte_len(kind_title(e.0)), byte_len(padded(e.1))))
    &&& n.height == with_border(larger(out_degree(ks, i) as int, in_degree(ks, i) as int))
}

/// The graph built from the answers `ans`: box `i` shows entry `i`, and the
/// edges are exactly `graph_edges` of the boxes' kinds.
pub open spec fn is_graph_of(
    nodes: Seq<CollectedNode>,
    edges: Seq<GraphEdge>,
    ans: Seq<(SystemComponentKind, Seq<Seq<char>>)>,
) -> bool {
    &&& nodes.len() == flat_entries(ans).len()
    &&& forall|i: int| 0 <= i < nodes.len() ==> #[trigger] node_matches(nodes[i], ans, i)
    &&& edges.len() == graph_edges(node_kinds(ans)).len()
    &&& forall|k: int|
        0 <= k < edges.len() ==> (#[trigger] edges[k])@ == graph_edges(node_kinds(ans))[k]
}

proof fn lemma_out_before_bound(ks: Seq<SystemComponentKind>, i: int, j: int)
    ensures
        out_before(ks, i, j) <= if j >= 0 {
            j
        } else {
            0
        },
    decreases j,
{
    if j > 0 {
        lemma_out_before_bound(ks, i, j - 1);
    }
}

proof fn lemma_in_before_bound(ks: Seq<SystemComponentKind>, i: int, j: int)
    ensures
        in_before(ks, i, j) <= if i >= 0 {
            i
        } else {
            0
        },
    decreases i,
{
    if i > 0 {
        lemma_in_before_bound(ks, i - 1, j);
    }
}

proof fn lemma_flat_entries_step(ans: Seq<(SystemComponentKind, Seq<Seq<char>>)>, f: int)
    requires
        0 <= f < ans.len(),
    ensures
        flat_entries(ans.subrange(0, f + 1)) == flat_entries(ans.subrange(0, f)) + kind_entries(
            ans[f],
        ),
{
    assert(ans.subrange(0, f + 1).drop_last() =~= ans.subrange(0, f));
}

/// Lays the catalog's answers out as boxes and edges: one box per value, in
/// the order given, and an edge from box `a` to box `b` exactly when `b`'s kind
/// is among the link targets of `a`'s kind.
pub fn build_graph(facts: &Vec<KindFacts>) -> (r: (Vec<CollectedNode>, Vec<GraphEdge>))
    ensures
        is_graph_of(r.0@, r.1@, answers(facts@)),
{
    let ghost ans = answers(facts@);
    // First pass: one entry per value, numbered densely in catalog order.
    let mut kinds: Vec<SystemComponentKind> = Vec::new();
    let mut values: Vec<String> = Vec::new();
    let mut f: usize = 0;
    while f < facts.len()
        invariant
            f <= facts.len(),
            kinds.len() == values.len(),
            ans == answers(facts@),
            kinds.len() == flat_entries(ans.subrange(0, f as int)).len(),
            forall|k: int|
                0 <= k < kinds.len() ==> entry_of(#[trigger] kinds@[k], values@[k])
                    == flat_entries(ans.subrange(0, f as int))[k],
        decreases facts.len() - f,
    {
        let kf = &facts[f];
        let ghost before = flat_entries(ans.subrange(0, f as int));
        let ghost here = kind_entries(ans[f as int]);
        let mut v: usize = 0;
        while v < kf.values.len()
            invariant
                f < facts.len(),
                *kf == facts@[f as int],
                here == kind_entries(ans[f as int]),
                ans == answers(facts@),
                v <= kf.values.len(),
                kinds.len() == values.len(),
                kinds.len() == before.len() + v,
                forall|k: int|
                    0 <= k < kinds.len() ==> entry_of(#[trigger] kinds@[k], values@[k]) == (before
                        + here.subrange(0, v as int))[k],
            decreases kf.values.len() - v,
        {
            kinds.push(kf.kind);
            values.push(kf.values[v].clone());
            proof {
                assert(here[v as int] == entry_of(kf.kind, kf.values@[v as int]));
                assert((before + here.subrange(0, v + 1)) =~= (before + here.subrange(
                    0,
                    v as int,
                )).push(entry_of(kf.kind, kf.values@[v as int])));
            }
            v = v + 1;
        }
        proof {
            lemma_flat_entries_step(ans, f as int);
            assert(here.subrange(0, v as int) =~= here);
        }
        f = f + 1;
    }
    assert(ans.subrange(0, facts.len() as int) =~= ans);
    let ghost entries = flat_entries(ans);
    let ghost ks = node_kinds(ans);
    assert(kinds@ =~= ks);
    let n = kinds.len();

    // Second pass: discover the edges row by row, handing out ports in order.
    let mut out_ports: Vec<usize> = Vec::new();
    let mut in_ports: Vec<usize> = Vec::new();
    let mut z: usize = 0;
    while z < n
        invariant
            z <= n,
            out_ports.len() == z,
            in_ports.len() == z,
            forall|x: int| 0 <= x < z ==> out_ports@[x] == 0 && in_ports@[x] == 0,
        decreases n - z,
    {
        out_ports.push(0);
        in_ports.push(0);
        z = z + 1;
    }
    let mut edges: Vec<GraphEdge> = Vec::new();
    let mut i: usize = 0;
    while i < n
        invariant
            n == kinds.len(),
            kinds@ == ks,
            i <= n,
            out_ports.len() == n,
            in_ports.len() == n,
            edges.len() == edges_upto(ks, i as int).len(),
            forall|k: int|
                0 <= k < edges.len() ==> (#[trigger] edges@[k])@ == edges_upto(ks, i as int)[k],
            forall|x: int|
                0 <= x < n ==> #[trigger] out_ports@[x] == if x < i {
                    out_degree(ks, x)
                } else {
                    0
                },
            forall|y: int| 0 <= y < n ==> #[trigger] in_ports@[y] == in_before(ks, i as int, y),
        decreases n - i,
    {
        let mut j: usize = 0;
        while j < n
            invariant
                n == kinds.len(),
                kinds@ == ks,
                i < n,
                j <= n,
                out_ports.len() == n,
                in_ports.len() == n,
                edges.len() == (edges_upto(ks, i as int) + row_edges(ks, i as int, j as int)).len(),
                forall|k: int|
                    0 <= k < edges.len() ==> (#[trigger] edges@[k])@ == (edges_upto(ks, i as int)
                        + row_edges(ks, i as int, j as int))[k],
                forall|x: int|
                    0 <= x < n ==> #[trigger] out_ports@[x] == if x < i {
                        out_degree(ks, x)
                    } else if x == i {
                        out_before(ks, i as int, j as int)
                    } else {
                        0
                    },
                forall|y: int|
                    0 <= y < n ==> #[trigger] in_ports@[y] == if y < j {
                        in_before(ks, i + 1, y)
                    } else {
                        in_before(ks, i as int, y)
                    },
            decreases n - j,
        {
            let ghost prev = edges_upto(ks, i as int) + row_edges(ks, i as int, j as int);
            if kinds[i].links_to(kinds[j]) {
                let src_port = out_ports[i];
                let dst_port = in_ports[j];
                proof {
                    lemma_out_before_bound(ks, i as int, j as int);
                    lemma_in_before_bound(ks, i as int, j as int);
                }
                edges.push(
                    GraphEdge { from_node: i, from_port: src_port, to_node: j, to_port: dst_port },
                );
                out_ports.set(i, src_port + 1);
                in_ports.set(j, dst_port + 1);
                proof {
                    assert(edges_upto(ks, i as int) + row_edges(ks, i as int, j + 1) =~= prev.push(
                        (i as int, src_port as int, j as int, dst_port as int),
                    ));
                }
            } else {
                proof {
                    assert(edges_upto(ks, i as int) + row_edges(ks, i as int, j + 1) =~= prev);
                }
            }
            j = j + 1;
        }
        proof {
            assert(edges_upto(ks, i + 1) =~= edges_upto(ks, i as int) + row_edges(
                ks,
                i as int,
                n as int,
            ));
        }
        i = i + 1;
    }

    // Third pass: measure each box from its texts and its port counts.
    let mut nodes: Vec<CollectedNode> = Vec::new();
    let mut idx: usize = 0;
    while idx < n
        invariant
            n == kinds.len(),
            n == values.len(),
            kinds@ == ks,
            entries == flat_entries(ans),
            entries.len() == n,
            forall|k: int| 0 <= k < n ==> entry_of(#[trigger] kinds@[k], values@[k]) == entries[k],
            out_ports.len() == n,
            in_ports.len() == n,
            forall|x: int| 0 <= x < n ==> #[trigger] out_ports@[x] == out_degree(ks, x),
            forall|y: int| 0 <= y < n ==> #[trigger] in_ports@[y] == in_degree(ks, y),
            idx <= n,
            nodes.len() == idx,
            forall|k: int| 0 <= k < idx ==> #[trigger] node_matches(nodes@[k], ans, k),
        decreases n - idx,
    {
        let kind = kinds[idx];
        let title = kind.title();
        let mut body = String::from_str(" ");
        body.append(values[idx].as_str());
        body.append(" ");
        proof {
            reveal_strlit(" ");
            assert(body@ =~= padded(values@[idx as int]@));
        }
        let title_len = title.len();
        let body_len = body.as_str().len();
        let content_width = if title_len >= body_len {
            title_len
        } else {
            body_len
        };
        let width = if content_width <= usize::MAX - 2 {
            content_width + 2
        } else {
            usize::MAX
        };
        let out_count = out_ports[idx];
        let in_count = in_ports[idx];
        let ports = if out_count >= in_count {
            out_count
        } else {
            in_count
        };
        let height = if ports <= usize::MAX - 2 {
            ports + 2
        } else {
            usize::MAX
        };
        let node = CollectedNode { width, height, title, body };
        proof {
            let e = entries[idx as int];
            assert(e.0 == kind);
            assert(node_kinds(ans) == ks);
            assert(node.title@ == kind_title(flat_entries(ans)[idx as int].0));
            assert(node_matches(node, ans, idx as int));
        }
        nodes.push(node);
        idx = idx + 1;
    }
    proof {
        assert(edges_upto(ks, n as int) == graph_edges(ks));
    }
    (nodes, edges)
}

} // verus!
