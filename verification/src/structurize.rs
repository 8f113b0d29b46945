//! The fifth pass: the stream of tag-annotated connectors of each line is
//! resolved into an explicit nested tree of group and sequence scopes. Per
//! line, the scope spans become edges of a graph over the term positions
//! (graphify), the graph is rewritten so that overlapping group and sequence
//! policies agree (solve), and the tree is rebuilt from the rewritten graph
//! (rebuild). A malformed tag structure, which the earlier passes never
//! produce, is reported instead of resolved.
use vstd::prelude::*;

use crate::list::List;
use crate::list::bump;
use crate::list::spec_bump;
use crate::list::spec_list_append;
use crate::list::spec_list_get;
use crate::list::spec_list_push;
use crate::list::spec_list_set;
use crate::map::OrdMap;
use crate::map::spec_insert;
use crate::map::spec_lookup;
use crate::types::CompilerError;
use crate::types::FixedComp;
use crate::types::FixedDoc;
use crate::types::FixedFix;
use crate::types::FixedItem;
use crate::types::FixedObj;
use crate::types::FixedTerm;
use crate::types::GraphEdge;
use crate::types::GraphFix;
use crate::types::GraphNode;
use crate::types::GraphTerm;
use crate::types::Property;
use crate::types::RebuildDoc;
use crate::types::RebuildFix;
use crate::types::RebuildObj;
use crate::types::RebuildTerm;

verus! {

// ---------------------------------------------------------------------------
// Graphify: record, per line, where each scope tag opens and closes.
// ---------------------------------------------------------------------------

/// The tag stack of one connector, outermost first, and its pad flag.
pub open spec fn spec_lift_stack(comp: FixedComp) -> (List<Property<u64>>, bool)
    decreases comp,
{
    match comp {
        FixedComp::Comp(pad) => (List::Nil, pad),
        FixedComp::Grp(i, c) => {
            let (props, pad) = spec_lift_stack(*c);
            (List::Cons(Property::Grp(i), Box::new(props)), pad)
        },
        FixedComp::Sequence(i, c) => {
            let (props, pad) = spec_lift_stack(*c);
            (List::Cons(Property::Sequence(i), Box::new(props)), pad)
        },
    }
}

/// The span map with every tag still on the scope stack closed at the given
/// position; a tag whose recorded kind disagrees, or which was never opened,
/// is a violation.
pub open spec fn spec_close_scopes(
    to: u64,
    props: OrdMap<Property<(u64, Option<u64>)>>,
    stack: List<Property<u64>>,
) -> Option<OrdMap<Property<(u64, Option<u64>)>>>
    decreases stack,
{
    match stack {
        List::Nil => Option::Some(props),
        List::Cons(p, rest) => match p {
            Property::Grp(tag) => match spec_lookup(props, tag) {
                Option::Some(Property::Grp((from, _))) => spec_close_scopes(
                    to,
                    spec_insert(props, tag, Property::Grp((from, Option::Some(to)))),
                    *rest,
                ),
                _ => Option::None,
            },
            Property::Sequence(tag) => match spec_lookup(props, tag) {
                Option::Some(Property::Sequence((from, _))) => spec_close_scopes(
                    to,
                    spec_insert(props, tag, Property::Sequence((from, Option::Some(to)))),
                    *rest,
                ),
                _ => Option::None,
            },
        },
    }
}

/// The span map with every tag of the stack opened at the given position.
pub open spec fn spec_open_scopes(
    from: u64,
    props: OrdMap<Property<(u64, Option<u64>)>>,
    stack: List<Property<u64>>,
) -> OrdMap<Property<(u64, Option<u64>)>>
    decreases stack,
{
    match stack {
        List::Nil => props,
        List::Cons(p, rest) => match p {
            Property::Grp(tag) => spec_open_scopes(
                from,
                spec_insert(props, tag, Property::Grp((from, Option::None))),
                *rest,
            ),
            Property::Sequence(tag) => spec_open_scopes(
                from,
                spec_insert(props, tag, Property::Sequence((from, Option::None))),
                *rest,
            ),
        },
    }
}

/// The scope stack and span map after one connector: the common prefix of
/// the open scopes and the connector's stack stays open, the rest of the open
/// scopes closes here, and the rest of the connector's stack opens here.
pub open spec fn spec_update_scopes(
    node: u64,
    props: OrdMap<Property<(u64, Option<u64>)>>,
    scope: List<Property<u64>>,
    stack: List<Property<u64>>,
) -> Option<(List<Property<u64>>, OrdMap<Property<(u64, Option<u64>)>>)>
    decreases scope,
{
    match stack {
        List::Nil => match spec_close_scopes(node, props, scope) {
            Option::Some(props1) => Option::Some((List::Nil, props1)),
            Option::None => Option::None,
        },
        List::Cons(snew, stack1) => match scope {
            List::Nil => Option::Some((stack, spec_open_scopes(node, props, stack))),
            List::Cons(sold, scope1) => {
                let keep = match (sold, snew) {
                    (Property::Grp(left), Property::Grp(right)) => if left > right {
                        Option::None
                    } else {
                        Option::Some(left == right)
                    },
                    (Property::Sequence(left), Property::Sequence(right)) => if left > right {
                        Option::None
                    } else {
                        Option::Some(left == right)
                    },
                    _ => Option::Some(false),
                };
                match keep {
                    Option::None => Option::None,
                    Option::Some(true) => match spec_update_scopes(node, props, *scope1, *stack1) {
                        Option::Some((stack2, props1)) => Option::Some(
                            (List::Cons(sold, Box::new(stack2)), props1),
                        ),
                        Option::None => Option::None,
                    },
                    Option::Some(false) => match spec_close_scopes(node, props, scope) {
                        Option::Some(props1) => Option::Some(
                            (stack, spec_open_scopes(node, props1, stack)),
                        ),
                        Option::None => Option::None,
                    },
                }
            },
        },
    }
}

/// A term carried over into the graph unchanged.
pub open spec fn spec_graph_term(term: FixedTerm) -> GraphTerm
    decreases term,
{
    match term {
        FixedTerm::Null => GraphTerm::Null,
        FixedTerm::Text(data) => GraphTerm::Text(data),
        FixedTerm::Nest(t) => GraphTerm::Nest(Box::new(spec_graph_term(*t))),
        FixedTerm::Pack(j, t) => GraphTerm::Pack(j, Box::new(spec_graph_term(*t))),
    }
}

/// A coalesced fixed chain carried over; its inner connectors still open and
/// close scopes, all at the position of the chain itself.
pub open spec fn spec_graph_fix(
    fix: FixedFix,
    index: u64,
    scope: List<Property<u64>>,
    props: OrdMap<Property<(u64, Option<u64>)>>,
) -> Option<(GraphFix, List<Property<u64>>, OrdMap<Property<(u64, Option<u64>)>>)>
    decreases fix,
{
    match fix {
        FixedFix::Last(t) => Option::Some(
            (GraphFix::Last(Box::new(spec_graph_term(*t))), scope, props),
        ),
        FixedFix::Next(t, c, f1) => {
            let (stack, pad) = spec_lift_stack(*c);
            match spec_update_scopes(index, props, scope, stack) {
                Option::Some((scope1, props1)) => match spec_graph_fix(*f1, index, scope1, props1) {
                    Option::Some((chain, scope2, props2)) => Option::Some(
                        (
                            GraphFix::Next(
                                Box::new(spec_graph_term(*t)),
                                Box::new(chain),
                                pad,
                            ),
                            scope2,
                            props2,
                        ),
                    ),
                    Option::None => Option::None,
                },
                Option::None => Option::None,
            }
        },
    }
}

/// The terms and connector pads of one line, with the positions where every
/// scope tag opens and closes.
pub open spec fn spec_graphify_obj(
    obj: FixedObj,
    index: u64,
    scope: List<Property<u64>>,
    props: OrdMap<Property<(u64, Option<u64>)>>,
) -> Option<(List<GraphTerm>, List<bool>, OrdMap<Property<(u64, Option<u64>)>>)>
    decreases obj,
{
    match obj {
        FixedObj::Last(item) => match *item {
            FixedItem::Term(t) => match spec_close_scopes(index, props, scope) {
                Option::Some(props1) => Option::Some(
                    (
                        List::Cons(spec_graph_term(*t), Box::new(List::Nil)),
                        List::Nil,
                        props1,
                    ),
                ),
                Option::None => Option::None,
            },
            FixedItem::Fix(f) => match spec_graph_fix(*f, index, scope, props) {
                Option::Some((chain, scope1, props1)) => match spec_close_scopes(
                    index,
                    props1,
                    scope1,
                ) {
                    Option::Some(props2) => Option::Some(
                        (
                            List::Cons(GraphTerm::Fix(Box::new(chain)), Box::new(List::Nil)),
                            List::Nil,
                            props2,
                        ),
                    ),
                    Option::None => Option::None,
                },
                Option::None => Option::None,
            },
        },
        FixedObj::Next(item, comp, obj1) => {
            let conv = match *item {
                FixedItem::Term(t) => Option::Some(
                    (spec_graph_term(*t), scope, props),
                ),
                FixedItem::Fix(f) => match spec_graph_fix(*f, index, scope, props) {
                    Option::Some((chain, scope1, props1)) => Option::Some(
                        (GraphTerm::Fix(Box::new(chain)), scope1, props1),
                    ),
                    Option::None => Option::None,
                },
            };
            match conv {
                Option::None => Option::None,
                Option::Some((term, scope1, props1)) => {
                    let (stack, pad) = spec_lift_stack(*comp);
                    match spec_update_scopes(index, props1, scope1, stack) {
                        Option::Some((scope2, props2)) => match spec_graphify_obj(
                            *obj1,
                            spec_bump(index),
                            scope2,
                            props2,
                        ) {
                            Option::Some((terms, pads, props3)) => Option::Some(
                                (
                                    List::Cons(term, Box::new(terms)),
                                    List::Cons(pad, Box::new(pads)),
                                    props3,
                                ),
                            ),
                            Option::None => Option::None,
                        },
                        Option::None => Option::None,
                    }
                },
            }
        },
    }
}

/// The nodes of the graph, one per term, with no edges yet.
pub open spec fn spec_make_nodes(terms: List<GraphTerm>) -> List<GraphNode>
    decreases terms,
{
    match terms {
        List::Nil => List::Nil,
        List::Cons(t, rest) => List::Cons(
            GraphNode { term: t, ins: List::Nil, outs: List::Nil },
            Box::new(spec_make_nodes(*rest)),
        ),
    }
}

/// The node list with the incoming edge list of one node replaced.
pub open spec fn spec_set_node_ins(nodes: List<GraphNode>, i: u64, ins: List<u64>) -> List<
    GraphNode,
>
    decreases nodes,
{
    match nodes {
        List::Nil => List::Nil,
        List::Cons(node, rest) => if i == 0 {
            List::Cons(GraphNode { term: node.term, ins, outs: node.outs }, rest)
        } else {
            List::Cons(node, Box::new(spec_set_node_ins(*rest, (i - 1) as u64, ins)))
        },
    }
}

/// The node list with the outgoing edge list of one node replaced.
pub open spec fn spec_set_node_outs(nodes: List<GraphNode>, i: u64, outs: List<u64>) -> List<
    GraphNode,
>
    decreases nodes,
{
    match nodes {
        List::Nil => List::Nil,
        List::Cons(node, rest) => if i == 0 {
            List::Cons(GraphNode { term: node.term, ins: node.ins, outs }, rest)
        } else {
            List::Cons(node, Box::new(spec_set_node_outs(*rest, (i - 1) as u64, outs)))
        },
    }
}

/// The incoming edge list of a node; empty past the end.
pub open spec fn spec_node_ins(nodes: List<GraphNode>, i: u64) -> List<u64> {
    match spec_list_get(nodes, i) {
        Option::Some(n) => n.ins,
        Option::None => List::Nil,
    }
}

/// The outgoing edge list of a node; empty past the end.
pub open spec fn spec_node_outs(nodes: List<GraphNode>, i: u64) -> List<u64> {
    match spec_list_get(nodes, i) {
        Option::Some(n) => n.outs,
        Option::None => List::Nil,
    }
}

/// The graph after one recorded span was turned into an edge: the edge joins
/// the edge store, its identifier is appended to the outgoing list of its
/// source and to the incoming list of its target. A span opening and closing
/// at the same position yields no edge; one that never closed is a violation.
pub open spec fn spec_transpose(
    entries: OrdMap<Property<(u64, Option<u64>)>>,
    nodes: List<GraphNode>,
    edges: List<GraphEdge>,
    next_id: u64,
) -> Option<(List<GraphNode>, List<GraphEdge>)>
    decreases entries,
{
    match entries {
        OrdMap::Nil => Option::Some((nodes, edges)),
        OrdMap::Cons(_tag, value, rest) => {
            let span = match value {
                Property::Grp((from, to)) => (true, from, to),
                Property::Sequence((from, to)) => (false, from, to),
            };
            match span.2 {
                Option::None => Option::None,
                Option::Some(to) => {
                    let from = span.1;
                    if from == to {
                        spec_transpose(*rest, nodes, edges, next_id)
                    } else {
                        let prop = if span.0 {
                            Property::Grp(())
                        } else {
                            Property::Sequence(())
                        };
                        let edges1 = spec_list_push(
                            edges,
                            GraphEdge { prop, source: from, target: to },
                        );
                        let nodes1 = spec_set_node_outs(
                            nodes,
                            from,
                            spec_list_push(spec_node_outs(nodes, from), next_id),
                        );
                        let nodes2 = spec_set_node_ins(
                            nodes1,
                            to,
                            spec_list_push(spec_node_ins(nodes1, to), next_id),
                        );
                        spec_transpose(*rest, nodes2, edges1, spec_bump(next_id))
                    }
                },
            }
        },
    }
}

// ---------------------------------------------------------------------------
// Solve: rewrite the graph so group and sequence policies agree.
// ---------------------------------------------------------------------------

/// The edge with an identifier, if the identifier is in the store.
pub open spec fn spec_edge(edges: List<GraphEdge>, id: u64) -> Option<GraphEdge> {
    spec_list_get(edges, id)
}

/// The list with the first occurrence of a value removed.
pub open spec fn spec_remove_val(l: List<u64>, x: u64) -> List<u64>
    decreases l,
{
    match l {
        List::Nil => List::Nil,
        List::Cons(y, rest) => if y == x {
            *rest
        } else {
            List::Cons(y, Box::new(spec_remove_val(*rest, x)))
        },
    }
}

/// The list with a value inserted just before the first occurrence of the
/// anchor; unchanged when the anchor is absent.
pub open spec fn spec_insert_before(l: List<u64>, anchor: u64, x: u64) -> List<u64>
    decreases l,
{
    match l {
        List::Nil => List::Nil,
        List::Cons(y, rest) => if y == anchor {
            List::Cons(x, Box::new(List::Cons(y, rest)))
        } else {
            List::Cons(y, Box::new(spec_insert_before(*rest, anchor, x)))
        },
    }
}

/// The list with a block of values spliced in just after the first
/// occurrence of the anchor; unchanged when the anchor is absent.
pub open spec fn spec_splice_after(l: List<u64>, anchor: u64, block: List<u64>) -> List<u64>
    decreases l,
{
    match l {
        List::Nil => List::Nil,
        List::Cons(y, rest) => if y == anchor {
            List::Cons(y, Box::new(spec_list_append(block, *rest)))
        } else {
            List::Cons(y, Box::new(spec_splice_after(*rest, anchor, block)))
        },
    }
}

/// Of the incoming edges, the first one whose source stands leftmost.
pub open spec fn spec_leftmost(
    ins: List<u64>,
    edges: List<GraphEdge>,
    best: u64,
    best_index: u64,
) -> u64
    decreases ins,
{
    match ins {
        List::Nil => best,
        List::Cons(id, rest) => {
            let index = match spec_edge(edges, id) {
                Option::Some(e) => e.source,
                Option::None => u64::MAX,
            };
            if index < best_index {
                spec_leftmost(*rest, edges, id, index)
            } else {
                spec_leftmost(*rest, edges, best, best_index)
            }
        },
    }
}

/// The graph with one sequence edge re-rooted: it leaves the outgoing list
/// of its source and enters the outgoing list of the anchor's source, just
/// before the anchor, which becomes its new source.
pub open spec fn spec_move_out(
    nodes: List<GraphNode>,
    edges: List<GraphEdge>,
    id: u64,
    anchor: u64,
) -> (List<GraphNode>, List<GraphEdge>) {
    match (spec_edge(edges, id), spec_edge(edges, anchor)) {
        (Option::Some(e), Option::Some(a)) => {
            let nodes1 = spec_set_node_outs(
                nodes,
                e.source,
                spec_remove_val(spec_node_outs(nodes, e.source), id),
            );
            let nodes2 = spec_set_node_outs(
                nodes1,
                a.source,
                spec_insert_before(spec_node_outs(nodes1, a.source), anchor, id),
            );
            let edges1 = spec_list_set(
                edges,
                id,
                GraphEdge { prop: e.prop, source: a.source, target: e.target },
            );
            (nodes2, edges1)
        },
        _ => (nodes, edges),
    }
}

/// The scan along the outgoing edges of a node: every sequence edge is
/// re-rooted at the current anchor and becomes the next anchor; the scan
/// stops at the first group edge.
pub open spec fn spec_resolve(
    outs: List<u64>,
    anchor: u64,
    nodes: List<GraphNode>,
    edges: List<GraphEdge>,
) -> (List<GraphNode>, List<GraphEdge>, Option<u64>)
    decreases outs,
{
    match outs {
        List::Nil => (nodes, edges, Option::None),
        List::Cons(id, rest) => match spec_edge(edges, id) {
            Option::Some(e) => match e.prop {
                Property::Grp(_) => (nodes, edges, Option::Some(id)),
                Property::Sequence(_) => {
                    let (nodes1, edges1) = spec_move_out(nodes, edges, id, anchor);
                    spec_resolve(*rest, id, nodes1, edges1)
                },
            },
            Option::None => spec_resolve(*rest, anchor, nodes, edges),
        },
    }
}

/// The targets of a block of edges all replaced.
pub open spec fn spec_set_targets(edges: List<GraphEdge>, block: List<u64>, t: u64) -> List<
    GraphEdge,
>
    decreases block,
{
    match block {
        List::Nil => edges,
        List::Cons(id, rest) => {
            let edges1 = match spec_edge(edges, id) {
                Option::Some(e) => spec_list_set(
                    edges,
                    id,
                    GraphEdge { prop: e.prop, source: e.source, target: t },
                ),
                Option::None => edges,
            };
            spec_set_targets(edges1, *rest, t)
        },
    }
}

/// The graph with the whole incoming block of a node transplanted: the block
/// now targets the group edge's target and stands in that node's incoming
/// list just after the group edge.
pub open spec fn spec_move_ins(
    nodes: List<GraphNode>,
    edges: List<GraphEdge>,
    i: u64,
    grp_id: u64,
) -> (List<GraphNode>, List<GraphEdge>) {
    match spec_edge(edges, grp_id) {
        Option::None => (nodes, edges),
        Option::Some(g) => {
            let block = spec_node_ins(nodes, i);
            let t = g.target;
            let edges1 = spec_set_targets(edges, block, t);
            let nodes1 = spec_set_node_ins(nodes, i, List::Nil);
            let nodes2 = spec_set_node_ins(
                nodes1,
                t,
                spec_splice_after(spec_node_ins(nodes1, t), grp_id, block),
            );
            (nodes2, edges1)
        },
    }
}

/// One node handled by the solve phase: a node with both incoming and
/// outgoing edges has its outgoing sequence edges re-rooted at the leftmost
/// incoming edge's source, and, when a group edge follows them, its incoming
/// block transplanted past that edge.
pub open spec fn spec_solve_node(nodes: List<GraphNode>, edges: List<GraphEdge>, i: u64) -> (
    List<GraphNode>,
    List<GraphEdge>,
) {
    let ins = spec_node_ins(nodes, i);
    let outs = spec_node_outs(nodes, i);
    match (ins, outs) {
        (List::Cons(first, _), List::Cons(_, _)) => {
            let anchor = spec_leftmost(
                ins,
                edges,
                first,
                match spec_edge(edges, first) {
                    Option::Some(e) => e.source,
                    Option::None => u64::MAX,
                },
            );
            let (nodes1, edges1, found) = spec_resolve(outs, anchor, nodes, edges);
            match found {
                Option::Some(g) => spec_move_ins(nodes1, edges1, i, g),
                Option::None => (nodes1, edges1),
            }
        },
        _ => (nodes, edges),
    }
}

/// The solve phase over the nodes from a position on, in position order.
pub open spec fn spec_solve_from(
    nodes: List<GraphNode>,
    edges: List<GraphEdge>,
    i: u64,
    n: u64,
) -> (List<GraphNode>, List<GraphEdge>)
    decreases n - i,
{
    if i >= n {
        (nodes, edges)
    } else {
        let (nodes1, edges1) = spec_solve_node(nodes, edges, i);
        spec_solve_from(nodes1, edges1, (i + 1) as u64, n)
    }
}

// ---------------------------------------------------------------------------
// Rebuild: emit the nested tree that the rewritten graph describes.
// ---------------------------------------------------------------------------

/// A leaf carried out of the graph; a fixed chain may not hide inside an
/// indentation wrapper.
pub open spec fn spec_rebuild_term(term: GraphTerm) -> Option<RebuildTerm>
    decreases term,
{
    match term {
        GraphTerm::Null => Option::Some(RebuildTerm::Null),
        GraphTerm::Text(data) => Option::Some(RebuildTerm::Text(data)),
        GraphTerm::Nest(t) => match spec_rebuild_term(*t) {
            Option::Some(t1) => Option::Some(RebuildTerm::Nest(Box::new(t1))),
            Option::None => Option::None,
        },
        GraphTerm::Pack(j, t) => match spec_rebuild_term(*t) {
            Option::Some(t1) => Option::Some(RebuildTerm::Pack(j, Box::new(t1))),
            Option::None => Option::None,
        },
        GraphTerm::Fix(_) => Option::None,
    }
}

/// A coalesced fixed chain carried out of the graph.
pub open spec fn spec_rebuild_fix(fix: GraphFix) -> Option<RebuildFix>
    decreases fix,
{
    match fix {
        GraphFix::Last(t) => match spec_rebuild_term(*t) {
            Option::Some(t1) => Option::Some(RebuildFix::Term(Box::new(t1))),
            Option::None => Option::None,
        },
        GraphFix::Next(t, f1, pad) => match (spec_rebuild_term(*t), spec_rebuild_fix(*f1)) {
            (Option::Some(t1), Option::Some(f2)) => Option::Some(
                RebuildFix::Comp(
                    Box::new(RebuildFix::Term(Box::new(t1))),
                    Box::new(f2),
                    pad,
                ),
            ),
            _ => Option::None,
        },
    }
}

/// A graph leaf as a line object.
pub open spec fn spec_rebuild_item(term: GraphTerm) -> Option<RebuildObj> {
    match term {
        GraphTerm::Fix(f) => match spec_rebuild_fix(*f) {
            Option::Some(f1) => Option::Some(RebuildObj::Fix(Box::new(f1))),
            Option::None => Option::None,
        },
        _ => match spec_rebuild_term(term) {
            Option::Some(t1) => Option::Some(RebuildObj::Term(Box::new(t1))),
            Option::None => Option::None,
        },
    }
}

/// The outgoing edge kinds of a node, in list order.
pub open spec fn spec_outs_props(outs: List<u64>, edges: List<GraphEdge>) -> List<Property<()>>
    decreases outs,
{
    match outs {
        List::Nil => List::Nil,
        List::Cons(id, rest) => match spec_edge(edges, id) {
            Option::Some(e) => List::Cons(e.prop, Box::new(spec_outs_props(*rest, edges))),
            Option::None => spec_outs_props(*rest, edges),
        },
    }
}

/// How a pending scope closes once its span ends: not at all at the root of
/// a line, or wrapped as a group or a sequence.
pub enum CloseKind {
    Root,
    Grp,
    Sequence,
}

/// A pending scope of the rebuild phase: the composition chain gathered so
/// far on its level, and how the scope itself closes.
pub struct BuildEntry {
    pub wrap: List<(RebuildObj, bool)>,
    pub kind: CloseKind,
}

/// The chain applied around an object: each gathered piece becomes the left
/// side of a composition.
pub open spec fn spec_apply_chain(chain: List<(RebuildObj, bool)>, obj: RebuildObj) -> RebuildObj
    decreases chain,
{
    match chain {
        List::Nil => obj,
        List::Cons(c, rest) => RebuildObj::Comp(
            Box::new(c.0),
            Box::new(spec_apply_chain(*rest, obj)),
            c.1,
        ),
    }
}

/// A pending scope applied around an object: its chain, then its wrapper.
pub open spec fn spec_apply_entry(entry: BuildEntry, obj: RebuildObj) -> RebuildObj {
    let inner = spec_apply_chain(entry.wrap, obj);
    match entry.kind {
        CloseKind::Root => inner,
        CloseKind::Grp => RebuildObj::Grp(Box::new(inner)),
        CloseKind::Sequence => RebuildObj::Sequence(Box::new(inner)),
    }
}

/// The pending-scope stack with one scope pushed per opening edge kind, in
/// list order, after the chain gathered so far joined the former top.
pub open spec fn spec_open_entries(
    props: List<Property<()>>,
    stack: List<BuildEntry>,
    partial: List<(RebuildObj, bool)>,
) -> Option<List<BuildEntry>> {
    match stack {
        List::Nil => Option::None,
        List::Cons(top, rest) => {
            let top1 = BuildEntry {
                wrap: spec_list_append(top.wrap, partial),
                kind: top.kind,
            };
            Option::Some(spec_push_entries(props, List::Cons(top1, rest)))
        },
    }
}

/// The stack with one fresh pending scope pushed per edge kind.
pub open spec fn spec_push_entries(props: List<Property<()>>, stack: List<BuildEntry>) -> List<
    BuildEntry,
>
    decreases props,
{
    match props {
        List::Nil => stack,
        List::Cons(p, rest) => {
            let kind = match p {
                Property::Grp(_) => CloseKind::Grp,
                Property::Sequence(_) => CloseKind::Sequence,
            };
            spec_push_entries(
                *rest,
                List::Cons(BuildEntry { wrap: List::Nil, kind }, Box::new(stack)),
            )
        },
    }
}

/// One pending scope popped and applied per incoming edge; popping past the
/// bottom is a violation.
pub open spec fn spec_close_entries(
    ins: List<u64>,
    stack: List<BuildEntry>,
    obj: RebuildObj,
) -> Option<(List<BuildEntry>, RebuildObj)>
    decreases ins,
{
    match ins {
        List::Nil => Option::Some((stack, obj)),
        List::Cons(_, rest) => match stack {
            List::Nil => Option::None,
            List::Cons(top, stack1) => spec_close_entries(
                *rest,
                *stack1,
                spec_apply_entry(top, obj),
            ),
        },
    }
}

/// The last pending scope applied; more or less than one left is a
/// violation.
pub open spec fn spec_final_entry(stack: List<BuildEntry>, obj: RebuildObj) -> Option<RebuildObj> {
    match stack {
        List::Cons(top, rest) => match *rest {
            List::Nil => Option::Some(spec_apply_entry(top, obj)),
            _ => Option::None,
        },
        List::Nil => Option::None,
    }
}

/// The line streamed left to right: each position extends the chain of its
/// level, closes one pending scope per incoming edge, and opens one per
/// outgoing edge.
pub open spec fn spec_build_line(
    terms: List<GraphTerm>,
    pads: List<bool>,
    inss: List<List<u64>>,
    outss: List<List<Property<()>>>,
    stack: List<BuildEntry>,
    partial: List<(RebuildObj, bool)>,
) -> Option<RebuildObj>
    decreases terms,
{
    match terms {
        List::Nil => Option::None,
        List::Cons(term, terms1) => match spec_rebuild_item(term) {
            Option::None => Option::None,
            Option::Some(item) => match *terms1 {
                List::Nil => match (pads, inss, outss) {
                    (List::Nil, List::Cons(k, inss1), List::Cons(ps, outss1)) => if (*inss1
                        matches List::Nil) && (*outss1 matches List::Nil) && (ps
                        matches List::Nil) {
                        let obj = spec_apply_chain(partial, item);
                        match spec_close_entries(k, stack, obj) {
                            Option::Some((stack1, obj1)) => spec_final_entry(stack1, obj1),
                            Option::None => Option::None,
                        }
                    } else {
                        Option::None
                    },
                    _ => Option::None,
                },
                _ => match (pads, inss, outss) {
                    (
                        List::Cons(pad, pads1),
                        List::Cons(k, inss1),
                        List::Cons(ps, outss1),
                    ) => match (k, ps) {
                        (List::Nil, List::Nil) => spec_build_line(
                            *terms1,
                            *pads1,
                            *inss1,
                            *outss1,
                            stack,
                            spec_list_push(partial, (item, pad)),
                        ),
                        (List::Cons(_, _), List::Nil) => {
                            let obj = spec_apply_chain(partial, item);
                            match spec_close_entries(k, stack, obj) {
                                Option::Some((stack1, closed)) => spec_build_line(
                                    *terms1,
                                    *pads1,
                                    *inss1,
                                    *outss1,
                                    stack1,
                                    List::Cons((closed, pad), Box::new(List::Nil)),
                                ),
                                Option::None => Option::None,
                            }
                        },
                        (List::Nil, List::Cons(_, _)) => match spec_open_entries(
                            ps,
                            stack,
                            partial,
                        ) {
                            Option::Some(stack1) => spec_build_line(
                                *terms1,
                                *pads1,
                                *inss1,
                                *outss1,
                                stack1,
                                List::Cons((item, pad), Box::new(List::Nil)),
                            ),
                            Option::None => Option::None,
                        },
                        _ => Option::None,
                    },
                    _ => Option::None,
                },
            },
        },
    }
}

/// The incoming edge lists of the nodes, in node order.
pub open spec fn spec_collect_ins(nodes: List<GraphNode>) -> List<List<u64>>
    decreases nodes,
{
    match nodes {
        List::Nil => List::Nil,
        List::Cons(node, rest) => List::Cons(node.ins, Box::new(spec_collect_ins(*rest))),
    }
}

/// The outgoing edge kinds of the nodes, in node order.
pub open spec fn spec_collect_outs(nodes: List<GraphNode>, edges: List<GraphEdge>) -> List<
    List<Property<()>>,
>
    decreases nodes,
{
    match nodes {
        List::Nil => List::Nil,
        List::Cons(node, rest) => List::Cons(
            spec_outs_props(node.outs, edges),
            Box::new(spec_collect_outs(*rest, edges)),
        ),
    }
}

/// The terms of the nodes, in node order.
pub open spec fn spec_collect_terms(nodes: List<GraphNode>) -> List<GraphTerm>
    decreases nodes,
{
    match nodes {
        List::Nil => List::Nil,
        List::Cons(node, rest) => List::Cons(node.term, Box::new(spec_collect_terms(*rest))),
    }
}

/// One line taken through all three phases.
pub open spec fn spec_structurize_obj(obj: FixedObj) -> Option<RebuildObj> {
    match spec_graphify_obj(obj, 0, List::Nil, OrdMap::Nil) {
        Option::None => Option::None,
        Option::Some((terms, pads, props)) => match spec_transpose(
            props,
            spec_make_nodes(terms),
            List::Nil,
            0,
        ) {
            Option::None => Option::None,
            Option::Some((nodes, edges)) => {
                let n = crate::list::spec_length(nodes);
                let (nodes1, edges1) = spec_solve_from(nodes, edges, 0, n);
                spec_build_line(
                    spec_collect_terms(nodes1),
                    pads,
                    spec_collect_ins(nodes1),
                    spec_collect_outs(nodes1, edges1),
                    List::Cons(
                        BuildEntry { wrap: List::Nil, kind: CloseKind::Root },
                        Box::new(List::Nil),
                    ),
                    List::Nil,
                )
            },
        },
    }
}

/// What the fifth pass produces for a fixed document, line by line; a
/// malformed tag structure yields nothing.
pub open spec fn spec_structurize(doc: FixedDoc) -> Option<RebuildDoc>
    decreases doc,
{
    match doc {
        FixedDoc::Eod => Option::Some(RebuildDoc::Eod),
        FixedDoc::Break(obj, doc1) => match (spec_structurize_obj(*obj), spec_structurize(*doc1)) {
            (Option::Some(o), Option::Some(d)) => Option::Some(
                RebuildDoc::Break(Box::new(o), Box::new(d)),
            ),
            _ => Option::None,
        },
    }
}

// ---------------------------------------------------------------------------
// The executable pass.
// ---------------------------------------------------------------------------

fn lift_stack(comp: &FixedComp) -> (r: (List<Property<u64>>, bool))
    ensures
        r == spec_lift_stack(*comp),
    decreases *comp,
{
    match comp {
        FixedComp::Comp(pad) => (List::Nil, *pad),
        FixedComp::Grp(i, c) => {
            let (props, pad) = lift_stack(c);
            (List::Cons(Property::Grp(*i), Box::new(props)), pad)
        },
        FixedComp::Sequence(i, c) => {
            let (props, pad) = lift_stack(c);
            (List::Cons(Property::Sequence(*i), Box::new(props)), pad)
        },
    }
}

fn close_scopes(
    to: u64,
    props: OrdMap<Property<(u64, Option<u64>)>>,
    stack: &List<Property<u64>>,
) -> (r: Option<OrdMap<Property<(u64, Option<u64>)>>>)
    ensures
        r == spec_close_scopes(to, props, *stack),
    decreases *stack,
{
    match stack {
        List::Nil => Option::Some(props),
        List::Cons(p, rest) => match p {
            Property::Grp(tag) => match props.lookup(*tag) {
                Option::Some(Property::Grp((from, _))) => close_scopes(
                    to,
                    props.insert(*tag, Property::Grp((from, Option::Some(to)))),
                    rest,
                ),
                _ => Option::None,
            },
            Property::Sequence(tag) => match props.lookup(*tag) {
                Option::Some(Property::Sequence((from, _))) => close_scopes(
                    to,
                    props.insert(*tag, Property::Sequence((from, Option::Some(to)))),
                    rest,
                ),
                _ => Option::None,
            },
        },
    }
}

fn open_scopes(
    from: u64,
    props: OrdMap<Property<(u64, Option<u64>)>>,
    stack: &List<Property<u64>>,
) -> (r: OrdMap<Property<(u64, Option<u64>)>>)
    ensures
        r == spec_open_scopes(from, props, *stack),
    decreases *stack,
{
    match stack {
        List::Nil => props,
        List::Cons(p, rest) => match p {
            Property::Grp(tag) => open_scopes(
                from,
                props.insert(*tag, Property::Grp((from, Option::None))),
                rest,
            ),
            Property::Sequence(tag) => open_scopes(
                from,
                props.insert(*tag, Property::Sequence((from, Option::None))),
                rest,
            ),
        },
    }
}

fn update_scopes(
    node: u64,
    props: OrdMap<Property<(u64, Option<u64>)>>,
    scope: &List<Property<u64>>,
    stack: &List<Property<u64>>,
) -> (r: Option<(List<Property<u64>>, OrdMap<Property<(u64, Option<u64>)>>)>)
    ensures
        r == spec_update_scopes(node, props, *scope, *stack),
    decreases *scope,
{
    match stack {
        List::Nil => match close_scopes(node, props, scope) {
            Option::Some(props1) => Option::Some((List::Nil, props1)),
            Option::None => Option::None,
        },
        List::Cons(snew, stack1) => match scope {
            List::Nil => {
                let opened = open_scopes(node, props, stack);
                Option::Some((stack.clone(), opened))
            },
            List::Cons(sold, scope1) => {
                let keep: Option<bool> = match (sold, snew) {
                    (Property::Grp(left), Property::Grp(right)) => if *left > *right {
                        Option::None
                    } else {
                        Option::Some(*left == *right)
                    },
                    (Property::Sequence(left), Property::Sequence(right)) => if *left > *right {
                        Option::None
                    } else {
                        Option::Some(*left == *right)
                    },
                    _ => Option::Some(false),
                };
                match keep {
                    Option::None => Option::None,
                    Option::Some(true) => match update_scopes(node, props, scope1, stack1) {
                        Option::Some((stack2, props1)) => Option::Some(
                            (List::Cons(*sold, Box::new(stack2)), props1),
                        ),
                        Option::None => Option::None,
                    },
                    Option::Some(false) => match close_scopes(node, props, scope) {
                        Option::Some(props1) => {
                            let opened = open_scopes(node, props1, stack);
                            Option::Some((stack.clone(), opened))
                        },
                        Option::None => Option::None,
                    },
                }
            },
        },
    }
}

fn graph_term(term: &FixedTerm) -> (r: GraphTerm)
    ensures
        r == spec_graph_term(*term),
    decreases *term,
{
    match term {
        FixedTerm::Null => GraphTerm::Null,
        FixedTerm::Text(data) => GraphTerm::Text(data.clone()),
        FixedTerm::Nest(t) => GraphTerm::Nest(Box::new(graph_term(t))),
        FixedTerm::Pack(j, t) => GraphTerm::Pack(*j, Box::new(graph_term(t))),
    }
}

fn graph_fix(
    fix: &FixedFix,
    index: u64,
    scope: List<Property<u64>>,
    props: OrdMap<Property<(u64, Option<u64>)>>,
) -> (r: Option<(GraphFix, List<Property<u64>>, OrdMap<Property<(u64, Option<u64>)>>)>)
    ensures
        r == spec_graph_fix(*fix, index, scope, props),
    decreases *fix,
{
    match fix {
        FixedFix::Last(t) => Option::Some(
            (GraphFix::Last(Box::new(graph_term(t))), scope, props),
        ),
        FixedFix::Next(t, c, f1) => {
            let (stack, pad) = lift_stack(c);
            match update_scopes(index, props, &scope, &stack) {
                Option::Some((scope1, props1)) => match graph_fix(f1, index, scope1, props1) {
                    Option::Some((chain, scope2, props2)) => Option::Some(
                        (
                            GraphFix::Next(Box::new(graph_term(t)), Box::new(chain), pad),
                            scope2,
                            props2,
                        ),
                    ),
                    Option::None => Option::None,
                },
                Option::None => Option::None,
            }
        },
    }
}

fn graphify_obj(
    obj: &FixedObj,
    index: u64,
    scope: List<Property<u64>>,
    props: OrdMap<Property<(u64, Option<u64>)>>,
) -> (r: Option<(List<GraphTerm>, List<bool>, OrdMap<Property<(u64, Option<u64>)>>)>)
    ensures
        r == spec_graphify_obj(*obj, index, scope, props),
    decreases *obj,
{
    match obj {
        FixedObj::Last(item) => match &**item {
            FixedItem::Term(t) => match close_scopes(index, props, &scope) {
                Option::Some(props1) => Option::Some(
                    (
                        List::Cons(graph_term(t), Box::new(List::Nil)),
                        List::Nil,
                        props1,
                    ),
                ),
                Option::None => Option::None,
            },
            FixedItem::Fix(f) => match graph_fix(f, index, scope, props) {
                Option::Some((chain, scope1, props1)) => match close_scopes(
                    index,
                    props1,
                    &scope1,
                ) {
                    Option::Some(props2) => Option::Some(
                        (
                            List::Cons(GraphTerm::Fix(Box::new(chain)), Box::new(List::Nil)),
                            List::Nil,
                            props2,
                        ),
                    ),
                    Option::None => Option::None,
                },
                Option::None => Option::None,
            },
        },
        FixedObj::Next(item, comp, obj1) => {
            let conv: Option<(GraphTerm, List<Property<u64>>, OrdMap<Property<(u64, Option<u64>)>>)> =
                match &**item {
                FixedItem::Term(t) => Option::Some((graph_term(t), scope, props)),
                FixedItem::Fix(f) => match graph_fix(f, index, scope, props) {
                    Option::Some((chain, scope1, props1)) => Option::Some(
                        (GraphTerm::Fix(Box::new(chain)), scope1, props1),
                    ),
                    Option::None => Option::None,
                },
            };
            match conv {
                Option::None => Option::None,
                Option::Some((term, scope1, props1)) => {
                    let (stack, pad) = lift_stack(comp);
                    match update_scopes(index, props1, &scope1, &stack) {
                        Option::Some((scope2, props2)) => match graphify_obj(
                            obj1,
                            bump(index),
                            scope2,
                            props2,
                        ) {
                            Option::Some((terms, pads, props3)) => Option::Some(
                                (
                                    List::Cons(term, Box::new(terms)),
                                    List::Cons(pad, Box::new(pads)),
                                    props3,
                                ),
                            ),
                            Option::None => Option::None,
                        },
                        Option::None => Option::None,
                    }
                },
            }
        },
    }
}

fn make_nodes(terms: List<GraphTerm>) -> (r: List<GraphNode>)
    ensures
        r == spec_make_nodes(terms),
    decreases terms,
{
    match terms {
        List::Nil => List::Nil,
        List::Cons(t, rest) => List::Cons(
            GraphNode { term: t, ins: List::Nil, outs: List::Nil },
            Box::new(make_nodes(*rest)),
        ),
    }
}

fn set_node_ins(nodes: List<GraphNode>, i: u64, ins: List<u64>) -> (r: List<GraphNode>)
    ensures
        r == spec_set_node_ins(nodes, i, ins),
    decreases nodes,
{
    match nodes {
        List::Nil => List::Nil,
        List::Cons(node, rest) => if i == 0 {
            List::Cons(GraphNode { term: node.term, ins, outs: node.outs }, rest)
        } else {
            List::Cons(node, Box::new(set_node_ins(*rest, i - 1, ins)))
        },
    }
}

fn set_node_outs(nodes: List<GraphNode>, i: u64, outs: List<u64>) -> (r: List<GraphNode>)
    ensures
        r == spec_set_node_outs(nodes, i, outs),
    decreases nodes,
{
    match nodes {
        List::Nil => List::Nil,
        List::Cons(node, rest) => if i == 0 {
            List::Cons(GraphNode { term: node.term, ins: node.ins, outs }, rest)
        } else {
            List::Cons(node, Box::new(set_node_outs(*rest, i - 1, outs)))
        },
    }
}

fn node_ins(nodes: &List<GraphNode>, i: u64) -> (r: List<u64>)
    ensures
        r == spec_node_ins(*nodes, i),
{
    match nodes.get(i) {
        Option::Some(n) => n.ins.clone(),
        Option::None => List::Nil,
    }
}

fn node_outs(nodes: &List<GraphNode>, i: u64) -> (r: List<u64>)
    ensures
        r == spec_node_outs(*nodes, i),
{
    match nodes.get(i) {
        Option::Some(n) => n.outs.clone(),
        Option::None => List::Nil,
    }
}

fn transpose(
    entries: OrdMap<Property<(u64, Option<u64>)>>,
    nodes: List<GraphNode>,
    edges: List<GraphEdge>,
    next_id: u64,
) -> (r: Option<(List<GraphNode>, List<GraphEdge>)>)
    ensures
        r == spec_transpose(entries, nodes, edges, next_id),
    decreases entries,
{
    match entries {
        OrdMap::Nil => Option::Some((nodes, edges)),
        OrdMap::Cons(_tag, value, rest) => {
            let span: (bool, u64, Option<u64>) = match value {
                Property::Grp((from, to)) => (true, from, to),
                Property::Sequence((from, to)) => (false, from, to),
            };
            match span.2 {
                Option::None => Option::None,
                Option::Some(to) => {
                    let from = span.1;
                    if from == to {
                        transpose(*rest, nodes, edges, next_id)
                    } else {
                        let prop = if span.0 {
                            Property::Grp(())
                        } else {
                            Property::Sequence(())
                        };
                        let edges1 = edges.push(GraphEdge { prop, source: from, target: to });
                        let outs1 = node_outs(&nodes, from).push(next_id);
                        let nodes1 = set_node_outs(nodes, from, outs1);
                        let ins1 = node_ins(&nodes1, to).push(next_id);
                        let nodes2 = set_node_ins(nodes1, to, ins1);
                        transpose(*rest, nodes2, edges1, bump(next_id))
                    }
                },
            }
        },
    }
}

fn edge_of(edges: &List<GraphEdge>, id: u64) -> (r: Option<GraphEdge>)
    ensures
        r == spec_edge(*edges, id),
{
    match edges.get(id) {
        Option::Some(e) => Option::Some(*e),
        Option::None => Option::None,
    }
}

fn remove_val(l: List<u64>, x: u64) -> (r: List<u64>)
    ensures
        r == spec_remove_val(l, x),
    decreases l,
{
    match l {
        List::Nil => List::Nil,
        List::Cons(y, rest) => if y == x {
            *rest
        } else {
            List::Cons(y, Box::new(remove_val(*rest, x)))
        },
    }
}

fn insert_before(l: List<u64>, anchor: u64, x: u64) -> (r: List<u64>)
    ensures
        r == spec_insert_before(l, anchor, x),
    decreases l,
{
    match l {
        List::Nil => List::Nil,
        List::Cons(y, rest) => if y == anchor {
            List::Cons(x, Box::new(List::Cons(y, rest)))
        } else {
            List::Cons(y, Box::new(insert_before(*rest, anchor, x)))
        },
    }
}

fn splice_after(l: List<u64>, anchor: u64, block: List<u64>) -> (r: List<u64>)
    ensures
        r == spec_splice_after(l, anchor, block),
    decreases l,
{
    match l {
        List::Nil => List::Nil,
        List::Cons(y, rest) => if y == anchor {
            List::Cons(y, Box::new(block.append(*rest)))
        } else {
            List::Cons(y, Box::new(splice_after(*rest, anchor, block)))
        },
    }
}

fn leftmost(ins: &List<u64>, edges: &List<GraphEdge>, best: u64, best_index: u64) -> (r: u64)
    ensures
        r == spec_leftmost(*ins, *edges, best, best_index),
    decreases *ins,
{
    match ins {
        List::Nil => best,
        List::Cons(id, rest) => {
            let index = match edge_of(edges, *id) {
                Option::Some(e) => e.source,
                Option::None => u64::MAX,
            };
            if index < best_index {
                leftmost(rest, edges, *id, index)
            } else {
                leftmost(rest, edges, best, best_index)
            }
        },
    }
}

fn move_out(nodes: List<GraphNode>, edges: List<GraphEdge>, id: u64, anchor: u64) -> (r: (
    List<GraphNode>,
    List<GraphEdge>,
))
    ensures
        r == spec_move_out(nodes, edges, id, anchor),
{
    match (edge_of(&edges, id), edge_of(&edges, anchor)) {
        (Option::Some(e), Option::Some(a)) => {
            let outs_src = remove_val(node_outs(&nodes, e.source), id);
            let nodes1 = set_node_outs(nodes, e.source, outs_src);
            let outs_dst = insert_before(node_outs(&nodes1, a.source), anchor, id);
            let nodes2 = set_node_outs(nodes1, a.source, outs_dst);
            let edges1 = edges.set(
                id,
                GraphEdge { prop: e.prop, source: a.source, target: e.target },
            );
            (nodes2, edges1)
        },
        _ => (nodes, edges),
    }
}

fn resolve(outs: &List<u64>, anchor: u64, nodes: List<GraphNode>, edges: List<GraphEdge>) -> (r: (
    List<GraphNode>,
    List<GraphEdge>,
    Option<u64>,
))
    ensures
        r == spec_resolve(*outs, anchor, nodes, edges),
    decreases *outs,
{
    match outs {
        List::Nil => (nodes, edges, Option::None),
        List::Cons(id, rest) => match edge_of(&edges, *id) {
            Option::Some(e) => match e.prop {
                Property::Grp(_) => (nodes, edges, Option::Some(*id)),
                Property::Sequence(_) => {
                    let (nodes1, edges1) = move_out(nodes, edges, *id, anchor);
                    resolve(rest, *id, nodes1, edges1)
                },
            },
            Option::None => resolve(rest, anchor, nodes, edges),
        },
    }
}

fn set_targets(edges: List<GraphEdge>, block: &List<u64>, t: u64) -> (r: List<GraphEdge>)
    ensures
        r == spec_set_targets(edges, *block, t),
    decreases *block,
{
    match block {
        List::Nil => edges,
        List::Cons(id, rest) => {
            let edges1 = match edge_of(&edges, *id) {
                Option::Some(e) => edges.set(
                    *id,
                    GraphEdge { prop: e.prop, source: e.source, target: t },
                ),
                Option::None => edges,
            };
            set_targets(edges1, rest, t)
        },
    }
}

fn move_ins(nodes: List<GraphNode>, edges: List<GraphEdge>, i: u64, grp_id: u64) -> (r: (
    List<GraphNode>,
    List<GraphEdge>,
))
    ensures
        r == spec_move_ins(nodes, edges, i, grp_id),
{
    match edge_of(&edges, grp_id) {
        Option::None => (nodes, edges),
        Option::Some(g) => {
            let block = node_ins(&nodes, i);
            let t = g.target;
            let edges1 = set_targets(edges, &block, t);
            let nodes1 = set_node_ins(nodes, i, List::Nil);
            let ins_t = splice_after(node_ins(&nodes1, t), grp_id, block);
            let nodes2 = set_node_ins(nodes1, t, ins_t);
            (nodes2, edges1)
        },
    }
}

fn solve_node(nodes: List<GraphNode>, edges: List<GraphEdge>, i: u64) -> (r: (
    List<GraphNode>,
    List<GraphEdge>,
))
    ensures
        r == spec_solve_node(nodes, edges, i),
{
    let ins = node_ins(&nodes, i);
    let outs = node_outs(&nodes, i);
    match (&ins, &outs) {
        (List::Cons(first, _), List::Cons(_, _)) => {
            let best_index = match edge_of(&edges, *first) {
                Option::Some(e) => e.source,
                Option::None => u64::MAX,
            };
            let anchor = leftmost(&ins, &edges, *first, best_index);
            let (nodes1, edges1, found) = resolve(&outs, anchor, nodes, edges);
            match found {
                Option::Some(g) => move_ins(nodes1, edges1, i, g),
                Option::None => (nodes1, edges1),
            }
        },
        _ => (nodes, edges),
    }
}

fn solve_from(nodes: List<GraphNode>, edges: List<GraphEdge>, i: u64, n: u64) -> (r: (
    List<GraphNode>,
    List<GraphEdge>,
))
    ensures
        r == spec_solve_from(nodes, edges, i, n),
    decreases n - i,
{
    if i >= n {
        (nodes, edges)
    } else {
        let (nodes1, edges1) = solve_node(nodes, edges, i);
        solve_from(nodes1, edges1, i + 1, n)
    }
}

fn rebuild_term(term: &GraphTerm) -> (r: Option<RebuildTerm>)
    ensures
        r == spec_rebuild_term(*term),
    decreases *term,
{
    match term {
        GraphTerm::Null => Option::Some(RebuildTerm::Null),
        GraphTerm::Text(data) => Option::Some(RebuildTerm::Text(data.clone())),
        GraphTerm::Nest(t) => match rebuild_term(t) {
            Option::Some(t1) => Option::Some(RebuildTerm::Nest(Box::new(t1))),
            Option::None => Option::None,
        },
        GraphTerm::Pack(j, t) => match rebuild_term(t) {
            Option::Some(t1) => Option::Some(RebuildTerm::Pack(*j, Box::new(t1))),
            Option::None => Option::None,
        },
        GraphTerm::Fix(_) => Option::None,
    }
}

fn rebuild_fix(fix: &GraphFix) -> (r: Option<RebuildFix>)
    ensures
        r == spec_rebuild_fix(*fix),
    decreases *fix,
{
    match fix {
        GraphFix::Last(t) => match rebuild_term(t) {
            Option::Some(t1) => Option::Some(RebuildFix::Term(Box::new(t1))),
            Option::None => Option::None,
        },
        GraphFix::Next(t, f1, pad) => match (rebuild_term(t), rebuild_fix(f1)) {
            (Option::Some(t1), Option::Some(f2)) => Option::Some(
                RebuildFix::Comp(
                    Box::new(RebuildFix::Term(Box::new(t1))),
                    Box::new(f2),
                    *pad,
                ),
            ),
            _ => Option::None,
        },
    }
}

fn rebuild_item(term: &GraphTerm) -> (r: Option<RebuildObj>)
    ensures
        r == spec_rebuild_item(*term),
{
    match term {
        GraphTerm::Fix(f) => match rebuild_fix(f) {
            Option::Some(f1) => Option::Some(RebuildObj::Fix(Box::new(f1))),
            Option::None => Option::None,
        },
        _ => match rebuild_term(term) {
            Option::Some(t1) => Option::Some(RebuildObj::Term(Box::new(t1))),
            Option::None => Option::None,
        },
    }
}

fn outs_props(outs: &List<u64>, edges: &List<GraphEdge>) -> (r: List<Property<()>>)
    ensures
        r == spec_outs_props(*outs, *edges),
    decreases *outs,
{
    match outs {
        List::Nil => List::Nil,
        List::Cons(id, rest) => match edge_of(edges, *id) {
            Option::Some(e) => List::Cons(e.prop, Box::new(outs_props(rest, edges))),
            Option::None => outs_props(rest, edges),
        },
    }
}

fn apply_chain(chain: List<(RebuildObj, bool)>, obj: RebuildObj) -> (r: RebuildObj)
    ensures
        r == spec_apply_chain(chain, obj),
    decreases chain,
{
    match chain {
        List::Nil => obj,
        List::Cons(c, rest) => RebuildObj::Comp(
            Box::new(c.0),
            Box::new(apply_chain(*rest, obj)),
            c.1,
        ),
    }
}

fn apply_entry(entry: BuildEntry, obj: RebuildObj) -> (r: RebuildObj)
    ensures
        r == spec_apply_entry(entry, obj),
{
    let inner = apply_chain(entry.wrap, obj);
    match entry.kind {
        CloseKind::Root => inner,
        CloseKind::Grp => RebuildObj::Grp(Box::new(inner)),
        CloseKind::Sequence => RebuildObj::Sequence(Box::new(inner)),
    }
}

fn push_entries(props: List<Property<()>>, stack: List<BuildEntry>) -> (r: List<BuildEntry>)
    ensures
        r == spec_push_entries(props, stack),
    decreases props,
{
    match props {
        List::Nil => stack,
        List::Cons(p, rest) => {
            let kind = match p {
                Property::Grp(_) => CloseKind::Grp,
                Property::Sequence(_) => CloseKind::Sequence,
            };
            push_entries(
                *rest,
                List::Cons(BuildEntry { wrap: List::Nil, kind }, Box::new(stack)),
            )
        },
    }
}

fn open_entries(
    props: List<Property<()>>,
    stack: List<BuildEntry>,
    partial: List<(RebuildObj, bool)>,
) -> (r: Option<List<BuildEntry>>)
    ensures
        r == spec_open_entries(props, stack, partial),
{
    match stack {
        List::Nil => Option::None,
        List::Cons(top, rest) => {
            let top1 = BuildEntry { wrap: top.wrap.append(partial), kind: top.kind };
            Option::Some(push_entries(props, List::Cons(top1, rest)))
        },
    }
}

fn close_entries(ins: &List<u64>, stack: List<BuildEntry>, obj: RebuildObj) -> (r: Option<
    (List<BuildEntry>, RebuildObj),
>)
    ensures
        r == spec_close_entries(*ins, stack, obj),
    decreases *ins,
{
    match ins {
        List::Nil => Option::Some((stack, obj)),
        List::Cons(_, rest) => match stack {
            List::Nil => Option::None,
            List::Cons(top, stack1) => close_entries(rest, *stack1, apply_entry(top, obj)),
        },
    }
}

fn final_entry(stack: List<BuildEntry>, obj: RebuildObj) -> (r: Option<RebuildObj>)
    ensures
        r == spec_final_entry(stack, obj),
{
    match stack {
        List::Cons(top, rest) => match *rest {
            List::Nil => Option::Some(apply_entry(top, obj)),
            _ => Option::None,
        },
        List::Nil => Option::None,
    }
}

fn build_line(
    terms: List<GraphTerm>,
    pads: List<bool>,
    inss: List<List<u64>>,
    outss: List<List<Property<()>>>,
    stack: List<BuildEntry>,
    partial: List<(RebuildObj, bool)>,
) -> (r: Option<RebuildObj>)
    ensures
        r == spec_build_line(terms, pads, inss, outss, stack, partial),
    decreases terms,
{
    match terms {
        List::Nil => Option::None,
        List::Cons(term, terms1) => match rebuild_item(&term) {
            Option::None => Option::None,
            Option::Some(item) => match *terms1 {
                List::Nil => match (pads, inss, outss) {
                    (List::Nil, List::Cons(k, inss1), List::Cons(ps, outss1)) => {
                        let shape_ok = match (&*inss1, &*outss1, &ps) {
                            (List::Nil, List::Nil, List::Nil) => true,
                            _ => false,
                        };
                        if shape_ok {
                            let obj = apply_chain(partial, item);
                            match close_entries(&k, stack, obj) {
                                Option::Some((stack1, obj1)) => final_entry(stack1, obj1),
                                Option::None => Option::None,
                            }
                        } else {
                            Option::None
                        }
                    },
                    _ => Option::None,
                },
                _ => match (pads, inss, outss) {
                    (
                        List::Cons(pad, pads1),
                        List::Cons(k, inss1),
                        List::Cons(ps, outss1),
                    ) => match (k, ps) {
                        (List::Nil, List::Nil) => build_line(
                            *terms1,
                            *pads1,
                            *inss1,
                            *outss1,
                            stack,
                            partial.push((item, pad)),
                        ),
                        (List::Cons(k0, krest), List::Nil) => {
                            let kl = List::Cons(k0, krest);
                            let obj = apply_chain(partial, item);
                            match close_entries(&kl, stack, obj) {
                                Option::Some((stack1, closed)) => build_line(
                                    *terms1,
                                    *pads1,
                                    *inss1,
                                    *outss1,
                                    stack1,
                                    List::Cons((closed, pad), Box::new(List::Nil)),
                                ),
                                Option::None => Option::None,
                            }
                        },
                        (List::Nil, List::Cons(p0, prest)) => match open_entries(
                            List::Cons(p0, prest),
                            stack,
                            partial,
                        ) {
                            Option::Some(stack1) => build_line(
                                *terms1,
                                *pads1,
                                *inss1,
                                *outss1,
                                stack1,
                                List::Cons((item, pad), Box::new(List::Nil)),
                            ),
                            Option::None => Option::None,
                        },
                        _ => Option::None,
                    },
                    _ => Option::None,
                },
            },
        },
    }
}

fn collect_ins(nodes: &List<GraphNode>) -> (r: List<List<u64>>)
    ensures
        r == spec_collect_ins(*nodes),
    decreases *nodes,
{
    match nodes {
        List::Nil => List::Nil,
        List::Cons(node, rest) => List::Cons(node.ins.clone(), Box::new(collect_ins(rest))),
    }
}

fn collect_outs(nodes: &List<GraphNode>, edges: &List<GraphEdge>) -> (r: List<List<Property<()>>>)
    ensures
        r == spec_collect_outs(*nodes, *edges),
    decreases *nodes,
{
    match nodes {
        List::Nil => List::Nil,
        List::Cons(node, rest) => List::Cons(
            outs_props(&node.outs, edges),
            Box::new(collect_outs(rest, edges)),
        ),
    }
}

fn collect_terms(nodes: List<GraphNode>) -> (r: List<GraphTerm>)
    ensures
        r == spec_collect_terms(nodes),
    decreases nodes,
{
    match nodes {
        List::Nil => List::Nil,
        List::Cons(node, rest) => List::Cons(node.term, Box::new(collect_terms(*rest))),
    }
}

fn structurize_obj(obj: &FixedObj) -> (r: Option<RebuildObj>)
    ensures
        r == spec_structurize_obj(*obj),
{
    match graphify_obj(obj, 0, List::Nil, OrdMap::Nil) {
        Option::None => Option::None,
        Option::Some((terms, pads, props)) => {
            let nodes0 = make_nodes(terms);
            match transpose(props, nodes0, List::Nil, 0) {
                Option::None => Option::None,
                Option::Some((nodes, edges)) => {
                    let n = nodes.length();
                    let (nodes1, edges1) = solve_from(nodes, edges, 0, n);
                    let inss = collect_ins(&nodes1);
                    let outss = collect_outs(&nodes1, &edges1);
                    let terms1 = collect_terms(nodes1);
                    build_line(
                        terms1,
                        pads,
                        inss,
                        outss,
                        List::Cons(
                            BuildEntry { wrap: List::Nil, kind: CloseKind::Root },
                            Box::new(List::Nil),
                        ),
                        List::Nil,
                    )
                },
            }
        },
    }
}

fn visit_doc(doc: &FixedDoc) -> (r: Option<RebuildDoc>)
    ensures
        r == spec_structurize(*doc),
    decreases *doc,
{
    match doc {
        FixedDoc::Eod => Option::Some(RebuildDoc::Eod),
        FixedDoc::Break(obj, doc1) => match (structurize_obj(obj), visit_doc(doc1)) {
            (Option::Some(o), Option::Some(d)) => Option::Some(
                RebuildDoc::Break(Box::new(o), Box::new(d)),
            ),
            _ => Option::None,
        },
    }
}

/// Resolves the scope tags of every line into explicit nested group and
/// sequence structure; a tag structure that the earlier passes cannot have
/// produced is reported as invalid input.
pub fn structurize(doc: Box<FixedDoc>) -> (r: Result<Box<RebuildDoc>, CompilerError>)
    ensures
        spec_structurize(*doc) matches Some(d) ==> (r matches Ok(rd) && *rd == d),
        spec_structurize(*doc) is None ==> (r matches Err(e) && e is InvalidInput),
{
    match visit_doc(&doc) {
        Option::Some(d) => Result::Ok(Box::new(d)),
        Option::None => Result::Err(
            CompilerError::InvalidInput(
                "the scope tags do not nest the way the earlier passes arrange them".to_owned(),
            ),
        ),
    }
}

} // verus!
