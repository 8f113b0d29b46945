//! What text a document holds: a property of all text literals survives
//! every compilation pass. The property is an arbitrary predicate on the
//! literal's characters, so one proof serves every claim of this shape.
use vstd::prelude::*;

use crate::broken::spec_broken;
use crate::broken::spec_mark;
use crate::broken::spec_remove;
use crate::denull::FixRes;
use crate::denull::ObjRes;
use crate::denull::spec_denull;
use crate::denull::spec_denull_doc;
use crate::denull::spec_denull_fix;
use crate::denull::spec_denull_obj;
use crate::denull::spec_denull_term;
use crate::fixed::FixRest;
use crate::fixed::spec_conv_comp;
use crate::fixed::spec_conv_term;
use crate::fixed::spec_fixed;
use crate::fixed::spec_visit_fix;
use crate::fixed::spec_visit_obj;
use crate::heap::spec_heap_fix;
use crate::heap::spec_heap_obj;
use crate::heap::spec_move_to_heap;
use crate::list::List;
use crate::serialize::Frag;
use crate::serialize::TermWrap;
use crate::serialize::spec_frag_append;
use crate::serialize::spec_frag_to_serial;
use crate::serialize::spec_serialize;
use crate::serialize::spec_visit;
use crate::serialize::spec_wrap_terms;
use crate::types::Broken;
use crate::types::DenullDoc;
use crate::types::DenullFix;
use crate::types::DenullObj;
use crate::types::DenullTerm;
use crate::types::Doc;
use crate::types::DocObj;
use crate::types::DocObjFix;
use crate::types::Edsl;
use crate::types::FinalDoc;
use crate::types::FinalDocObj;
use crate::types::FinalDocObjFix;
use crate::types::FixedDoc;
use crate::types::FixedFix;
use crate::types::FixedItem;
use crate::types::FixedObj;
use crate::types::FixedTerm;
use crate::types::Layout;
use crate::types::LinearDoc;
use crate::types::LinearObj;
use crate::types::LinearTerm;
use crate::types::Property;
use crate::types::Serial;
use crate::types::SerialComp;
use crate::types::SerialTerm;

verus! {

/// Whether every text literal of a layout satisfies the predicate.
pub open spec fn layout_texts(l: Layout, p: spec_fn(Seq<char>) -> bool) -> bool
    decreases l,
{
    match l {
        Layout::Null => true,
        Layout::Text(s) => p(s@),
        Layout::Fix(x) => layout_texts(*x, p),
        Layout::Grp(x) => layout_texts(*x, p),
        Layout::Sequence(x) => layout_texts(*x, p),
        Layout::Nest(x) => layout_texts(*x, p),
        Layout::Pack(x) => layout_texts(*x, p),
        Layout::Line(a, b) => layout_texts(*a, p) && layout_texts(*b, p),
        Layout::Comp(a, b, _) => layout_texts(*a, p) && layout_texts(*b, p),
    }
}

/// Whether every text literal of an annotated layout satisfies the predicate.
pub open spec fn broken_texts(l: Broken, p: spec_fn(Seq<char>) -> bool) -> bool
    decreases l,
{
    match l {
        Broken::Null => true,
        Broken::Text(s) => p(s@),
        Broken::Fix(x) => broken_texts(*x, p),
        Broken::Grp(x) => broken_texts(*x, p),
        Broken::Sequence(_, x) => broken_texts(*x, p),
        Broken::Nest(x) => broken_texts(*x, p),
        Broken::Pack(x) => broken_texts(*x, p),
        Broken::Line(a, b) => broken_texts(*a, p) && broken_texts(*b, p),
        Broken::Comp(a, b, _) => broken_texts(*a, p) && broken_texts(*b, p),
    }
}

/// Whether every text literal satisfies the predicate, after the first pass.
pub open spec fn edsl_texts(l: Edsl, p: spec_fn(Seq<char>) -> bool) -> bool
    decreases l,
{
    match l {
        Edsl::Null => true,
        Edsl::Text(s) => p(s@),
        Edsl::Fix(x) => edsl_texts(*x, p),
        Edsl::Grp(x) => edsl_texts(*x, p),
        Edsl::Sequence(x) => edsl_texts(*x, p),
        Edsl::Nest(x) => edsl_texts(*x, p),
        Edsl::Pack(x) => edsl_texts(*x, p),
        Edsl::Line(a, b) => edsl_texts(*a, p) && edsl_texts(*b, p),
        Edsl::Comp(a, b, _) => edsl_texts(*a, p) && edsl_texts(*b, p),
    }
}

/// The first pass keeps every text literal.
pub proof fn broken_keeps_texts(l: Layout, p: spec_fn(Seq<char>) -> bool)
    requires
        layout_texts(l, p),
    ensures
        edsl_texts(spec_broken(l), p),
{
    mark_keeps_texts(l, p);
    remove_keeps_texts(spec_mark(l).1, false, p);
}

proof fn mark_keeps_texts(l: Layout, p: spec_fn(Seq<char>) -> bool)
    requires
        layout_texts(l, p),
    ensures
        broken_texts(spec_mark(l).1, p),
    decreases l,
{
    match l {
        Layout::Null => {}
        Layout::Text(_) => {}
        Layout::Fix(x) => mark_keeps_texts(*x, p),
        Layout::Grp(x) => mark_keeps_texts(*x, p),
        Layout::Sequence(x) => mark_keeps_texts(*x, p),
        Layout::Nest(x) => mark_keeps_texts(*x, p),
        Layout::Pack(x) => mark_keeps_texts(*x, p),
        Layout::Line(a, b) => {
            mark_keeps_texts(*a, p);
            mark_keeps_texts(*b, p);
        }
        Layout::Comp(a, b, _) => {
            mark_keeps_texts(*a, p);
            mark_keeps_texts(*b, p);
        }
    }
}

proof fn remove_keeps_texts(l: Broken, broken: bool, p: spec_fn(Seq<char>) -> bool)
    requires
        broken_texts(l, p),
    ensures
        edsl_texts(spec_remove(l, broken), p),
    decreases l,
{
    match l {
        Broken::Null => {}
        Broken::Text(_) => {}
        Broken::Fix(x) => remove_keeps_texts(*x, false, p),
        Broken::Grp(x) => remove_keeps_texts(*x, false, p),
        Broken::Sequence(b, x) => {
            if b {
                remove_keeps_texts(*x, true, p);
            } else {
                remove_keeps_texts(*x, false, p);
            }
        }
        Broken::Nest(x) => remove_keeps_texts(*x, broken, p),
        Broken::Pack(x) => remove_keeps_texts(*x, broken, p),
        Broken::Line(a, b) => {
            remove_keeps_texts(*a, broken, p);
            remove_keeps_texts(*b, broken, p);
        }
        Broken::Comp(a, b, _) => {
            remove_keeps_texts(*a, broken, p);
            remove_keeps_texts(*b, broken, p);
        }
    }
}

/// Whether the one text literal of a flattened term satisfies the predicate.
pub open spec fn serial_term_texts(t: SerialTerm, p: spec_fn(Seq<char>) -> bool) -> bool
    decreases t,
{
    match t {
        SerialTerm::Null => true,
        SerialTerm::Text(s) => p(s@),
        SerialTerm::Nest(t1) => serial_term_texts(*t1, p),
        SerialTerm::Pack(_, t1) => serial_term_texts(*t1, p),
    }
}

/// Whether every text literal of a chain piece satisfies the predicate.
pub open spec fn frag_texts(f: Frag, p: spec_fn(Seq<char>) -> bool) -> bool
    decreases f,
{
    match f {
        Frag::Last(t) => serial_term_texts(t, p),
        Frag::Next(t, _, rest) => serial_term_texts(t, p) && frag_texts(*rest, p),
    }
}

/// Whether every text literal of a flattened chain satisfies the predicate.
pub open spec fn serial_texts(s: Serial, p: spec_fn(Seq<char>) -> bool) -> bool
    decreases s,
{
    match s {
        Serial::Past => true,
        Serial::Last(t, rest) => serial_term_texts(*t, p) && serial_texts(*rest, p),
        Serial::Next(t, _, rest) => serial_term_texts(*t, p) && serial_texts(*rest, p),
    }
}

proof fn wrap_terms_keeps_texts(
    wraps: List<TermWrap>,
    t: SerialTerm,
    p: spec_fn(Seq<char>) -> bool,
)
    requires
        serial_term_texts(t, p),
    ensures
        serial_term_texts(spec_wrap_terms(wraps, t), p),
    decreases wraps,
{
    match wraps {
        List::Nil => {}
        List::Cons(_, rest) => wrap_terms_keeps_texts(*rest, t, p),
    }
}

proof fn frag_append_keeps_texts(
    a: Frag,
    c: SerialComp,
    b: Frag,
    p: spec_fn(Seq<char>) -> bool,
)
    requires
        frag_texts(a, p),
        frag_texts(b, p),
    ensures
        frag_texts(spec_frag_append(a, c, b), p),
    decreases a,
{
    match a {
        Frag::Last(_) => {}
        Frag::Next(_, _, rest) => frag_append_keeps_texts(*rest, c, b, p),
    }
}

proof fn visit_keeps_texts(
    l: Edsl,
    i: u64,
    j: u64,
    fixed: bool,
    terms: List<TermWrap>,
    comps: List<Property<u64>>,
    p: spec_fn(Seq<char>) -> bool,
)
    requires
        edsl_texts(l, p),
    ensures
        frag_texts(spec_visit(l, i, j, fixed, terms, comps).2, p),
    decreases l,
{
    match l {
        Edsl::Null => {}
        Edsl::Text(s) => {
            wrap_terms_keeps_texts(terms, SerialTerm::Text(s), p);
        }
        Edsl::Fix(x) => visit_keeps_texts(*x, i, j, true, terms, comps, p),
        Edsl::Grp(x) => visit_keeps_texts(
            *x,
            crate::list::spec_bump(i),
            j,
            fixed,
            terms,
            crate::list::spec_list_push(comps, Property::Grp(i)),
            p,
        ),
        Edsl::Sequence(x) => visit_keeps_texts(
            *x,
            crate::list::spec_bump(i),
            j,
            fixed,
            terms,
            crate::list::spec_list_push(comps, Property::Sequence(i)),
            p,
        ),
        Edsl::Nest(x) => visit_keeps_texts(
            *x,
            i,
            j,
            fixed,
            crate::list::spec_list_push(terms, TermWrap::Nest),
            comps,
            p,
        ),
        Edsl::Pack(x) => visit_keeps_texts(
            *x,
            i,
            crate::list::spec_bump(j),
            fixed,
            crate::list::spec_list_push(terms, TermWrap::Pack(j)),
            comps,
            p,
        ),
        Edsl::Line(a, b) => {
            visit_keeps_texts(*a, i, j, fixed, terms, comps, p);
            let (i1, j1, fl) = spec_visit(*a, i, j, fixed, terms, comps);
            visit_keeps_texts(*b, i1, j1, fixed, terms, comps, p);
            let (_i2, _j2, fr) = spec_visit(*b, i1, j1, fixed, terms, comps);
            frag_append_keeps_texts(fl, SerialComp::Line, fr, p);
        }
        Edsl::Comp(a, b, attr) => {
            visit_keeps_texts(*a, i, j, fixed, terms, comps, p);
            let (i1, j1, fl) = spec_visit(*a, i, j, fixed, terms, comps);
            visit_keeps_texts(*b, i1, j1, fixed, terms, comps, p);
            let (_i2, _j2, fr) = spec_visit(*b, i1, j1, fixed, terms, comps);
            let conn = crate::serialize::spec_wrap_comps(
                comps,
                SerialComp::Comp(
                    crate::types::Attr { pad: attr.pad, fix: fixed || attr.fix },
                ),
            );
            frag_append_keeps_texts(fl, conn, fr, p);
        }
    }
}

proof fn frag_to_serial_keeps_texts(f: Frag, p: spec_fn(Seq<char>) -> bool)
    requires
        frag_texts(f, p),
    ensures
        serial_texts(spec_frag_to_serial(f), p),
    decreases f,
{
    match f {
        Frag::Last(_) => {
            assert(serial_texts(Serial::Past, p));
        }
        Frag::Next(_, _, rest) => frag_to_serial_keeps_texts(*rest, p),
    }
}

/// The second pass keeps every text literal.
pub proof fn serialize_keeps_texts(l: Edsl, p: spec_fn(Seq<char>) -> bool)
    requires
        edsl_texts(l, p),
    ensures
        serial_texts(spec_serialize(l), p),
{
    visit_keeps_texts(l, 0, 0, false, List::Nil, List::Nil, p);
    frag_to_serial_keeps_texts(spec_visit(l, 0, 0, false, List::Nil, List::Nil).2, p);
}

/// Whether the one text literal of a linear term satisfies the predicate.
pub open spec fn linear_term_texts(t: LinearTerm, p: spec_fn(Seq<char>) -> bool) -> bool
    decreases t,
{
    match t {
        LinearTerm::Null => true,
        LinearTerm::Text(s) => p(s@),
        LinearTerm::Nest(t1) => linear_term_texts(*t1, p),
        LinearTerm::Pack(_, t1) => linear_term_texts(*t1, p),
    }
}

/// Whether every text literal of a linear line satisfies the predicate.
pub open spec fn linear_obj_texts(o: LinearObj, p: spec_fn(Seq<char>) -> bool) -> bool
    decreases o,
{
    match o {
        LinearObj::Last(t) => linear_term_texts(*t, p),
        LinearObj::Next(t, _, o1) => linear_term_texts(*t, p) && linear_obj_texts(*o1, p),
    }
}

/// Whether every text literal of a linear document satisfies the predicate.
pub open spec fn linear_texts(d: LinearDoc, p: spec_fn(Seq<char>) -> bool) -> bool
    decreases d,
{
    match d {
        LinearDoc::Nil => true,
        LinearDoc::Cons(o, d1) => linear_obj_texts(*o, p) && linear_texts(*d1, p),
    }
}

proof fn conv_term_keeps_texts(t: SerialTerm, p: spec_fn(Seq<char>) -> bool)
    requires
        serial_term_texts(t, p),
    ensures
        linear_term_texts(crate::linearize::spec_conv_term(t), p),
    decreases t,
{
    match t {
        SerialTerm::Null => {}
        SerialTerm::Text(_) => {}
        SerialTerm::Nest(t1) => conv_term_keeps_texts(*t1, p),
        SerialTerm::Pack(_, t1) => conv_term_keeps_texts(*t1, p),
    }
}

/// The third pass keeps every text literal.
pub proof fn linearize_keeps_texts(s: Serial, p: spec_fn(Seq<char>) -> bool)
    requires
        serial_texts(s, p),
    ensures
        linear_texts(crate::linearize::spec_linearize(s), p),
    decreases s,
{
    match s {
        Serial::Past => {}
        Serial::Last(t, _) => {
            conv_term_keeps_texts(*t, p);
            assert(linear_texts(LinearDoc::Nil, p));
        }
        Serial::Next(t, c, s1) => {
            conv_term_keeps_texts(*t, p);
            linearize_keeps_texts(*s1, p);
            assert(linear_texts(LinearDoc::Nil, p));
        }
    }
}

/// Whether the one text literal of a fixed term satisfies the predicate.
pub open spec fn fixed_term_texts(t: FixedTerm, p: spec_fn(Seq<char>) -> bool) -> bool
    decreases t,
{
    match t {
        FixedTerm::Null => true,
        FixedTerm::Text(s) => p(s@),
        FixedTerm::Nest(t1) => fixed_term_texts(*t1, p),
        FixedTerm::Pack(_, t1) => fixed_term_texts(*t1, p),
    }
}

/// Whether every text literal of a coalesced chain satisfies the predicate.
pub open spec fn fixed_fix_texts(f: FixedFix, p: spec_fn(Seq<char>) -> bool) -> bool
    decreases f,
{
    match f {
        FixedFix::Last(t) => fixed_term_texts(*t, p),
        FixedFix::Next(t, _, f1) => fixed_term_texts(*t, p) && fixed_fix_texts(*f1, p),
    }
}

/// Whether every text literal of a fixed item satisfies the predicate.
pub open spec fn fixed_item_texts(i: FixedItem, p: spec_fn(Seq<char>) -> bool) -> bool {
    match i {
        FixedItem::Term(t) => fixed_term_texts(*t, p),
        FixedItem::Fix(f) => fixed_fix_texts(*f, p),
    }
}

/// Whether every text literal of a fixed line satisfies the predicate.
pub open spec fn fixed_obj_texts(o: FixedObj, p: spec_fn(Seq<char>) -> bool) -> bool
    decreases o,
{
    match o {
        FixedObj::Last(i) => fixed_item_texts(*i, p),
        FixedObj::Next(i, _, o1) => fixed_item_texts(*i, p) && fixed_obj_texts(*o1, p),
    }
}

/// Whether every text literal of a fixed document satisfies the predicate.
pub open spec fn fixed_texts(d: FixedDoc, p: spec_fn(Seq<char>) -> bool) -> bool
    decreases d,
{
    match d {
        FixedDoc::Eod => true,
        FixedDoc::Break(o, d1) => fixed_obj_texts(*o, p) && fixed_texts(*d1, p),
    }
}

proof fn fixed_conv_term_keeps_texts(t: LinearTerm, p: spec_fn(Seq<char>) -> bool)
    requires
        linear_term_texts(t, p),
    ensures
        fixed_term_texts(spec_conv_term(t), p),
    decreases t,
{
    match t {
        LinearTerm::Null => {}
        LinearTerm::Text(_) => {}
        LinearTerm::Nest(t1) => fixed_conv_term_keeps_texts(*t1, p),
        LinearTerm::Pack(_, t1) => fixed_conv_term_keeps_texts(*t1, p),
    }
}

proof fn visit_fix_keeps_texts(o: LinearObj, p: spec_fn(Seq<char>) -> bool)
    requires
        linear_obj_texts(o, p),
    ensures
        fixed_fix_texts(spec_visit_fix(o).0, p),
        match spec_visit_fix(o).1 {
            FixRest::End => true,
            FixRest::More(_, rest) => fixed_obj_texts(rest, p),
        },
    decreases o,
{
    match o {
        LinearObj::Last(t) => {
            fixed_conv_term_keeps_texts(*t, p);
        }
        LinearObj::Next(t, c, o1) => {
            fixed_conv_term_keeps_texts(*t, p);
            let (f, _c1) = spec_conv_comp(*c);
            if f {
                visit_fix_keeps_texts(*o1, p);
            } else {
                visit_obj_keeps_texts(*o1, p);
            }
        }
    }
}

proof fn visit_obj_keeps_texts(o: LinearObj, p: spec_fn(Seq<char>) -> bool)
    requires
        linear_obj_texts(o, p),
    ensures
        fixed_obj_texts(spec_visit_obj(o), p),
    decreases o,
{
    match o {
        LinearObj::Last(t) => {
            fixed_conv_term_keeps_texts(*t, p);
        }
        LinearObj::Next(t, c, o1) => {
            fixed_conv_term_keeps_texts(*t, p);
            let (f, _c1) = spec_conv_comp(*c);
            if f {
                visit_fix_keeps_texts(*o1, p);
            } else {
                visit_obj_keeps_texts(*o1, p);
            }
        }
    }
}

/// The fourth pass keeps every text literal.
pub proof fn fixed_keeps_texts(d: LinearDoc, p: spec_fn(Seq<char>) -> bool)
    requires
        linear_texts(d, p),
    ensures
        fixed_texts(spec_fixed(d), p),
    decreases d,
{
    match d {
        LinearDoc::Nil => {}
        LinearDoc::Cons(o, d1) => {
            visit_obj_keeps_texts(*o, p);
            fixed_keeps_texts(*d1, p);
        }
    }
}

/// Whether the one text literal of a graph term satisfies the predicate.
pub open spec fn graph_term_texts(t: crate::types::GraphTerm, p: spec_fn(Seq<char>) -> bool) -> bool
    decreases t,
{
    match t {
        crate::types::GraphTerm::Null => true,
        crate::types::GraphTerm::Text(s) => p(s@),
        crate::types::GraphTerm::Fix(f) => graph_fix_texts(*f, p),
        crate::types::GraphTerm::Nest(t1) => graph_term_texts(*t1, p),
        crate::types::GraphTerm::Pack(_, t1) => graph_term_texts(*t1, p),
    }
}

/// Whether every text literal of a graph chain satisfies the predicate.
pub open spec fn graph_fix_texts(f: crate::types::GraphFix, p: spec_fn(Seq<char>) -> bool) -> bool
    decreases f,
{
    match f {
        crate::types::GraphFix::Last(t) => graph_term_texts(*t, p),
        crate::types::GraphFix::Next(t, f1, _) => graph_term_texts(*t, p) && graph_fix_texts(
            *f1,
            p,
        ),
    }
}

/// Whether every text literal in a term list satisfies the predicate.
pub open spec fn terms_texts(
    ts: List<crate::types::GraphTerm>,
    p: spec_fn(Seq<char>) -> bool,
) -> bool
    decreases ts,
{
    match ts {
        List::Nil => true,
        List::Cons(t, rest) => graph_term_texts(t, p) && terms_texts(*rest, p),
    }
}

/// Whether every text literal in a node list satisfies the predicate.
pub open spec fn nodes_texts(
    ns: List<crate::types::GraphNode>,
    p: spec_fn(Seq<char>) -> bool,
) -> bool
    decreases ns,
{
    match ns {
        List::Nil => true,
        List::Cons(n, rest) => graph_term_texts(n.term, p) && nodes_texts(*rest, p),
    }
}

proof fn graph_term_keeps_texts(t: FixedTerm, p: spec_fn(Seq<char>) -> bool)
    requires
        fixed_term_texts(t, p),
    ensures
        graph_term_texts(crate::structurize::spec_graph_term(t), p),
    decreases t,
{
    match t {
        FixedTerm::Null => {}
        FixedTerm::Text(_) => {}
        FixedTerm::Nest(t1) => graph_term_keeps_texts(*t1, p),
        FixedTerm::Pack(_, t1) => graph_term_keeps_texts(*t1, p),
    }
}

proof fn graph_fix_keeps_texts(
    f: FixedFix,
    index: u64,
    scope: List<Property<u64>>,
    props: crate::map::OrdMap<Property<(u64, Option<u64>)>>,
    p: spec_fn(Seq<char>) -> bool,
)
    requires
        fixed_fix_texts(f, p),
    ensures
        match crate::structurize::spec_graph_fix(f, index, scope, props) {
            Option::Some((chain, _, _)) => graph_fix_texts(chain, p),
            Option::None => true,
        },
    decreases f,
{
    match f {
        FixedFix::Last(t) => {
            graph_term_keeps_texts(*t, p);
        }
        FixedFix::Next(t, c, f1) => {
            graph_term_keeps_texts(*t, p);
            let (stack, _pad) = crate::structurize::spec_lift_stack(*c);
            match crate::structurize::spec_update_scopes(index, props, scope, stack) {
                Option::Some((scope1, props1)) => {
                    graph_fix_keeps_texts(*f1, index, scope1, props1, p);
                }
                Option::None => {}
            }
        }
    }
}

proof fn graphify_obj_keeps_texts(
    o: FixedObj,
    index: u64,
    scope: List<Property<u64>>,
    props: crate::map::OrdMap<Property<(u64, Option<u64>)>>,
    p: spec_fn(Seq<char>) -> bool,
)
    requires
        fixed_obj_texts(o, p),
    ensures
        match crate::structurize::spec_graphify_obj(o, index, scope, props) {
            Option::Some((terms, _, _)) => terms_texts(terms, p),
            Option::None => true,
        },
    decreases o,
{
    match o {
        FixedObj::Last(item) => {
            match *item {
                FixedItem::Term(t) => {
                    graph_term_keeps_texts(*t, p);
                }
                FixedItem::Fix(f) => {
                    graph_fix_keeps_texts(*f, index, scope, props, p);
                }
            }
            assert(terms_texts(List::Nil, p));
        }
        FixedObj::Next(item, comp, o1) => {
            let conv = match *item {
                FixedItem::Term(t) => {
                    graph_term_keeps_texts(*t, p);
                    Option::Some((crate::structurize::spec_graph_term(*t), scope, props))
                }
                FixedItem::Fix(f) => {
                    graph_fix_keeps_texts(*f, index, scope, props, p);
                    match crate::structurize::spec_graph_fix(*f, index, scope, props) {
                        Option::Some((chain, scope1, props1)) => Option::Some(
                            (
                                crate::types::GraphTerm::Fix(Box::new(chain)),
                                scope1,
                                props1,
                            ),
                        ),
                        Option::None => Option::None,
                    }
                }
            };
            match conv {
                Option::None => {}
                Option::Some((_term, scope1, props1)) => {
                    let (stack, _pad) = crate::structurize::spec_lift_stack(*comp);
                    match crate::structurize::spec_update_scopes(index, props1, scope1, stack) {
                        Option::Some((scope2, props2)) => {
                            graphify_obj_keeps_texts(
                                *o1,
                                crate::list::spec_bump(index),
                                scope2,
                                props2,
                                p,
                            );
                        }
                        Option::None => {}
                    }
                }
            }
        }
    }
}

proof fn make_nodes_keeps_texts(ts: List<crate::types::GraphTerm>, p: spec_fn(Seq<char>) -> bool)
    requires
        terms_texts(ts, p),
    ensures
        nodes_texts(crate::structurize::spec_make_nodes(ts), p),
    decreases ts,
{
    match ts {
        List::Nil => {}
        List::Cons(_, rest) => make_nodes_keeps_texts(*rest, p),
    }
}

proof fn set_node_ins_keeps_texts(
    ns: List<crate::types::GraphNode>,
    i: u64,
    ins: List<u64>,
    p: spec_fn(Seq<char>) -> bool,
)
    requires
        nodes_texts(ns, p),
    ensures
        nodes_texts(crate::structurize::spec_set_node_ins(ns, i, ins), p),
    decreases ns,
{
    match ns {
        List::Nil => {}
        List::Cons(_, rest) => {
            if i != 0 {
                set_node_ins_keeps_texts(*rest, (i - 1) as u64, ins, p);
            }
        }
    }
}

proof fn set_node_outs_keeps_texts(
    ns: List<crate::types::GraphNode>,
    i: u64,
    outs: List<u64>,
    p: spec_fn(Seq<char>) -> bool,
)
    requires
        nodes_texts(ns, p),
    ensures
        nodes_texts(crate::structurize::spec_set_node_outs(ns, i, outs), p),
    decreases ns,
{
    match ns {
        List::Nil => {}
        List::Cons(_, rest) => {
            if i != 0 {
                set_node_outs_keeps_texts(*rest, (i - 1) as u64, outs, p);
            }
        }
    }
}

proof fn transpose_keeps_texts(
    entries: crate::map::OrdMap<Property<(u64, Option<u64>)>>,
    ns: List<crate::types::GraphNode>,
    es: List<crate::types::GraphEdge>,
    next_id: u64,
    p: spec_fn(Seq<char>) -> bool,
)
    requires
        nodes_texts(ns, p),
    ensures
        match crate::structurize::spec_transpose(entries, ns, es, next_id) {
            Option::Some((ns1, _)) => nodes_texts(ns1, p),
            Option::None => true,
        },
    decreases entries,
{
    match entries {
        crate::map::OrdMap::Nil => {}
        crate::map::OrdMap::Cons(_tag, value, rest) => {
            let span = match value {
                Property::Grp((from, to)) => (true, from, to),
                Property::Sequence((from, to)) => (false, from, to),
            };
            match span.2 {
                Option::None => {}
                Option::Some(to) => {
                    let from = span.1;
                    if from == to {
                        transpose_keeps_texts(*rest, ns, es, next_id, p);
                    } else {
                        let prop = if span.0 {
                            Property::Grp(())
                        } else {
                            Property::Sequence(())
                        };
                        let es1 = crate::list::spec_list_push(
                            es,
                            crate::types::GraphEdge { prop, source: from, target: to },
                        );
                        let ns1 = crate::structurize::spec_set_node_outs(
                            ns,
                            from,
                            crate::list::spec_list_push(
                                crate::structurize::spec_node_outs(ns, from),
                                next_id,
                            ),
                        );
                        set_node_outs_keeps_texts(
                            ns,
                            from,
                            crate::list::spec_list_push(
                                crate::structurize::spec_node_outs(ns, from),
                                next_id,
                            ),
                            p,
                        );
                        let ns2 = crate::structurize::spec_set_node_ins(
                            ns1,
                            to,
                            crate::list::spec_list_push(
                                crate::structurize::spec_node_ins(ns1, to),
                                next_id,
                            ),
                        );
                        set_node_ins_keeps_texts(
                            ns1,
                            to,
                            crate::list::spec_list_push(
                                crate::structurize::spec_node_ins(ns1, to),
                                next_id,
                            ),
                            p,
                        );
                        transpose_keeps_texts(
                            *rest,
                            ns2,
                            es1,
                            crate::list::spec_bump(next_id),
                            p,
                        );
                    }
                }
            }
        }
    }
}

proof fn move_out_keeps_texts(
    ns: List<crate::types::GraphNode>,
    es: List<crate::types::GraphEdge>,
    id: u64,
    anchor: u64,
    p: spec_fn(Seq<char>) -> bool,
)
    requires
        nodes_texts(ns, p),
    ensures
        nodes_texts(crate::structurize::spec_move_out(ns, es, id, anchor).0, p),
{
    match (crate::structurize::spec_edge(es, id), crate::structurize::spec_edge(es, anchor)) {
        (Option::Some(e), Option::Some(a)) => {
            let ns1 = crate::structurize::spec_set_node_outs(
                ns,
                e.source,
                crate::structurize::spec_remove_val(
                    crate::structurize::spec_node_outs(ns, e.source),
                    id,
                ),
            );
            set_node_outs_keeps_texts(
                ns,
                e.source,
                crate::structurize::spec_remove_val(
                    crate::structurize::spec_node_outs(ns, e.source),
                    id,
                ),
                p,
            );
            set_node_outs_keeps_texts(
                ns1,
                a.source,
                crate::structurize::spec_insert_before(
                    crate::structurize::spec_node_outs(ns1, a.source),
                    anchor,
                    id,
                ),
                p,
            );
        }
        _ => {}
    }
}

proof fn resolve_keeps_texts(
    outs: List<u64>,
    anchor: u64,
    ns: List<crate::types::GraphNode>,
    es: List<crate::types::GraphEdge>,
    p: spec_fn(Seq<char>) -> bool,
)
    requires
        nodes_texts(ns, p),
    ensures
        nodes_texts(crate::structurize::spec_resolve(outs, anchor, ns, es).0, p),
    decreases outs,
{
    match outs {
        List::Nil => {}
        List::Cons(id, rest) => match crate::structurize::spec_edge(es, id) {
            Option::Some(e) => match e.prop {
                Property::Grp(_) => {}
                Property::Sequence(_) => {
                    move_out_keeps_texts(ns, es, id, anchor, p);
                    let (ns1, es1) = crate::structurize::spec_move_out(ns, es, id, anchor);
                    resolve_keeps_texts(*rest, id, ns1, es1, p);
                }
            },
            Option::None => resolve_keeps_texts(*rest, anchor, ns, es, p),
        },
    }
}

proof fn move_ins_keeps_texts(
    ns: List<crate::types::GraphNode>,
    es: List<crate::types::GraphEdge>,
    i: u64,
    grp_id: u64,
    p: spec_fn(Seq<char>) -> bool,
)
    requires
        nodes_texts(ns, p),
    ensures
        nodes_texts(crate::structurize::spec_move_ins(ns, es, i, grp_id).0, p),
{
    match crate::structurize::spec_edge(es, grp_id) {
        Option::None => {}
        Option::Some(g) => {
            let block = crate::structurize::spec_node_ins(ns, i);
            let t = g.target;
            let ns1 = crate::structurize::spec_set_node_ins(ns, i, List::Nil);
            set_node_ins_keeps_texts(ns, i, List::Nil, p);
            set_node_ins_keeps_texts(
                ns1,
                t,
                crate::structurize::spec_splice_after(
                    crate::structurize::spec_node_ins(ns1, t),
                    grp_id,
                    block,
                ),
                p,
            );
        }
    }
}

proof fn solve_node_keeps_texts(
    ns: List<crate::types::GraphNode>,
    es: List<crate::types::GraphEdge>,
    i: u64,
    p: spec_fn(Seq<char>) -> bool,
)
    requires
        nodes_texts(ns, p),
    ensures
        nodes_texts(crate::structurize::spec_solve_node(ns, es, i).0, p),
{
    let ins = crate::structurize::spec_node_ins(ns, i);
    let outs = crate::structurize::spec_node_outs(ns, i);
    match (ins, outs) {
        (List::Cons(first, _), List::Cons(_, _)) => {
            let anchor = crate::structurize::spec_leftmost(
                ins,
                es,
                first,
                match crate::structurize::spec_edge(es, first) {
                    Option::Some(e) => e.source,
                    Option::None => u64::MAX,
                },
            );
            resolve_keeps_texts(outs, anchor, ns, es, p);
            let (ns1, es1, found) = crate::structurize::spec_resolve(outs, anchor, ns, es);
            match found {
                Option::Some(g) => {
                    move_ins_keeps_texts(ns1, es1, i, g, p);
                }
                Option::None => {}
            }
        }
        _ => {}
    }
}

proof fn solve_from_keeps_texts(
    ns: List<crate::types::GraphNode>,
    es: List<crate::types::GraphEdge>,
    i: u64,
    n: u64,
    p: spec_fn(Seq<char>) -> bool,
)
    requires
        nodes_texts(ns, p),
    ensures
        nodes_texts(crate::structurize::spec_solve_from(ns, es, i, n).0, p),
    decreases n - i,
{
    if i >= n {
    } else {
        solve_node_keeps_texts(ns, es, i, p);
        let (ns1, es1) = crate::structurize::spec_solve_node(ns, es, i);
        solve_from_keeps_texts(ns1, es1, (i + 1) as u64, n, p);
    }
}

proof fn collect_terms_keeps_texts(
    ns: List<crate::types::GraphNode>,
    p: spec_fn(Seq<char>) -> bool,
)
    requires
        nodes_texts(ns, p),
    ensures
        terms_texts(crate::structurize::spec_collect_terms(ns), p),
    decreases ns,
{
    match ns {
        List::Nil => {}
        List::Cons(_, rest) => collect_terms_keeps_texts(*rest, p),
    }
}

/// Whether the one text literal of a rebuilt leaf satisfies the predicate.
pub open spec fn rebuild_term_texts(
    t: crate::types::RebuildTerm,
    p: spec_fn(Seq<char>) -> bool,
) -> bool
    decreases t,
{
    match t {
        crate::types::RebuildTerm::Null => true,
        crate::types::RebuildTerm::Text(s) => p(s@),
        crate::types::RebuildTerm::Nest(t1) => rebuild_term_texts(*t1, p),
        crate::types::RebuildTerm::Pack(_, t1) => rebuild_term_texts(*t1, p),
    }
}

/// Whether every text literal of a rebuilt chain satisfies the predicate.
pub open spec fn rebuild_fix_texts(
    f: crate::types::RebuildFix,
    p: spec_fn(Seq<char>) -> bool,
) -> bool
    decreases f,
{
    match f {
        crate::types::RebuildFix::Term(t) => rebuild_term_texts(*t, p),
        crate::types::RebuildFix::Comp(l, r, _) => rebuild_fix_texts(*l, p) && rebuild_fix_texts(
            *r,
            p,
        ),
    }
}

/// Whether every text literal of a rebuilt line satisfies the predicate.
pub open spec fn rebuild_obj_texts(
    o: crate::types::RebuildObj,
    p: spec_fn(Seq<char>) -> bool,
) -> bool
    decreases o,
{
    match o {
        crate::types::RebuildObj::Term(t) => rebuild_term_texts(*t, p),
        crate::types::RebuildObj::Fix(f) => rebuild_fix_texts(*f, p),
        crate::types::RebuildObj::Grp(o1) => rebuild_obj_texts(*o1, p),
        crate::types::RebuildObj::Sequence(o1) => rebuild_obj_texts(*o1, p),
        crate::types::RebuildObj::Comp(l, r, _) => rebuild_obj_texts(*l, p) && rebuild_obj_texts(
            *r,
            p,
        ),
    }
}

/// Whether every text literal of a rebuilt document satisfies the predicate.
pub open spec fn rebuild_texts(d: crate::types::RebuildDoc, p: spec_fn(Seq<char>) -> bool) -> bool
    decreases d,
{
    match d {
        crate::types::RebuildDoc::Eod => true,
        crate::types::RebuildDoc::Break(o, d1) => rebuild_obj_texts(*o, p) && rebuild_texts(
            *d1,
            p,
        ),
    }
}

proof fn rebuild_term_keeps_texts(t: crate::types::GraphTerm, p: spec_fn(Seq<char>) -> bool)
    requires
        graph_term_texts(t, p),
    ensures
        match crate::structurize::spec_rebuild_term(t) {
            Option::Some(t1) => rebuild_term_texts(t1, p),
            Option::None => true,
        },
    decreases t,
{
    match t {
        crate::types::GraphTerm::Nest(t1) => rebuild_term_keeps_texts(*t1, p),
        crate::types::GraphTerm::Pack(_, t1) => rebuild_term_keeps_texts(*t1, p),
        _ => {}
    }
}

proof fn rebuild_fix_keeps_texts(f: crate::types::GraphFix, p: spec_fn(Seq<char>) -> bool)
    requires
        graph_fix_texts(f, p),
    ensures
        match crate::structurize::spec_rebuild_fix(f) {
            Option::Some(f1) => rebuild_fix_texts(f1, p),
            Option::None => true,
        },
    decreases f,
{
    match f {
        crate::types::GraphFix::Last(t) => {
            rebuild_term_keeps_texts(*t, p);
            match crate::structurize::spec_rebuild_term(*t) {
                Option::Some(t1) => {
                    assert(rebuild_fix_texts(crate::types::RebuildFix::Term(Box::new(t1)), p));
                }
                Option::None => {}
            }
        }
        crate::types::GraphFix::Next(t, f1, _) => {
            rebuild_term_keeps_texts(*t, p);
            rebuild_fix_keeps_texts(*f1, p);
            match crate::structurize::spec_rebuild_term(*t) {
                Option::Some(t1) => {
                    assert(rebuild_fix_texts(crate::types::RebuildFix::Term(Box::new(t1)), p));
                }
                Option::None => {}
            }
        }
    }
}

proof fn rebuild_item_keeps_texts(t: crate::types::GraphTerm, p: spec_fn(Seq<char>) -> bool)
    requires
        graph_term_texts(t, p),
    ensures
        match crate::structurize::spec_rebuild_item(t) {
            Option::Some(o) => rebuild_obj_texts(o, p),
            Option::None => true,
        },
{
    match t {
        crate::types::GraphTerm::Fix(f) => rebuild_fix_keeps_texts(*f, p),
        _ => rebuild_term_keeps_texts(t, p),
    }
}

/// Whether every gathered piece of a rebuild chain satisfies the predicate.
pub open spec fn chain_texts(
    c: List<(crate::types::RebuildObj, bool)>,
    p: spec_fn(Seq<char>) -> bool,
) -> bool
    decreases c,
{
    match c {
        List::Nil => true,
        List::Cons(x, rest) => rebuild_obj_texts(x.0, p) && chain_texts(*rest, p),
    }
}

/// Whether every pending scope of a rebuild stack satisfies the predicate.
pub open spec fn stack_texts(
    s: List<crate::structurize::BuildEntry>,
    p: spec_fn(Seq<char>) -> bool,
) -> bool
    decreases s,
{
    match s {
        List::Nil => true,
        List::Cons(e, rest) => chain_texts(e.wrap, p) && stack_texts(*rest, p),
    }
}

proof fn chain_append_keeps_texts(
    a: List<(crate::types::RebuildObj, bool)>,
    b: List<(crate::types::RebuildObj, bool)>,
    p: spec_fn(Seq<char>) -> bool,
)
    requires
        chain_texts(a, p),
        chain_texts(b, p),
    ensures
        chain_texts(crate::list::spec_list_append(a, b), p),
    decreases a,
{
    match a {
        List::Nil => {}
        List::Cons(_, rest) => chain_append_keeps_texts(*rest, b, p),
    }
}

proof fn chain_push_keeps_texts(
    a: List<(crate::types::RebuildObj, bool)>,
    x: (crate::types::RebuildObj, bool),
    p: spec_fn(Seq<char>) -> bool,
)
    requires
        chain_texts(a, p),
        rebuild_obj_texts(x.0, p),
    ensures
        chain_texts(crate::list::spec_list_push(a, x), p),
    decreases a,
{
    match a {
        List::Nil => {}
        List::Cons(_, rest) => chain_push_keeps_texts(*rest, x, p),
    }
}

proof fn apply_chain_keeps_texts(
    c: List<(crate::types::RebuildObj, bool)>,
    o: crate::types::RebuildObj,
    p: spec_fn(Seq<char>) -> bool,
)
    requires
        chain_texts(c, p),
        rebuild_obj_texts(o, p),
    ensures
        rebuild_obj_texts(crate::structurize::spec_apply_chain(c, o), p),
    decreases c,
{
    match c {
        List::Nil => {}
        List::Cons(_, rest) => apply_chain_keeps_texts(*rest, o, p),
    }
}

proof fn apply_entry_keeps_texts(
    e: crate::structurize::BuildEntry,
    o: crate::types::RebuildObj,
    p: spec_fn(Seq<char>) -> bool,
)
    requires
        chain_texts(e.wrap, p),
        rebuild_obj_texts(o, p),
    ensures
        rebuild_obj_texts(crate::structurize::spec_apply_entry(e, o), p),
{
    apply_chain_keeps_texts(e.wrap, o, p);
}

proof fn push_entries_keeps_texts(
    props: List<Property<()>>,
    stack: List<crate::structurize::BuildEntry>,
    p: spec_fn(Seq<char>) -> bool,
)
    requires
        stack_texts(stack, p),
    ensures
        stack_texts(crate::structurize::spec_push_entries(props, stack), p),
    decreases props,
{
    match props {
        List::Nil => {}
        List::Cons(pr, rest) => {
            let kind = match pr {
                Property::Grp(_) => crate::structurize::CloseKind::Grp,
                Property::Sequence(_) => crate::structurize::CloseKind::Sequence,
            };
            push_entries_keeps_texts(
                *rest,
                List::Cons(
                    crate::structurize::BuildEntry { wrap: List::Nil, kind },
                    Box::new(stack),
                ),
                p,
            );
        }
    }
}

proof fn open_entries_keeps_texts(
    props: List<Property<()>>,
    stack: List<crate::structurize::BuildEntry>,
    partial: List<(crate::types::RebuildObj, bool)>,
    p: spec_fn(Seq<char>) -> bool,
)
    requires
        stack_texts(stack, p),
        chain_texts(partial, p),
    ensures
        match crate::structurize::spec_open_entries(props, stack, partial) {
            Option::Some(stack1) => stack_texts(stack1, p),
            Option::None => true,
        },
{
    match stack {
        List::Nil => {}
        List::Cons(top, rest) => {
            chain_append_keeps_texts(top.wrap, partial, p);
            let top1 = crate::structurize::BuildEntry {
                wrap: crate::list::spec_list_append(top.wrap, partial),
                kind: top.kind,
            };
            push_entries_keeps_texts(props, List::Cons(top1, rest), p);
        }
    }
}

proof fn close_entries_keeps_texts(
    ins: List<u64>,
    stack: List<crate::structurize::BuildEntry>,
    o: crate::types::RebuildObj,
    p: spec_fn(Seq<char>) -> bool,
)
    requires
        stack_texts(stack, p),
        rebuild_obj_texts(o, p),
    ensures
        match crate::structurize::spec_close_entries(ins, stack, o) {
            Option::Some((stack1, o1)) => stack_texts(stack1, p) && rebuild_obj_texts(o1, p),
            Option::None => true,
        },
    decreases ins,
{
    match ins {
        List::Nil => {}
        List::Cons(_, rest) => match stack {
            List::Nil => {}
            List::Cons(top, stack1) => {
                apply_entry_keeps_texts(top, o, p);
                close_entries_keeps_texts(
                    *rest,
                    *stack1,
                    crate::structurize::spec_apply_entry(top, o),
                    p,
                );
            }
        },
    }
}

proof fn final_entry_keeps_texts(
    stack: List<crate::structurize::BuildEntry>,
    o: crate::types::RebuildObj,
    p: spec_fn(Seq<char>) -> bool,
)
    requires
        stack_texts(stack, p),
        rebuild_obj_texts(o, p),
    ensures
        match crate::structurize::spec_final_entry(stack, o) {
            Option::Some(o1) => rebuild_obj_texts(o1, p),
            Option::None => true,
        },
{
    match stack {
        List::Cons(top, rest) => {
            if *rest is Nil {
                apply_entry_keeps_texts(top, o, p);
            }
        }
        List::Nil => {}
    }
}

proof fn build_line_keeps_texts(
    terms: List<crate::types::GraphTerm>,
    pads: List<bool>,
    inss: List<List<u64>>,
    outss: List<List<Property<()>>>,
    stack: List<crate::structurize::BuildEntry>,
    partial: List<(crate::types::RebuildObj, bool)>,
    p: spec_fn(Seq<char>) -> bool,
)
    requires
        terms_texts(terms, p),
        stack_texts(stack, p),
        chain_texts(partial, p),
    ensures
        match crate::structurize::spec_build_line(terms, pads, inss, outss, stack, partial) {
            Option::Some(o) => rebuild_obj_texts(o, p),
            Option::None => true,
        },
    decreases terms,
{
    match terms {
        List::Nil => {}
        List::Cons(term, terms1) => {
            rebuild_item_keeps_texts(term, p);
            match crate::structurize::spec_rebuild_item(term) {
                Option::None => {}
                Option::Some(item) => match *terms1 {
                    List::Nil => match (pads, inss, outss) {
                        (List::Nil, List::Cons(k, inss1), List::Cons(ps, outss1)) => {
                            if (*inss1 is Nil) && (*outss1 is Nil) && (ps is Nil) {
                                apply_chain_keeps_texts(partial, item, p);
                                let obj = crate::structurize::spec_apply_chain(partial, item);
                                close_entries_keeps_texts(k, stack, obj, p);
                                match crate::structurize::spec_close_entries(k, stack, obj) {
                                    Option::Some((stack1, obj1)) => {
                                        final_entry_keeps_texts(stack1, obj1, p);
                                    }
                                    Option::None => {}
                                }
                            }
                        }
                        _ => {}
                    },
                    _ => match (pads, inss, outss) {
                        (
                            List::Cons(pad, pads1),
                            List::Cons(k, inss1),
                            List::Cons(ps, outss1),
                        ) => match (k, ps) {
                            (List::Nil, List::Nil) => {
                                chain_push_keeps_texts(partial, (item, pad), p);
                                build_line_keeps_texts(
                                    *terms1,
                                    *pads1,
                                    *inss1,
                                    *outss1,
                                    stack,
                                    crate::list::spec_list_push(partial, (item, pad)),
                                    p,
                                );
                            }
                            (List::Cons(k0, krest), List::Nil) => {
                                let kl = List::Cons(k0, krest);
                                apply_chain_keeps_texts(partial, item, p);
                                let obj = crate::structurize::spec_apply_chain(partial, item);
                                close_entries_keeps_texts(kl, stack, obj, p);
                                match crate::structurize::spec_close_entries(kl, stack, obj) {
                                    Option::Some((stack1, closed)) => {
                                        assert(chain_texts(List::Nil, p));
                                        assert(chain_texts(
                                            List::Cons((closed, pad), Box::new(List::Nil)),
                                            p,
                                        ));
                                        build_line_keeps_texts(
                                            *terms1,
                                            *pads1,
                                            *inss1,
                                            *outss1,
                                            stack1,
                                            List::Cons((closed, pad), Box::new(List::Nil)),
                                            p,
                                        );
                                    }
                                    Option::None => {}
                                }
                            }
                            (List::Nil, List::Cons(p0, prest)) => {
                                open_entries_keeps_texts(
                                    List::Cons(p0, prest),
                                    stack,
                                    partial,
                                    p,
                                );
                                match crate::structurize::spec_open_entries(
                                    List::Cons(p0, prest),
                                    stack,
                                    partial,
                                ) {
                                    Option::Some(stack1) => {
                                        assert(chain_texts(List::Nil, p));
                                        assert(chain_texts(
                                            List::Cons((item, pad), Box::new(List::Nil)),
                                            p,
                                        ));
                                        build_line_keeps_texts(
                                            *terms1,
                                            *pads1,
                                            *inss1,
                                            *outss1,
                                            stack1,
                                            List::Cons((item, pad), Box::new(List::Nil)),
                                            p,
                                        );
                                    }
                                    Option::None => {}
                                }
                            }
                            _ => {}
                        },
                        _ => {}
                    },
                },
            }
        }
    }
}

/// The fifth pass keeps every text literal.
pub proof fn structurize_keeps_texts(d: FixedDoc, p: spec_fn(Seq<char>) -> bool)
    requires
        fixed_texts(d, p),
    ensures
        match crate::structurize::spec_structurize(d) {
            Option::Some(rd) => rebuild_texts(rd, p),
            Option::None => true,
        },
    decreases d,
{
    match d {
        FixedDoc::Eod => {}
        FixedDoc::Break(o, d1) => {
            structurize_obj_keeps_texts(*o, p);
            structurize_keeps_texts(*d1, p);
        }
    }
}

proof fn structurize_obj_keeps_texts(o: FixedObj, p: spec_fn(Seq<char>) -> bool)
    requires
        fixed_obj_texts(o, p),
    ensures
        match crate::structurize::spec_structurize_obj(o) {
            Option::Some(ro) => rebuild_obj_texts(ro, p),
            Option::None => true,
        },
{
    graphify_obj_keeps_texts(o, 0, List::Nil, crate::map::OrdMap::Nil, p);
    match crate::structurize::spec_graphify_obj(o, 0, List::Nil, crate::map::OrdMap::Nil) {
        Option::None => {}
        Option::Some((terms, pads, props)) => {
            make_nodes_keeps_texts(terms, p);
            let nodes0 = crate::structurize::spec_make_nodes(terms);
            transpose_keeps_texts(props, nodes0, List::Nil, 0, p);
            match crate::structurize::spec_transpose(props, nodes0, List::Nil, 0) {
                Option::None => {}
                Option::Some((nodes, edges)) => {
                    let n = crate::list::spec_length(nodes);
                    solve_from_keeps_texts(nodes, edges, 0, n, p);
                    let (nodes1, edges1) = crate::structurize::spec_solve_from(nodes, edges, 0, n);
                    collect_terms_keeps_texts(nodes1, p);
                    assert(stack_texts(List::Nil, p));
                    assert(chain_texts(List::Nil, p));
                    assert(stack_texts(
                        List::Cons(
                            crate::structurize::BuildEntry {
                                wrap: List::Nil,
                                kind: crate::structurize::CloseKind::Root,
                            },
                            Box::new(List::Nil),
                        ),
                        p,
                    ));
                    build_line_keeps_texts(
                        crate::structurize::spec_collect_terms(nodes1),
                        pads,
                        crate::structurize::spec_collect_ins(nodes1),
                        crate::structurize::spec_collect_outs(nodes1, edges1),
                        List::Cons(
                            crate::structurize::BuildEntry {
                                wrap: List::Nil,
                                kind: crate::structurize::CloseKind::Root,
                            },
                            Box::new(List::Nil),
                        ),
                        List::Nil,
                        p,
                    );
                }
            }
        }
    }
}

/// Whether the one text literal of a cleaned leaf satisfies the predicate.
pub open spec fn denull_term_texts(t: DenullTerm, p: spec_fn(Seq<char>) -> bool) -> bool
    decreases t,
{
    match t {
        DenullTerm::Text(s) => p(s@),
        DenullTerm::Nest(t1) => denull_term_texts(*t1, p),
        DenullTerm::Pack(_, t1) => denull_term_texts(*t1, p),
    }
}

/// Whether every text literal of a cleaned chain satisfies the predicate.
pub open spec fn denull_fix_texts(f: DenullFix, p: spec_fn(Seq<char>) -> bool) -> bool
    decreases f,
{
    match f {
        DenullFix::Term(t) => denull_term_texts(*t, p),
        DenullFix::Comp(l, r, _) => denull_fix_texts(*l, p) && denull_fix_texts(*r, p),
    }
}

/// Whether every text literal of a cleaned line satisfies the predicate.
pub open spec fn denull_obj_texts(o: DenullObj, p: spec_fn(Seq<char>) -> bool) -> bool
    decreases o,
{
    match o {
        DenullObj::Term(t) => denull_term_texts(*t, p),
        DenullObj::Fix(f) => denull_fix_texts(*f, p),
        DenullObj::Grp(o1) => denull_obj_texts(*o1, p),
        DenullObj::Sequence(o1) => denull_obj_texts(*o1, p),
        DenullObj::Comp(l, r, _) => denull_obj_texts(*l, p) && denull_obj_texts(*r, p),
    }
}

/// Whether every text literal of a cleaned document satisfies the predicate.
pub open spec fn denull_doc_texts(d: DenullDoc, p: spec_fn(Seq<char>) -> bool) -> bool
    decreases d,
{
    match d {
        DenullDoc::Eod => true,
        DenullDoc::Line(o) => denull_obj_texts(*o, p),
        DenullDoc::Empty(d1) => denull_doc_texts(*d1, p),
        DenullDoc::Break(o, d1) => denull_obj_texts(*o, p) && denull_doc_texts(*d1, p),
    }
}

proof fn denull_term_keeps_texts(t: crate::types::RebuildTerm, p: spec_fn(Seq<char>) -> bool)
    requires
        rebuild_term_texts(t, p),
    ensures
        match spec_denull_term(t) {
            Option::Some(t1) => denull_term_texts(t1, p),
            Option::None => true,
        },
    decreases t,
{
    match t {
        crate::types::RebuildTerm::Nest(t1) => denull_term_keeps_texts(*t1, p),
        crate::types::RebuildTerm::Pack(_, t1) => denull_term_keeps_texts(*t1, p),
        _ => {}
    }
}

proof fn denull_fix_keeps_texts(f: crate::types::RebuildFix, p: spec_fn(Seq<char>) -> bool)
    requires
        rebuild_fix_texts(f, p),
    ensures
        match spec_denull_fix(f) {
            FixRes::Gone => true,
            FixRes::Kept(f1) => denull_fix_texts(f1, p),
            FixRes::PadKept(_, f1) => denull_fix_texts(f1, p),
        },
    decreases f,
{
    match f {
        crate::types::RebuildFix::Term(t) => denull_term_keeps_texts(*t, p),
        crate::types::RebuildFix::Comp(l, r, _) => {
            denull_fix_keeps_texts(*l, p);
            denull_fix_keeps_texts(*r, p);
        }
    }
}

proof fn denull_obj_keeps_texts(o: crate::types::RebuildObj, p: spec_fn(Seq<char>) -> bool)
    requires
        rebuild_obj_texts(o, p),
    ensures
        match spec_denull_obj(o) {
            ObjRes::Gone => true,
            ObjRes::Kept(o1) => denull_obj_texts(o1, p),
            ObjRes::PadKept(_, o1) => denull_obj_texts(o1, p),
        },
    decreases o,
{
    match o {
        crate::types::RebuildObj::Term(t) => denull_term_keeps_texts(*t, p),
        crate::types::RebuildObj::Fix(f) => denull_fix_keeps_texts(*f, p),
        crate::types::RebuildObj::Grp(o1) => denull_obj_keeps_texts(*o1, p),
        crate::types::RebuildObj::Sequence(o1) => denull_obj_keeps_texts(*o1, p),
        crate::types::RebuildObj::Comp(l, r, _) => {
            denull_obj_keeps_texts(*l, p);
            denull_obj_keeps_texts(*r, p);
        }
    }
}

/// The sixth pass keeps every surviving text literal.
pub proof fn denull_keeps_texts(d: crate::types::RebuildDoc, p: spec_fn(Seq<char>) -> bool)
    requires
        rebuild_texts(d, p),
    ensures
        denull_doc_texts(spec_denull(d), p),
{
    denull_doc_keeps_texts(d, p);
}

proof fn denull_doc_keeps_texts(d: crate::types::RebuildDoc, p: spec_fn(Seq<char>) -> bool)
    requires
        rebuild_texts(d, p),
    ensures
        match spec_denull_doc(d) {
            Option::Some(d1) => denull_doc_texts(d1, p),
            Option::None => true,
        },
    decreases d,
{
    match d {
        crate::types::RebuildDoc::Eod => {}
        crate::types::RebuildDoc::Break(o, d1) => {
            denull_obj_keeps_texts(*o, p);
            denull_doc_keeps_texts(*d1, p);
        }
    }
}

proof fn elim_seqs_obj_keeps_texts(o: DenullObj, us: bool, p: spec_fn(Seq<char>) -> bool)
    requires
        denull_obj_texts(o, p),
    ensures
        denull_obj_texts(crate::identities::spec_elim_seqs_obj(o, us).1, p),
    decreases o,
{
    match o {
        DenullObj::Term(_) => {}
        DenullObj::Fix(_) => {}
        DenullObj::Grp(o1) => elim_seqs_obj_keeps_texts(*o1, false, p),
        DenullObj::Sequence(o1) => elim_seqs_obj_keeps_texts(*o1, true, p),
        DenullObj::Comp(l, r, _) => {
            elim_seqs_obj_keeps_texts(*l, us, p);
            elim_seqs_obj_keeps_texts(*r, us, p);
        }
    }
}

proof fn elim_grps_obj_keeps_texts(o: DenullObj, h: bool, p: spec_fn(Seq<char>) -> bool)
    requires
        denull_obj_texts(o, p),
    ensures
        denull_obj_texts(crate::identities::spec_elim_grps_obj(o, h).1, p),
    decreases o,
{
    match o {
        DenullObj::Term(_) => {}
        DenullObj::Fix(_) => {}
        DenullObj::Grp(o1) => {
            if h {
                elim_grps_obj_keeps_texts(*o1, true, p);
            } else {
                elim_grps_obj_keeps_texts(*o1, false, p);
            }
        }
        DenullObj::Sequence(o1) => elim_grps_obj_keeps_texts(*o1, false, p),
        DenullObj::Comp(l, r, _) => {
            elim_grps_obj_keeps_texts(*l, h, p);
            elim_grps_obj_keeps_texts(*r, false, p);
        }
    }
}

/// The seventh pass keeps every text literal.
pub proof fn identities_keeps_texts(d: DenullDoc, p: spec_fn(Seq<char>) -> bool)
    requires
        denull_doc_texts(d, p),
    ensures
        denull_doc_texts(crate::identities::spec_identities(d), p),
{
    elim_seqs_keeps_texts(d, p);
    elim_grps_keeps_texts(crate::identities::spec_elim_seqs(d), p);
}

proof fn elim_seqs_keeps_texts(d: DenullDoc, p: spec_fn(Seq<char>) -> bool)
    requires
        denull_doc_texts(d, p),
    ensures
        denull_doc_texts(crate::identities::spec_elim_seqs(d), p),
    decreases d,
{
    match d {
        DenullDoc::Eod => {}
        DenullDoc::Empty(d1) => elim_seqs_keeps_texts(*d1, p),
        DenullDoc::Break(o, d1) => {
            elim_seqs_obj_keeps_texts(*o, false, p);
            elim_seqs_keeps_texts(*d1, p);
        }
        DenullDoc::Line(o) => elim_seqs_obj_keeps_texts(*o, false, p),
    }
}

proof fn elim_grps_keeps_texts(d: DenullDoc, p: spec_fn(Seq<char>) -> bool)
    requires
        denull_doc_texts(d, p),
    ensures
        denull_doc_texts(crate::identities::spec_elim_grps(d), p),
    decreases d,
{
    match d {
        DenullDoc::Eod => {}
        DenullDoc::Empty(d1) => elim_grps_keeps_texts(*d1, p),
        DenullDoc::Break(o, d1) => {
            elim_grps_obj_keeps_texts(*o, true, p);
            elim_grps_keeps_texts(*d1, p);
        }
        DenullDoc::Line(o) => elim_grps_obj_keeps_texts(*o, true, p),
    }
}

proof fn reassociate_obj_keeps_texts(
    o: DenullObj,
    tail: Option<(DenullObj, bool)>,
    p: spec_fn(Seq<char>) -> bool,
)
    requires
        denull_obj_texts(o, p),
        match tail {
            Option::Some((t, _)) => denull_obj_texts(t, p),
            Option::None => true,
        },
    ensures
        denull_obj_texts(crate::reassociate::spec_reassociate_obj(o, tail), p),
    decreases o,
{
    match o {
        DenullObj::Term(t) => {
            assert(denull_obj_texts(DenullObj::Term(t), p));
        }
        DenullObj::Fix(f) => {
            assert(denull_obj_texts(DenullObj::Fix(f), p));
        }
        DenullObj::Grp(o1) => {
            reassociate_obj_keeps_texts(*o1, Option::None, p);
            let inner = crate::reassociate::spec_reassociate_obj(*o1, Option::None);
            assert(denull_obj_texts(DenullObj::Grp(Box::new(inner)), p));
        }
        DenullObj::Sequence(o1) => {
            reassociate_obj_keeps_texts(*o1, Option::None, p);
            let inner = crate::reassociate::spec_reassociate_obj(*o1, Option::None);
            assert(denull_obj_texts(DenullObj::Sequence(Box::new(inner)), p));
        }
        DenullObj::Comp(l, r, pad) => {
            reassociate_obj_keeps_texts(*r, tail, p);
            let rest = crate::reassociate::spec_reassociate_obj(*r, tail);
            reassociate_obj_keeps_texts(*l, Option::Some((rest, pad)), p);
        }
    }
}

/// The eighth pass keeps every text literal.
pub proof fn reassociate_keeps_texts(d: DenullDoc, p: spec_fn(Seq<char>) -> bool)
    requires
        denull_doc_texts(d, p),
    ensures
        denull_doc_texts(crate::reassociate::spec_reassociate(d), p),
    decreases d,
{
    match d {
        DenullDoc::Eod => {}
        DenullDoc::Empty(d1) => reassociate_keeps_texts(*d1, p),
        DenullDoc::Break(o, d1) => {
            reassociate_obj_keeps_texts(*o, Option::None, p);
            reassociate_keeps_texts(*d1, p);
        }
        DenullDoc::Line(o) => reassociate_obj_keeps_texts(*o, Option::None, p),
    }
}

/// Whether the one text literal of a final text piece satisfies the
/// predicate.
pub open spec fn final_fix_texts(f: FinalDocObjFix, p: spec_fn(Seq<char>) -> bool) -> bool
    decreases f,
{
    match f {
        FinalDocObjFix::Text(s) => p(s@),
        FinalDocObjFix::Comp(l, r, _) => final_fix_texts(*l, p) && final_fix_texts(*r, p),
    }
}

/// Whether every text literal of a final line satisfies the predicate.
pub open spec fn final_obj_texts(o: FinalDocObj, p: spec_fn(Seq<char>) -> bool) -> bool
    decreases o,
{
    match o {
        FinalDocObj::Text(s) => p(s@),
        FinalDocObj::Fix(f) => final_fix_texts(*f, p),
        FinalDocObj::Grp(o1) => final_obj_texts(*o1, p),
        FinalDocObj::Sequence(o1) => final_obj_texts(*o1, p),
        FinalDocObj::Nest(o1) => final_obj_texts(*o1, p),
        FinalDocObj::Pack(_, o1) => final_obj_texts(*o1, p),
        FinalDocObj::Comp(l, r, _) => final_obj_texts(*l, p) && final_obj_texts(*r, p),
    }
}

/// Whether every text literal of a final document satisfies the predicate.
pub open spec fn final_doc_texts(d: FinalDoc, p: spec_fn(Seq<char>) -> bool) -> bool
    decreases d,
{
    match d {
        FinalDoc::Eod => true,
        FinalDoc::Empty(d1) => final_doc_texts(*d1, p),
        FinalDoc::Break(o, d1) => final_obj_texts(*o, p) && final_doc_texts(*d1, p),
        FinalDoc::Line(o) => final_obj_texts(*o, p),
    }
}

proof fn split_term_keeps_texts(t: DenullTerm, p: spec_fn(Seq<char>) -> bool)
    requires
        denull_term_texts(t, p),
    ensures
        final_obj_texts(crate::rescope::spec_split_term(t).1, p),
    decreases t,
{
    match t {
        DenullTerm::Text(_) => {}
        DenullTerm::Nest(t1) => split_term_keeps_texts(*t1, p),
        DenullTerm::Pack(_, t1) => split_term_keeps_texts(*t1, p),
    }
}

proof fn split_fix_term_keeps_texts(t: DenullTerm, p: spec_fn(Seq<char>) -> bool)
    requires
        denull_term_texts(t, p),
    ensures
        final_fix_texts(crate::rescope::spec_split_fix_term(t).1, p),
    decreases t,
{
    match t {
        DenullTerm::Text(_) => {}
        DenullTerm::Nest(t1) => split_fix_term_keeps_texts(*t1, p),
        DenullTerm::Pack(_, t1) => split_fix_term_keeps_texts(*t1, p),
    }
}

proof fn apply_props_keeps_texts(
    props: List<crate::rescope::ScopeProp>,
    o: FinalDocObj,
    p: spec_fn(Seq<char>) -> bool,
)
    requires
        final_obj_texts(o, p),
    ensures
        final_obj_texts(crate::rescope::spec_apply_props(props, o), p),
    decreases props,
{
    match props {
        List::Nil => {}
        List::Cons(_, rest) => apply_props_keeps_texts(*rest, o, p),
    }
}

proof fn rescope_fix_keeps_texts(f: DenullFix, p: spec_fn(Seq<char>) -> bool)
    requires
        denull_fix_texts(f, p),
    ensures
        final_fix_texts(crate::rescope::spec_rescope_fix(f).1, p),
    decreases f,
{
    match f {
        DenullFix::Term(t) => split_fix_term_keeps_texts(*t, p),
        DenullFix::Comp(l, r, _) => {
            rescope_fix_keeps_texts(*l, p);
            rescope_fix_keeps_texts(*r, p);
        }
    }
}

proof fn rescope_obj_keeps_texts(o: DenullObj, p: spec_fn(Seq<char>) -> bool)
    requires
        denull_obj_texts(o, p),
    ensures
        final_obj_texts(crate::rescope::spec_rescope_obj(o).1, p),
    decreases o,
{
    match o {
        DenullObj::Term(t) => split_term_keeps_texts(*t, p),
        DenullObj::Fix(f) => rescope_fix_keeps_texts(*f, p),
        DenullObj::Grp(o1) => rescope_obj_keeps_texts(*o1, p),
        DenullObj::Sequence(o1) => rescope_obj_keeps_texts(*o1, p),
        DenullObj::Comp(l, r, _) => {
            rescope_obj_keeps_texts(*l, p);
            rescope_obj_keeps_texts(*r, p);
            let (lp, l1) = crate::rescope::spec_rescope_obj(*l);
            let (rp, r1) = crate::rescope::spec_rescope_obj(*r);
            let (lp1, rp1, _cp) = crate::rescope::spec_join_props(lp, rp);
            apply_props_keeps_texts(lp1, l1, p);
            apply_props_keeps_texts(rp1, r1, p);
        }
    }
}

/// The ninth pass keeps every text literal.
pub proof fn rescope_keeps_texts(d: DenullDoc, p: spec_fn(Seq<char>) -> bool)
    requires
        denull_doc_texts(d, p),
    ensures
        final_doc_texts(crate::rescope::spec_rescope(d), p),
    decreases d,
{
    match d {
        DenullDoc::Eod => {}
        DenullDoc::Empty(d1) => rescope_keeps_texts(*d1, p),
        DenullDoc::Break(o, d1) => {
            rescope_obj_keeps_texts(*o, p);
            let (props, o1) = crate::rescope::spec_rescope_obj(*o);
            apply_props_keeps_texts(props, o1, p);
            rescope_keeps_texts(*d1, p);
        }
        DenullDoc::Line(o) => {
            rescope_obj_keeps_texts(*o, p);
            let (props, o1) = crate::rescope::spec_rescope_obj(*o);
            apply_props_keeps_texts(props, o1, p);
        }
    }
}

/// Whether every text literal of a compiled text piece satisfies the
/// predicate.
pub open spec fn doc_fix_texts(f: DocObjFix, p: spec_fn(Seq<char>) -> bool) -> bool
    decreases f,
{
    match f {
        DocObjFix::Text(s) => p(s@),
        DocObjFix::Comp(l, r, _) => doc_fix_texts(*l, p) && doc_fix_texts(*r, p),
    }
}

/// Whether every text literal of a compiled line satisfies the predicate.
pub open spec fn doc_obj_texts(o: DocObj, p: spec_fn(Seq<char>) -> bool) -> bool
    decreases o,
{
    match o {
        DocObj::Text(s) => p(s@),
        DocObj::Fix(f) => doc_fix_texts(*f, p),
        DocObj::Grp(o1) => doc_obj_texts(*o1, p),
        DocObj::Sequence(o1) => doc_obj_texts(*o1, p),
        DocObj::Nest(o1) => doc_obj_texts(*o1, p),
        DocObj::Pack(_, o1) => doc_obj_texts(*o1, p),
        DocObj::Comp(l, r, _) => doc_obj_texts(*l, p) && doc_obj_texts(*r, p),
    }
}

/// Whether every text literal of a compiled document satisfies the predicate.
pub open spec fn doc_texts(d: Doc, p: spec_fn(Seq<char>) -> bool) -> bool
    decreases d,
{
    match d {
        Doc::Eod => true,
        Doc::Empty(d1) => doc_texts(*d1, p),
        Doc::Break(o, d1) => doc_obj_texts(*o, p) && doc_texts(*d1, p),
        Doc::Line(o) => doc_obj_texts(*o, p),
    }
}

proof fn heap_fix_keeps_texts(f: FinalDocObjFix, p: spec_fn(Seq<char>) -> bool)
    requires
        final_fix_texts(f, p),
    ensures
        doc_fix_texts(spec_heap_fix(f), p),
    decreases f,
{
    match f {
        FinalDocObjFix::Text(_) => {}
        FinalDocObjFix::Comp(l, r, _) => {
            heap_fix_keeps_texts(*l, p);
            heap_fix_keeps_texts(*r, p);
        }
    }
}

proof fn heap_obj_keeps_texts(o: FinalDocObj, p: spec_fn(Seq<char>) -> bool)
    requires
        final_obj_texts(o, p),
    ensures
        doc_obj_texts(spec_heap_obj(o), p),
    decreases o,
{
    match o {
        FinalDocObj::Text(_) => {}
        FinalDocObj::Fix(f) => heap_fix_keeps_texts(*f, p),
        FinalDocObj::Grp(o1) => heap_obj_keeps_texts(*o1, p),
        FinalDocObj::Sequence(o1) => heap_obj_keeps_texts(*o1, p),
        FinalDocObj::Nest(o1) => heap_obj_keeps_texts(*o1, p),
        FinalDocObj::Pack(_, o1) => heap_obj_keeps_texts(*o1, p),
        FinalDocObj::Comp(l, r, _) => {
            heap_obj_keeps_texts(*l, p);
            heap_obj_keeps_texts(*r, p);
        }
    }
}

/// The tenth pass keeps every text literal.
pub proof fn heap_keeps_texts(d: FinalDoc, p: spec_fn(Seq<char>) -> bool)
    requires
        final_doc_texts(d, p),
    ensures
        doc_texts(spec_move_to_heap(d), p),
    decreases d,
{
    match d {
        FinalDoc::Eod => {}
        FinalDoc::Empty(d1) => heap_keeps_texts(*d1, p),
        FinalDoc::Break(o, d1) => {
            heap_obj_keeps_texts(*o, p);
            heap_keeps_texts(*d1, p);
        }
        FinalDoc::Line(o) => heap_obj_keeps_texts(*o, p),
    }
}

/// The whole compilation keeps every text literal: a property of all text
/// literals of the layout holds of all text literals of the compiled
/// document.
pub proof fn compile_keeps_texts(l: Layout, p: spec_fn(Seq<char>) -> bool)
    requires
        layout_texts(l, p),
    ensures
        match crate::pipeline::spec_compile(l) {
            Option::Some(d) => doc_texts(d, p),
            Option::None => true,
        },
{
    broken_keeps_texts(l, p);
    serialize_keeps_texts(spec_broken(l), p);
    let serial = spec_serialize(spec_broken(l));
    linearize_keeps_texts(serial, p);
    let linear = crate::linearize::spec_linearize(serial);
    fixed_keeps_texts(linear, p);
    let fd = spec_fixed(linear);
    structurize_keeps_texts(fd, p);
    match crate::structurize::spec_structurize(fd) {
        Option::None => {}
        Option::Some(rd) => {
            denull_keeps_texts(rd, p);
            let dd = spec_denull(rd);
            identities_keeps_texts(dd, p);
            let id = crate::identities::spec_identities(dd);
            reassociate_keeps_texts(id, p);
            let ra = crate::reassociate::spec_reassociate(id);
            rescope_keeps_texts(ra, p);
            heap_keeps_texts(crate::rescope::spec_rescope(ra), p);
        }
    }
}

} // verus!
