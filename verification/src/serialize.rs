//! The second pass: the tree is flattened into an ordered chain of terms and
//! connectors. Every surviving `Grp`, `Seq` and `Pack` scope receives a fresh
//! integer tag; `Fix` is folded into the fix flag of each enclosed
//! composition; `Nest` and `Pack` are pushed down onto each term they cover.
use vstd::prelude::*;

use crate::list::List;
use crate::list::spec_bump;
use crate::list::bump;
use crate::list::spec_list_push;
use crate::types::Attr;
use crate::types::Edsl;
use crate::types::Property;
use crate::types::Serial;
use crate::types::SerialComp;
use crate::types::SerialTerm;

verus! {

/// An indentation wrapper pending on the terms in scope.
#[derive(Clone, Copy, Debug)]
pub enum TermWrap {
    Nest,
    Pack(u64),
}

/// A piece of a flattened document: terms joined by connectors, whose last
/// term still waits for the connector that will attach it to what follows.
pub enum Frag {
    Last(SerialTerm),
    Next(SerialTerm, SerialComp, Box<Frag>),
}

/// The term wrapped in the pending indentation wrappers, outermost first.
pub open spec fn spec_wrap_terms(wraps: List<TermWrap>, term: SerialTerm) -> SerialTerm
    decreases wraps,
{
    match wraps {
        List::Nil => term,
        List::Cons(w, rest) => match w {
            TermWrap::Nest => SerialTerm::Nest(Box::new(spec_wrap_terms(*rest, term))),
            TermWrap::Pack(j) => SerialTerm::Pack(j, Box::new(spec_wrap_terms(*rest, term))),
        },
    }
}

/// The connector wrapped in the pending scope tags, outermost first.
pub open spec fn spec_wrap_comps(wraps: List<Property<u64>>, comp: SerialComp) -> SerialComp
    decreases wraps,
{
    match wraps {
        List::Nil => comp,
        List::Cons(w, rest) => match w {
            Property::Grp(i) => SerialComp::Grp(i, Box::new(spec_wrap_comps(*rest, comp))),
            Property::Sequence(i) => SerialComp::Sequence(i, Box::new(spec_wrap_comps(*rest, comp))),
        },
    }
}

/// The first piece, its last term attached by the connector to the second.
pub open spec fn spec_frag_append(left: Frag, comp: SerialComp, right: Frag) -> Frag
    decreases left,
{
    match left {
        Frag::Last(t) => Frag::Next(t, comp, Box::new(right)),
        Frag::Next(t, c, rest) => Frag::Next(t, c, Box::new(spec_frag_append(*rest, comp, right))),
    }
}

/// The flattened piece for a subtree, with the tag counters it leaves
/// behind: `i` numbers `Grp` and `Seq` scopes, `j` numbers `Pack` scopes,
/// `fixed` is true under a `Fix`, and the wrapper lists hold the scopes the
/// subtree stands in.
pub open spec fn spec_visit(
    layout: Edsl,
    i: u64,
    j: u64,
    fixed: bool,
    terms: List<TermWrap>,
    comps: List<Property<u64>>,
) -> (u64, u64, Frag)
    decreases layout,
{
    match layout {
        Edsl::Null => (i, j, Frag::Last(SerialTerm::Null)),
        Edsl::Text(data) => (i, j, Frag::Last(spec_wrap_terms(terms, SerialTerm::Text(data)))),
        Edsl::Fix(x) => spec_visit(*x, i, j, true, terms, comps),
        Edsl::Grp(x) => spec_visit(
            *x,
            spec_bump(i),
            j,
            fixed,
            terms,
            spec_list_push(comps, Property::Grp(i)),
        ),
        Edsl::Sequence(x) => spec_visit(
            *x,
            spec_bump(i),
            j,
            fixed,
            terms,
            spec_list_push(comps, Property::Sequence(i)),
        ),
        Edsl::Nest(x) => spec_visit(
            *x,
            i,
            j,
            fixed,
            spec_list_push(terms, TermWrap::Nest),
            comps,
        ),
        Edsl::Pack(x) => spec_visit(
            *x,
            i,
            spec_bump(j),
            fixed,
            spec_list_push(terms, TermWrap::Pack(j)),
            comps,
        ),
        Edsl::Line(l, r) => {
            let (i1, j1, fl) = spec_visit(*l, i, j, fixed, terms, comps);
            let (i2, j2, fr) = spec_visit(*r, i1, j1, fixed, terms, comps);
            (i2, j2, spec_frag_append(fl, SerialComp::Line, fr))
        },
        Edsl::Comp(l, r, attr) => {
            let conn = spec_wrap_comps(
                comps,
                SerialComp::Comp(Attr { pad: attr.pad, fix: fixed || attr.fix }),
            );
            let (i1, j1, fl) = spec_visit(*l, i, j, fixed, terms, comps);
            let (i2, j2, fr) = spec_visit(*r, i1, j1, fixed, terms, comps);
            (i2, j2, spec_frag_append(fl, conn, fr))
        },
    }
}

/// The piece turned into a complete chain, closed by the end marker.
pub open spec fn spec_frag_to_serial(frag: Frag) -> Serial
    decreases frag,
{
    match frag {
        Frag::Last(t) => Serial::Last(Box::new(t), Box::new(Serial::Past)),
        Frag::Next(t, c, rest) => Serial::Next(
            Box::new(t),
            Box::new(c),
            Box::new(spec_frag_to_serial(*rest)),
        ),
    }
}

/// What the second pass produces for a layout.
pub open spec fn spec_serialize(layout: Edsl) -> Serial {
    spec_frag_to_serial(spec_visit(layout, 0, 0, false, List::Nil, List::Nil).2)
}

fn wrap_terms(wraps: &List<TermWrap>, term: SerialTerm) -> (r: SerialTerm)
    ensures
        r == spec_wrap_terms(*wraps, term),
    decreases *wraps,
{
    match wraps {
        List::Nil => term,
        List::Cons(w, rest) => match w {
            TermWrap::Nest => SerialTerm::Nest(Box::new(wrap_terms(rest, term))),
            TermWrap::Pack(j) => SerialTerm::Pack(*j, Box::new(wrap_terms(rest, term))),
        },
    }
}

fn wrap_comps(wraps: &List<Property<u64>>, comp: SerialComp) -> (r: SerialComp)
    ensures
        r == spec_wrap_comps(*wraps, comp),
    decreases *wraps,
{
    match wraps {
        List::Nil => comp,
        List::Cons(w, rest) => match w {
            Property::Grp(i) => SerialComp::Grp(*i, Box::new(wrap_comps(rest, comp))),
            Property::Sequence(i) => SerialComp::Sequence(*i, Box::new(wrap_comps(rest, comp))),
        },
    }
}

fn frag_append(left: Frag, comp: SerialComp, right: Frag) -> (r: Frag)
    ensures
        r == spec_frag_append(left, comp, right),
    decreases left,
{
    match left {
        Frag::Last(t) => Frag::Next(t, comp, Box::new(right)),
        Frag::Next(t, c, rest) => Frag::Next(t, c, Box::new(frag_append(*rest, comp, right))),
    }
}

fn visit(
    layout: &Edsl,
    i: u64,
    j: u64,
    fixed: bool,
    terms: &List<TermWrap>,
    comps: &List<Property<u64>>,
) -> (r: (u64, u64, Frag))
    ensures
        r == spec_visit(*layout, i, j, fixed, *terms, *comps),
    decreases *layout,
{
    match layout {
        Edsl::Null => (i, j, Frag::Last(SerialTerm::Null)),
        Edsl::Text(data) => (
            i,
            j,
            Frag::Last(wrap_terms(terms, SerialTerm::Text(data.clone()))),
        ),
        Edsl::Fix(x) => visit(x, i, j, true, terms, comps),
        Edsl::Grp(x) => {
            let comps1 = comps.clone().push(Property::Grp(i));
            visit(x, bump(i), j, fixed, terms, &comps1)
        },
        Edsl::Sequence(x) => {
            let comps1 = comps.clone().push(Property::Sequence(i));
            visit(x, bump(i), j, fixed, terms, &comps1)
        },
        Edsl::Nest(x) => {
            let terms1 = terms.clone().push(TermWrap::Nest);
            visit(x, i, j, fixed, &terms1, comps)
        },
        Edsl::Pack(x) => {
            let terms1 = terms.clone().push(TermWrap::Pack(j));
            visit(x, i, bump(j), fixed, &terms1, comps)
        },
        Edsl::Line(l, r) => {
            let (i1, j1, fl) = visit(l, i, j, fixed, terms, comps);
            let (i2, j2, fr) = visit(r, i1, j1, fixed, terms, comps);
            (i2, j2, frag_append(fl, SerialComp::Line, fr))
        },
        Edsl::Comp(l, r, attr) => {
            let conn = wrap_comps(
                comps,
                SerialComp::Comp(Attr { pad: attr.pad, fix: fixed || attr.fix }),
            );
            let (i1, j1, fl) = visit(l, i, j, fixed, terms, comps);
            let (i2, j2, fr) = visit(r, i1, j1, fixed, terms, comps);
            (i2, j2, frag_append(fl, conn, fr))
        },
    }
}

fn frag_to_serial(frag: Frag) -> (r: Serial)
    ensures
        r == spec_frag_to_serial(frag),
    decreases frag,
{
    match frag {
        Frag::Last(t) => Serial::Last(Box::new(t), Box::new(Serial::Past)),
        Frag::Next(t, c, rest) => Serial::Next(
            Box::new(t),
            Box::new(c),
            Box::new(frag_to_serial(*rest)),
        ),
    }
}

/// Flattens the tree into an ordered chain of terms and connectors, tagging
/// every surviving scope with a fresh integer.
pub fn serialize(layout: Box<Edsl>) -> (r: Box<Serial>)
    ensures
        *r == spec_serialize(*layout),
{
    let empty_terms: List<TermWrap> = List::Nil;
    let empty_comps: List<Property<u64>> = List::Nil;
    let (_i, _j, frag) = visit(&layout, 0, 0, false, &empty_terms, &empty_comps);
    Box::new(frag_to_serial(frag))
}

} // verus!
