//! The fourth pass: maximal runs of fix-marked compositions are coalesced,
//! each into a single chain item that the renderer will never break.
use vstd::prelude::*;

use crate::types::FixedComp;
use crate::types::FixedDoc;
use crate::types::FixedFix;
use crate::types::FixedItem;
use crate::types::FixedObj;
use crate::types::FixedTerm;
use crate::types::LinearComp;
use crate::types::LinearDoc;
use crate::types::LinearObj;
use crate::types::LinearTerm;

verus! {

/// What follows a coalesced fixed chain: nothing, or a breakable connector
/// and the rest of the line.
pub enum FixRest {
    End,
    More(FixedComp, FixedObj),
}

/// A term carried over unchanged.
pub open spec fn spec_conv_term(term: LinearTerm) -> FixedTerm
    decreases term,
{
    match term {
        LinearTerm::Null => FixedTerm::Null,
        LinearTerm::Text(data) => FixedTerm::Text(data),
        LinearTerm::Nest(t) => FixedTerm::Nest(Box::new(spec_conv_term(*t))),
        LinearTerm::Pack(j, t) => FixedTerm::Pack(j, Box::new(spec_conv_term(*t))),
    }
}

/// Whether a connector is fixed, recovered from its innermost composition,
/// and the connector with only the pad flag kept there.
pub open spec fn spec_conv_comp(comp: LinearComp) -> (bool, FixedComp)
    decreases comp,
{
    match comp {
        LinearComp::Comp(attr) => (attr.fix, FixedComp::Comp(attr.pad)),
        LinearComp::Grp(i, c) => {
            let (f, c1) = spec_conv_comp(*c);
            (f, FixedComp::Grp(i, Box::new(c1)))
        },
        LinearComp::Sequence(i, c) => {
            let (f, c1) = spec_conv_comp(*c);
            (f, FixedComp::Sequence(i, Box::new(c1)))
        },
    }
}

/// The fixed chain that starts at this line position, and what follows it.
pub open spec fn spec_visit_fix(obj: LinearObj) -> (FixedFix, FixRest)
    decreases obj,
{
    match obj {
        LinearObj::Last(t) => (FixedFix::Last(Box::new(spec_conv_term(*t))), FixRest::End),
        LinearObj::Next(t, c, obj1) => {
            let (f, c1) = spec_conv_comp(*c);
            if f {
                let (chain, rest) = spec_visit_fix(*obj1);
                (
                    FixedFix::Next(
                        Box::new(spec_conv_term(*t)),
                        Box::new(c1),
                        Box::new(chain),
                    ),
                    rest,
                )
            } else {
                (
                    FixedFix::Last(Box::new(spec_conv_term(*t))),
                    FixRest::More(c1, spec_visit_obj(*obj1)),
                )
            }
        },
    }
}

/// The line with its runs of fixed connectors coalesced.
pub open spec fn spec_visit_obj(obj: LinearObj) -> FixedObj
    decreases obj,
{
    match obj {
        LinearObj::Last(t) => FixedObj::Last(
            Box::new(FixedItem::Term(Box::new(spec_conv_term(*t)))),
        ),
        LinearObj::Next(t, c, obj1) => {
            let (f, c1) = spec_conv_comp(*c);
            if f {
                let (chain, rest) = spec_visit_fix(*obj1);
                let item = FixedItem::Fix(
                    Box::new(
                        FixedFix::Next(Box::new(spec_conv_term(*t)), Box::new(c1), Box::new(chain)),
                    ),
                );
                match rest {
                    FixRest::End => FixedObj::Last(Box::new(item)),
                    FixRest::More(c2, o2) => FixedObj::Next(
                        Box::new(item),
                        Box::new(c2),
                        Box::new(o2),
                    ),
                }
            } else {
                FixedObj::Next(
                    Box::new(FixedItem::Term(Box::new(spec_conv_term(*t)))),
                    Box::new(c1),
                    Box::new(spec_visit_obj(*obj1)),
                )
            }
        },
    }
}

/// What the fourth pass produces for a linearized document.
pub open spec fn spec_fixed(doc: LinearDoc) -> FixedDoc
    decreases doc,
{
    match doc {
        LinearDoc::Nil => FixedDoc::Eod,
        LinearDoc::Cons(o, d) => FixedDoc::Break(
            Box::new(spec_visit_obj(*o)),
            Box::new(spec_fixed(*d)),
        ),
    }
}

fn conv_term(term: &LinearTerm) -> (r: FixedTerm)
    ensures
        r == spec_conv_term(*term),
    decreases *term,
{
    match term {
        LinearTerm::Null => FixedTerm::Null,
        LinearTerm::Text(data) => FixedTerm::Text(data.clone()),
        LinearTerm::Nest(t) => FixedTerm::Nest(Box::new(conv_term(t))),
        LinearTerm::Pack(j, t) => FixedTerm::Pack(*j, Box::new(conv_term(t))),
    }
}

fn conv_comp(comp: &LinearComp) -> (r: (bool, FixedComp))
    ensures
        r == spec_conv_comp(*comp),
    decreases *comp,
{
    match comp {
        LinearComp::Comp(attr) => (attr.fix, FixedComp::Comp(attr.pad)),
        LinearComp::Grp(i, c) => {
            let (f, c1) = conv_comp(c);
            (f, FixedComp::Grp(*i, Box::new(c1)))
        },
        LinearComp::Sequence(i, c) => {
            let (f, c1) = conv_comp(c);
            (f, FixedComp::Sequence(*i, Box::new(c1)))
        },
    }
}

fn visit_fix(obj: &LinearObj) -> (r: (FixedFix, FixRest))
    ensures
        r == spec_visit_fix(*obj),
    decreases *obj,
{
    match obj {
        LinearObj::Last(t) => (FixedFix::Last(Box::new(conv_term(t))), FixRest::End),
        LinearObj::Next(t, c, obj1) => {
            let (f, c1) = conv_comp(c);
            if f {
                let (chain, rest) = visit_fix(obj1);
                (
                    FixedFix::Next(Box::new(conv_term(t)), Box::new(c1), Box::new(chain)),
                    rest,
                )
            } else {
                (
                    FixedFix::Last(Box::new(conv_term(t))),
                    FixRest::More(c1, visit_obj(obj1)),
                )
            }
        },
    }
}

fn visit_obj(obj: &LinearObj) -> (r: FixedObj)
    ensures
        r == spec_visit_obj(*obj),
    decreases *obj,
{
    match obj {
        LinearObj::Last(t) => FixedObj::Last(
            Box::new(FixedItem::Term(Box::new(conv_term(t)))),
        ),
        LinearObj::Next(t, c, obj1) => {
            let (f, c1) = conv_comp(c);
            if f {
                let (chain, rest) = visit_fix(obj1);
                let item = FixedItem::Fix(
                    Box::new(FixedFix::Next(Box::new(conv_term(t)), Box::new(c1), Box::new(chain))),
                );
                match rest {
                    FixRest::End => FixedObj::Last(Box::new(item)),
                    FixRest::More(c2, o2) => FixedObj::Next(
                        Box::new(item),
                        Box::new(c2),
                        Box::new(o2),
                    ),
                }
            } else {
                FixedObj::Next(
                    Box::new(FixedItem::Term(Box::new(conv_term(t)))),
                    Box::new(c1),
                    Box::new(visit_obj(obj1)),
                )
            }
        },
    }
}

/// Coalesces maximal runs of fixed compositions into single chain items.
pub fn fixed(doc: Box<LinearDoc>) -> (r: Box<FixedDoc>)
    ensures
        *r == spec_fixed(*doc),
{
    Box::new(visit_doc(&doc))
}

fn visit_doc(doc: &LinearDoc) -> (r: FixedDoc)
    ensures
        r == spec_fixed(*doc),
    decreases *doc,
{
    match doc {
        LinearDoc::Nil => FixedDoc::Eod,
        LinearDoc::Cons(o, d) => FixedDoc::Break(
            Box::new(visit_obj(o)),
            Box::new(visit_doc(d)),
        ),
    }
}

} // verus!
