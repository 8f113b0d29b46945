//! The eighth pass: every chain of compositions is re-threaded to the right,
//! keeping the order of the leaves and the pad flag of each connector.
use vstd::prelude::*;

use crate::types::DenullDoc;
use crate::types::DenullObj;

verus! {

/// The object attached in front of a waiting tail, if there is one.
pub open spec fn spec_attach(obj: DenullObj, tail: Option<(DenullObj, bool)>) -> DenullObj {
    match tail {
        Option::None => obj,
        Option::Some((rest, pad)) => DenullObj::Comp(Box::new(obj), Box::new(rest), pad),
    }
}

/// The object right-associated, with a waiting tail attached behind its last
/// leaf: a composition first rebuilds its right side onto the tail, then its
/// left side onto that; scopes rebuild their contents on their own.
pub open spec fn spec_reassociate_obj(obj: DenullObj, tail: Option<(DenullObj, bool)>) -> DenullObj
    decreases obj,
{
    match obj {
        DenullObj::Term(t) => spec_attach(DenullObj::Term(t), tail),
        DenullObj::Fix(f) => spec_attach(DenullObj::Fix(f), tail),
        DenullObj::Grp(o1) => spec_attach(
            DenullObj::Grp(Box::new(spec_reassociate_obj(*o1, Option::None))),
            tail,
        ),
        DenullObj::Sequence(o1) => spec_attach(
            DenullObj::Sequence(Box::new(spec_reassociate_obj(*o1, Option::None))),
            tail,
        ),
        DenullObj::Comp(l, r, pad) => {
            let rest = spec_reassociate_obj(*r, tail);
            spec_reassociate_obj(*l, Option::Some((rest, pad)))
        },
    }
}

/// What the eighth pass produces for a document.
pub open spec fn spec_reassociate(doc: DenullDoc) -> DenullDoc
    decreases doc,
{
    match doc {
        DenullDoc::Eod => DenullDoc::Eod,
        DenullDoc::Empty(d) => DenullDoc::Empty(Box::new(spec_reassociate(*d))),
        DenullDoc::Break(o, d) => DenullDoc::Break(
            Box::new(spec_reassociate_obj(*o, Option::None)),
            Box::new(spec_reassociate(*d)),
        ),
        DenullDoc::Line(o) => DenullDoc::Line(Box::new(spec_reassociate_obj(*o, Option::None))),
    }
}

fn attach(obj: DenullObj, tail: Option<(DenullObj, bool)>) -> (r: DenullObj)
    ensures
        r == spec_attach(obj, tail),
{
    match tail {
        Option::None => obj,
        Option::Some((rest, pad)) => DenullObj::Comp(Box::new(obj), Box::new(rest), pad),
    }
}

fn reassociate_obj(obj: &DenullObj, tail: Option<(DenullObj, bool)>) -> (r: DenullObj)
    ensures
        r == spec_reassociate_obj(*obj, tail),
    decreases *obj,
{
    match obj {
        DenullObj::Term(t) => attach(DenullObj::Term(Box::new((**t).clone())), tail),
        DenullObj::Fix(f) => attach(DenullObj::Fix(Box::new((**f).clone())), tail),
        DenullObj::Grp(o1) => attach(
            DenullObj::Grp(Box::new(reassociate_obj(o1, Option::None))),
            tail,
        ),
        DenullObj::Sequence(o1) => attach(
            DenullObj::Sequence(Box::new(reassociate_obj(o1, Option::None))),
            tail,
        ),
        DenullObj::Comp(l, r, pad) => {
            let rest = reassociate_obj(r, tail);
            reassociate_obj(l, Option::Some((rest, *pad)))
        },
    }
}

fn visit_doc(doc: &DenullDoc) -> (r: DenullDoc)
    ensures
        r == spec_reassociate(*doc),
    decreases *doc,
{
    match doc {
        DenullDoc::Eod => DenullDoc::Eod,
        DenullDoc::Empty(d) => DenullDoc::Empty(Box::new(visit_doc(d))),
        DenullDoc::Break(o, d) => DenullDoc::Break(
            Box::new(reassociate_obj(o, Option::None)),
            Box::new(visit_doc(d)),
        ),
        DenullDoc::Line(o) => DenullDoc::Line(Box::new(reassociate_obj(o, Option::None))),
    }
}

/// Right-associates every chain of compositions.
pub fn reassociate(doc: Box<DenullDoc>) -> (r: Box<DenullDoc>)
    ensures
        *r == spec_reassociate(*doc),
{
    Box::new(visit_doc(&doc))
}

} // verus!
