//! The ninth pass: the indentation wrappers that the flattening pushed onto
//! single terms are lifted to the largest enclosing span they cover. Both
//! sides of a composition give up the wrappers of their shared outermost
//! prefix, which moves onto the composition itself; what reaches the top of a
//! line wraps the whole line.
use vstd::prelude::*;

use crate::list::List;
use crate::types::DenullDoc;
use crate::types::DenullFix;
use crate::types::DenullObj;
use crate::types::DenullTerm;
use crate::types::FinalDoc;
use crate::types::FinalDocObj;
use crate::types::FinalDocObjFix;

verus! {

/// One liftable indentation wrapper.
#[derive(Clone, Copy, PartialEq, Eq, Structural, Debug)]
pub enum ScopeProp {
    Nest,
    Pack(u64),
}

/// The wrappers of a leaf, outermost first, and the bare text under them.
pub open spec fn spec_split_term(term: DenullTerm) -> (List<ScopeProp>, FinalDocObj)
    decreases term,
{
    match term {
        DenullTerm::Text(data) => (List::Nil, FinalDocObj::Text(data)),
        DenullTerm::Nest(t) => {
            let (props, o) = spec_split_term(*t);
            (List::Cons(ScopeProp::Nest, Box::new(props)), o)
        },
        DenullTerm::Pack(j, t) => {
            let (props, o) = spec_split_term(*t);
            (List::Cons(ScopeProp::Pack(j), Box::new(props)), o)
        },
    }
}

/// The wrappers of a leaf inside a fixed chain, and the bare text.
pub open spec fn spec_split_fix_term(term: DenullTerm) -> (List<ScopeProp>, FinalDocObjFix)
    decreases term,
{
    match term {
        DenullTerm::Text(data) => (List::Nil, FinalDocObjFix::Text(data)),
        DenullTerm::Nest(t) => {
            let (props, o) = spec_split_fix_term(*t);
            (List::Cons(ScopeProp::Nest, Box::new(props)), o)
        },
        DenullTerm::Pack(j, t) => {
            let (props, o) = spec_split_fix_term(*t);
            (List::Cons(ScopeProp::Pack(j), Box::new(props)), o)
        },
    }
}

/// The shared outermost prefix of two wrapper lists, and what is left of
/// each; packs merge only under equal tags.
pub open spec fn spec_join_props(l: List<ScopeProp>, r: List<ScopeProp>) -> (
    List<ScopeProp>,
    List<ScopeProp>,
    List<ScopeProp>,
)
    decreases l,
{
    match (l, r) {
        (List::Cons(ScopeProp::Nest, l1), List::Cons(ScopeProp::Nest, r1)) => {
            let (l2, r2, c) = spec_join_props(*l1, *r1);
            (l2, r2, List::Cons(ScopeProp::Nest, Box::new(c)))
        },
        (List::Cons(ScopeProp::Pack(a), l1), List::Cons(ScopeProp::Pack(b), r1)) => if a != b {
            (
                List::Cons(ScopeProp::Pack(a), l1),
                List::Cons(ScopeProp::Pack(b), r1),
                List::Nil,
            )
        } else {
            let (l2, r2, c) = spec_join_props(*l1, *r1);
            (l2, r2, List::Cons(ScopeProp::Pack(a), Box::new(c)))
        },
        _ => (l, r, List::Nil),
    }
}

/// The wrappers applied around an object, outermost first.
pub open spec fn spec_apply_props(props: List<ScopeProp>, obj: FinalDocObj) -> FinalDocObj
    decreases props,
{
    match props {
        List::Nil => obj,
        List::Cons(p, rest) => match p {
            ScopeProp::Nest => FinalDocObj::Nest(Box::new(spec_apply_props(*rest, obj))),
            ScopeProp::Pack(j) => FinalDocObj::Pack(j, Box::new(spec_apply_props(*rest, obj))),
        },
    }
}

/// A fixed chain with the wrappers of its first leaf lifted out; wrappers of
/// the later leaves have nowhere to stand in an unbreakable chain and are
/// dropped.
pub open spec fn spec_rescope_fix(fix: DenullFix) -> (List<ScopeProp>, FinalDocObjFix)
    decreases fix,
{
    match fix {
        DenullFix::Term(t) => spec_split_fix_term(*t),
        DenullFix::Comp(l, r, pad) => {
            let (lp, l1) = spec_rescope_fix(*l);
            let (_rp, r1) = spec_rescope_fix(*r);
            (lp, FinalDocObjFix::Comp(Box::new(l1), Box::new(r1), pad))
        },
    }
}

/// An object with the wrappers it can hand to its surroundings lifted out.
pub open spec fn spec_rescope_obj(obj: DenullObj) -> (List<ScopeProp>, FinalDocObj)
    decreases obj,
{
    match obj {
        DenullObj::Term(t) => spec_split_term(*t),
        DenullObj::Fix(f) => {
            let (props, f1) = spec_rescope_fix(*f);
            (props, FinalDocObj::Fix(Box::new(f1)))
        },
        DenullObj::Grp(o1) => {
            let (props, o2) = spec_rescope_obj(*o1);
            (props, FinalDocObj::Grp(Box::new(o2)))
        },
        DenullObj::Sequence(o1) => {
            let (props, o2) = spec_rescope_obj(*o1);
            (props, FinalDocObj::Sequence(Box::new(o2)))
        },
        DenullObj::Comp(l, r, pad) => {
            let (lp, l1) = spec_rescope_obj(*l);
            let (rp, r1) = spec_rescope_obj(*r);
            let (lp1, rp1, cp) = spec_join_props(lp, rp);
            (
                cp,
                FinalDocObj::Comp(
                    Box::new(spec_apply_props(lp1, l1)),
                    Box::new(spec_apply_props(rp1, r1)),
                    pad,
                ),
            )
        },
    }
}

/// What the ninth pass produces: per line, the lifted wrappers settle around
/// the whole line.
pub open spec fn spec_rescope(doc: DenullDoc) -> FinalDoc
    decreases doc,
{
    match doc {
        DenullDoc::Eod => FinalDoc::Eod,
        DenullDoc::Empty(d) => FinalDoc::Empty(Box::new(spec_rescope(*d))),
        DenullDoc::Break(o, d) => {
            let (props, o1) = spec_rescope_obj(*o);
            FinalDoc::Break(
                Box::new(spec_apply_props(props, o1)),
                Box::new(spec_rescope(*d)),
            )
        },
        DenullDoc::Line(o) => {
            let (props, o1) = spec_rescope_obj(*o);
            FinalDoc::Line(Box::new(spec_apply_props(props, o1)))
        },
    }
}

fn split_term(term: &DenullTerm) -> (r: (List<ScopeProp>, FinalDocObj))
    ensures
        r == spec_split_term(*term),
    decreases *term,
{
    match term {
        DenullTerm::Text(data) => (List::Nil, FinalDocObj::Text(data.clone())),
        DenullTerm::Nest(t) => {
            let (props, o) = split_term(t);
            (List::Cons(ScopeProp::Nest, Box::new(props)), o)
        },
        DenullTerm::Pack(j, t) => {
            let (props, o) = split_term(t);
            (List::Cons(ScopeProp::Pack(*j), Box::new(props)), o)
        },
    }
}

fn split_fix_term(term: &DenullTerm) -> (r: (List<ScopeProp>, FinalDocObjFix))
    ensures
        r == spec_split_fix_term(*term),
    decreases *term,
{
    match term {
        DenullTerm::Text(data) => (List::Nil, FinalDocObjFix::Text(data.clone())),
        DenullTerm::Nest(t) => {
            let (props, o) = split_fix_term(t);
            (List::Cons(ScopeProp::Nest, Box::new(props)), o)
        },
        DenullTerm::Pack(j, t) => {
            let (props, o) = split_fix_term(t);
            (List::Cons(ScopeProp::Pack(*j), Box::new(props)), o)
        },
    }
}

fn join_props(l: List<ScopeProp>, r: List<ScopeProp>) -> (res: (
    List<ScopeProp>,
    List<ScopeProp>,
    List<ScopeProp>,
))
    ensures
        res == spec_join_props(l, r),
    decreases l,
{
    match (l, r) {
        (List::Cons(ScopeProp::Nest, l1), List::Cons(ScopeProp::Nest, r1)) => {
            let (l2, r2, c) = join_props(*l1, *r1);
            (l2, r2, List::Cons(ScopeProp::Nest, Box::new(c)))
        },
        (List::Cons(ScopeProp::Pack(a), l1), List::Cons(ScopeProp::Pack(b), r1)) => if a != b {
            (
                List::Cons(ScopeProp::Pack(a), l1),
                List::Cons(ScopeProp::Pack(b), r1),
                List::Nil,
            )
        } else {
            let (l2, r2, c) = join_props(*l1, *r1);
            (l2, r2, List::Cons(ScopeProp::Pack(a), Box::new(c)))
        },
        (l2, r2) => (l2, r2, List::Nil),
    }
}

fn apply_props(props: List<ScopeProp>, obj: FinalDocObj) -> (r: FinalDocObj)
    ensures
        r == spec_apply_props(props, obj),
    decreases props,
{
    match props {
        List::Nil => obj,
        List::Cons(p, rest) => match p {
            ScopeProp::Nest => FinalDocObj::Nest(Box::new(apply_props(*rest, obj))),
            ScopeProp::Pack(j) => FinalDocObj::Pack(j, Box::new(apply_props(*rest, obj))),
        },
    }
}

fn rescope_fix(fix: &DenullFix) -> (r: (List<ScopeProp>, FinalDocObjFix))
    ensures
        r == spec_rescope_fix(*fix),
    decreases *fix,
{
    match fix {
        DenullFix::Term(t) => split_fix_term(t),
        DenullFix::Comp(l, r, pad) => {
            let (lp, l1) = rescope_fix(l);
            let (_rp, r1) = rescope_fix(r);
            (lp, FinalDocObjFix::Comp(Box::new(l1), Box::new(r1), *pad))
        },
    }
}

fn rescope_obj(obj: &DenullObj) -> (r: (List<ScopeProp>, FinalDocObj))
    ensures
        r == spec_rescope_obj(*obj),
    decreases *obj,
{
    match obj {
        DenullObj::Term(t) => split_term(t),
        DenullObj::Fix(f) => {
            let (props, f1) = rescope_fix(f);
            (props, FinalDocObj::Fix(Box::new(f1)))
        },
        DenullObj::Grp(o1) => {
            let (props, o2) = rescope_obj(o1);
            (props, FinalDocObj::Grp(Box::new(o2)))
        },
        DenullObj::Sequence(o1) => {
            let (props, o2) = rescope_obj(o1);
            (props, FinalDocObj::Sequence(Box::new(o2)))
        },
        DenullObj::Comp(l, r, pad) => {
            let (lp, l1) = rescope_obj(l);
            let (rp, r1) = rescope_obj(r);
            let (lp1, rp1, cp) = join_props(lp, rp);
            (
                cp,
                FinalDocObj::Comp(
                    Box::new(apply_props(lp1, l1)),
                    Box::new(apply_props(rp1, r1)),
                    *pad,
                ),
            )
        },
    }
}

fn visit_doc(doc: &DenullDoc) -> (r: FinalDoc)
    ensures
        r == spec_rescope(*doc),
    decreases *doc,
{
    match doc {
        DenullDoc::Eod => FinalDoc::Eod,
        DenullDoc::Empty(d) => FinalDoc::Empty(Box::new(visit_doc(d))),
        DenullDoc::Break(o, d) => {
            let (props, o1) = rescope_obj(o);
            FinalDoc::Break(Box::new(apply_props(props, o1)), Box::new(visit_doc(d)))
        },
        DenullDoc::Line(o) => {
            let (props, o1) = rescope_obj(o);
            FinalDoc::Line(Box::new(apply_props(props, o1)))
        },
    }
}

/// Lifts the indentation wrappers from single terms to the largest enclosing
/// span they cover.
pub fn rescope(doc: Box<DenullDoc>) -> (r: Box<FinalDoc>)
    ensures
        *r == spec_rescope(*doc),
{
    Box::new(visit_doc(&doc))
}

} // verus!
