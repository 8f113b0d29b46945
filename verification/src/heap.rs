//! The tenth pass: the finished line structure becomes the document type
//! that the renderer and the callers own; a pure structural copy.
use vstd::prelude::*;

use crate::types::Doc;
use crate::types::DocObj;
use crate::types::DocObjFix;
use crate::types::FinalDoc;
use crate::types::FinalDocObj;
use crate::types::FinalDocObjFix;

verus! {

/// A fixed chain carried over unchanged.
pub open spec fn spec_heap_fix(fix: FinalDocObjFix) -> DocObjFix
    decreases fix,
{
    match fix {
        FinalDocObjFix::Text(data) => DocObjFix::Text(data),
        FinalDocObjFix::Comp(l, r, pad) => DocObjFix::Comp(
            Box::new(spec_heap_fix(*l)),
            Box::new(spec_heap_fix(*r)),
            pad,
        ),
    }
}

/// A line object carried over unchanged.
pub open spec fn spec_heap_obj(obj: FinalDocObj) -> DocObj
    decreases obj,
{
    match obj {
        FinalDocObj::Text(data) => DocObj::Text(data),
        FinalDocObj::Fix(f) => DocObj::Fix(Box::new(spec_heap_fix(*f))),
        FinalDocObj::Grp(o) => DocObj::Grp(Box::new(spec_heap_obj(*o))),
        FinalDocObj::Sequence(o) => DocObj::Sequence(Box::new(spec_heap_obj(*o))),
        FinalDocObj::Nest(o) => DocObj::Nest(Box::new(spec_heap_obj(*o))),
        FinalDocObj::Pack(j, o) => DocObj::Pack(j, Box::new(spec_heap_obj(*o))),
        FinalDocObj::Comp(l, r, pad) => DocObj::Comp(
            Box::new(spec_heap_obj(*l)),
            Box::new(spec_heap_obj(*r)),
            pad,
        ),
    }
}

/// What the tenth pass produces: the same document, owned by the caller.
pub open spec fn spec_move_to_heap(doc: FinalDoc) -> Doc
    decreases doc,
{
    match doc {
        FinalDoc::Eod => Doc::Eod,
        FinalDoc::Empty(d) => Doc::Empty(Box::new(spec_move_to_heap(*d))),
        FinalDoc::Break(o, d) => Doc::Break(
            Box::new(spec_heap_obj(*o)),
            Box::new(spec_move_to_heap(*d)),
        ),
        FinalDoc::Line(o) => Doc::Line(Box::new(spec_heap_obj(*o))),
    }
}

fn heap_fix(fix: &FinalDocObjFix) -> (r: DocObjFix)
    ensures
        r == spec_heap_fix(*fix),
    decreases *fix,
{
    match fix {
        FinalDocObjFix::Text(data) => DocObjFix::Text(data.clone()),
        FinalDocObjFix::Comp(l, r, pad) => DocObjFix::Comp(
            Box::new(heap_fix(l)),
            Box::new(heap_fix(r)),
            *pad,
        ),
    }
}

fn heap_obj(obj: &FinalDocObj) -> (r: DocObj)
    ensures
        r == spec_heap_obj(*obj),
    decreases *obj,
{
    match obj {
        FinalDocObj::Text(data) => DocObj::Text(data.clone()),
        FinalDocObj::Fix(f) => DocObj::Fix(Box::new(heap_fix(f))),
        FinalDocObj::Grp(o) => DocObj::Grp(Box::new(heap_obj(o))),
        FinalDocObj::Sequence(o) => DocObj::Sequence(Box::new(heap_obj(o))),
        FinalDocObj::Nest(o) => DocObj::Nest(Box::new(heap_obj(o))),
        FinalDocObj::Pack(j, o) => DocObj::Pack(*j, Box::new(heap_obj(o))),
        FinalDocObj::Comp(l, r, pad) => DocObj::Comp(
            Box::new(heap_obj(l)),
            Box::new(heap_obj(r)),
            *pad,
        ),
    }
}

fn visit_doc(doc: &FinalDoc) -> (r: Doc)
    ensures
        r == spec_move_to_heap(*doc),
    decreases *doc,
{
    match doc {
        FinalDoc::Eod => Doc::Eod,
        FinalDoc::Empty(d) => Doc::Empty(Box::new(visit_doc(d))),
        FinalDoc::Break(o, d) => Doc::Break(Box::new(heap_obj(o)), Box::new(visit_doc(d))),
        FinalDoc::Line(o) => Doc::Line(Box::new(heap_obj(o))),
    }
}

/// Copies the finished line structure into the caller-owned document type.
pub fn move_to_heap(doc: Box<FinalDoc>) -> (r: Box<Doc>)
    ensures
        *r == spec_move_to_heap(*doc),
{
    Box::new(visit_doc(&doc))
}

} // verus!
