//! The sixth pass: contributions whose only text is empty are removed. When
//! one side of a composition vanishes, the other survives and the pad flags
//! of the dropped connectors combine by or; a line that vanishes entirely
//! still emits a blank line.
use vstd::prelude::*;

use crate::types::DenullDoc;
use crate::types::DenullFix;
use crate::types::DenullObj;
use crate::types::DenullTerm;
use crate::types::RebuildDoc;
use crate::types::RebuildFix;
use crate::types::RebuildObj;
use crate::types::RebuildTerm;

verus! {

/// What remains of a line object: nothing, the object, or the object with a
/// pad still pending from a dropped left-hand side.
pub enum ObjRes {
    Gone,
    Kept(DenullObj),
    PadKept(bool, DenullObj),
}

/// What remains of a fixed chain.
pub enum FixRes {
    Gone,
    Kept(DenullFix),
    PadKept(bool, DenullFix),
}

/// What remains of a leaf: nothing when its only text is empty.
pub open spec fn spec_denull_term(term: RebuildTerm) -> Option<DenullTerm>
    decreases term,
{
    match term {
        RebuildTerm::Null => Option::None,
        RebuildTerm::Text(data) => if data@.len() == 0 {
            Option::None
        } else {
            Option::Some(DenullTerm::Text(data))
        },
        RebuildTerm::Nest(t) => match spec_denull_term(*t) {
            Option::Some(t1) => Option::Some(DenullTerm::Nest(Box::new(t1))),
            Option::None => Option::None,
        },
        RebuildTerm::Pack(j, t) => match spec_denull_term(*t) {
            Option::Some(t1) => Option::Some(DenullTerm::Pack(j, Box::new(t1))),
            Option::None => Option::None,
        },
    }
}

/// What remains of a fixed chain; pads of dropped sides combine by or.
pub open spec fn spec_denull_fix(fix: RebuildFix) -> FixRes
    decreases fix,
{
    match fix {
        RebuildFix::Term(t) => match spec_denull_term(*t) {
            Option::None => FixRes::Gone,
            Option::Some(t1) => FixRes::Kept(DenullFix::Term(Box::new(t1))),
        },
        RebuildFix::Comp(l, r, l_pad) => {
            let left = spec_denull_fix(*l);
            let right = spec_denull_fix(*r);
            match left {
                FixRes::Gone => match right {
                    FixRes::Gone => FixRes::Gone,
                    FixRes::Kept(r1) => FixRes::PadKept(l_pad, r1),
                    FixRes::PadKept(rp, r1) => FixRes::PadKept(l_pad || rp, r1),
                },
                FixRes::Kept(l1) => match right {
                    FixRes::Gone => FixRes::Kept(l1),
                    FixRes::Kept(r1) => FixRes::Kept(
                        DenullFix::Comp(Box::new(l1), Box::new(r1), l_pad),
                    ),
                    FixRes::PadKept(rp, r1) => FixRes::Kept(
                        DenullFix::Comp(Box::new(l1), Box::new(r1), l_pad || rp),
                    ),
                },
                FixRes::PadKept(_, l1) => match right {
                    FixRes::Gone => FixRes::Kept(l1),
                    FixRes::Kept(r1) => FixRes::Kept(
                        DenullFix::Comp(Box::new(l1), Box::new(r1), l_pad),
                    ),
                    FixRes::PadKept(rp, r1) => FixRes::Kept(
                        DenullFix::Comp(Box::new(l1), Box::new(r1), l_pad || rp),
                    ),
                },
            }
        },
    }
}

/// What remains of a line object; a pad pending at a scope boundary is
/// dropped there.
pub open spec fn spec_denull_obj(obj: RebuildObj) -> ObjRes
    decreases obj,
{
    match obj {
        RebuildObj::Term(t) => match spec_denull_term(*t) {
            Option::None => ObjRes::Gone,
            Option::Some(t1) => ObjRes::Kept(DenullObj::Term(Box::new(t1))),
        },
        RebuildObj::Fix(f) => match spec_denull_fix(*f) {
            FixRes::Gone => ObjRes::Gone,
            FixRes::Kept(f1) => ObjRes::Kept(DenullObj::Fix(Box::new(f1))),
            FixRes::PadKept(_, f1) => ObjRes::Kept(DenullObj::Fix(Box::new(f1))),
        },
        RebuildObj::Grp(o1) => match spec_denull_obj(*o1) {
            ObjRes::Gone => ObjRes::Gone,
            ObjRes::Kept(o2) => ObjRes::Kept(DenullObj::Grp(Box::new(o2))),
            ObjRes::PadKept(_, o2) => ObjRes::Kept(DenullObj::Grp(Box::new(o2))),
        },
        RebuildObj::Sequence(o1) => match spec_denull_obj(*o1) {
            ObjRes::Gone => ObjRes::Gone,
            ObjRes::Kept(o2) => ObjRes::Kept(DenullObj::Sequence(Box::new(o2))),
            ObjRes::PadKept(_, o2) => ObjRes::Kept(DenullObj::Sequence(Box::new(o2))),
        },
        RebuildObj::Comp(l, r, l_pad) => {
            let left = spec_denull_obj(*l);
            let right = spec_denull_obj(*r);
            match left {
                ObjRes::Gone => match right {
                    ObjRes::Gone => ObjRes::Gone,
                    ObjRes::Kept(r1) => ObjRes::PadKept(l_pad, r1),
                    ObjRes::PadKept(rp, r1) => ObjRes::PadKept(l_pad || rp, r1),
                },
                ObjRes::Kept(l1) => match right {
                    ObjRes::Gone => ObjRes::Kept(l1),
                    ObjRes::Kept(r1) => ObjRes::Kept(
                        DenullObj::Comp(Box::new(l1), Box::new(r1), l_pad),
                    ),
                    ObjRes::PadKept(rp, r1) => ObjRes::Kept(
                        DenullObj::Comp(Box::new(l1), Box::new(r1), l_pad || rp),
                    ),
                },
                ObjRes::PadKept(_, l1) => match right {
                    ObjRes::Gone => ObjRes::Kept(l1),
                    ObjRes::Kept(r1) => ObjRes::Kept(
                        DenullObj::Comp(Box::new(l1), Box::new(r1), l_pad),
                    ),
                    ObjRes::PadKept(rp, r1) => ObjRes::Kept(
                        DenullObj::Comp(Box::new(l1), Box::new(r1), l_pad || rp),
                    ),
                },
            }
        },
    }
}

/// What remains of the document from a line on; nothing when every remaining
/// line vanished, so that no trailing blank lines pile up.
pub open spec fn spec_denull_doc(doc: RebuildDoc) -> Option<DenullDoc>
    decreases doc,
{
    match doc {
        RebuildDoc::Eod => Option::None,
        RebuildDoc::Break(obj, doc1) => {
            let rest = spec_denull_doc(*doc1);
            match spec_denull_obj(*obj) {
                ObjRes::Gone => match rest {
                    Option::None => Option::Some(DenullDoc::Eod),
                    Option::Some(d2) => Option::Some(DenullDoc::Empty(Box::new(d2))),
                },
                ObjRes::Kept(o1) => match rest {
                    Option::None => Option::Some(DenullDoc::Line(Box::new(o1))),
                    Option::Some(d2) => Option::Some(DenullDoc::Break(Box::new(o1), Box::new(d2))),
                },
                ObjRes::PadKept(_, o1) => match rest {
                    Option::None => Option::Some(DenullDoc::Line(Box::new(o1))),
                    Option::Some(d2) => Option::Some(DenullDoc::Break(Box::new(o1), Box::new(d2))),
                },
            }
        },
    }
}

/// What the sixth pass produces for a rebuilt document.
pub open spec fn spec_denull(doc: RebuildDoc) -> DenullDoc {
    match spec_denull_doc(doc) {
        Option::None => DenullDoc::Eod,
        Option::Some(d) => d,
    }
}

fn denull_term(term: &RebuildTerm) -> (r: Option<DenullTerm>)
    ensures
        r == spec_denull_term(*term),
    decreases *term,
{
    match term {
        RebuildTerm::Null => Option::None,
        RebuildTerm::Text(data) => if data.as_str().unicode_len() == 0 {
            Option::None
        } else {
            Option::Some(DenullTerm::Text(data.clone()))
        },
        RebuildTerm::Nest(t) => match denull_term(t) {
            Option::Some(t1) => Option::Some(DenullTerm::Nest(Box::new(t1))),
            Option::None => Option::None,
        },
        RebuildTerm::Pack(j, t) => match denull_term(t) {
            Option::Some(t1) => Option::Some(DenullTerm::Pack(*j, Box::new(t1))),
            Option::None => Option::None,
        },
    }
}

fn denull_fix(fix: &RebuildFix) -> (r: FixRes)
    ensures
        r == spec_denull_fix(*fix),
    decreases *fix,
{
    match fix {
        RebuildFix::Term(t) => match denull_term(t) {
            Option::None => FixRes::Gone,
            Option::Some(t1) => FixRes::Kept(DenullFix::Term(Box::new(t1))),
        },
        RebuildFix::Comp(l, r, l_pad) => {
            let left = denull_fix(l);
            let right = denull_fix(r);
            match left {
                FixRes::Gone => match right {
                    FixRes::Gone => FixRes::Gone,
                    FixRes::Kept(r1) => FixRes::PadKept(*l_pad, r1),
                    FixRes::PadKept(rp, r1) => FixRes::PadKept(*l_pad || rp, r1),
                },
                FixRes::Kept(l1) => match right {
                    FixRes::Gone => FixRes::Kept(l1),
                    FixRes::Kept(r1) => FixRes::Kept(
                        DenullFix::Comp(Box::new(l1), Box::new(r1), *l_pad),
                    ),
                    FixRes::PadKept(rp, r1) => FixRes::Kept(
                        DenullFix::Comp(Box::new(l1), Box::new(r1), *l_pad || rp),
                    ),
                },
                FixRes::PadKept(_, l1) => match right {
                    FixRes::Gone => FixRes::Kept(l1),
                    FixRes::Kept(r1) => FixRes::Kept(
                        DenullFix::Comp(Box::new(l1), Box::new(r1), *l_pad),
                    ),
                    FixRes::PadKept(rp, r1) => FixRes::Kept(
                        DenullFix::Comp(Box::new(l1), Box::new(r1), *l_pad || rp),
                    ),
                },
            }
        },
    }
}

fn denull_obj(obj: &RebuildObj) -> (r: ObjRes)
    ensures
        r == spec_denull_obj(*obj),
    decreases *obj,
{
    match obj {
        RebuildObj::Term(t) => match denull_term(t) {
            Option::None => ObjRes::Gone,
            Option::Some(t1) => ObjRes::Kept(DenullObj::Term(Box::new(t1))),
        },
        RebuildObj::Fix(f) => match denull_fix(f) {
            FixRes::Gone => ObjRes::Gone,
            FixRes::Kept(f1) => ObjRes::Kept(DenullObj::Fix(Box::new(f1))),
            FixRes::PadKept(_, f1) => ObjRes::Kept(DenullObj::Fix(Box::new(f1))),
        },
        RebuildObj::Grp(o1) => match denull_obj(o1) {
            ObjRes::Gone => ObjRes::Gone,
            ObjRes::Kept(o2) => ObjRes::Kept(DenullObj::Grp(Box::new(o2))),
            ObjRes::PadKept(_, o2) => ObjRes::Kept(DenullObj::Grp(Box::new(o2))),
        },
        RebuildObj::Sequence(o1) => match denull_obj(o1) {
            ObjRes::Gone => ObjRes::Gone,
            ObjRes::Kept(o2) => ObjRes::Kept(DenullObj::Sequence(Box::new(o2))),
            ObjRes::PadKept(_, o2) => ObjRes::Kept(DenullObj::Sequence(Box::new(o2))),
        },
        RebuildObj::Comp(l, r, l_pad) => {
            let left = denull_obj(l);
            let right = denull_obj(r);
            match left {
                ObjRes::Gone => match right {
                    ObjRes::Gone => ObjRes::Gone,
                    ObjRes::Kept(r1) => ObjRes::PadKept(*l_pad, r1),
                    ObjRes::PadKept(rp, r1) => ObjRes::PadKept(*l_pad || rp, r1),
                },
                ObjRes::Kept(l1) => match right {
                    ObjRes::Gone => ObjRes::Kept(l1),
                    ObjRes::Kept(r1) => ObjRes::Kept(
                        DenullObj::Comp(Box::new(l1), Box::new(r1), *l_pad),
                    ),
                    ObjRes::PadKept(rp, r1) => ObjRes::Kept(
                        DenullObj::Comp(Box::new(l1), Box::new(r1), *l_pad || rp),
                    ),
                },
                ObjRes::PadKept(_, l1) => match right {
                    ObjRes::Gone => ObjRes::Kept(l1),
                    ObjRes::Kept(r1) => ObjRes::Kept(
                        DenullObj::Comp(Box::new(l1), Box::new(r1), *l_pad),
                    ),
                    ObjRes::PadKept(rp, r1) => ObjRes::Kept(
                        DenullObj::Comp(Box::new(l1), Box::new(r1), *l_pad || rp),
                    ),
                },
            }
        },
    }
}

fn denull_doc(doc: &RebuildDoc) -> (r: Option<DenullDoc>)
    ensures
        r == spec_denull_doc(*doc),
    decreases *doc,
{
    match doc {
        RebuildDoc::Eod => Option::None,
        RebuildDoc::Break(obj, doc1) => {
            let rest = denull_doc(doc1);
            match denull_obj(obj) {
                ObjRes::Gone => match rest {
                    Option::None => Option::Some(DenullDoc::Eod),
                    Option::Some(d2) => Option::Some(DenullDoc::Empty(Box::new(d2))),
                },
                ObjRes::Kept(o1) => match rest {
                    Option::None => Option::Some(DenullDoc::Line(Box::new(o1))),
                    Option::Some(d2) => Option::Some(DenullDoc::Break(Box::new(o1), Box::new(d2))),
                },
                ObjRes::PadKept(_, o1) => match rest {
                    Option::None => Option::Some(DenullDoc::Line(Box::new(o1))),
                    Option::Some(d2) => Option::Some(DenullDoc::Break(Box::new(o1), Box::new(d2))),
                },
            }
        },
    }
}

/// Removes every contribution whose only text is empty; pad flags combine by
/// or across the drops.
pub fn denull(doc: Box<RebuildDoc>) -> (r: Box<DenullDoc>)
    ensures
        *r == spec_denull(*doc),
{
    match denull_doc(&doc) {
        Option::None => Box::new(DenullDoc::Eod),
        Option::Some(d) => Box::new(d),
    }
}

} // verus!
