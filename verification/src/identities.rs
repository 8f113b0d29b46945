//! The seventh pass: scopes that make no difference are erased. A sequence
//! scope is kept only when it directly contains at least two compositions; a
//! group scope is kept only when it contains a composition and does not stand
//! at the head of its line.
use vstd::prelude::*;

use crate::types::DenullDoc;
use crate::types::DenullFix;
use crate::types::DenullObj;

verus! {

/// How many compositions a scope directly contains: none, one, or more.
#[derive(Clone, Copy, PartialEq, Eq, Structural, Debug)]
pub enum Count {
    Zero,
    One,
    Many,
}

/// The sum of two counts, clipped at more-than-one.
pub open spec fn spec_count_add(left: Count, right: Count) -> Count {
    match (left, right) {
        (Count::Zero, _) => right,
        (_, Count::Zero) => left,
        _ => Count::Many,
    }
}

/// Executable twin of [`spec_count_add`].
pub fn count_add(left: Count, right: Count) -> (r: Count)
    ensures
        r == spec_count_add(left, right),
{
    match (left, right) {
        (Count::Zero, _) => right,
        (_, Count::Zero) => left,
        _ => Count::Many,
    }
}

/// The object with needless sequence scopes erased, and the number of
/// compositions it shows to an enclosing sequence scope. A sequence under a
/// sequence flattens; one around fewer than two compositions is dropped; a
/// single-leaf fixed chain becomes a plain leaf.
pub open spec fn spec_elim_seqs_obj(obj: DenullObj, under_seq: bool) -> (Count, DenullObj)
    decreases obj,
{
    match obj {
        DenullObj::Term(t) => (Count::Zero, DenullObj::Term(t)),
        DenullObj::Fix(f) => match *f {
            DenullFix::Term(t) => (Count::Zero, DenullObj::Term(t)),
            _ => (Count::Zero, DenullObj::Fix(f)),
        },
        DenullObj::Grp(o1) => {
            let (_c, o2) = spec_elim_seqs_obj(*o1, false);
            (Count::Zero, DenullObj::Grp(Box::new(o2)))
        },
        DenullObj::Sequence(o1) => if under_seq {
            spec_elim_seqs_obj(*o1, true)
        } else {
            let (c, o2) = spec_elim_seqs_obj(*o1, true);
            match c {
                Count::Many => (Count::Many, DenullObj::Sequence(Box::new(o2))),
                _ => (c, o2),
            }
        },
        DenullObj::Comp(l, r, pad) => {
            let (lc, l1) = spec_elim_seqs_obj(*l, under_seq);
            let (rc, r1) = spec_elim_seqs_obj(*r, under_seq);
            (
                spec_count_add(Count::One, spec_count_add(lc, rc)),
                DenullObj::Comp(Box::new(l1), Box::new(r1), pad),
            )
        },
    }
}

/// The document with needless sequence scopes erased.
pub open spec fn spec_elim_seqs(doc: DenullDoc) -> DenullDoc
    decreases doc,
{
    match doc {
        DenullDoc::Eod => DenullDoc::Eod,
        DenullDoc::Empty(d) => DenullDoc::Empty(Box::new(spec_elim_seqs(*d))),
        DenullDoc::Break(o, d) => DenullDoc::Break(
            Box::new(spec_elim_seqs_obj(*o, false).1),
            Box::new(spec_elim_seqs(*d)),
        ),
        DenullDoc::Line(o) => DenullDoc::Line(Box::new(spec_elim_seqs_obj(*o, false).1)),
    }
}

/// The object with needless group scopes erased, and the number of
/// compositions it shows outward. A group at the head of its line unwraps; a
/// group without a composition is dropped; a group hides its compositions
/// from the outside.
pub open spec fn spec_elim_grps_obj(obj: DenullObj, in_head: bool) -> (Count, DenullObj)
    decreases obj,
{
    match obj {
        DenullObj::Term(t) => (Count::Zero, DenullObj::Term(t)),
        DenullObj::Fix(f) => match *f {
            DenullFix::Term(t) => (Count::Zero, DenullObj::Term(t)),
            _ => (Count::Zero, DenullObj::Fix(f)),
        },
        DenullObj::Grp(o1) => if in_head {
            spec_elim_grps_obj(*o1, true)
        } else {
            let (c, o2) = spec_elim_grps_obj(*o1, false);
            match c {
                Count::Zero => (Count::Zero, o2),
                _ => (Count::Zero, DenullObj::Grp(Box::new(o2))),
            }
        },
        DenullObj::Sequence(o1) => {
            let (c, o2) = spec_elim_grps_obj(*o1, false);
            (c, DenullObj::Sequence(Box::new(o2)))
        },
        DenullObj::Comp(l, r, pad) => {
            let (lc, l1) = spec_elim_grps_obj(*l, in_head);
            let (rc, r1) = spec_elim_grps_obj(*r, false);
            (
                spec_count_add(Count::One, spec_count_add(lc, rc)),
                DenullObj::Comp(Box::new(l1), Box::new(r1), pad),
            )
        },
    }
}

/// The document with needless group scopes erased.
pub open spec fn spec_elim_grps(doc: DenullDoc) -> DenullDoc
    decreases doc,
{
    match doc {
        DenullDoc::Eod => DenullDoc::Eod,
        DenullDoc::Empty(d) => DenullDoc::Empty(Box::new(spec_elim_grps(*d))),
        DenullDoc::Break(o, d) => DenullDoc::Break(
            Box::new(spec_elim_grps_obj(*o, true).1),
            Box::new(spec_elim_grps(*d)),
        ),
        DenullDoc::Line(o) => DenullDoc::Line(Box::new(spec_elim_grps_obj(*o, true).1)),
    }
}

/// What the seventh pass produces: sequence identities erased first, group
/// identities second.
pub open spec fn spec_identities(doc: DenullDoc) -> DenullDoc {
    spec_elim_grps(spec_elim_seqs(doc))
}

fn elim_seqs_obj(obj: &DenullObj, under_seq: bool) -> (r: (Count, DenullObj))
    ensures
        r == spec_elim_seqs_obj(*obj, under_seq),
    decreases *obj,
{
    match obj {
        DenullObj::Term(t) => (Count::Zero, DenullObj::Term(Box::new((**t).clone()))),
        DenullObj::Fix(f) => match &**f {
            DenullFix::Term(t) => (Count::Zero, DenullObj::Term(Box::new((**t).clone()))),
            _ => (Count::Zero, DenullObj::Fix(Box::new((**f).clone()))),
        },
        DenullObj::Grp(o1) => {
            let (_c, o2) = elim_seqs_obj(o1, false);
            (Count::Zero, DenullObj::Grp(Box::new(o2)))
        },
        DenullObj::Sequence(o1) => if under_seq {
            elim_seqs_obj(o1, true)
        } else {
            let (c, o2) = elim_seqs_obj(o1, true);
            match c {
                Count::Many => (Count::Many, DenullObj::Sequence(Box::new(o2))),
                _ => (c, o2),
            }
        },
        DenullObj::Comp(l, r, pad) => {
            let (lc, l1) = elim_seqs_obj(l, under_seq);
            let (rc, r1) = elim_seqs_obj(r, under_seq);
            (
                count_add(Count::One, count_add(lc, rc)),
                DenullObj::Comp(Box::new(l1), Box::new(r1), *pad),
            )
        },
    }
}

fn elim_seqs(doc: &DenullDoc) -> (r: DenullDoc)
    ensures
        r == spec_elim_seqs(*doc),
    decreases *doc,
{
    match doc {
        DenullDoc::Eod => DenullDoc::Eod,
        DenullDoc::Empty(d) => DenullDoc::Empty(Box::new(elim_seqs(d))),
        DenullDoc::Break(o, d) => {
            let (_c, o1) = elim_seqs_obj(o, false);
            DenullDoc::Break(Box::new(o1), Box::new(elim_seqs(d)))
        },
        DenullDoc::Line(o) => {
            let (_c, o1) = elim_seqs_obj(o, false);
            DenullDoc::Line(Box::new(o1))
        },
    }
}

fn elim_grps_obj(obj: &DenullObj, in_head: bool) -> (r: (Count, DenullObj))
    ensures
        r == spec_elim_grps_obj(*obj, in_head),
    decreases *obj,
{
    match obj {
        DenullObj::Term(t) => (Count::Zero, DenullObj::Term(Box::new((**t).clone()))),
        DenullObj::Fix(f) => match &**f {
            DenullFix::Term(t) => (Count::Zero, DenullObj::Term(Box::new((**t).clone()))),
            _ => (Count::Zero, DenullObj::Fix(Box::new((**f).clone()))),
        },
        DenullObj::Grp(o1) => if in_head {
            elim_grps_obj(o1, true)
        } else {
            let (c, o2) = elim_grps_obj(o1, false);
            match c {
                Count::Zero => (Count::Zero, o2),
                _ => (Count::Zero, DenullObj::Grp(Box::new(o2))),
            }
        },
        DenullObj::Sequence(o1) => {
            let (c, o2) = elim_grps_obj(o1, false);
            (c, DenullObj::Sequence(Box::new(o2)))
        },
        DenullObj::Comp(l, r, pad) => {
            let (lc, l1) = elim_grps_obj(l, in_head);
            let (rc, r1) = elim_grps_obj(r, false);
            (
                count_add(Count::One, count_add(lc, rc)),
                DenullObj::Comp(Box::new(l1), Box::new(r1), *pad),
            )
        },
    }
}

fn elim_grps(doc: &DenullDoc) -> (r: DenullDoc)
    ensures
        r == spec_elim_grps(*doc),
    decreases *doc,
{
    match doc {
        DenullDoc::Eod => DenullDoc::Eod,
        DenullDoc::Empty(d) => DenullDoc::Empty(Box::new(elim_grps(d))),
        DenullDoc::Break(o, d) => {
            let (_c, o1) = elim_grps_obj(o, true);
            DenullDoc::Break(Box::new(o1), Box::new(elim_grps(d)))
        },
        DenullDoc::Line(o) => {
            let (_c, o1) = elim_grps_obj(o, true);
            DenullDoc::Line(Box::new(o1))
        },
    }
}

/// Erases sequence scopes with fewer than two compositions and group scopes
/// that are empty or stand at the head of their line.
pub fn identities(doc: Box<DenullDoc>) -> (r: Box<DenullDoc>)
    ensures
        *r == spec_identities(*doc),
{
    let doc1 = elim_seqs(&doc);
    Box::new(elim_grps(&doc1))
}

} // verus!
