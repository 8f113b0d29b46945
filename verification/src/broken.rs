//! The first pass: hard line breaks are lifted over the soft compositions
//! around them. A composition whose subtree contains a hard break becomes a
//! hard break itself, unless a `Fix` protects it; a `Seq` whose subtree
//! contains a hard break is erased.
use vstd::prelude::*;

use crate::types::Broken;
use crate::types::Edsl;
use crate::types::Layout;

verus! {

/// Whether the layout contains a hard line break, and the layout with every
/// `Seq` annotated by that fact for its own subtree.
pub open spec fn spec_mark(layout: Layout) -> (bool, Broken)
    decreases layout,
{
    match layout {
        Layout::Null => (false, Broken::Null),
        Layout::Text(data) => (false, Broken::Text(data)),
        Layout::Fix(x) => {
            let (b, y) = spec_mark(*x);
            (b, Broken::Fix(Box::new(y)))
        },
        Layout::Grp(x) => {
            let (b, y) = spec_mark(*x);
            (b, Broken::Grp(Box::new(y)))
        },
        Layout::Sequence(x) => {
            let (b, y) = spec_mark(*x);
            (b, Broken::Sequence(b, Box::new(y)))
        },
        Layout::Nest(x) => {
            let (b, y) = spec_mark(*x);
            (b, Broken::Nest(Box::new(y)))
        },
        Layout::Pack(x) => {
            let (b, y) = spec_mark(*x);
            (b, Broken::Pack(Box::new(y)))
        },
        Layout::Line(l, r) => {
            let (_, l1) = spec_mark(*l);
            let (_, r1) = spec_mark(*r);
            (true, Broken::Line(Box::new(l1), Box::new(r1)))
        },
        Layout::Comp(l, r, attr) => {
            let (lb, l1) = spec_mark(*l);
            let (rb, r1) = spec_mark(*r);
            (lb || rb, Broken::Comp(Box::new(l1), Box::new(r1), attr))
        },
    }
}

/// The annotated layout with broken compositions rewritten into hard breaks
/// and broken `Seq` scopes erased. `broken` is inherited from the nearest
/// enclosing scope that contains a hard break; `Fix` and `Grp` reset it.
pub open spec fn spec_remove(layout: Broken, broken: bool) -> Edsl
    decreases layout,
{
    match layout {
        Broken::Null => Edsl::Null,
        Broken::Text(data) => Edsl::Text(data),
        Broken::Fix(x) => Edsl::Fix(Box::new(spec_remove(*x, false))),
        Broken::Grp(x) => Edsl::Grp(Box::new(spec_remove(*x, false))),
        Broken::Sequence(b, x) => if b {
            spec_remove(*x, true)
        } else {
            Edsl::Sequence(Box::new(spec_remove(*x, false)))
        },
        Broken::Nest(x) => Edsl::Nest(Box::new(spec_remove(*x, broken))),
        Broken::Pack(x) => Edsl::Pack(Box::new(spec_remove(*x, broken))),
        Broken::Line(l, r) => Edsl::Line(
            Box::new(spec_remove(*l, broken)),
            Box::new(spec_remove(*r, broken)),
        ),
        Broken::Comp(l, r, attr) => if broken && !attr.fix {
            Edsl::Line(Box::new(spec_remove(*l, broken)), Box::new(spec_remove(*r, broken)))
        } else {
            Edsl::Comp(
                Box::new(spec_remove(*l, broken)),
                Box::new(spec_remove(*r, broken)),
                attr,
            )
        },
    }
}

/// What the first pass produces for a layout.
pub open spec fn spec_broken(layout: Layout) -> Edsl {
    spec_remove(spec_mark(layout).1, false)
}

fn mark(layout: &Layout) -> (r: (bool, Broken))
    ensures
        r == spec_mark(*layout),
    decreases *layout,
{
    match layout {
        Layout::Null => (false, Broken::Null),
        Layout::Text(data) => (false, Broken::Text(data.clone())),
        Layout::Fix(x) => {
            let (b, y) = mark(x);
            (b, Broken::Fix(Box::new(y)))
        },
        Layout::Grp(x) => {
            let (b, y) = mark(x);
            (b, Broken::Grp(Box::new(y)))
        },
        Layout::Sequence(x) => {
            let (b, y) = mark(x);
            (b, Broken::Sequence(b, Box::new(y)))
        },
        Layout::Nest(x) => {
            let (b, y) = mark(x);
            (b, Broken::Nest(Box::new(y)))
        },
        Layout::Pack(x) => {
            let (b, y) = mark(x);
            (b, Broken::Pack(Box::new(y)))
        },
        Layout::Line(l, r) => {
            let (_lb, l1) = mark(l);
            let (_rb, r1) = mark(r);
            (true, Broken::Line(Box::new(l1), Box::new(r1)))
        },
        Layout::Comp(l, r, attr) => {
            let (lb, l1) = mark(l);
            let (rb, r1) = mark(r);
            (lb || rb, Broken::Comp(Box::new(l1), Box::new(r1), *attr))
        },
    }
}

fn remove(layout: &Broken, broken: bool) -> (r: Edsl)
    ensures
        r == spec_remove(*layout, broken),
    decreases *layout,
{
    match layout {
        Broken::Null => Edsl::Null,
        Broken::Text(data) => Edsl::Text(data.clone()),
        Broken::Fix(x) => Edsl::Fix(Box::new(remove(x, false))),
        Broken::Grp(x) => Edsl::Grp(Box::new(remove(x, false))),
        Broken::Sequence(b, x) => if *b {
            remove(x, true)
        } else {
            Edsl::Sequence(Box::new(remove(x, false)))
        },
        Broken::Nest(x) => Edsl::Nest(Box::new(remove(x, broken))),
        Broken::Pack(x) => Edsl::Pack(Box::new(remove(x, broken))),
        Broken::Line(l, r) => Edsl::Line(
            Box::new(remove(l, broken)),
            Box::new(remove(r, broken)),
        ),
        Broken::Comp(l, r, attr) => if broken && !attr.fix {
            Edsl::Line(Box::new(remove(l, broken)), Box::new(remove(r, broken)))
        } else {
            Edsl::Comp(Box::new(remove(l, broken)), Box::new(remove(r, broken)), *attr)
        },
    }
}

/// Lifts hard line breaks over the soft compositions around them, so that
/// later passes can assume no unprotected composition straddles a hard break.
pub fn broken(layout: Box<Layout>) -> (r: Box<Edsl>)
    ensures
        *r == spec_broken(*layout),
{
    let (_b, marked) = mark(&layout);
    Box::new(remove(&marked, false))
}

} // verus!
