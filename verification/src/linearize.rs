//! The third pass: the hard line breaks of the flattened chain become the
//! boundaries between line objects; each object corresponds to one output
//! line.
use vstd::prelude::*;

use crate::types::Attr;
use crate::types::LinearComp;
use crate::types::LinearDoc;
use crate::types::LinearObj;
use crate::types::LinearTerm;
use crate::types::Serial;
use crate::types::SerialComp;
use crate::types::SerialTerm;

verus! {

/// A flattened term carried over into the linear form unchanged.
pub open spec fn spec_conv_term(term: SerialTerm) -> LinearTerm
    decreases term,
{
    match term {
        SerialTerm::Null => LinearTerm::Null,
        SerialTerm::Text(data) => LinearTerm::Text(data),
        SerialTerm::Nest(t) => LinearTerm::Nest(Box::new(spec_conv_term(*t))),
        SerialTerm::Pack(j, t) => LinearTerm::Pack(j, Box::new(spec_conv_term(*t))),
    }
}

/// A connector carried over unchanged; only hard breaks are gone, so a stray
/// one maps to a bare unpadded composition.
pub open spec fn spec_conv_comp(comp: SerialComp) -> LinearComp
    decreases comp,
{
    match comp {
        SerialComp::Line => LinearComp::Comp(Attr { pad: false, fix: false }),
        SerialComp::Comp(attr) => LinearComp::Comp(attr),
        SerialComp::Grp(i, c) => LinearComp::Grp(i, Box::new(spec_conv_comp(*c))),
        SerialComp::Sequence(i, c) => LinearComp::Sequence(i, Box::new(spec_conv_comp(*c))),
    }
}

/// What the third pass produces: the chain split at its hard breaks.
pub open spec fn spec_linearize(serial: Serial) -> LinearDoc
    decreases serial,
{
    match serial {
        Serial::Past => LinearDoc::Nil,
        Serial::Last(t, _) => LinearDoc::Cons(
            Box::new(LinearObj::Last(Box::new(spec_conv_term(*t)))),
            Box::new(LinearDoc::Nil),
        ),
        Serial::Next(t, c, s1) => match *c {
            SerialComp::Line => LinearDoc::Cons(
                Box::new(LinearObj::Last(Box::new(spec_conv_term(*t)))),
                Box::new(spec_linearize(*s1)),
            ),
            _ => match spec_linearize(*s1) {
                LinearDoc::Cons(o, d) => LinearDoc::Cons(
                    Box::new(LinearObj::Next(
                        Box::new(spec_conv_term(*t)),
                        Box::new(spec_conv_comp(*c)),
                        o,
                    )),
                    d,
                ),
                LinearDoc::Nil => LinearDoc::Cons(
                    Box::new(LinearObj::Last(Box::new(spec_conv_term(*t)))),
                    Box::new(LinearDoc::Nil),
                ),
            },
        },
    }
}

fn conv_term(term: &SerialTerm) -> (r: LinearTerm)
    ensures
        r == spec_conv_term(*term),
    decreases *term,
{
    match term {
        SerialTerm::Null => LinearTerm::Null,
        SerialTerm::Text(data) => LinearTerm::Text(data.clone()),
        SerialTerm::Nest(t) => LinearTerm::Nest(Box::new(conv_term(t))),
        SerialTerm::Pack(j, t) => LinearTerm::Pack(*j, Box::new(conv_term(t))),
    }
}

fn conv_comp(comp: &SerialComp) -> (r: LinearComp)
    ensures
        r == spec_conv_comp(*comp),
    decreases *comp,
{
    match comp {
        SerialComp::Line => LinearComp::Comp(Attr { pad: false, fix: false }),
        SerialComp::Comp(attr) => LinearComp::Comp(*attr),
        SerialComp::Grp(i, c) => LinearComp::Grp(*i, Box::new(conv_comp(c))),
        SerialComp::Sequence(i, c) => LinearComp::Sequence(*i, Box::new(conv_comp(c))),
    }
}

fn visit(serial: &Serial) -> (r: LinearDoc)
    ensures
        r == spec_linearize(*serial),
    decreases *serial,
{
    match serial {
        Serial::Past => LinearDoc::Nil,
        Serial::Last(t, _) => LinearDoc::Cons(
            Box::new(LinearObj::Last(Box::new(conv_term(t)))),
            Box::new(LinearDoc::Nil),
        ),
        Serial::Next(t, c, s1) => match **c {
            SerialComp::Line => LinearDoc::Cons(
                Box::new(LinearObj::Last(Box::new(conv_term(t)))),
                Box::new(visit(s1)),
            ),
            _ => match visit(s1) {
                LinearDoc::Cons(o, d) => LinearDoc::Cons(
                    Box::new(LinearObj::Next(Box::new(conv_term(t)), Box::new(conv_comp(c)), o)),
                    d,
                ),
                LinearDoc::Nil => LinearDoc::Cons(
                    Box::new(LinearObj::Last(Box::new(conv_term(t)))),
                    Box::new(LinearDoc::Nil),
                ),
            },
        },
    }
}

/// Splits the flattened chain into line objects at its hard breaks.
pub fn linearize(serial: Box<Serial>) -> (r: Box<LinearDoc>)
    ensures
        *r == spec_linearize(*serial),
{
    Box::new(visit(&serial))
}

} // verus!
