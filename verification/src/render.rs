//! The renderer: a single pass over the compiled document that makes the
//! final line-break decisions and emits text. Column positions saturate at
//! the machine limit; a width check against a saturated position fails, which
//! is the conservative direction.
use vstd::prelude::*;

use crate::map::OrdMap;
use crate::map::spec_insert;
use crate::map::spec_lookup;
use crate::types::Doc;
use crate::types::DocObj;
use crate::types::DocObjFix;

verus! {

/// The renderer's threaded state: the targets, whether anything visible
/// stands on the current line, whether an enclosing sequence decided to
/// break, the indent level, the column, and the recorded pack columns.
pub struct RState {
    pub width: usize,
    pub tab: usize,
    pub head: bool,
    pub broken: bool,
    pub lvl: usize,
    pub pos: usize,
    pub marks: OrdMap<usize>,
}

impl Clone for RState {
    fn clone(&self) -> (r: Self)
        ensures
            r == *self,
    {
        RState {
            width: self.width,
            tab: self.tab,
            head: self.head,
            broken: self.broken,
            lvl: self.lvl,
            pos: self.pos,
            marks: self.marks.clone(),
        }
    }
}

/// A sum clipped to the machine limit.
pub open spec fn spec_sat_add(a: usize, n: nat) -> usize {
    if a + n <= usize::MAX {
        (a + n) as usize
    } else {
        usize::MAX
    }
}

/// Executable twin of [`spec_sat_add`] for machine-sized amounts.
pub fn sat_add(a: usize, n: usize) -> (r: usize)
    ensures
        r == spec_sat_add(a, n as nat),
{
    if a <= usize::MAX - n {
        a + n
    } else {
        usize::MAX
    }
}

/// The state with the column advanced.
pub open spec fn spec_inc_pos(n: nat, st: RState) -> RState {
    RState { pos: spec_sat_add(st.pos, n), ..st }
}

/// The state with the indent level raised to the next tab stop; a zero tab
/// leaves it unchanged.
pub open spec fn spec_indent(tab: usize, st: RState) -> RState {
    if tab == 0 {
        st
    } else {
        RState { lvl: spec_sat_add(st.lvl, (tab - st.lvl % tab) as nat), ..st }
    }
}

/// The state at the start of a fresh line within the same decision scope.
pub open spec fn spec_newline(st: RState) -> RState {
    RState { head: true, pos: 0, ..st }
}

/// The state at the start of a fresh line with decisions reset.
pub open spec fn spec_reset(st: RState) -> RState {
    RState { head: true, broken: false, pos: 0, ..st }
}

/// The spaces owed before emitting at the head of a line: how far the column
/// falls short of the indent level, and nothing mid-line.
pub open spec fn spec_get_offset(st: RState) -> usize {
    if !st.head {
        0
    } else if st.lvl >= st.pos {
        (st.lvl - st.pos) as usize
    } else {
        0
    }
}

/// A run of spaces of the given width.
pub open spec fn spec_spaces(n: nat) -> Seq<char>
    decreases n,
{
    if n == 0 {
        Seq::empty()
    } else {
        spec_spaces((n - 1) as nat) + " "@
    }
}

/// The state after the object, were it rendered unbroken from here.
pub open spec fn spec_measure_obj(obj: DocObj, st: RState) -> RState
    decreases obj,
{
    match obj {
        DocObj::Text(data) => spec_inc_pos(data@.len(), st),
        DocObj::Fix(f) => spec_measure_fix(*f, st),
        DocObj::Grp(o) => spec_measure_obj(*o, st),
        DocObj::Sequence(o) => spec_measure_obj(*o, st),
        DocObj::Nest(o) => {
            let lvl = st.lvl;
            let st1 = spec_indent(st.tab, st);
            let st2 = spec_inc_pos(spec_get_offset(st1) as nat, st1);
            let st3 = spec_measure_obj(*o, st2);
            RState { lvl, ..st3 }
        },
        DocObj::Pack(j, o) => {
            let lvl = st.lvl;
            match spec_lookup(st.marks, j) {
                Option::None => {
                    let pos = st.pos;
                    let st1 = RState { marks: spec_insert(st.marks, j, pos), ..st };
                    let st2 = RState { lvl: if lvl >= pos { lvl } else { pos }, ..st1 };
                    let st3 = spec_measure_obj(*o, st2);
                    RState { lvl, ..st3 }
                },
                Option::Some(lvl1) => {
                    let st1 = RState { lvl: if lvl >= lvl1 { lvl } else { lvl1 }, ..st };
                    let st2 = spec_inc_pos(spec_get_offset(st1) as nat, st1);
                    let st3 = spec_measure_obj(*o, st2);
                    RState { lvl, ..st3 }
                },
            }
        },
        DocObj::Comp(l, r, pad) => {
            let st1 = spec_measure_obj(*l, st);
            let st2 = spec_inc_pos(if pad { 1nat } else { 0nat }, st1);
            let head = st2.head;
            let st3 = RState { head: false, ..st2 };
            let st4 = spec_measure_obj(*r, st3);
            RState { head, ..st4 }
        },
    }
}

/// The state after a fixed chain, measured flat.
pub open spec fn spec_measure_fix(fix: DocObjFix, st: RState) -> RState
    decreases fix,
{
    match fix {
        DocObjFix::Text(data) => spec_inc_pos(data@.len(), st),
        DocObjFix::Comp(l, r, pad) => {
            let st1 = spec_measure_fix(*l, st);
            let st2 = spec_inc_pos(if pad { 1nat } else { 0nat }, st1);
            spec_measure_fix(*r, st2)
        },
    }
}

/// The column of the next break opportunity: like the flat measure, but a
/// group met mid-line counts as one unbreakable unit, and only the left side
/// of a composition is considered.
pub open spec fn spec_next_comp_obj(obj: DocObj, st: RState) -> RState
    decreases obj,
{
    match obj {
        DocObj::Text(data) => spec_inc_pos(data@.len(), st),
        DocObj::Fix(f) => spec_measure_fix(*f, st),
        DocObj::Grp(o) => if st.head {
            spec_next_comp_obj(*o, st)
        } else {
            RState { pos: spec_measure_obj(*o, st).pos, ..st }
        },
        DocObj::Sequence(o) => spec_next_comp_obj(*o, st),
        DocObj::Nest(o) => {
            let lvl = st.lvl;
            let st1 = spec_indent(st.tab, st);
            let st2 = spec_inc_pos(spec_get_offset(st1) as nat, st1);
            let st3 = spec_next_comp_obj(*o, st2);
            RState { lvl, ..st3 }
        },
        DocObj::Pack(j, o) => {
            let lvl = st.lvl;
            match spec_lookup(st.marks, j) {
                Option::None => {
                    let pos = st.pos;
                    let st1 = RState { marks: spec_insert(st.marks, j, pos), ..st };
                    let st2 = RState { lvl: if lvl >= pos { lvl } else { pos }, ..st1 };
                    let st3 = spec_next_comp_obj(*o, st2);
                    RState { lvl, ..st3 }
                },
                Option::Some(lvl1) => {
                    let st1 = RState { lvl: if lvl >= lvl1 { lvl } else { lvl1 }, ..st };
                    let st2 = spec_inc_pos(spec_get_offset(st1) as nat, st1);
                    let st3 = spec_next_comp_obj(*o, st2);
                    RState { lvl, ..st3 }
                },
            }
        },
        DocObj::Comp(l, _r, _pad) => spec_next_comp_obj(*l, st),
    }
}

/// Whether the object, rendered flat from here, stays within the width.
pub open spec fn spec_will_fit(obj: DocObj, st: RState) -> bool {
    spec_measure_obj(obj, st).pos <= st.width
}

/// Whether the pending composition must break: an enclosing sequence already
/// decided so, or the next break opportunity overshoots the width.
pub open spec fn spec_should_break(obj: DocObj, st: RState) -> bool {
    st.broken || st.width < spec_next_comp_obj(obj, st).pos
}

/// The state and text of one line object.
pub open spec fn spec_render_obj(obj: DocObj, st: RState) -> (RState, Seq<char>)
    decreases obj,
{
    match obj {
        DocObj::Text(data) => (spec_inc_pos(data@.len(), st), data@),
        DocObj::Fix(f) => spec_render_fix(*f, st),
        DocObj::Grp(o) => {
            let broken = st.broken;
            let (st2, t) = spec_render_obj(*o, RState { broken: false, ..st });
            (RState { broken, ..st2 }, t)
        },
        DocObj::Sequence(o) => if spec_will_fit(*o, st) {
            spec_render_obj(*o, st)
        } else {
            let broken = st.broken;
            let (st2, t) = spec_render_obj(*o, RState { broken: true, ..st });
            (RState { broken, ..st2 }, t)
        },
        DocObj::Nest(o) => {
            let lvl = st.lvl;
            let st1 = spec_indent(st.tab, st);
            let offset = spec_get_offset(st1);
            let st2 = spec_inc_pos(offset as nat, st1);
            let (st3, t) = spec_render_obj(*o, st2);
            (RState { lvl, ..st3 }, spec_spaces(offset as nat) + t)
        },
        DocObj::Pack(j, o) => {
            let lvl = st.lvl;
            match spec_lookup(st.marks, j) {
                Option::None => {
                    let pos = st.pos;
                    let st1 = RState { marks: spec_insert(st.marks, j, pos), ..st };
                    let st2 = RState { lvl: if lvl >= pos { lvl } else { pos }, ..st1 };
                    let (st3, t) = spec_render_obj(*o, st2);
                    (RState { lvl, ..st3 }, t)
                },
                Option::Some(lvl1) => {
                    let st1 = RState { lvl: if lvl >= lvl1 { lvl } else { lvl1 }, ..st };
                    let offset = spec_get_offset(st1);
                    let st2 = spec_inc_pos(offset as nat, st1);
                    let (st3, t) = spec_render_obj(*o, st2);
                    (RState { lvl, ..st3 }, spec_spaces(offset as nat) + t)
                },
            }
        },
        DocObj::Comp(l, r, pad) => {
            let (st1, tl) = spec_render_obj(*l, st);
            let st2 = spec_inc_pos(if pad { 1nat } else { 0nat }, st1);
            let st3 = RState { head: false, ..st2 };
            if spec_should_break(*r, st3) {
                let stn = spec_newline(st1);
                let offset = spec_get_offset(stn);
                let stn2 = spec_inc_pos(offset as nat, stn);
                let (st4, tr) = spec_render_obj(*r, stn2);
                (st4, tl + "\n"@ + spec_spaces(offset as nat) + tr)
            } else {
                let (st4, tr) = spec_render_obj(*r, st3);
                (st4, tl + spec_spaces(if pad { 1nat } else { 0nat }) + tr)
            }
        },
    }
}

/// The state and text of a fixed chain: its pieces side by side, one space
/// for each padded connector, never a break.
pub open spec fn spec_render_fix(fix: DocObjFix, st: RState) -> (RState, Seq<char>)
    decreases fix,
{
    match fix {
        DocObjFix::Text(data) => (spec_inc_pos(data@.len(), st), data@),
        DocObjFix::Comp(l, r, pad) => {
            let (st1, tl) = spec_render_fix(*l, st);
            let st2 = spec_inc_pos(if pad { 1nat } else { 0nat }, st1);
            let (st3, tr) = spec_render_fix(*r, st2);
            (st3, tl + spec_spaces(if pad { 1nat } else { 0nat }) + tr)
        },
    }
}

/// The state and text of a whole document: its lines joined by newlines,
/// every line starting afresh.
pub open spec fn spec_render_doc(doc: Doc, st: RState) -> (RState, Seq<char>)
    decreases doc,
{
    let st1 = spec_reset(st);
    match doc {
        Doc::Eod => (st1, Seq::empty()),
        Doc::Empty(d) => {
            let (st2, t) = spec_render_doc(*d, st1);
            (st2, "\n"@ + t)
        },
        Doc::Break(obj, d) => {
            let (st2, to) = spec_render_obj(*obj, st1);
            let st3 = spec_reset(st2);
            let (st4, td) = spec_render_doc(*d, st3);
            (st4, to + "\n"@ + td)
        },
        Doc::Line(obj) => spec_render_obj(*obj, st1),
    }
}

/// The renderer's starting state for a width and tab size.
pub open spec fn spec_init_state(tab: usize, width: usize) -> RState {
    RState { width, tab, head: true, broken: false, lvl: 0, pos: 0, marks: OrdMap::Nil }
}

/// The text the renderer emits for a document at a tab size and width.
pub open spec fn spec_render(doc: Doc, tab: usize, width: usize) -> Seq<char> {
    spec_render_doc(doc, spec_init_state(tab, width)).1
}

fn inc_pos(n: usize, st: RState) -> (r: RState)
    ensures
        r == spec_inc_pos(n as nat, st),
{
    let pos = sat_add(st.pos, n);
    RState { pos, ..st }
}

fn indent(tab: usize, st: RState) -> (r: RState)
    ensures
        r == spec_indent(tab, st),
{
    if tab == 0 {
        st
    } else {
        let lvl = sat_add(st.lvl, tab - st.lvl % tab);
        RState { lvl, ..st }
    }
}

fn newline_state(st: RState) -> (r: RState)
    ensures
        r == spec_newline(st),
{
    RState { head: true, pos: 0, ..st }
}

fn reset(st: RState) -> (r: RState)
    ensures
        r == spec_reset(st),
{
    RState { head: true, broken: false, pos: 0, ..st }
}

fn get_offset(st: &RState) -> (r: usize)
    ensures
        r == spec_get_offset(*st),
{
    if !st.head {
        0
    } else if st.lvl >= st.pos {
        st.lvl - st.pos
    } else {
        0
    }
}

fn spaces(n: usize) -> (r: String)
    ensures
        r@ == spec_spaces(n as nat),
    decreases n,
{
    if n == 0 {
        String::new()
    } else {
        let mut s = spaces(n - 1);
        s.append(" ");
        s
    }
}

fn measure_obj(obj: &DocObj, st: RState) -> (r: RState)
    ensures
        r == spec_measure_obj(*obj, st),
    decreases *obj,
{
    match obj {
        DocObj::Text(data) => inc_pos(data.as_str().unicode_len(), st),
        DocObj::Fix(f) => measure_fix(f, st),
        DocObj::Grp(o) => measure_obj(o, st),
        DocObj::Sequence(o) => measure_obj(o, st),
        DocObj::Nest(o) => {
            let lvl = st.lvl;
            let st1 = indent(st.tab, st);
            let offset = get_offset(&st1);
            let st2 = inc_pos(offset, st1);
            let st3 = measure_obj(o, st2);
            RState { lvl, ..st3 }
        },
        DocObj::Pack(j, o) => {
            let lvl = st.lvl;
            match st.marks.lookup(*j) {
                Option::None => {
                    let pos = st.pos;
                    let marks1 = st.marks.clone().insert(*j, pos);
                    let st1 = RState { marks: marks1, ..st };
                    let st2 = RState { lvl: if lvl >= pos { lvl } else { pos }, ..st1 };
                    let st3 = measure_obj(o, st2);
                    RState { lvl, ..st3 }
                },
                Option::Some(lvl1) => {
                    let st1 = RState { lvl: if lvl >= lvl1 { lvl } else { lvl1 }, ..st };
                    let offset = get_offset(&st1);
                    let st2 = inc_pos(offset, st1);
                    let st3 = measure_obj(o, st2);
                    RState { lvl, ..st3 }
                },
            }
        },
        DocObj::Comp(l, r, pad) => {
            let st1 = measure_obj(l, st);
            let st2 = inc_pos(if *pad { 1 } else { 0 }, st1);
            let head = st2.head;
            let st3 = RState { head: false, ..st2 };
            let st4 = measure_obj(r, st3);
            RState { head, ..st4 }
        },
    }
}

fn measure_fix(fix: &DocObjFix, st: RState) -> (r: RState)
    ensures
        r == spec_measure_fix(*fix, st),
    decreases *fix,
{
    match fix {
        DocObjFix::Text(data) => inc_pos(data.as_str().unicode_len(), st),
        DocObjFix::Comp(l, r, pad) => {
            let st1 = measure_fix(l, st);
            let st2 = inc_pos(if *pad { 1 } else { 0 }, st1);
            measure_fix(r, st2)
        },
    }
}

fn next_comp_obj(obj: &DocObj, st: RState) -> (r: RState)
    ensures
        r == spec_next_comp_obj(*obj, st),
    decreases *obj,
{
    match obj {
        DocObj::Text(data) => inc_pos(data.as_str().unicode_len(), st),
        DocObj::Fix(f) => measure_fix(f, st),
        DocObj::Grp(o) => if st.head {
            next_comp_obj(o, st)
        } else {
            let measured = measure_obj(o, st.clone());
            RState { pos: measured.pos, ..st }
        },
        DocObj::Sequence(o) => next_comp_obj(o, st),
        DocObj::Nest(o) => {
            let lvl = st.lvl;
            let st1 = indent(st.tab, st);
            let offset = get_offset(&st1);
            let st2 = inc_pos(offset, st1);
            let st3 = next_comp_obj(o, st2);
            RState { lvl, ..st3 }
        },
        DocObj::Pack(j, o) => {
            let lvl = st.lvl;
            match st.marks.lookup(*j) {
                Option::None => {
                    let pos = st.pos;
                    let marks1 = st.marks.clone().insert(*j, pos);
                    let st1 = RState { marks: marks1, ..st };
                    let st2 = RState { lvl: if lvl >= pos { lvl } else { pos }, ..st1 };
                    let st3 = next_comp_obj(o, st2);
                    RState { lvl, ..st3 }
                },
                Option::Some(lvl1) => {
                    let st1 = RState { lvl: if lvl >= lvl1 { lvl } else { lvl1 }, ..st };
                    let offset = get_offset(&st1);
                    let st2 = inc_pos(offset, st1);
                    let st3 = next_comp_obj(o, st2);
                    RState { lvl, ..st3 }
                },
            }
        },
        DocObj::Comp(l, _r, _pad) => next_comp_obj(l, st),
    }
}

fn will_fit(obj: &DocObj, st: &RState) -> (r: bool)
    ensures
        r == spec_will_fit(*obj, *st),
{
    let measured = measure_obj(obj, st.clone());
    measured.pos <= st.width
}

fn should_break(obj: &DocObj, st: &RState) -> (r: bool)
    ensures
        r == spec_should_break(*obj, *st),
{
    if st.broken {
        true
    } else {
        let next = next_comp_obj(obj, st.clone());
        st.width < next.pos
    }
}

fn render_obj(obj: &DocObj, st: RState) -> (r: (RState, String))
    ensures
        (r.0, r.1@) == spec_render_obj(*obj, st),
    decreases *obj,
{
    match obj {
        DocObj::Text(data) => (inc_pos(data.as_str().unicode_len(), st), data.clone()),
        DocObj::Fix(f) => render_fix(f, st),
        DocObj::Grp(o) => {
            let broken = st.broken;
            let (st2, t) = render_obj(o, RState { broken: false, ..st });
            (RState { broken, ..st2 }, t)
        },
        DocObj::Sequence(o) => if will_fit(o, &st) {
            render_obj(o, st)
        } else {
            let broken = st.broken;
            let (st2, t) = render_obj(o, RState { broken: true, ..st });
            (RState { broken, ..st2 }, t)
        },
        DocObj::Nest(o) => {
            let lvl = st.lvl;
            let st1 = indent(st.tab, st);
            let offset = get_offset(&st1);
            let st2 = inc_pos(offset, st1);
            let (st3, t) = render_obj(o, st2);
            let mut out = spaces(offset);
            out.append(t.as_str());
            (RState { lvl, ..st3 }, out)
        },
        DocObj::Pack(j, o) => {
            let lvl = st.lvl;
            match st.marks.lookup(*j) {
                Option::None => {
                    let pos = st.pos;
                    let marks1 = st.marks.clone().insert(*j, pos);
                    let st1 = RState { marks: marks1, ..st };
                    let st2 = RState { lvl: if lvl >= pos { lvl } else { pos }, ..st1 };
                    let (st3, t) = render_obj(o, st2);
                    (RState { lvl, ..st3 }, t)
                },
                Option::Some(lvl1) => {
                    let st1 = RState { lvl: if lvl >= lvl1 { lvl } else { lvl1 }, ..st };
                    let offset = get_offset(&st1);
                    let st2 = inc_pos(offset, st1);
                    let (st3, t) = render_obj(o, st2);
                    let mut out = spaces(offset);
                    out.append(t.as_str());
                    (RState { lvl, ..st3 }, out)
                },
            }
        },
        DocObj::Comp(l, r, pad) => {
            let (st1, tl) = render_obj(l, st);
            let st2 = inc_pos(if *pad { 1 } else { 0 }, st1.clone());
            let st3 = RState { head: false, ..st2 };
            if should_break(r, &st3) {
                let stn = newline_state(st1);
                let offset = get_offset(&stn);
                let stn2 = inc_pos(offset, stn);
                let (st4, tr) = render_obj(r, stn2);
                let mut out = tl;
                out.append("\n");
                out.append(spaces(offset).as_str());
                out.append(tr.as_str());
                (st4, out)
            } else {
                let (st4, tr) = render_obj(r, st3);
                let mut out = tl;
                out.append(spaces(if *pad { 1 } else { 0 }).as_str());
                out.append(tr.as_str());
                (st4, out)
            }
        },
    }
}

fn render_fix(fix: &DocObjFix, st: RState) -> (r: (RState, String))
    ensures
        (r.0, r.1@) == spec_render_fix(*fix, st),
    decreases *fix,
{
    match fix {
        DocObjFix::Text(data) => (inc_pos(data.as_str().unicode_len(), st), data.clone()),
        DocObjFix::Comp(l, r, pad) => {
            let (st1, tl) = render_fix(l, st);
            let st2 = inc_pos(if *pad { 1 } else { 0 }, st1);
            let (st3, tr) = render_fix(r, st2);
            let mut out = tl;
            out.append(spaces(if *pad { 1 } else { 0 }).as_str());
            out.append(tr.as_str());
            (st3, out)
        },
    }
}

/// Renders a whole document from a given state.
pub fn render_doc(doc: &Doc, st: RState) -> (r: (RState, String))
    ensures
        (r.0, r.1@) == spec_render_doc(*doc, st),
    decreases *doc,
{
    let st1 = reset(st);
    match doc {
        Doc::Eod => (st1, String::new()),
        Doc::Empty(d) => {
            let (st2, t) = render_doc(d, st1);
            let mut out = String::new();
            out.append("\n");
            out.append(t.as_str());
            (st2, out)
        },
        Doc::Break(obj, d) => {
            let (st2, to) = render_obj(obj, st1);
            let st3 = reset(st2);
            let (st4, td) = render_doc(d, st3);
            let mut out = to;
            out.append("\n");
            out.append(td.as_str());
            (st4, out)
        },
        Doc::Line(obj) => render_obj(obj, st1),
    }
}

} // verus!
