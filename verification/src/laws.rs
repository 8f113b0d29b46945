//! The library's stated laws: properties of compilation and rendering that
//! hold for every input, proved over the same specification functions that
//! the executable functions are verified against.
use vstd::prelude::*;

use crate::pipeline::spec_compile;
use crate::render::RState;
use crate::render::spec_render;
use crate::render::spec_render_obj;
use crate::render::spec_should_break;
use crate::types::Doc;
use crate::types::DocObj;
use crate::types::Layout;

verus! {

/// Compilation is a deterministic function of the layout alone: two equal
/// layouts compile to equal documents.
pub proof fn compile_is_deterministic(a: Layout, b: Layout)
    requires
        a == b,
    ensures
        spec_compile(a) == spec_compile(b),
{
}

/// Rendering is a deterministic function of the document, the tab size and
/// the width alone: equal inputs render to equal text.
pub proof fn render_is_deterministic(a: Doc, b: Doc, tab: usize, width: usize)
    requires
        a == b,
    ensures
        spec_render(a, tab, width) == spec_render(b, tab, width),
{
}

/// Rendering a line object leaves the targets and the sequence verdict as
/// it found them: the scopes that change the verdict restore it.
pub proof fn render_obj_preserves_broken(obj: DocObj, st: RState)
    ensures
        spec_render_obj(obj, st).0.broken == st.broken,
        spec_render_obj(obj, st).0.width == st.width,
        spec_render_obj(obj, st).0.tab == st.tab,
    decreases obj,
{
    match obj {
        DocObj::Text(_) => {}
        DocObj::Fix(f) => {
            render_fix_preserves_broken(*f, st);
        }
        DocObj::Grp(o) => {
            render_obj_preserves_broken(*o, RState { broken: false, ..st });
        }
        DocObj::Sequence(o) => {
            if crate::render::spec_will_fit(*o, st) {
                render_obj_preserves_broken(*o, st);
            } else {
                render_obj_preserves_broken(*o, RState { broken: true, ..st });
            }
        }
        DocObj::Nest(o) => {
            let st1 = crate::render::spec_indent(st.tab, st);
            let st2 = crate::render::spec_inc_pos(crate::render::spec_get_offset(st1) as nat, st1);
            render_obj_preserves_broken(*o, st2);
        }
        DocObj::Pack(j, o) => {
            let lvl = st.lvl;
            match crate::map::spec_lookup(st.marks, j) {
                Option::None => {
                    let pos = st.pos;
                    let st1 = RState { marks: crate::map::spec_insert(st.marks, j, pos), ..st };
                    let st2 = RState { lvl: if lvl >= pos { lvl } else { pos }, ..st1 };
                    render_obj_preserves_broken(*o, st2);
                }
                Option::Some(lvl1) => {
                    let st1 = RState { lvl: if lvl >= lvl1 { lvl } else { lvl1 }, ..st };
                    let st2 = crate::render::spec_inc_pos(
                        crate::render::spec_get_offset(st1) as nat,
                        st1,
                    );
                    render_obj_preserves_broken(*o, st2);
                }
            }
        }
        DocObj::Comp(l, r, pad) => {
            render_obj_preserves_broken(*l, st);
            let (st1, _tl) = spec_render_obj(*l, st);
            let st2 = crate::render::spec_inc_pos(if pad { 1nat } else { 0nat }, st1);
            let st3 = RState { head: false, ..st2 };
            if spec_should_break(*r, st3) {
                let stn = crate::render::spec_newline(st1);
                let stn2 = crate::render::spec_inc_pos(
                    crate::render::spec_get_offset(stn) as nat,
                    stn,
                );
                render_obj_preserves_broken(*r, stn2);
            } else {
                render_obj_preserves_broken(*r, st3);
            }
        }
    }
}

/// Rendering a fixed chain leaves the targets and the sequence verdict as
/// it found them.
pub proof fn render_fix_preserves_broken(fix: crate::types::DocObjFix, st: RState)
    ensures
        crate::render::spec_render_fix(fix, st).0.broken == st.broken,
        crate::render::spec_render_fix(fix, st).0.width == st.width,
        crate::render::spec_render_fix(fix, st).0.tab == st.tab,
    decreases fix,
{
    match fix {
        crate::types::DocObjFix::Text(_) => {}
        crate::types::DocObjFix::Comp(l, r, pad) => {
            render_fix_preserves_broken(*l, st);
            let (st1, _tl) = crate::render::spec_render_fix(*l, st);
            let st2 = crate::render::spec_inc_pos(if pad { 1nat } else { 0nat }, st1);
            render_fix_preserves_broken(*r, st2);
        }
    }
}

/// Inside a sequence that decided to break, every pending composition
/// decides to break: the break decision is forced whenever the state carries
/// the sequence's verdict, whatever follows on the line.
pub proof fn broken_state_forces_break(obj: DocObj, st: RState)
    requires
        st.broken,
    ensures
        spec_should_break(obj, st),
{
}

/// Inside a sequence that decided to break, a composition emits a line
/// break between its two sides: the left text, one newline, the indentation,
/// and the right text.
pub proof fn broken_comp_emits_newline(l: DocObj, r: DocObj, pad: bool, st: RState)
    requires
        st.broken,
    ensures
        ({
            let (st1, tl) = spec_render_obj(l, st);
            let stn = crate::render::spec_newline(st1);
            let offset = crate::render::spec_get_offset(stn);
            let stn2 = crate::render::spec_inc_pos(offset as nat, stn);
            let (st4, tr) = spec_render_obj(r, stn2);
            spec_render_obj(DocObj::Comp(Box::new(l), Box::new(r), pad), st) == (
                st4,
                tl + "\n"@ + crate::render::spec_spaces(offset as nat) + tr,
            )
        }),
{
    render_obj_preserves_broken(l, st);
    let (st1, tl) = spec_render_obj(l, st);
    let st2 = crate::render::spec_inc_pos(if pad { 1nat } else { 0nat }, st1);
    let st3 = RState { head: false, ..st2 };
    broken_state_forces_break(r, st3);
}

/// Whether a piece of text is free of newlines.
pub open spec fn text_free_of_newlines(s: Seq<char>) -> bool {
    forall|i: int| 0 <= i < s.len() ==> s[i] != '\n'
}

/// Whether every literal of a line object is free of newlines.
pub open spec fn obj_texts_free_of_newlines(obj: DocObj) -> bool
    decreases obj,
{
    match obj {
        DocObj::Text(data) => text_free_of_newlines(data@),
        DocObj::Fix(f) => fix_texts_free_of_newlines(*f),
        DocObj::Grp(o) => obj_texts_free_of_newlines(*o),
        DocObj::Sequence(o) => obj_texts_free_of_newlines(*o),
        DocObj::Nest(o) => obj_texts_free_of_newlines(*o),
        DocObj::Pack(_, o) => obj_texts_free_of_newlines(*o),
        DocObj::Comp(l, r, _) => obj_texts_free_of_newlines(*l) && obj_texts_free_of_newlines(*r),
    }
}

/// Whether every literal of a fixed chain is free of newlines.
pub open spec fn fix_texts_free_of_newlines(fix: crate::types::DocObjFix) -> bool
    decreases fix,
{
    match fix {
        crate::types::DocObjFix::Text(data) => text_free_of_newlines(data@),
        crate::types::DocObjFix::Comp(l, r, _) => fix_texts_free_of_newlines(*l)
            && fix_texts_free_of_newlines(*r),
    }
}

/// A run of spaces is free of newlines.
pub proof fn spaces_free_of_newlines(n: nat)
    ensures
        text_free_of_newlines(crate::render::spec_spaces(n)),
    decreases n,
{
    reveal_strlit(" ");
    if n > 0 {
        spaces_free_of_newlines((n - 1) as nat);
    }
}

/// A fixed chain never breaks: it renders without newlines whenever its
/// literals hold none, at every width.
pub proof fn render_fix_never_breaks(fix: crate::types::DocObjFix, st: RState)
    requires
        fix_texts_free_of_newlines(fix),
    ensures
        text_free_of_newlines(crate::render::spec_render_fix(fix, st).1),
    decreases fix,
{
    match fix {
        crate::types::DocObjFix::Text(_) => {}
        crate::types::DocObjFix::Comp(l, r, pad) => {
            render_fix_never_breaks(*l, st);
            let (st1, _tl) = crate::render::spec_render_fix(*l, st);
            let st2 = crate::render::spec_inc_pos(if pad { 1nat } else { 0nat }, st1);
            render_fix_never_breaks(*r, st2);
            spaces_free_of_newlines(if pad { 1nat } else { 0nat });
        }
    }
}

/// At the widest possible target no soft composition breaks: outside a
/// sequence that already decided to break, a line object whose literals hold
/// no newline renders without one.
pub proof fn render_obj_wide_no_newline(obj: DocObj, st: RState)
    requires
        st.width == usize::MAX,
        !st.broken,
        obj_texts_free_of_newlines(obj),
    ensures
        text_free_of_newlines(spec_render_obj(obj, st).1),
    decreases obj,
{
    match obj {
        DocObj::Text(_) => {}
        DocObj::Fix(f) => {
            render_fix_never_breaks(*f, st);
        }
        DocObj::Grp(o) => {
            render_obj_wide_no_newline(*o, RState { broken: false, ..st });
        }
        DocObj::Sequence(o) => {
            assert(crate::render::spec_will_fit(*o, st));
            render_obj_wide_no_newline(*o, st);
        }
        DocObj::Nest(o) => {
            let st1 = crate::render::spec_indent(st.tab, st);
            let offset = crate::render::spec_get_offset(st1);
            let st2 = crate::render::spec_inc_pos(offset as nat, st1);
            render_obj_wide_no_newline(*o, st2);
            spaces_free_of_newlines(offset as nat);
        }
        DocObj::Pack(j, o) => {
            let lvl = st.lvl;
            match crate::map::spec_lookup(st.marks, j) {
                Option::None => {
                    let pos = st.pos;
                    let st1 = RState { marks: crate::map::spec_insert(st.marks, j, pos), ..st };
                    let st2 = RState { lvl: if lvl >= pos { lvl } else { pos }, ..st1 };
                    render_obj_wide_no_newline(*o, st2);
                }
                Option::Some(lvl1) => {
                    let st1 = RState { lvl: if lvl >= lvl1 { lvl } else { lvl1 }, ..st };
                    let offset = crate::render::spec_get_offset(st1);
                    let st2 = crate::render::spec_inc_pos(offset as nat, st1);
                    render_obj_wide_no_newline(*o, st2);
                    spaces_free_of_newlines(offset as nat);
                }
            }
        }
        DocObj::Comp(l, r, pad) => {
            render_obj_wide_no_newline(*l, st);
            render_obj_preserves_broken(*l, st);
            let (st1, _tl) = spec_render_obj(*l, st);
            let st2 = crate::render::spec_inc_pos(if pad { 1nat } else { 0nat }, st1);
            let st3 = RState { head: false, ..st2 };
            assert(!spec_should_break(*r, st3));
            render_obj_wide_no_newline(*r, st3);
            spaces_free_of_newlines(if pad { 1nat } else { 0nat });
        }
    }
}

/// Whether every literal of a whole document is free of newlines.
pub open spec fn doc_texts_free_of_newlines(doc: Doc) -> bool
    decreases doc,
{
    match doc {
        Doc::Eod => true,
        Doc::Empty(d) => doc_texts_free_of_newlines(*d),
        Doc::Break(o, d) => obj_texts_free_of_newlines(*o) && doc_texts_free_of_newlines(*d),
        Doc::Line(o) => obj_texts_free_of_newlines(*o),
    }
}

/// The number of newlines in a piece of text.
pub open spec fn count_newlines(s: Seq<char>) -> nat
    decreases s.len(),
{
    if s.len() == 0 {
        0
    } else {
        count_newlines(s.drop_last()) + if s.last() == '\n' {
            1nat
        } else {
            0nat
        }
    }
}

/// Newlines in a concatenation are the newlines of the parts.
pub proof fn count_newlines_concat(a: Seq<char>, b: Seq<char>)
    ensures
        count_newlines(a + b) == count_newlines(a) + count_newlines(b),
    decreases b.len(),
{
    if b.len() == 0 {
        assert(a + b =~= a);
    } else {
        count_newlines_concat(a, b.drop_last());
        assert((a + b).drop_last() =~= a + b.drop_last());
    }
}

/// Text free of newlines holds none.
pub proof fn count_newlines_of_free_text(s: Seq<char>)
    requires
        text_free_of_newlines(s),
    ensures
        count_newlines(s) == 0,
    decreases s.len(),
{
    if s.len() > 0 {
        assert(text_free_of_newlines(s.drop_last()));
        count_newlines_of_free_text(s.drop_last());
    }
}

/// One newline counts once.
pub proof fn count_newlines_single()
    ensures
        count_newlines("\n"@) == 1,
{
    reveal_strlit("\n");
    assert("\n"@ =~= seq!['\n']);
    assert(seq!['\n'].drop_last() =~= Seq::<char>::empty());
    assert(count_newlines(seq!['\n'].drop_last()) == 0);
    assert(seq!['\n'].last() == '\n');
}

/// The hard line breaks of a document: one per blank line, one between two
/// kept lines.
pub open spec fn doc_forced_breaks(doc: Doc) -> nat
    decreases doc,
{
    match doc {
        Doc::Eod => 0,
        Doc::Empty(d) => 1 + doc_forced_breaks(*d),
        Doc::Break(_, d) => 1 + doc_forced_breaks(*d),
        Doc::Line(_) => 0,
    }
}

/// At the widest possible target the output holds exactly the newlines the
/// document's own line structure forces, and no others.
pub proof fn render_wide_breaks_only_forced(doc: Doc, st: RState)
    requires
        st.width == usize::MAX,
        doc_texts_free_of_newlines(doc),
    ensures
        count_newlines(crate::render::spec_render_doc(doc, st).1) == doc_forced_breaks(doc),
    decreases doc,
{
    reveal_strlit("\n");
    let st1 = crate::render::spec_reset(st);
    match doc {
        Doc::Eod => {
            assert(count_newlines(Seq::<char>::empty()) == 0);
        }
        Doc::Empty(d) => {
            render_wide_breaks_only_forced(*d, st1);
            let (_st2, t) = crate::render::spec_render_doc(*d, st1);
            count_newlines_concat("\n"@, t);
            count_newlines_single();
        }
        Doc::Break(o, d) => {
            render_obj_wide_no_newline(*o, st1);
            render_obj_preserves_broken(*o, st1);
            let (st2, to) = spec_render_obj(*o, st1);
            count_newlines_of_free_text(to);
            let st3 = crate::render::spec_reset(st2);
            render_wide_breaks_only_forced(*d, st3);
            let (_st4, td) = crate::render::spec_render_doc(*d, st3);
            count_newlines_concat(to, "\n"@);
            count_newlines_concat(to + "\n"@, td);
            count_newlines_single();
        }
        Doc::Line(o) => {
            render_obj_wide_no_newline(*o, st1);
            count_newlines_of_free_text(spec_render_obj(*o, st1).1);
        }
    }
}

/// Whether the renderer itself may have put this character between the text
/// pieces: it only ever inserts spaces and newlines.
pub open spec fn renderer_inserted(c: char) -> bool {
    c == ' ' || c == '\n'
}

/// The characters of a piece of text that the renderer cannot have inserted,
/// as a multiset.
pub open spec fn solid_chars(s: Seq<char>) -> vstd::multiset::Multiset<char>
    decreases s.len(),
{
    if s.len() == 0 {
        vstd::multiset::Multiset::empty()
    } else if renderer_inserted(s.last()) {
        solid_chars(s.drop_last())
    } else {
        solid_chars(s.drop_last()).insert(s.last())
    }
}

/// The solid characters of a concatenation are those of the parts.
pub proof fn solid_chars_concat(a: Seq<char>, b: Seq<char>)
    ensures
        solid_chars(a + b) == solid_chars(a).add(solid_chars(b)),
    decreases b.len(),
{
    broadcast use vstd::multiset::group_multiset_axioms;

    if b.len() == 0 {
        assert(a + b =~= a);
        assert(solid_chars(a).add(vstd::multiset::Multiset::empty()) =~= solid_chars(a));
    } else {
        solid_chars_concat(a, b.drop_last());
        assert((a + b).drop_last() =~= a + b.drop_last());
        if renderer_inserted(b.last()) {
            assert(solid_chars(a + b) == solid_chars(a).add(solid_chars(b)));
        } else {
            assert(solid_chars(a).add(solid_chars(b.drop_last())).insert(b.last()) =~= solid_chars(
                a,
            ).add(solid_chars(b.drop_last()).insert(b.last())));
        }
    }
}

/// A run of spaces holds no solid character.
pub proof fn spaces_have_no_solid_chars(n: nat)
    ensures
        solid_chars(crate::render::spec_spaces(n)) == vstd::multiset::Multiset::<char>::empty(),
    decreases n,
{
    reveal_strlit(" ");
    if n > 0 {
        spaces_have_no_solid_chars((n - 1) as nat);
        let s = crate::render::spec_spaces(n);
        assert(s.drop_last() =~= crate::render::spec_spaces((n - 1) as nat));
    }
}

/// The solid characters of the literals of a line object.
pub open spec fn obj_solid_chars(obj: DocObj) -> vstd::multiset::Multiset<char>
    decreases obj,
{
    match obj {
        DocObj::Text(data) => solid_chars(data@),
        DocObj::Fix(f) => fix_solid_chars(*f),
        DocObj::Grp(o) => obj_solid_chars(*o),
        DocObj::Sequence(o) => obj_solid_chars(*o),
        DocObj::Nest(o) => obj_solid_chars(*o),
        DocObj::Pack(_, o) => obj_solid_chars(*o),
        DocObj::Comp(l, r, _) => obj_solid_chars(*l).add(obj_solid_chars(*r)),
    }
}

/// The solid characters of the literals of a fixed chain.
pub open spec fn fix_solid_chars(fix: crate::types::DocObjFix) -> vstd::multiset::Multiset<char>
    decreases fix,
{
    match fix {
        crate::types::DocObjFix::Text(data) => solid_chars(data@),
        crate::types::DocObjFix::Comp(l, r, _) => fix_solid_chars(*l).add(fix_solid_chars(*r)),
    }
}

/// The solid characters of the literals of a whole document.
pub open spec fn doc_solid_chars(doc: Doc) -> vstd::multiset::Multiset<char>
    decreases doc,
{
    match doc {
        Doc::Eod => vstd::multiset::Multiset::empty(),
        Doc::Empty(d) => doc_solid_chars(*d),
        Doc::Break(o, d) => obj_solid_chars(*o).add(doc_solid_chars(*d)),
        Doc::Line(o) => obj_solid_chars(*o),
    }
}

/// A lone newline holds no solid character.
pub proof fn newline_has_no_solid_chars()
    ensures
        solid_chars("\n"@) == vstd::multiset::Multiset::<char>::empty(),
{
    reveal_strlit("\n");
    assert("\n"@ =~= seq!['\n']);
    let s = seq!['\n'];
    assert(s.last() == '\n');
    assert(s.drop_last() =~= Seq::<char>::empty());
    assert(solid_chars(Seq::<char>::empty()) == vstd::multiset::Multiset::<char>::empty());
    assert(solid_chars(s) == solid_chars(s.drop_last()));
}

/// A fixed chain renders exactly the solid characters of its literals.
pub proof fn render_fix_keeps_solid_chars(fix: crate::types::DocObjFix, st: RState)
    ensures
        solid_chars(crate::render::spec_render_fix(fix, st).1) == fix_solid_chars(fix),
    decreases fix,
{
    broadcast use vstd::multiset::group_multiset_axioms;

    match fix {
        crate::types::DocObjFix::Text(_) => {}
        crate::types::DocObjFix::Comp(l, r, pad) => {
            render_fix_keeps_solid_chars(*l, st);
            let (st1, tl) = crate::render::spec_render_fix(*l, st);
            let st2 = crate::render::spec_inc_pos(if pad { 1nat } else { 0nat }, st1);
            render_fix_keeps_solid_chars(*r, st2);
            let (_st3, tr) = crate::render::spec_render_fix(*r, st2);
            let gap = crate::render::spec_spaces(if pad { 1nat } else { 0nat });
            spaces_have_no_solid_chars(if pad { 1nat } else { 0nat });
            solid_chars_concat(tl, gap);
            solid_chars_concat(tl + gap, tr);
            assert(solid_chars(tl).add(vstd::multiset::Multiset::empty()) =~= solid_chars(tl));
        }
    }
}

/// A line object renders exactly the solid characters of its literals: the
/// renderer inserts nothing between the text pieces but spaces and newlines.
pub proof fn render_obj_keeps_solid_chars(obj: DocObj, st: RState)
    ensures
        solid_chars(spec_render_obj(obj, st).1) == obj_solid_chars(obj),
    decreases obj,
{
    broadcast use vstd::multiset::group_multiset_axioms;

    match obj {
        DocObj::Text(_) => {}
        DocObj::Fix(f) => {
            render_fix_keeps_solid_chars(*f, st);
        }
        DocObj::Grp(o) => {
            render_obj_keeps_solid_chars(*o, RState { broken: false, ..st });
        }
        DocObj::Sequence(o) => {
            if crate::render::spec_will_fit(*o, st) {
                render_obj_keeps_solid_chars(*o, st);
            } else {
                render_obj_keeps_solid_chars(*o, RState { broken: true, ..st });
            }
        }
        DocObj::Nest(o) => {
            let st1 = crate::render::spec_indent(st.tab, st);
            let offset = crate::render::spec_get_offset(st1);
            let st2 = crate::render::spec_inc_pos(offset as nat, st1);
            render_obj_keeps_solid_chars(*o, st2);
            let (_st3, t) = spec_render_obj(*o, st2);
            spaces_have_no_solid_chars(offset as nat);
            solid_chars_concat(crate::render::spec_spaces(offset as nat), t);
            assert(vstd::multiset::Multiset::empty().add(solid_chars(t)) =~= solid_chars(t));
        }
        DocObj::Pack(j, o) => {
            let lvl = st.lvl;
            match crate::map::spec_lookup(st.marks, j) {
                Option::None => {
                    let pos = st.pos;
                    let st1 = RState { marks: crate::map::spec_insert(st.marks, j, pos), ..st };
                    let st2 = RState { lvl: if lvl >= pos { lvl } else { pos }, ..st1 };
                    render_obj_keeps_solid_chars(*o, st2);
                }
                Option::Some(lvl1) => {
                    let st1 = RState { lvl: if lvl >= lvl1 { lvl } else { lvl1 }, ..st };
                    let offset = crate::render::spec_get_offset(st1);
                    let st2 = crate::render::spec_inc_pos(offset as nat, st1);
                    render_obj_keeps_solid_chars(*o, st2);
                    let (_st3, t) = spec_render_obj(*o, st2);
                    spaces_have_no_solid_chars(offset as nat);
                    solid_chars_concat(crate::render::spec_spaces(offset as nat), t);
                    assert(vstd::multiset::Multiset::empty().add(solid_chars(t)) =~= solid_chars(
                        t,
                    ));
                }
            }
        }
        DocObj::Comp(l, r, pad) => {
            render_obj_keeps_solid_chars(*l, st);
            let (st1, tl) = spec_render_obj(*l, st);
            let st2 = crate::render::spec_inc_pos(if pad { 1nat } else { 0nat }, st1);
            let st3 = RState { head: false, ..st2 };
            if spec_should_break(*r, st3) {
                let stn = crate::render::spec_newline(st1);
                let offset = crate::render::spec_get_offset(stn);
                let stn2 = crate::render::spec_inc_pos(offset as nat, stn);
                render_obj_keeps_solid_chars(*r, stn2);
                let (_st4, tr) = spec_render_obj(*r, stn2);
                let gap = crate::render::spec_spaces(offset as nat);
                spaces_have_no_solid_chars(offset as nat);
                reveal_strlit("\n");
                newline_has_no_solid_chars();
                solid_chars_concat(tl, "\n"@);
                solid_chars_concat(tl + "\n"@, gap);
                solid_chars_concat(tl + "\n"@ + gap, tr);
                assert(solid_chars(tl).add(vstd::multiset::Multiset::empty()) =~= solid_chars(tl));
            } else {
                render_obj_keeps_solid_chars(*r, st3);
                let (_st4, tr) = spec_render_obj(*r, st3);
                let gap = crate::render::spec_spaces(if pad { 1nat } else { 0nat });
                spaces_have_no_solid_chars(if pad { 1nat } else { 0nat });
                solid_chars_concat(tl, gap);
                solid_chars_concat(tl + gap, tr);
                assert(solid_chars(tl).add(vstd::multiset::Multiset::empty()) =~= solid_chars(tl));
            }
        }
    }
}

/// A document renders exactly the solid characters of its literals: the
/// renderer only ever adds spaces and newlines around them, at every tab size
/// and width.
pub proof fn render_keeps_solid_chars(doc: Doc, st: RState)
    ensures
        solid_chars(crate::render::spec_render_doc(doc, st).1) == doc_solid_chars(doc),
    decreases doc,
{
    broadcast use vstd::multiset::group_multiset_axioms;

    reveal_strlit("\n");
    let st1 = crate::render::spec_reset(st);
    match doc {
        Doc::Eod => {}
        Doc::Empty(d) => {
            render_keeps_solid_chars(*d, st1);
            let (_st2, t) = crate::render::spec_render_doc(*d, st1);
            solid_chars_concat("\n"@, t);
            newline_has_no_solid_chars();
            assert(vstd::multiset::Multiset::empty().add(solid_chars(t)) =~= solid_chars(t));
        }
        Doc::Break(o, d) => {
            render_obj_keeps_solid_chars(*o, st1);
            let (st2, to) = spec_render_obj(*o, st1);
            let st3 = crate::render::spec_reset(st2);
            render_keeps_solid_chars(*d, st3);
            let (_st4, td) = crate::render::spec_render_doc(*d, st3);
            solid_chars_concat(to, "\n"@);
            solid_chars_concat(to + "\n"@, td);
            newline_has_no_solid_chars();
            assert(solid_chars(to).add(vstd::multiset::Multiset::empty()) =~= solid_chars(to));
        }
        Doc::Line(o) => {
            render_obj_keeps_solid_chars(*o, st1);
        }
    }
}

/// Whether every text literal of a layout is free of newlines.
pub open spec fn layout_free_of_newlines(l: Layout) -> bool {
    crate::content::layout_texts(l, |s: Seq<char>| text_free_of_newlines(s))
}

proof fn doc_fix_newline_bridge(f: crate::types::DocObjFix)
    requires
        crate::content::doc_fix_texts(f, |s: Seq<char>| text_free_of_newlines(s)),
    ensures
        fix_texts_free_of_newlines(f),
    decreases f,
{
    match f {
        crate::types::DocObjFix::Text(_) => {}
        crate::types::DocObjFix::Comp(l, r, _) => {
            doc_fix_newline_bridge(*l);
            doc_fix_newline_bridge(*r);
        }
    }
}

proof fn doc_obj_newline_bridge(o: DocObj)
    requires
        crate::content::doc_obj_texts(o, |s: Seq<char>| text_free_of_newlines(s)),
    ensures
        obj_texts_free_of_newlines(o),
    decreases o,
{
    match o {
        DocObj::Text(_) => {}
        DocObj::Fix(f) => doc_fix_newline_bridge(*f),
        DocObj::Grp(o1) => doc_obj_newline_bridge(*o1),
        DocObj::Sequence(o1) => doc_obj_newline_bridge(*o1),
        DocObj::Nest(o1) => doc_obj_newline_bridge(*o1),
        DocObj::Pack(_, o1) => doc_obj_newline_bridge(*o1),
        DocObj::Comp(l, r, _) => {
            doc_obj_newline_bridge(*l);
            doc_obj_newline_bridge(*r);
        }
    }
}

proof fn doc_newline_bridge(d: Doc)
    requires
        crate::content::doc_texts(d, |s: Seq<char>| text_free_of_newlines(s)),
    ensures
        doc_texts_free_of_newlines(d),
    decreases d,
{
    match d {
        Doc::Eod => {}
        Doc::Empty(d1) => doc_newline_bridge(*d1),
        Doc::Break(o, d1) => {
            doc_obj_newline_bridge(*o);
            doc_newline_bridge(*d1);
        }
        Doc::Line(o) => doc_obj_newline_bridge(*o),
    }
}

/// From layout to output: at the widest possible target, compiling a layout
/// whose literals hold no newline and rendering it yields exactly the
/// newlines that the compiled document's own line structure forces.
pub proof fn compile_render_wide_breaks_only_forced(l: Layout, st: RState)
    requires
        st.width == usize::MAX,
        layout_free_of_newlines(l),
        spec_compile(l) is Some,
    ensures
        count_newlines(crate::render::spec_render_doc(spec_compile(l)->Some_0, st).1)
            == doc_forced_breaks(spec_compile(l)->Some_0),
{
    crate::content::compile_keeps_texts(l, |s: Seq<char>| text_free_of_newlines(s));
    doc_newline_bridge(spec_compile(l)->Some_0);
    render_wide_breaks_only_forced(spec_compile(l)->Some_0, st);
}

/// The indentation wrappers standing openly around a final line object,
/// outermost first.
pub open spec fn outer_wrappers(obj: crate::types::FinalDocObj) -> crate::list::List<
    crate::rescope::ScopeProp,
>
    decreases obj,
{
    match obj {
        crate::types::FinalDocObj::Nest(o) => crate::list::List::Cons(
            crate::rescope::ScopeProp::Nest,
            Box::new(outer_wrappers(*o)),
        ),
        crate::types::FinalDocObj::Pack(j, o) => crate::list::List::Cons(
            crate::rescope::ScopeProp::Pack(j),
            Box::new(outer_wrappers(*o)),
        ),
        _ => crate::list::List::Nil,
    }
}

/// Whether no composition of the object still has a liftable shared wrapper
/// prefix on its two sides.
pub open spec fn fully_lifted(obj: crate::types::FinalDocObj) -> bool
    decreases obj,
{
    match obj {
        crate::types::FinalDocObj::Text(_) => true,
        crate::types::FinalDocObj::Fix(_) => true,
        crate::types::FinalDocObj::Grp(o) => fully_lifted(*o),
        crate::types::FinalDocObj::Sequence(o) => fully_lifted(*o),
        crate::types::FinalDocObj::Nest(o) => fully_lifted(*o),
        crate::types::FinalDocObj::Pack(_, o) => fully_lifted(*o),
        crate::types::FinalDocObj::Comp(l, r, _) => crate::rescope::spec_join_props(
            outer_wrappers(*l),
            outer_wrappers(*r),
        ).2 is Nil && fully_lifted(*l) && fully_lifted(*r),
    }
}

/// The two leftovers of a prefix join share no further prefix.
pub proof fn join_props_leftovers_share_nothing(
    l: crate::list::List<crate::rescope::ScopeProp>,
    r: crate::list::List<crate::rescope::ScopeProp>,
)
    ensures
        ({
            let (l1, r1, _c) = crate::rescope::spec_join_props(l, r);
            crate::rescope::spec_join_props(l1, r1).2 is Nil
        }),
    decreases l,
{
    match (l, r) {
        (
            crate::list::List::Cons(crate::rescope::ScopeProp::Nest, l1),
            crate::list::List::Cons(crate::rescope::ScopeProp::Nest, r1),
        ) => {
            join_props_leftovers_share_nothing(*l1, *r1);
        }
        (
            crate::list::List::Cons(crate::rescope::ScopeProp::Pack(a), l1),
            crate::list::List::Cons(crate::rescope::ScopeProp::Pack(b), r1),
        ) => {
            if a == b {
                join_props_leftovers_share_nothing(*l1, *r1);
            }
        }
        _ => {}
    }
}

/// Applying wrappers puts exactly those wrappers on the outside.
pub proof fn apply_props_sets_outer_wrappers(
    props: crate::list::List<crate::rescope::ScopeProp>,
    obj: crate::types::FinalDocObj,
)
    requires
        outer_wrappers(obj) is Nil,
    ensures
        outer_wrappers(crate::rescope::spec_apply_props(props, obj)) == props,
        fully_lifted(obj) ==> fully_lifted(crate::rescope::spec_apply_props(props, obj)),
    decreases props,
{
    match props {
        crate::list::List::Nil => {}
        crate::list::List::Cons(p, rest) => {
            apply_props_sets_outer_wrappers(*rest, obj);
        }
    }
}

/// The ninth pass leaves nothing more to lift: the object it returns carries
/// no open wrappers of its own, and no composition inside still shares a
/// wrapper prefix across its sides. A second lift would move nothing.
pub proof fn rescope_obj_is_final(obj: crate::types::DenullObj)
    ensures
        outer_wrappers(crate::rescope::spec_rescope_obj(obj).1) is Nil,
        fully_lifted(crate::rescope::spec_rescope_obj(obj).1),
    decreases obj,
{
    match obj {
        crate::types::DenullObj::Term(t) => {
            split_term_is_bare(*t);
        }
        crate::types::DenullObj::Fix(_) => {}
        crate::types::DenullObj::Grp(o) => {
            rescope_obj_is_final(*o);
        }
        crate::types::DenullObj::Sequence(o) => {
            rescope_obj_is_final(*o);
        }
        crate::types::DenullObj::Comp(l, r, _p) => {
            rescope_obj_is_final(*l);
            rescope_obj_is_final(*r);
            let (lp, l1) = crate::rescope::spec_rescope_obj(*l);
            let (rp, r1) = crate::rescope::spec_rescope_obj(*r);
            let (lp1, rp1, _cp) = crate::rescope::spec_join_props(lp, rp);
            apply_props_sets_outer_wrappers(lp1, l1);
            apply_props_sets_outer_wrappers(rp1, r1);
            join_props_leftovers_share_nothing(lp, rp);
        }
    }
}

/// The bare text under a leaf carries no wrapper and nothing to lift.
pub proof fn split_term_is_bare(term: crate::types::DenullTerm)
    ensures
        outer_wrappers(crate::rescope::spec_split_term(term).1) is Nil,
        fully_lifted(crate::rescope::spec_split_term(term).1),
    decreases term,
{
    match term {
        crate::types::DenullTerm::Text(_) => {}
        crate::types::DenullTerm::Nest(t) => {
            split_term_is_bare(*t);
        }
        crate::types::DenullTerm::Pack(_, t) => {
            split_term_is_bare(*t);
        }
    }
}

/// Whether every composition chain of the object leans to the right: no
/// composition has a composition as its left side.
pub open spec fn right_assoc(obj: crate::types::DenullObj) -> bool
    decreases obj,
{
    match obj {
        crate::types::DenullObj::Term(_) => true,
        crate::types::DenullObj::Fix(_) => true,
        crate::types::DenullObj::Grp(o) => right_assoc(*o),
        crate::types::DenullObj::Sequence(o) => right_assoc(*o),
        crate::types::DenullObj::Comp(l, r, _) => !(*l is Comp) && right_assoc(*l) && right_assoc(
            *r,
        ),
    }
}

/// Whether a waiting tail carries a right-leaning object.
pub open spec fn tail_right_assoc(tail: Option<(crate::types::DenullObj, bool)>) -> bool {
    match tail {
        Option::None => true,
        Option::Some((t, _)) => right_assoc(t),
    }
}

/// A waiting tail attached behind the last leaf of a right-leaning chain.
pub open spec fn chain_attach(
    obj: crate::types::DenullObj,
    tail: Option<(crate::types::DenullObj, bool)>,
) -> crate::types::DenullObj
    decreases obj,
{
    match tail {
        Option::None => obj,
        Option::Some(_) => match obj {
            crate::types::DenullObj::Comp(l, r, p) => crate::types::DenullObj::Comp(
                l,
                Box::new(chain_attach(*r, tail)),
                p,
            ),
            _ => crate::reassociate::spec_attach(obj, tail),
        },
    }
}

/// Re-associating always yields a right-leaning chain, provided the waiting
/// tail already leans right.
pub proof fn reassociate_gives_right_assoc(
    obj: crate::types::DenullObj,
    tail: Option<(crate::types::DenullObj, bool)>,
)
    requires
        tail_right_assoc(tail),
    ensures
        right_assoc(crate::reassociate::spec_reassociate_obj(obj, tail)),
    decreases obj,
{
    match obj {
        crate::types::DenullObj::Term(t) => {
            assert(right_assoc(crate::types::DenullObj::Term(t)));
        }
        crate::types::DenullObj::Fix(f) => {
            assert(right_assoc(crate::types::DenullObj::Fix(f)));
        }
        crate::types::DenullObj::Grp(o) => {
            reassociate_gives_right_assoc(*o, Option::None);
            let inner = crate::reassociate::spec_reassociate_obj(*o, Option::None);
            assert(right_assoc(crate::types::DenullObj::Grp(Box::new(inner))));
        }
        crate::types::DenullObj::Sequence(o) => {
            reassociate_gives_right_assoc(*o, Option::None);
            let inner = crate::reassociate::spec_reassociate_obj(*o, Option::None);
            assert(right_assoc(crate::types::DenullObj::Sequence(Box::new(inner))));
        }
        crate::types::DenullObj::Comp(l, r, p) => {
            reassociate_gives_right_assoc(*r, tail);
            let rest = crate::reassociate::spec_reassociate_obj(*r, tail);
            reassociate_gives_right_assoc(*l, Option::Some((rest, p)));
        }
    }
}

/// Re-associating a chain that already leans right only attaches the waiting
/// tail behind its last leaf.
pub proof fn reassociate_fixes_right_assoc(
    obj: crate::types::DenullObj,
    tail: Option<(crate::types::DenullObj, bool)>,
)
    requires
        right_assoc(obj),
    ensures
        crate::reassociate::spec_reassociate_obj(obj, tail) == chain_attach(obj, tail),
    decreases obj,
{
    match obj {
        crate::types::DenullObj::Term(_) => {}
        crate::types::DenullObj::Fix(_) => {}
        crate::types::DenullObj::Grp(o) => {
            reassociate_fixes_right_assoc(*o, Option::None);
        }
        crate::types::DenullObj::Sequence(o) => {
            reassociate_fixes_right_assoc(*o, Option::None);
        }
        crate::types::DenullObj::Comp(l, r, p) => {
            reassociate_fixes_right_assoc(*r, tail);
            let rest = chain_attach(*r, tail);
            reassociate_fixes_right_assoc(*l, Option::Some((rest, p)));
        }
    }
}

/// Re-associating a line object twice is re-associating it once.
pub proof fn reassociate_obj_is_idempotent(obj: crate::types::DenullObj)
    ensures
        crate::reassociate::spec_reassociate_obj(
            crate::reassociate::spec_reassociate_obj(obj, Option::None),
            Option::None,
        ) == crate::reassociate::spec_reassociate_obj(obj, Option::None),
{
    reassociate_gives_right_assoc(obj, Option::None);
    reassociate_fixes_right_assoc(
        crate::reassociate::spec_reassociate_obj(obj, Option::None),
        Option::None,
    );
}

/// Running the re-association pass twice equals running it once.
pub proof fn reassociate_is_idempotent(doc: crate::types::DenullDoc)
    ensures
        crate::reassociate::spec_reassociate(crate::reassociate::spec_reassociate(doc))
            == crate::reassociate::spec_reassociate(doc),
    decreases doc,
{
    match doc {
        crate::types::DenullDoc::Eod => {}
        crate::types::DenullDoc::Empty(d) => {
            reassociate_is_idempotent(*d);
        }
        crate::types::DenullDoc::Break(o, d) => {
            reassociate_obj_is_idempotent(*o);
            reassociate_is_idempotent(*d);
        }
        crate::types::DenullDoc::Line(o) => {
            reassociate_obj_is_idempotent(*o);
        }
    }
}

/// Erasing needless group scopes twice from an object leaves what one
/// erasure left, with the same composition count.
pub proof fn elim_grps_obj_is_idempotent(obj: crate::types::DenullObj, in_head: bool)
    ensures
        crate::identities::spec_elim_grps_obj(
            crate::identities::spec_elim_grps_obj(obj, in_head).1,
            in_head,
        ) == crate::identities::spec_elim_grps_obj(obj, in_head),
    decreases obj,
{
    match obj {
        crate::types::DenullObj::Term(_) => {}
        crate::types::DenullObj::Fix(_) => {}
        crate::types::DenullObj::Grp(o) => {
            if in_head {
                elim_grps_obj_is_idempotent(*o, true);
            } else {
                elim_grps_obj_is_idempotent(*o, false);
            }
        }
        crate::types::DenullObj::Sequence(o) => {
            elim_grps_obj_is_idempotent(*o, false);
        }
        crate::types::DenullObj::Comp(l, r, _) => {
            elim_grps_obj_is_idempotent(*l, in_head);
            elim_grps_obj_is_idempotent(*r, false);
        }
    }
}

/// Erasing needless group scopes twice equals erasing them once.
pub proof fn elim_grps_is_idempotent(doc: crate::types::DenullDoc)
    ensures
        crate::identities::spec_elim_grps(crate::identities::spec_elim_grps(doc))
            == crate::identities::spec_elim_grps(doc),
    decreases doc,
{
    match doc {
        crate::types::DenullDoc::Eod => {}
        crate::types::DenullDoc::Empty(d) => {
            elim_grps_is_idempotent(*d);
        }
        crate::types::DenullDoc::Break(o, d) => {
            elim_grps_obj_is_idempotent(*o, true);
            elim_grps_is_idempotent(*d);
        }
        crate::types::DenullDoc::Line(o) => {
            elim_grps_obj_is_idempotent(*o, true);
        }
    }
}

/// Whether no sequence scope stands on the object's own composition spine,
/// outside any group.
pub open spec fn no_spine_sequence(obj: crate::types::DenullObj) -> bool
    decreases obj,
{
    match obj {
        crate::types::DenullObj::Sequence(_) => false,
        crate::types::DenullObj::Comp(l, r, _) => no_spine_sequence(*l) && no_spine_sequence(*r),
        _ => true,
    }
}

/// Inside a sequence scope, the erasure flattens every sequence away from
/// the spine.
pub proof fn elim_seqs_flattens_spine(obj: crate::types::DenullObj)
    ensures
        no_spine_sequence(crate::identities::spec_elim_seqs_obj(obj, true).1),
    decreases obj,
{
    match obj {
        crate::types::DenullObj::Sequence(o) => {
            elim_seqs_flattens_spine(*o);
        }
        crate::types::DenullObj::Comp(l, r, _) => {
            elim_seqs_flattens_spine(*l);
            elim_seqs_flattens_spine(*r);
        }
        _ => {}
    }
}

/// On an object without spine sequences, the erasure does not depend on
/// whether a sequence scope encloses it.
pub proof fn elim_seqs_ignores_context(obj: crate::types::DenullObj, us1: bool, us2: bool)
    requires
        no_spine_sequence(obj),
    ensures
        crate::identities::spec_elim_seqs_obj(obj, us1) == crate::identities::spec_elim_seqs_obj(
            obj,
            us2,
        ),
    decreases obj,
{
    match obj {
        crate::types::DenullObj::Comp(l, r, _) => {
            elim_seqs_ignores_context(*l, us1, us2);
            elim_seqs_ignores_context(*r, us1, us2);
        }
        _ => {}
    }
}

/// Erasing needless sequence scopes twice from an object leaves what one
/// erasure left, with the same composition count.
pub proof fn elim_seqs_obj_is_idempotent(obj: crate::types::DenullObj, under_seq: bool)
    ensures
        crate::identities::spec_elim_seqs_obj(
            crate::identities::spec_elim_seqs_obj(obj, under_seq).1,
            under_seq,
        ) == crate::identities::spec_elim_seqs_obj(obj, under_seq),
    decreases obj,
{
    match obj {
        crate::types::DenullObj::Term(_) => {}
        crate::types::DenullObj::Fix(_) => {}
        crate::types::DenullObj::Grp(o) => {
            elim_seqs_obj_is_idempotent(*o, false);
        }
        crate::types::DenullObj::Sequence(o) => {
            elim_seqs_obj_is_idempotent(*o, true);
            if !under_seq {
                let (c, o2) = crate::identities::spec_elim_seqs_obj(*o, true);
                match c {
                    crate::identities::Count::Many => {}
                    _ => {
                        elim_seqs_flattens_spine(*o);
                        elim_seqs_ignores_context(o2, false, true);
                    }
                }
            }
        }
        crate::types::DenullObj::Comp(l, r, _) => {
            elim_seqs_obj_is_idempotent(*l, under_seq);
            elim_seqs_obj_is_idempotent(*r, under_seq);
        }
    }
}

/// Both erasures count the same compositions: those not hidden behind a
/// group scope, however deep the sequence scopes around them.
pub proof fn erasures_count_alike(obj: crate::types::DenullObj, under_seq: bool)
    ensures
        crate::identities::spec_elim_seqs_obj(obj, under_seq).0
            == crate::identities::spec_elim_grps_obj(obj, false).0,
    decreases obj,
{
    match obj {
        crate::types::DenullObj::Term(_) => {}
        crate::types::DenullObj::Fix(_) => {}
        crate::types::DenullObj::Grp(o) => {}
        crate::types::DenullObj::Sequence(o) => {
            erasures_count_alike(*o, true);
        }
        crate::types::DenullObj::Comp(l, r, _) => {
            erasures_count_alike(*l, under_seq);
            erasures_count_alike(*r, under_seq);
        }
    }
}

/// An object that the sequence erasure leaves alone with no composition in
/// the open carries no sequence scope on its spine.
pub proof fn fixed_with_no_comps_has_no_spine_sequence(obj: crate::types::DenullObj)
    requires
        crate::identities::spec_elim_seqs_obj(obj, false) == (
            crate::identities::Count::Zero,
            obj,
        ),
    ensures
        no_spine_sequence(obj),
{
    match obj {
        crate::types::DenullObj::Sequence(o) => {
            elim_seqs_flattens_spine(*o);
        }
        _ => {}
    }
}

/// On an object that the sequence erasure leaves alone, the group erasure
/// and the sequence erasure commute: what the group erasure produces, the
/// sequence erasure leaves alone too, composition count included.
pub proof fn seq_erasure_fixes_grp_erasure(obj: crate::types::DenullObj, us: bool, h: bool)
    requires
        us ==> !h,
        crate::identities::spec_elim_seqs_obj(obj, us).1 == obj,
    ensures
        crate::identities::spec_elim_seqs_obj(crate::identities::spec_elim_grps_obj(obj, h).1, us)
            == crate::identities::spec_elim_grps_obj(obj, h),
    decreases obj,
{
    match obj {
        crate::types::DenullObj::Term(_) => {}
        crate::types::DenullObj::Fix(_) => {}
        crate::types::DenullObj::Grp(o) => {
            if h {
                seq_erasure_fixes_grp_erasure(*o, false, true);
            } else {
                let (c, w) = crate::identities::spec_elim_grps_obj(*o, false);
                seq_erasure_fixes_grp_erasure(*o, false, false);
                match c {
                    crate::identities::Count::Zero => {
                        if us {
                            fixed_with_no_comps_has_no_spine_sequence(w);
                            elim_seqs_ignores_context(w, us, false);
                        }
                    }
                    _ => {}
                }
            }
        }
        crate::types::DenullObj::Sequence(o) => {
            if us {
                elim_seqs_flattens_spine(*o);
            } else {
                let (c, o2) = crate::identities::spec_elim_seqs_obj(*o, true);
                match c {
                    crate::identities::Count::Many => {}
                    _ => {
                        elim_seqs_flattens_spine(*o);
                    }
                }
                seq_erasure_fixes_grp_erasure(*o, true, false);
                erasures_count_alike(*o, true);
            }
        }
        crate::types::DenullObj::Comp(l, r, _p) => {
            seq_erasure_fixes_grp_erasure(*l, us, h);
            seq_erasure_fixes_grp_erasure(*r, us, false);
        }
    }
}

/// Erasing the scope identities twice equals erasing them once.
pub proof fn identities_is_idempotent(doc: crate::types::DenullDoc)
    ensures
        crate::identities::spec_identities(crate::identities::spec_identities(doc))
            == crate::identities::spec_identities(doc),
    decreases doc,
{
    let once = crate::identities::spec_elim_grps(crate::identities::spec_elim_seqs(doc));
    seq_erasure_fixes_grp_erasure_doc(doc);
    assert(crate::identities::spec_elim_seqs(once) == once);
    elim_grps_is_idempotent(crate::identities::spec_elim_seqs(doc));
    assert(crate::identities::spec_elim_grps(once) == once);
    assert(crate::identities::spec_identities(crate::identities::spec_identities(doc))
        == crate::identities::spec_elim_grps(crate::identities::spec_elim_seqs(once)));
}

/// After the sequence erasure, the group erasure yields a document that the
/// sequence erasure leaves alone.
pub proof fn seq_erasure_fixes_grp_erasure_doc(doc: crate::types::DenullDoc)
    ensures
        crate::identities::spec_elim_seqs(
            crate::identities::spec_elim_grps(crate::identities::spec_elim_seqs(doc)),
        ) == crate::identities::spec_elim_grps(crate::identities::spec_elim_seqs(doc)),
    decreases doc,
{
    match doc {
        crate::types::DenullDoc::Eod => {}
        crate::types::DenullDoc::Empty(d) => {
            seq_erasure_fixes_grp_erasure_doc(*d);
        }
        crate::types::DenullDoc::Break(o, d) => {
            elim_seqs_obj_is_idempotent(*o, false);
            seq_erasure_fixes_grp_erasure(
                crate::identities::spec_elim_seqs_obj(*o, false).1,
                false,
                true,
            );
            seq_erasure_fixes_grp_erasure_doc(*d);
        }
        crate::types::DenullDoc::Line(o) => {
            elim_seqs_obj_is_idempotent(*o, false);
            seq_erasure_fixes_grp_erasure(
                crate::identities::spec_elim_seqs_obj(*o, false).1,
                false,
                true,
            );
        }
    }
}

/// Erasing needless sequence scopes twice equals erasing them once.
pub proof fn elim_seqs_is_idempotent(doc: crate::types::DenullDoc)
    ensures
        crate::identities::spec_elim_seqs(crate::identities::spec_elim_seqs(doc))
            == crate::identities::spec_elim_seqs(doc),
    decreases doc,
{
    match doc {
        crate::types::DenullDoc::Eod => {}
        crate::types::DenullDoc::Empty(d) => {
            elim_seqs_is_idempotent(*d);
        }
        crate::types::DenullDoc::Break(o, d) => {
            elim_seqs_obj_is_idempotent(*o, false);
            elim_seqs_is_idempotent(*d);
        }
        crate::types::DenullDoc::Line(o) => {
            elim_seqs_obj_is_idempotent(*o, false);
        }
    }
}

} // verus!
