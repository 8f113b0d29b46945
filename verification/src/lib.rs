//! A pretty-printer engine: a declarative layout algebra is compiled through
//! a chain of term-rewriting passes into a canonical document, and a
//! width-aware renderer turns that document into text.
use vstd::prelude::*;

mod broken;
mod content;
mod denull;
mod fixed;
mod heap;
mod identities;
mod laws;
mod linearize;
mod list;
mod map;
mod order;
mod pipeline;
mod reassociate;
mod render;
mod rescope;
mod serialize;
mod structurize;
mod types;

pub use broken::broken;
pub use broken::spec_broken;
pub use denull::denull;
pub use denull::spec_denull;
pub use fixed::fixed;
pub use fixed::spec_fixed;
pub use heap::move_to_heap;
pub use heap::spec_move_to_heap;
pub use identities::identities;
pub use identities::spec_identities;
pub use laws::broken_comp_emits_newline;
pub use laws::broken_state_forces_break;
pub use content::compile_keeps_texts;
pub use content::doc_texts;
pub use content::layout_texts;
pub use laws::compile_is_deterministic;
pub use laws::compile_render_wide_breaks_only_forced;
pub use laws::layout_free_of_newlines;
pub use laws::elim_grps_is_idempotent;
pub use laws::elim_seqs_is_idempotent;
pub use laws::identities_is_idempotent;
pub use laws::reassociate_is_idempotent;
pub use laws::render_is_deterministic;
pub use laws::render_fix_preserves_broken;
pub use laws::render_obj_preserves_broken;
pub use laws::render_fix_never_breaks;
pub use laws::render_keeps_solid_chars;
pub use laws::render_obj_keeps_solid_chars;
pub use laws::render_obj_wide_no_newline;
pub use laws::render_wide_breaks_only_forced;
pub use laws::rescope_obj_is_final;
pub use linearize::linearize;
pub use linearize::spec_linearize;
pub use list::List;
pub use pipeline::compile;
pub use pipeline::compile_safe;
pub use pipeline::compile_safe_with_depth;
pub use pipeline::format_layout;
pub use pipeline::layout_depth;
pub use pipeline::render;
pub use pipeline::spec_compile;
pub use pipeline::spec_depth;
pub use reassociate::reassociate;
pub use reassociate::spec_reassociate;
pub use render::RState;
pub use render::spec_render;
pub use rescope::rescope;
pub use rescope::spec_rescope;
pub use map::OrdMap;
pub use order::Order;
pub use order::total;
pub use serialize::serialize;
pub use serialize::spec_serialize;
pub use structurize::spec_structurize;
pub use structurize::structurize;
pub use types::Attr;
pub use types::Broken;
pub use types::CompilerError;
pub use types::DenullDoc;
pub use types::DenullFix;
pub use types::DenullObj;
pub use types::DenullTerm;
pub use types::Doc;
pub use types::DocObj;
pub use types::DocObjFix;
pub use types::Edsl;
pub use types::FinalDoc;
pub use types::FinalDocObj;
pub use types::FinalDocObjFix;
pub use types::FixedComp;
pub use types::FixedDoc;
pub use types::FixedFix;
pub use types::FixedItem;
pub use types::FixedObj;
pub use types::FixedTerm;
pub use types::GraphDoc;
pub use types::GraphEdge;
pub use types::GraphFix;
pub use types::GraphNode;
pub use types::GraphTerm;
pub use types::Layout;
pub use types::LinearComp;
pub use types::LinearDoc;
pub use types::LinearObj;
pub use types::LinearTerm;
pub use types::Property;
pub use types::RebuildDoc;
pub use types::RebuildFix;
pub use types::RebuildObj;
pub use types::RebuildTerm;
pub use types::Serial;
pub use types::SerialComp;
pub use types::SerialTerm;

verus! {


/// The empty layout, neutral under composition.
pub fn null() -> (r: Box<Layout>)
    ensures
        *r == Layout::Null,
{
    Box::new(Layout::Null)
}

/// A literal whose column width is its character count.
pub fn text(data: String) -> (r: Box<Layout>)
    ensures
        *r == Layout::Text(data),
{
    Box::new(Layout::Text(data))
}

/// A literal given as a string slice.
pub fn text_str(s: &str) -> (r: Box<Layout>)
    ensures
        *r matches Layout::Text(t) && t@ == s@,
{
    Box::new(Layout::Text(s.to_owned()))
}

/// Inside the given layout, no composition may break.
pub fn fix(layout: Box<Layout>) -> (r: Box<Layout>)
    ensures
        *r == Layout::Fix(layout),
{
    Box::new(Layout::Fix(layout))
}

/// Inside the given layout, break only if no enclosing breakable scope can
/// absorb the overflow.
pub fn grp(layout: Box<Layout>) -> (r: Box<Layout>)
    ensures
        *r == Layout::Grp(layout),
{
    Box::new(Layout::Grp(layout))
}

/// Inside the given layout, if any composition breaks, all do.
pub fn seq(layout: Box<Layout>) -> (r: Box<Layout>)
    ensures
        *r == Layout::Sequence(layout),
{
    Box::new(Layout::Sequence(layout))
}

/// When broken under this scope, indent by one tab stop.
pub fn nest(layout: Box<Layout>) -> (r: Box<Layout>)
    ensures
        *r == Layout::Nest(layout),
{
    Box::new(Layout::Nest(layout))
}

/// When broken under this scope, align to the column where the first text of
/// the scope appeared.
pub fn pack(layout: Box<Layout>) -> (r: Box<Layout>)
    ensures
        *r == Layout::Pack(layout),
{
    Box::new(Layout::Pack(layout))
}

/// A hard line break between two layouts.
pub fn line(left: Box<Layout>, right: Box<Layout>) -> (r: Box<Layout>)
    ensures
        *r == Layout::Line(left, right),
{
    Box::new(Layout::Line(left, right))
}

/// A soft composition: same line if it fits, else a break; `pad` inserts one
/// space when kept on the same line, `fix` forbids breaking it.
pub fn comp(left: Box<Layout>, right: Box<Layout>, pad: bool, fix: bool) -> (r: Box<Layout>)
    ensures
        *r == Layout::Comp(left, right, Attr { pad, fix }),
{
    Box::new(Layout::Comp(left, right, Attr { pad, fix }))
}

/// A padded, breakable composition.
pub fn pad(left: Box<Layout>, right: Box<Layout>) -> (r: Box<Layout>)
    ensures
        *r == Layout::Comp(left, right, Attr { pad: true, fix: false }),
{
    comp(left, right, true, false)
}

/// An unpadded, breakable composition.
pub fn unpad(left: Box<Layout>, right: Box<Layout>) -> (r: Box<Layout>)
    ensures
        *r == Layout::Comp(left, right, Attr { pad: false, fix: false }),
{
    comp(left, right, false, false)
}

/// A padded composition that never breaks.
pub fn fix_pad(left: Box<Layout>, right: Box<Layout>) -> (r: Box<Layout>)
    ensures
        *r == Layout::Comp(left, right, Attr { pad: true, fix: true }),
{
    comp(left, right, true, true)
}

/// An unpadded composition that never breaks.
pub fn fix_unpad(left: Box<Layout>, right: Box<Layout>) -> (r: Box<Layout>)
    ensures
        *r == Layout::Comp(left, right, Attr { pad: false, fix: true }),
{
    comp(left, right, false, true)
}

/// A single-space literal.
pub fn space() -> (r: Box<Layout>)
    ensures
        *r matches Layout::Text(t) && t@ == " "@,
{
    text_str(" ")
}

/// A single-comma literal.
pub fn comma() -> (r: Box<Layout>)
    ensures
        *r matches Layout::Text(t) && t@ == ","@,
{
    text_str(",")
}

/// A single-semicolon literal.
pub fn semicolon() -> (r: Box<Layout>)
    ensures
        *r matches Layout::Text(t) && t@ == ";"@,
{
    text_str(";")
}

/// A hard line break between two empty layouts.
pub fn newline() -> (r: Box<Layout>)
    ensures
        *r == Layout::Line(Box::new(Layout::Null), Box::new(Layout::Null)),
{
    Box::new(Layout::Line(Box::new(Layout::Null), Box::new(Layout::Null)))
}

/// Two hard line breaks in a row, leaving one blank line.
pub fn blank_line() -> (r: Box<Layout>)
    ensures
        *r == Layout::Line(
            Box::new(Layout::Line(Box::new(Layout::Null), Box::new(Layout::Null))),
            Box::new(Layout::Null),
        ),
{
    Box::new(Layout::Line(
        Box::new(Layout::Line(Box::new(Layout::Null), Box::new(Layout::Null))),
        Box::new(Layout::Null),
    ))
}

/// The layout between an opening and a closing parenthesis.
pub fn parens(layout: Box<Layout>) -> (r: Box<Layout>)
    ensures
        *r matches Layout::Comp(open, rest, a)
            && a == (Attr { pad: false, fix: false })
            && (*open matches Layout::Text(t1) && t1@ == "("@)
            && (*rest matches Layout::Comp(inner, close, a2)
            && a2 == (Attr { pad: false, fix: false })
            && inner == layout
            && (*close matches Layout::Text(t2) && t2@ == ")"@)),
{
    comp(
        text_str("("),
        comp(layout, text_str(")"), false, false),
        false,
        false,
    )
}

/// The layout between an opening and a closing square bracket.
pub fn brackets(layout: Box<Layout>) -> (r: Box<Layout>)
    ensures
        *r matches Layout::Comp(open, rest, a)
            && a == (Attr { pad: false, fix: false })
            && (*open matches Layout::Text(t1) && t1@ == "["@)
            && (*rest matches Layout::Comp(inner, close, a2)
            && a2 == (Attr { pad: false, fix: false })
            && inner == layout
            && (*close matches Layout::Text(t2) && t2@ == "]"@)),
{
    comp(
        text_str("["),
        comp(layout, text_str("]"), false, false),
        false,
        false,
    )
}

/// The layout between an opening and a closing curly brace.
pub fn braces(layout: Box<Layout>) -> (r: Box<Layout>)
    ensures
        *r matches Layout::Comp(open, rest, a)
            && a == (Attr { pad: false, fix: false })
            && (*open matches Layout::Text(t1) && t1@ == "{"@)
            && (*rest matches Layout::Comp(inner, close, a2)
            && a2 == (Attr { pad: false, fix: false })
            && inner == layout
            && (*close matches Layout::Text(t2) && t2@ == "}"@)),
{
    comp(
        text_str("{"),
        comp(layout, text_str("}"), false, false),
        false,
        false,
    )
}

/// The fold that joins layouts with a separator, starting from an
/// accumulator: each further item is attached unpadded behind a copy of the
/// separator.
pub open spec fn spec_join_from(items: Seq<Box<Layout>>, sep: Layout, acc: Layout, i: int) -> Layout
    decreases items.len() - i,
{
    if i < 0 || i >= items.len() {
        acc
    } else {
        spec_join_from(
            items,
            sep,
            Layout::Comp(
                Box::new(acc),
                Box::new(Layout::Comp(
                    Box::new(sep),
                    items[i],
                    Attr { pad: false, fix: false },
                )),
                Attr { pad: false, fix: false },
            ),
            i + 1,
        )
    }
}

/// The joined layout: empty for no items, the sole item alone, and otherwise
/// the left-to-right fold of [`spec_join_from`].
pub open spec fn spec_join_with(items: Seq<Box<Layout>>, sep: Layout) -> Layout {
    if items.len() == 0 {
        Layout::Null
    } else if items.len() == 1 {
        *items[0]
    } else {
        spec_join_from(items, sep, *items[0], 1)
    }
}

fn join_from(items: &Vec<Box<Layout>>, sep: &Layout, acc: Box<Layout>, i: usize) -> (r: Box<
    Layout,
>)
    requires
        1 <= i <= items@.len(),
    ensures
        *r == spec_join_from(items@, *sep, *acc, i as int),
    decreases items@.len() - i,
{
    if i == items.len() {
        acc
    } else {
        let item: Box<Layout> = (*items)[i].clone();
        let next = Box::new(Layout::Comp(
            acc,
            Box::new(Layout::Comp(
                Box::new(sep.clone()),
                item,
                Attr { pad: false, fix: false },
            )),
            Attr { pad: false, fix: false },
        ));
        join_from(items, sep, next, i + 1)
    }
}

/// Joins the layouts with a separator between each two neighbours.
pub fn join_with(layouts: Vec<Box<Layout>>, separator: Box<Layout>) -> (r: Box<Layout>)
    ensures
        *r == spec_join_with(layouts@, *separator),
{
    if layouts.len() == 0 {
        Box::new(Layout::Null)
    } else if layouts.len() == 1 {
        let first: Box<Layout> = layouts[0].clone();
        first
    } else {
        let first: Box<Layout> = layouts[0].clone();
        join_from(&layouts, &separator, first, 1)
    }
}

/// Joins the layouts with one space between each two neighbours.
pub fn join_with_spaces(layouts: Vec<Box<Layout>>) -> (r: Box<Layout>)
    ensures
        exists|sep: Layout|
            #![trigger spec_join_with(layouts@, sep)]
            sep matches Layout::Text(t) && t@ == " "@ && *r == spec_join_with(layouts@, sep),
{
    let sep = space();
    join_with(layouts, sep)
}

/// Joins the layouts with a comma and a space between each two neighbours.
pub fn join_with_commas(layouts: Vec<Box<Layout>>) -> (r: Box<Layout>)
    ensures
        exists|sep: Layout|
            #![trigger spec_join_with(layouts@, sep)]
            sep matches Layout::Comp(c, s, a)
                && a == (Attr { pad: false, fix: false })
                && (*c matches Layout::Text(t1) && t1@ == ","@)
                && (*s matches Layout::Text(t2) && t2@ == " "@)
                && *r == spec_join_with(layouts@, sep),
{
    let sep = comp(comma(), space(), false, false);
    join_with(layouts, sep)
}

/// The fold that joins layouts with hard line breaks, starting from an
/// accumulator.
pub open spec fn spec_join_lines_from(items: Seq<Box<Layout>>, acc: Layout, i: int) -> Layout
    decreases items.len() - i,
{
    if i < 0 || i >= items.len() {
        acc
    } else {
        spec_join_lines_from(items, Layout::Line(Box::new(acc), items[i]), i + 1)
    }
}

/// The layouts joined with hard line breaks: empty for no items, the sole
/// item alone, and otherwise the left-to-right fold of
/// [`spec_join_lines_from`].
pub open spec fn spec_join_with_lines(items: Seq<Box<Layout>>) -> Layout {
    if items.len() == 0 {
        Layout::Null
    } else if items.len() == 1 {
        *items[0]
    } else {
        spec_join_lines_from(items, *items[0], 1)
    }
}

fn join_lines_from(items: &Vec<Box<Layout>>, acc: Box<Layout>, i: usize) -> (r: Box<Layout>)
    requires
        1 <= i <= items@.len(),
    ensures
        *r == spec_join_lines_from(items@, *acc, i as int),
    decreases items@.len() - i,
{
    if i == items.len() {
        acc
    } else {
        let item: Box<Layout> = (*items)[i].clone();
        join_lines_from(items, Box::new(Layout::Line(acc, item)), i + 1)
    }
}

/// Joins the layouts with a hard line break between each two neighbours.
pub fn join_with_lines(layouts: Vec<Box<Layout>>) -> (r: Box<Layout>)
    ensures
        *r == spec_join_with_lines(layouts@),
{
    if layouts.len() == 0 {
        Box::new(Layout::Null)
    } else if layouts.len() == 1 {
        let first: Box<Layout> = layouts[0].clone();
        first
    } else {
        let first: Box<Layout> = layouts[0].clone();
        join_lines_from(&layouts, first, 1)
    }
}

} // verus!
