//! The compilation pipeline: the ten passes chained, with a fast entry that
//! demands a well-behaved layout and safe entries that return errors.
use vstd::prelude::*;

use crate::broken::broken;
use crate::broken::spec_broken;
use crate::denull::denull;
use crate::denull::spec_denull;
use crate::fixed::fixed;
use crate::fixed::spec_fixed;
use crate::heap::move_to_heap;
use crate::heap::spec_move_to_heap;
use crate::identities::identities;
use crate::identities::spec_identities;
use crate::linearize::linearize;
use crate::linearize::spec_linearize;
use crate::map::OrdMap;
use crate::reassociate::reassociate;
use crate::reassociate::spec_reassociate;
use crate::render::RState;
use crate::render::render_doc;
use crate::render::spec_init_state;
use crate::render::spec_render;
use crate::rescope::rescope;
use crate::rescope::spec_rescope;
use crate::serialize::serialize;
use crate::serialize::spec_serialize;
use crate::structurize::spec_structurize;
use crate::structurize::structurize;
use crate::types::CompilerError;
use crate::types::Doc;
use crate::types::Layout;

verus! {

/// The nesting depth of a layout, clipped to the machine limit.
pub open spec fn spec_depth(layout: Layout) -> usize
    decreases layout,
{
    match layout {
        Layout::Null => 1,
        Layout::Text(_) => 1,
        Layout::Fix(x) => spec_bump_usize(spec_depth(*x)),
        Layout::Grp(x) => spec_bump_usize(spec_depth(*x)),
        Layout::Sequence(x) => spec_bump_usize(spec_depth(*x)),
        Layout::Nest(x) => spec_bump_usize(spec_depth(*x)),
        Layout::Pack(x) => spec_bump_usize(spec_depth(*x)),
        Layout::Line(l, r) => {
            let dl = spec_depth(*l);
            let dr = spec_depth(*r);
            spec_bump_usize(if dl >= dr { dl } else { dr })
        },
        Layout::Comp(l, r, _) => {
            let dl = spec_depth(*l);
            let dr = spec_depth(*r);
            spec_bump_usize(if dl >= dr { dl } else { dr })
        },
    }
}

/// A depth increment that stays put at the machine limit.
pub open spec fn spec_bump_usize(n: usize) -> usize {
    if n < usize::MAX {
        (n + 1) as usize
    } else {
        n
    }
}

fn bump_usize(n: usize) -> (r: usize)
    ensures
        r == spec_bump_usize(n),
{
    if n < usize::MAX {
        n + 1
    } else {
        n
    }
}

/// The nesting depth of a layout, clipped to the machine limit.
pub fn layout_depth(layout: &Layout) -> (r: usize)
    ensures
        r == spec_depth(*layout),
    decreases *layout,
{
    match layout {
        Layout::Null => 1,
        Layout::Text(_) => 1,
        Layout::Fix(x) => bump_usize(layout_depth(x)),
        Layout::Grp(x) => bump_usize(layout_depth(x)),
        Layout::Sequence(x) => bump_usize(layout_depth(x)),
        Layout::Nest(x) => bump_usize(layout_depth(x)),
        Layout::Pack(x) => bump_usize(layout_depth(x)),
        Layout::Line(l, r) => {
            let dl = layout_depth(l);
            let dr = layout_depth(r);
            bump_usize(if dl >= dr { dl } else { dr })
        },
        Layout::Comp(l, r, _) => {
            let dl = layout_depth(l);
            let dr = layout_depth(r);
            bump_usize(if dl >= dr { dl } else { dr })
        },
    }
}

/// What compiling a layout yields: the document after all ten passes, and
/// nothing when the scope-resolution pass meets a tag structure that the
/// earlier passes cannot have produced.
pub open spec fn spec_compile(layout: Layout) -> Option<Doc> {
    match spec_structurize(spec_fixed(spec_linearize(spec_serialize(spec_broken(layout))))) {
        Option::None => Option::None,
        Option::Some(rd) => Option::Some(
            spec_move_to_heap(
                spec_rescope(spec_reassociate(spec_identities(spec_denull(rd)))),
            ),
        ),
    }
}

fn compile_core(layout: Box<Layout>) -> (r: Result<Box<Doc>, CompilerError>)
    ensures
        spec_compile(*layout) matches Some(d) ==> (r matches Ok(rd) && *rd == d),
        spec_compile(*layout) is None ==> (r matches Err(e) && e is InvalidInput),
{
    let edsl = broken(layout);
    let serial = serialize(edsl);
    let linear = linearize(serial);
    let fixed_doc = fixed(linear);
    match structurize(fixed_doc) {
        Result::Err(e) => Result::Err(e),
        Result::Ok(rebuilt) => {
            let denulled = denull(rebuilt);
            let identified = identities(denulled);
            let reassociated = reassociate(identified);
            let final_doc = rescope(reassociated);
            Result::Ok(move_to_heap(final_doc))
        },
    }
}

/// The default recursion bound of the safe compilation entry.
pub open spec fn spec_default_depth() -> usize {
    10000
}

/// Compiles a layout, bounding the nesting depth it accepts. An empty bound
/// is invalid input; a layout nested deeper than the bound is reported as a
/// stack overflow; a malformed scope structure, which no layout built from
/// the constructors produces, is reported as invalid input.
pub fn compile_safe_with_depth(layout: Box<Layout>, max_depth: usize) -> (r: Result<
    Box<Doc>,
    CompilerError,
>)
    ensures
        max_depth == 0 ==> (r matches Err(e) && e is InvalidInput),
        max_depth > 0 && spec_depth(*layout) > max_depth ==> (r matches Err(e) && e matches
            CompilerError::StackOverflow { depth, max_depth: m } && depth == spec_depth(*layout)
            && m == max_depth),
        max_depth > 0 && spec_depth(*layout) <= max_depth ==> (spec_compile(*layout)
            matches Some(d) ==> (r matches Ok(rd) && *rd == d)),
        max_depth > 0 && spec_depth(*layout) <= max_depth && spec_compile(*layout) is None ==> (
        r matches Err(e) && e is InvalidInput),
{
    if max_depth == 0 {
        return Result::Err(
            CompilerError::InvalidInput("the recursion bound must be positive".to_owned()),
        );
    }
    let depth = layout_depth(&layout);
    if depth > max_depth {
        return Result::Err(CompilerError::StackOverflow { depth, max_depth });
    }
    compile_core(layout)
}

/// Compiles a layout with the default recursion bound.
pub fn compile_safe(layout: Box<Layout>) -> (r: Result<Box<Doc>, CompilerError>)
    ensures
        spec_depth(*layout) > spec_default_depth() ==> (r matches Err(e) && e matches
            CompilerError::StackOverflow { depth, max_depth: m } && depth == spec_depth(*layout)
            && m == spec_default_depth()),
        spec_depth(*layout) <= spec_default_depth() ==> (spec_compile(*layout) matches Some(d)
            ==> (r matches Ok(rd) && *rd == d)),
        spec_depth(*layout) <= spec_default_depth() && spec_compile(*layout) is None ==> (
        r matches Err(e) && e is InvalidInput),
{
    compile_safe_with_depth(layout, 10000)
}

/// Compiles a layout on the fast path: the inputs on which the safe path
/// would report an error are excluded up front, so this entry never fails.
pub fn compile(layout: Box<Layout>) -> (r: Box<Doc>)
    requires
        spec_depth(*layout) <= spec_default_depth(),
        spec_compile(*layout) is Some,
    ensures
        *r == spec_compile(*layout)->Some_0,
{
    match compile_safe(layout) {
        Result::Ok(doc) => doc,
        Result::Err(_) => vstd::pervasive::unreached(),
    }
}

/// Renders a compiled document at a tab size and line width.
pub fn render(doc: Box<Doc>, tab: usize, width: usize) -> (r: String)
    ensures
        r@ == spec_render(*doc, tab, width),
{
    let st = RState {
        width,
        tab,
        head: true,
        broken: false,
        lvl: 0,
        pos: 0,
        marks: OrdMap::Nil,
    };
    proof {
        assert(st == spec_init_state(tab, width));
    }
    let (_st, out) = render_doc(&doc, st);
    out
}

/// Compiles the layout and renders it in one step.
pub fn format_layout(layout: Box<Layout>, tab: usize, width: usize) -> (r: String)
    requires
        spec_depth(*layout) <= spec_default_depth(),
        spec_compile(*layout) is Some,
    ensures
        r@ == spec_render(spec_compile(*layout)->Some_0, tab, width),
{
    let doc = compile(layout);
    render(doc, tab, width)
}

} // verus!
