//! The layout algebra, the compiled document, the intermediate
//! representations that the compilation passes exchange, and the error type.
use vstd::prelude::*;

verus! {

/// Per-composition flag pair: `pad` inserts one space when the composition
/// stays on one line, `fix` forbids breaking this composition.
#[derive(Clone, Copy, PartialEq, Eq, Structural, Debug)]
pub struct Attr {
    pub pad: bool,
    pub fix: bool,
}

/// The input algebra: a tree describing how text should be typeset.
#[derive(Debug)]
pub enum Layout {
    Null,
    Text(String),
    Fix(Box<Layout>),
    Grp(Box<Layout>),
    Sequence(Box<Layout>),
    Nest(Box<Layout>),
    Pack(Box<Layout>),
    Line(Box<Layout>, Box<Layout>),
    Comp(Box<Layout>, Box<Layout>, Attr),
}

impl Clone for Layout {
    fn clone(&self) -> (r: Self)
        ensures
            r == *self,
        decreases *self,
    {
        match self {
            Layout::Null => Layout::Null,
            Layout::Text(s) => Layout::Text(s.clone()),
            Layout::Fix(x) => Layout::Fix(Box::new((**x).clone())),
            Layout::Grp(x) => Layout::Grp(Box::new((**x).clone())),
            Layout::Sequence(x) => Layout::Sequence(Box::new((**x).clone())),
            Layout::Nest(x) => Layout::Nest(Box::new((**x).clone())),
            Layout::Pack(x) => Layout::Pack(Box::new((**x).clone())),
            Layout::Line(l, r) => Layout::Line(Box::new((**l).clone()), Box::new((**r).clone())),
            Layout::Comp(l, r, a) => Layout::Comp(
                Box::new((**l).clone()),
                Box::new((**r).clone()),
                *a,
            ),
        }
    }
}

/// The compiled document: one variant per output line, plus blank lines.
#[derive(Debug)]
pub enum Doc {
    Eod,
    Empty(Box<Doc>),
    Break(Box<DocObj>, Box<Doc>),
    Line(Box<DocObj>),
}

/// The contents of one output line of a compiled document.
#[derive(Debug)]
pub enum DocObj {
    Text(String),
    Fix(Box<DocObjFix>),
    Grp(Box<DocObj>),
    Sequence(Box<DocObj>),
    Nest(Box<DocObj>),
    Pack(u64, Box<DocObj>),
    Comp(Box<DocObj>, Box<DocObj>, bool),
}

/// A chain of compositions that the renderer never breaks.
#[derive(Debug)]
pub enum DocObjFix {
    Text(String),
    Comp(Box<DocObjFix>, Box<DocObjFix>, bool),
}

impl Clone for Doc {
    fn clone(&self) -> (r: Self)
        ensures
            r == *self,
        decreases *self,
    {
        match self {
            Doc::Eod => Doc::Eod,
            Doc::Empty(d) => Doc::Empty(Box::new((**d).clone())),
            Doc::Break(o, d) => Doc::Break(Box::new((**o).clone()), Box::new((**d).clone())),
            Doc::Line(o) => Doc::Line(Box::new((**o).clone())),
        }
    }
}

impl Clone for DocObj {
    fn clone(&self) -> (r: Self)
        ensures
            r == *self,
        decreases *self,
    {
        match self {
            DocObj::Text(s) => DocObj::Text(s.clone()),
            DocObj::Fix(f) => DocObj::Fix(Box::new((**f).clone())),
            DocObj::Grp(o) => DocObj::Grp(Box::new((**o).clone())),
            DocObj::Sequence(o) => DocObj::Sequence(Box::new((**o).clone())),
            DocObj::Nest(o) => DocObj::Nest(Box::new((**o).clone())),
            DocObj::Pack(i, o) => DocObj::Pack(*i, Box::new((**o).clone())),
            DocObj::Comp(l, r, p) => DocObj::Comp(
                Box::new((**l).clone()),
                Box::new((**r).clone()),
                *p,
            ),
        }
    }
}

impl Clone for DocObjFix {
    fn clone(&self) -> (r: Self)
        ensures
            r == *self,
        decreases *self,
    {
        match self {
            DocObjFix::Text(s) => DocObjFix::Text(s.clone()),
            DocObjFix::Comp(l, r, p) => DocObjFix::Comp(
                Box::new((**l).clone()),
                Box::new((**r).clone()),
                *p,
            ),
        }
    }
}

/// The errors that the safe compilation entry points can return.
#[derive(Debug)]
pub enum CompilerError {
    StackOverflow { depth: usize, max_depth: usize },
    InvalidInput(String),
    AllocationFailed(String),
}

impl Clone for CompilerError {
    fn clone(&self) -> (r: Self)
        ensures
            r == *self,
    {
        match self {
            CompilerError::StackOverflow { depth, max_depth } => CompilerError::StackOverflow {
                depth: *depth,
                max_depth: *max_depth,
            },
            CompilerError::InvalidInput(s) => CompilerError::InvalidInput(s.clone()),
            CompilerError::AllocationFailed(s) => CompilerError::AllocationFailed(s.clone()),
        }
    }
}

impl CompilerError {
    /// A short human-readable description of the error.
    pub fn describe(&self) -> String {
        match self {
            CompilerError::StackOverflow { depth: _, max_depth: _ } => {
                let mut s = String::new();
                s.append("stack overflow: layout nesting exceeds the recursion bound");
                s
            }
            CompilerError::InvalidInput(m) => {
                let mut s = String::new();
                s.append("invalid input: ");
                s.append(m.as_str());
                s
            }
            CompilerError::AllocationFailed(m) => {
                let mut s = String::new();
                s.append("allocation failed: ");
                s.append(m.as_str());
                s
            }
        }
    }
}

/// The layout after the first pass: every `Seq` records whether its subtree
/// contains a hard line break.
#[derive(Debug)]
pub enum Broken {
    Null,
    Text(String),
    Fix(Box<Broken>),
    Grp(Box<Broken>),
    Sequence(bool, Box<Broken>),
    Nest(Box<Broken>),
    Pack(Box<Broken>),
    Line(Box<Broken>, Box<Broken>),
    Comp(Box<Broken>, Box<Broken>, Attr),
}

/// The layout after the first pass: broken compositions have been rewritten
/// into hard line breaks and broken `Seq` scopes erased.
#[derive(Debug)]
pub enum Edsl {
    Null,
    Text(String),
    Fix(Box<Edsl>),
    Grp(Box<Edsl>),
    Sequence(Box<Edsl>),
    Nest(Box<Edsl>),
    Pack(Box<Edsl>),
    Line(Box<Edsl>, Box<Edsl>),
    Comp(Box<Edsl>, Box<Edsl>, Attr),
}

/// The flattened document: an alternating chain of terms and connectors.
#[derive(Debug)]
pub enum Serial {
    Next(Box<SerialTerm>, Box<SerialComp>, Box<Serial>),
    Last(Box<SerialTerm>, Box<Serial>),
    Past,
}

/// A leaf of the flattened document, wrapped in its indentation scopes.
#[derive(Debug)]
pub enum SerialTerm {
    Null,
    Text(String),
    Nest(Box<SerialTerm>),
    Pack(u64, Box<SerialTerm>),
}

/// A connector of the flattened document, wrapped in its breaking scopes.
#[derive(Debug)]
pub enum SerialComp {
    Line,
    Comp(Attr),
    Grp(u64, Box<SerialComp>),
    Sequence(u64, Box<SerialComp>),
}

/// The document split at hard line breaks: one object per output line.
#[derive(Debug)]
pub enum LinearDoc {
    Nil,
    Cons(Box<LinearObj>, Box<LinearDoc>),
}

/// One line of a linearized document.
#[derive(Debug)]
pub enum LinearObj {
    Next(Box<LinearTerm>, Box<LinearComp>, Box<LinearObj>),
    Last(Box<LinearTerm>),
}

/// A leaf of a linearized line.
#[derive(Debug)]
pub enum LinearTerm {
    Null,
    Text(String),
    Nest(Box<LinearTerm>),
    Pack(u64, Box<LinearTerm>),
}

/// A connector of a linearized line.
#[derive(Debug)]
pub enum LinearComp {
    Comp(Attr),
    Grp(u64, Box<LinearComp>),
    Sequence(u64, Box<LinearComp>),
}

/// The document after maximal runs of fixed compositions were coalesced.
#[derive(Debug)]
pub enum FixedDoc {
    Eod,
    Break(Box<FixedObj>, Box<FixedDoc>),
}

/// One line of a fixed document.
#[derive(Debug)]
pub enum FixedObj {
    Next(Box<FixedItem>, Box<FixedComp>, Box<FixedObj>),
    Last(Box<FixedItem>),
}

/// An item of a fixed line: a plain term or a coalesced fixed chain.
#[derive(Debug)]
pub enum FixedItem {
    Fix(Box<FixedFix>),
    Term(Box<FixedTerm>),
}

/// A leaf of a fixed line.
#[derive(Debug)]
pub enum FixedTerm {
    Null,
    Text(String),
    Nest(Box<FixedTerm>),
    Pack(u64, Box<FixedTerm>),
}

/// A connector of a fixed line; only the pad flag of the composition remains.
#[derive(Debug)]
pub enum FixedComp {
    Comp(bool),
    Grp(u64, Box<FixedComp>),
    Sequence(u64, Box<FixedComp>),
}

/// A coalesced chain of fixed compositions.
#[derive(Debug)]
pub enum FixedFix {
    Next(Box<FixedTerm>, Box<FixedComp>, Box<FixedFix>),
    Last(Box<FixedTerm>),
}

/// A scope kind carrying a payload: group- or sequence-scoped.
#[derive(Clone, Copy, Debug)]
pub enum Property<T> {
    Grp(T),
    Sequence(T),
}

/// A leaf as the scope-resolution graph holds it.
#[derive(Debug)]
pub enum GraphTerm {
    Null,
    Text(String),
    Fix(Box<GraphFix>),
    Nest(Box<GraphTerm>),
    Pack(u64, Box<GraphTerm>),
}

/// A coalesced fixed chain as the scope-resolution graph holds it.
#[derive(Debug)]
pub enum GraphFix {
    Last(Box<GraphTerm>),
    Next(Box<GraphTerm>, Box<GraphFix>, bool),
}

/// One node of the scope-resolution graph: a term position with the
/// identifiers of its incoming and outgoing scope edges, in list order.
#[derive(Debug)]
pub struct GraphNode {
    pub term: GraphTerm,
    pub ins: crate::list::List<u64>,
    pub outs: crate::list::List<u64>,
}

/// One edge of the scope-resolution graph: a scope span between two term
/// positions, tagged group or sequence.
#[derive(Copy, Debug)]
pub struct GraphEdge {
    pub prop: Property<()>,
    pub source: u64,
    pub target: u64,
}

impl Clone for GraphEdge {
    fn clone(&self) -> (r: Self)
        ensures
            r == *self,
    {
        GraphEdge { prop: self.prop, source: self.source, target: self.target }
    }
}

/// The whole document in graph form: per line, the nodes, the edge store the
/// node lists refer into, and the connector pads.
#[derive(Debug)]
pub enum GraphDoc {
    Eod,
    Break(
        crate::list::List<GraphNode>,
        crate::list::List<GraphEdge>,
        crate::list::List<bool>,
        Box<GraphDoc>,
    ),
}

/// The document with scope tags resolved into explicit nested structure.
#[derive(Debug)]
pub enum RebuildDoc {
    Eod,
    Break(Box<RebuildObj>, Box<RebuildDoc>),
}

/// One line of a rebuilt document.
#[derive(Debug)]
pub enum RebuildObj {
    Term(Box<RebuildTerm>),
    Fix(Box<RebuildFix>),
    Grp(Box<RebuildObj>),
    Sequence(Box<RebuildObj>),
    Comp(Box<RebuildObj>, Box<RebuildObj>, bool),
}

/// A coalesced fixed chain of a rebuilt line.
#[derive(Debug)]
pub enum RebuildFix {
    Term(Box<RebuildTerm>),
    Comp(Box<RebuildFix>, Box<RebuildFix>, bool),
}

/// A leaf of a rebuilt line.
#[derive(Debug)]
pub enum RebuildTerm {
    Null,
    Text(String),
    Nest(Box<RebuildTerm>),
    Pack(u64, Box<RebuildTerm>),
}

/// The document with empty contributions removed.
#[derive(Debug)]
pub enum DenullDoc {
    Eod,
    Line(Box<DenullObj>),
    Empty(Box<DenullDoc>),
    Break(Box<DenullObj>, Box<DenullDoc>),
}

/// One line of a document without empty contributions.
#[derive(Debug)]
pub enum DenullObj {
    Term(Box<DenullTerm>),
    Fix(Box<DenullFix>),
    Grp(Box<DenullObj>),
    Sequence(Box<DenullObj>),
    Comp(Box<DenullObj>, Box<DenullObj>, bool),
}

/// A coalesced fixed chain without empty contributions.
#[derive(Debug)]
pub enum DenullFix {
    Term(Box<DenullTerm>),
    Comp(Box<DenullFix>, Box<DenullFix>, bool),
}

/// A leaf without empty contributions: its text is never empty.
#[derive(Debug)]
pub enum DenullTerm {
    Text(String),
    Nest(Box<DenullTerm>),
    Pack(u64, Box<DenullTerm>),
}

impl Clone for DenullTerm {
    fn clone(&self) -> (r: Self)
        ensures
            r == *self,
        decreases *self,
    {
        match self {
            DenullTerm::Text(s) => DenullTerm::Text(s.clone()),
            DenullTerm::Nest(t) => DenullTerm::Nest(Box::new((**t).clone())),
            DenullTerm::Pack(j, t) => DenullTerm::Pack(*j, Box::new((**t).clone())),
        }
    }
}

impl Clone for DenullFix {
    fn clone(&self) -> (r: Self)
        ensures
            r == *self,
        decreases *self,
    {
        match self {
            DenullFix::Term(t) => DenullFix::Term(Box::new((**t).clone())),
            DenullFix::Comp(l, r, p) => DenullFix::Comp(
                Box::new((**l).clone()),
                Box::new((**r).clone()),
                *p,
            ),
        }
    }
}

/// The document after indentation scopes were lifted to their lines.
#[derive(Debug)]
pub enum FinalDoc {
    Eod,
    Empty(Box<FinalDoc>),
    Break(Box<FinalDocObj>, Box<FinalDoc>),
    Line(Box<FinalDocObj>),
}

/// One line of a final document.
#[derive(Debug)]
pub enum FinalDocObj {
    Text(String),
    Fix(Box<FinalDocObjFix>),
    Grp(Box<FinalDocObj>),
    Sequence(Box<FinalDocObj>),
    Nest(Box<FinalDocObj>),
    Pack(u64, Box<FinalDocObj>),
    Comp(Box<FinalDocObj>, Box<FinalDocObj>, bool),
}

/// A coalesced fixed chain of a final line.
#[derive(Debug)]
pub enum FinalDocObjFix {
    Text(String),
    Comp(Box<FinalDocObjFix>, Box<FinalDocObjFix>, bool),
}

} // verus!
