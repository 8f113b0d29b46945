//! A persistent singly-linked list, shared by the scope-resolution pass for
//! its node and edge stores.
use vstd::prelude::*;

verus! {

/// A cons list. The scope-resolution pass indexes into it and rebuilds it
/// functionally, so all updating operations consume their input.
#[derive(Debug)]
pub enum List<T> {
    Nil,
    Cons(T, Box<List<T>>),
}

/// The mathematical length of a list.
pub open spec fn spec_list_len<T>(l: List<T>) -> nat
    decreases l,
{
    match l {
        List::Nil => 0,
        List::Cons(_, rest) => 1 + spec_list_len(*rest),
    }
}

/// The length clipped to `u64`, as the executable `length` reports it.
pub open spec fn spec_length<T>(l: List<T>) -> u64
    decreases l,
{
    match l {
        List::Nil => 0u64,
        List::Cons(_, rest) => spec_bump(spec_length(*rest)),
    }
}

/// A counter increment that stays put at the top of `u64`.
pub open spec fn spec_bump(i: u64) -> u64 {
    if i < u64::MAX {
        (i + 1) as u64
    } else {
        i
    }
}

/// Executable twin of [`spec_bump`].
pub fn bump(i: u64) -> (r: u64)
    ensures
        r == spec_bump(i),
{
    if i < u64::MAX {
        i + 1
    } else {
        i
    }
}

/// The element at an index, if the index is within the list.
pub open spec fn spec_list_get<T>(l: List<T>, i: u64) -> Option<T>
    decreases l,
{
    match l {
        List::Nil => Option::None,
        List::Cons(x, rest) => if i == 0 {
            Option::Some(x)
        } else {
            spec_list_get(*rest, (i - 1) as u64)
        },
    }
}

/// The list with the element at an index replaced; unchanged past the end.
pub open spec fn spec_list_set<T>(l: List<T>, i: u64, v: T) -> List<T>
    decreases l,
{
    match l {
        List::Nil => List::Nil,
        List::Cons(x, rest) => if i == 0 {
            List::Cons(v, rest)
        } else {
            List::Cons(x, Box::new(spec_list_set(*rest, (i - 1) as u64, v)))
        },
    }
}

/// The two lists, one after the other.
pub open spec fn spec_list_append<T>(l: List<T>, other: List<T>) -> List<T>
    decreases l,
{
    match l {
        List::Nil => other,
        List::Cons(x, rest) => List::Cons(x, Box::new(spec_list_append(*rest, other))),
    }
}

/// The list with an element appended at the tail.
pub open spec fn spec_list_push<T>(l: List<T>, v: T) -> List<T>
    decreases l,
{
    match l {
        List::Nil => List::Cons(v, Box::new(List::Nil)),
        List::Cons(x, rest) => List::Cons(x, Box::new(spec_list_push(*rest, v))),
    }
}

impl<T> List<T> {
    /// The element at an index, if the index is within the list.
    pub fn get(&self, i: u64) -> (r: Option<&T>)
        ensures
            match r {
                Option::Some(x) => spec_list_get(*self, i) == Option::Some(*x),
                Option::None => spec_list_get(*self, i) is None,
            },
        decreases *self,
    {
        match self {
            List::Nil => Option::None,
            List::Cons(x, rest) => if i == 0 {
                Option::Some(x)
            } else {
                rest.get(i - 1)
            },
        }
    }

    /// The element at an index known to be within the list.
    pub fn get_unsafe(&self, i: u64) -> (r: &T)
        requires
            spec_list_get(*self, i) is Some,
        ensures
            spec_list_get(*self, i) == Option::Some(*r),
        decreases *self,
    {
        match self {
            List::Nil => vstd::pervasive::unreached(),
            List::Cons(x, rest) => if i == 0 {
                x
            } else {
                rest.get_unsafe(i - 1)
            },
        }
    }

    /// The length of the list, clipped to `u64`.
    pub fn length(&self) -> (r: u64)
        ensures
            r == spec_length(*self),
        decreases *self,
    {
        match self {
            List::Nil => 0,
            List::Cons(_, rest) => bump(rest.length()),
        }
    }

    /// Replaces the element at an index; leaves the list unchanged when the
    /// index is past the end.
    pub fn set(self, i: u64, v: T) -> (r: List<T>)
        ensures
            r == spec_list_set(self, i, v),
        decreases self,
    {
        match self {
            List::Nil => List::Nil,
            List::Cons(x, rest) => if i == 0 {
                List::Cons(v, rest)
            } else {
                List::Cons(x, Box::new(rest.set(i - 1, v)))
            },
        }
    }

    /// Attaches another list behind this one.
    pub fn append(self, other: List<T>) -> (r: List<T>)
        ensures
            r == spec_list_append(self, other),
        decreases self,
    {
        match self {
            List::Nil => other,
            List::Cons(x, rest) => List::Cons(x, Box::new(rest.append(other))),
        }
    }

    /// Appends an element at the tail.
    pub fn push(self, v: T) -> (r: List<T>)
        ensures
            r == spec_list_push(self, v),
        decreases self,
    {
        match self {
            List::Nil => List::Cons(v, Box::new(List::Nil)),
            List::Cons(x, rest) => List::Cons(x, Box::new(rest.push(v))),
        }
    }
}

impl<T: Copy> Clone for List<T> {
    fn clone(&self) -> (r: Self)
        ensures
            r == *self,
        decreases *self,
    {
        match self {
            List::Nil => List::Nil,
            List::Cons(x, rest) => List::Cons(*x, Box::new((**rest).clone())),
        }
    }
}

} // verus!
