//! A persistent map with `u64` keys, held as an entry list in ascending key
//! order. The scope-resolution pass and the renderer both use it; the
//! former also relies on walking its entries in ascending key order.
use vstd::prelude::*;

use crate::list::spec_bump;
use crate::list::bump;
use crate::order::Order;
use crate::order::spec_total;
use crate::order::total;

verus! {

/// A persistent ordered map: entries in strictly ascending key order when
/// built from `empty` by `insert` and `remove`.
#[derive(Debug)]
pub enum OrdMap<V> {
    Nil,
    Cons(u64, V, Box<OrdMap<V>>),
}

/// The number of entries, clipped to `u64`.
pub open spec fn spec_size<V>(m: OrdMap<V>) -> u64
    decreases m,
{
    match m {
        OrdMap::Nil => 0u64,
        OrdMap::Cons(_, _, rest) => spec_bump(spec_size(*rest)),
    }
}

/// The map with a binding added; an existing binding of the key is replaced.
pub open spec fn spec_insert<V>(m: OrdMap<V>, key: u64, value: V) -> OrdMap<V>
    decreases m,
{
    match m {
        OrdMap::Nil => OrdMap::Cons(key, value, Box::new(OrdMap::Nil)),
        OrdMap::Cons(k, v, rest) => match spec_total(key, k) {
            Order::LT => OrdMap::Cons(key, value, Box::new(OrdMap::Cons(k, v, rest))),
            Order::EQ => OrdMap::Cons(key, value, rest),
            Order::GT => OrdMap::Cons(k, v, Box::new(spec_insert(*rest, key, value))),
        },
    }
}

/// The map without any binding of the key.
pub open spec fn spec_remove<V>(m: OrdMap<V>, key: u64) -> OrdMap<V>
    decreases m,
{
    match m {
        OrdMap::Nil => OrdMap::Nil,
        OrdMap::Cons(k, v, rest) => if k == key {
            *rest
        } else {
            OrdMap::Cons(k, v, Box::new(spec_remove(*rest, key)))
        },
    }
}

/// The value bound to the key, if any.
pub open spec fn spec_lookup<V>(m: OrdMap<V>, key: u64) -> Option<V>
    decreases m,
{
    match m {
        OrdMap::Nil => Option::None,
        OrdMap::Cons(k, v, rest) => if k == key {
            Option::Some(v)
        } else {
            spec_lookup(*rest, key)
        },
    }
}

/// The empty map.
pub fn empty<V: Copy>() -> (r: OrdMap<V>)
    ensures
        r == OrdMap::<V>::Nil,
{
    OrdMap::Nil
}

impl<V: Copy> OrdMap<V> {
    /// The number of entries, clipped to `u64`.
    pub fn size(&self) -> (r: u64)
        ensures
            r == spec_size(*self),
        decreases *self,
    {
        match self {
            OrdMap::Nil => 0,
            OrdMap::Cons(_, _, rest) => bump(rest.size()),
        }
    }

    /// Adds a binding; an existing binding of the key is replaced.
    pub fn insert(self, key: u64, value: V) -> (r: OrdMap<V>)
        ensures
            r == spec_insert(self, key, value),
        decreases self,
    {
        match self {
            OrdMap::Nil => OrdMap::Cons(key, value, Box::new(OrdMap::Nil)),
            OrdMap::Cons(k, v, rest) => match total(key, k) {
                Order::LT => OrdMap::Cons(key, value, Box::new(OrdMap::Cons(k, v, rest))),
                Order::EQ => OrdMap::Cons(key, value, rest),
                Order::GT => OrdMap::Cons(k, v, Box::new(rest.insert(key, value))),
            },
        }
    }

    /// Removes any binding of the key.
    pub fn remove(self, key: u64) -> (r: OrdMap<V>)
        ensures
            r == spec_remove(self, key),
        decreases self,
    {
        match self {
            OrdMap::Nil => OrdMap::Nil,
            OrdMap::Cons(k, v, rest) => if k == key {
                *rest
            } else {
                OrdMap::Cons(k, v, Box::new(rest.remove(key)))
            },
        }
    }

    /// The value bound to the key, if any.
    pub fn lookup(&self, key: u64) -> (r: Option<V>)
        ensures
            r == spec_lookup(*self, key),
        decreases *self,
    {
        match self {
            OrdMap::Nil => Option::None,
            OrdMap::Cons(k, v, rest) => if *k == key {
                Option::Some(*v)
            } else {
                rest.lookup(key)
            },
        }
    }

    /// The value bound to a key known to be present.
    pub fn lookup_unsafe(&self, key: u64) -> (r: V)
        requires
            spec_lookup(*self, key) is Some,
        ensures
            spec_lookup(*self, key) == Option::Some(r),
        decreases *self,
    {
        match self {
            OrdMap::Nil => vstd::pervasive::unreached(),
            OrdMap::Cons(k, v, rest) => if *k == key {
                *v
            } else {
                rest.lookup_unsafe(key)
            },
        }
    }

    /// Whether the key is bound.
    pub fn contains(&self, key: u64) -> (r: bool)
        ensures
            r == spec_lookup(*self, key) is Some,
        decreases *self,
    {
        match self {
            OrdMap::Nil => false,
            OrdMap::Cons(k, _, rest) => if *k == key {
                true
            } else {
                rest.contains(key)
            },
        }
    }
}

impl<V: Copy> Clone for OrdMap<V> {
    fn clone(&self) -> (r: Self)
        ensures
            r == *self,
        decreases *self,
    {
        match self {
            OrdMap::Nil => OrdMap::Nil,
            OrdMap::Cons(k, v, rest) => OrdMap::Cons(*k, *v, Box::new((**rest).clone())),
        }
    }
}

} // verus!
