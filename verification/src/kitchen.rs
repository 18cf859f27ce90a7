//! A small preparation pipeline over an optional ingredient.
//!
//! Each step takes the previous stage if there is one and wraps it in the
//! next stage; if there is nothing, there is still nothing afterwards.

use vstd::prelude::*;

verus! {

/// An ingredient that can move through the pipeline.
#[derive(Clone, Copy, Debug, PartialEq, Eq, Structural)]
pub enum Food {
    Apple,
    Carrot,
    Potato,
}

/// An ingredient that has been peeled.
#[derive(Clone, Copy, Debug, PartialEq, Eq, Structural)]
pub struct Peeled(pub Food);

/// A peeled ingredient that has been chopped.
#[derive(Clone, Copy, Debug, PartialEq, Eq, Structural)]
pub struct Chopped(pub Food);

/// A chopped ingredient that has been cooked.
#[derive(Clone, Copy, Debug, PartialEq, Eq, Structural)]
pub struct Cooked(pub Food);

/// Peels the ingredient if there is one; otherwise there is still nothing.
pub fn peel(food: Option<Food>) -> (peeled: Option<Peeled>)
    ensures
        peeled == (match food {
            Some(f) => Some(Peeled(f)),
            None => None::<Peeled>,
        }),
{
    match food {
        Some(f) => Some(Peeled(f)),
        None => None,
    }
}

/// Chops a peeled ingredient if there is one; otherwise there is still nothing.
pub fn chop(peeled: Option<Peeled>) -> (chopped: Option<Chopped>)
    ensures
        chopped == (match peeled {
            Some(p) => Some(Chopped(p.0)),
            None => None::<Chopped>,
        }),
{
    match peeled {
        Some(Peeled(f)) => Some(Chopped(f)),
        None => None,
    }
}

/// Cooks a chopped ingredient if there is one; otherwise there is still nothing.
pub fn cook(chopped: Option<Chopped>) -> (cooked: Option<Cooked>)
    ensures
        cooked == (match chopped {
            Some(c) => Some(Cooked(c.0)),
            None => None::<Cooked>,
        }),
{
    match chopped {
        Some(Chopped(f)) => Some(Cooked(f)),
        None => None,
    }
}

/// Peels, chops and cooks in sequence: an ingredient comes out cooked, and
/// nothing comes out as nothing.
pub fn process(food: Option<Food>) -> (cooked: Option<Cooked>)
    ensures
        cooked == (match food {
            Some(f) => Some(Cooked(f)),
            None => None::<Cooked>,
        }),
{
    cook(chop(peel(food)))
}

} // verus!
