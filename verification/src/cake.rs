//! The nutrition payload a pet is fed with.
//!
//! A cake carries two replenishment amounts and a cost. A replenishment is
//! either a finite quantity or unbounded, in which case it restores the
//! whole stat; keeping the two apart as a tagged value keeps the feeding
//! rules exhaustive.

use vstd::prelude::*;

verus! {

/// A replenishment amount: a finite quantity, or one without bound, which
/// restores the stat it is applied to completely.
#[derive(Clone, Copy)]
pub enum Replenishment<T> {
    Finite(T),
    Unbounded,
}

impl View for Replenishment<u8> {
    type V = Replenishment<int>;

    open spec fn view(&self) -> Replenishment<int> {
        match self {
            Replenishment::Finite(x) => Replenishment::Finite(*x as int),
            Replenishment::Unbounded => Replenishment::Unbounded,
        }
    }
}

impl View for Replenishment<u16> {
    type V = Replenishment<int>;

    open spec fn view(&self) -> Replenishment<int> {
        match self {
            Replenishment::Finite(x) => Replenishment::Finite(*x as int),
            Replenishment::Unbounded => Replenishment::Unbounded,
        }
    }
}

impl<T: Copy> Replenishment<T> {
    /// Whether this replenishment is a finite amount.
    pub fn is_finite(&self) -> (r: bool)
        ensures
            r == (self is Finite),
    {
        match self {
            Replenishment::Finite(_) => true,
            Replenishment::Unbounded => false,
        }
    }

    /// The finite amount, if there is one.
    pub fn finite(&self) -> (r: Option<T>)
        ensures
            self is Finite ==> r == Some(self->Finite_0),
            self is Unbounded ==> r is None,
    {
        match self {
            Replenishment::Finite(x) => Some(*x),
            Replenishment::Unbounded => None,
        }
    }
}

/// The mathematical value of a [`Cake`].
#[verifier::ext_equal]
pub ghost struct CakeModel {
    pub name: Seq<char>,
    pub hunger_replenished: Replenishment<int>,
    pub health_replenished: Replenishment<int>,
    pub cost: int,
}

/// An immutable nutrition payload: a name, what it replenishes, and a cost.
pub struct Cake {
    name: String,
    hunger_replenished: Replenishment<u8>,
    health_replenished: Replenishment<u16>,
    cost: u16,
}

impl View for Cake {
    type V = CakeModel;

    closed spec fn view(&self) -> CakeModel {
        CakeModel {
            name: self.name@,
            hunger_replenished: self.hunger_replenished@,
            health_replenished: self.health_replenished@,
            cost: self.cost as int,
        }
    }
}

impl Cake {
    /// A cake from its parts.
    pub fn new(
        name: String,
        hunger_replenished: Replenishment<u8>,
        health_replenished: Replenishment<u16>,
        cost: u16,
    ) -> (r: Cake)
        ensures
            r@ == (CakeModel {
                name: name@,
                hunger_replenished: hunger_replenished@,
                health_replenished: health_replenished@,
                cost: cost as int,
            }),
    {
        Cake { name, hunger_replenished, health_replenished, cost }
    }

    /// The cake's display name.
    pub fn get_name(&self) -> (r: &String)
        ensures
            r@ == self@.name,
    {
        &self.name
    }

    /// How much hunger the cake relieves.
    pub fn get_hunger_replenished(&self) -> (r: Replenishment<u8>)
        ensures
            r@ == self@.hunger_replenished,
    {
        self.hunger_replenished
    }

    /// How much health the cake restores.
    pub fn get_health_replenished(&self) -> (r: Replenishment<u16>)
        ensures
            r@ == self@.health_replenished,
    {
        self.health_replenished
    }

    /// What the cake costs.
    pub fn get_cost(&self) -> (r: u16)
        ensures
            r as int == self@.cost,
    {
        self.cost
    }
}

} // verus!
