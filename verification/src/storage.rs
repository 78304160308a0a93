//! The interface of a store of dice and units.

use vstd::prelude::*;
use std::rc::Rc;
use crate::dice::Die;
use crate::units::Unit;

verus! {

/// The id of a set of dice in a store.
#[derive(Clone, Copy, Debug, PartialEq, Eq)]
pub struct SetId(pub u64);

/// A store that keeps sets of dice with their units. The library defines the
/// interface only; what a store keeps, and where, is up to the store.
pub trait DieStorage {
    /// Every die in the store.
    fn get_all_dice(&self) -> Vec<Rc<Die>>;

    /// The dice of one set.
    fn get_set_dice(&self, set: SetId) -> Vec<Rc<Die>>;

    /// The die of one set that goes by `die_name`, if the set has one.
    fn get_die(&self, set: SetId, die_name: String) -> Option<Rc<Die>>;

    /// Every unit in the store.
    fn get_all_units(&self) -> Vec<Rc<Unit>>;

    /// The units of one set.
    fn get_set_units(&self, set: SetId) -> Vec<Rc<Unit>>;

    /// The unit of one set that goes by `unit_name`, if the set has one.
    fn get_unit(&self, set: SetId, unit_name: String) -> Option<Rc<Unit>>;

    /// Stores `dice` as a new set and returns its id.
    fn store_dice(&self, dice: Vec<Rc<Die>>) -> SetId;
}

} // verus!
