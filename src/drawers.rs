//! Drawer mechanism: one shared direction driver and an enable line per drawer.
use vstd::prelude::*;

use crate::motor::SetDirection;

verus! {

/// Enables and disables the drawers' drive lines by index.
pub trait DrawerEnableControl {
    fn disable(&mut self, id: u8);

    fn enable(&mut self, id: u8);
}

pub struct Drawers<D, ENS> where D: SetDirection, ENS: DrawerEnableControl {
    pub direction: D,
    pub enables: ENS,
}

impl<D, ENS> Drawers<D, ENS> where D: SetDirection, ENS: DrawerEnableControl {
    pub fn new(direction: D, enables: ENS) -> (r: Self)
        ensures
            r.direction == direction,
            r.enables == enables,
    {
        Drawers { direction, enables }
    }
}

} // verus!
