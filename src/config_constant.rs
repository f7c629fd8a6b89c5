//! A single `u32` cell that callers add to, each addition bounded by a
//! configured ceiling and checked for overflow, and that the block hook clears
//! every `clear_frequency` blocks.
use vstd::prelude::*;

use crate::{AccountId, BlockNumber};

verus! {

/// Constants the host runtime supplies to the accumulator.
#[derive(Clone, Copy, Debug, PartialEq, Eq, Structural)]
pub struct Config {
    /// Largest amount a single `add_value` call may add.
    pub max_addend: u32,
    /// Number of blocks between two automatic clears; must not be zero.
    pub clear_frequency: BlockNumber,
}

/// Records deposited by the accumulator.
#[derive(Clone, Copy, Debug, PartialEq, Eq, Structural)]
pub enum Event {
    /// Old value, amount added, new value.
    Added(u32, u32, u32),
    /// Value held just before the cell was cleared.
    Cleared(u32),
}

/// Why an `add_value` call was refused.
#[derive(Clone, Copy, Debug, PartialEq, Eq, Structural)]
pub enum Error {
    /// The amount is larger than `Config::max_addend`.
    InvalidAmount,
    /// The sum does not fit in a `u32`.
    Overflow,
}

/// What adding `amount` to a cell holding `current` gives under `config`:
/// the new value, or the reason the call is refused.
pub open spec fn add_outcome(config: Config, current: u32, amount: u32) -> Result<u32, Error> {
    if amount > config.max_addend {
        Err(Error::InvalidAmount)
    } else if current + amount > u32::MAX {
        Err(Error::Overflow)
    } else {
        Ok((current + amount) as u32)
    }
}

/// Whether block `n` is one on which the cell is cleared.
pub open spec fn clears_at(config: Config, n: BlockNumber) -> bool {
    n % config.clear_frequency == 0
}

/// The accumulator's store and the events it has deposited, oldest first.
pub struct Pallet {
    config: Config,
    single_value: u32,
    events: Vec<Event>,
}

impl Pallet {
    /// The constants the pallet was built with.
    pub closed spec fn spec_config(&self) -> Config {
        self.config
    }

    /// The value of the cell.
    pub closed spec fn spec_value(&self) -> u32 {
        self.single_value
    }

    /// The deposited events, oldest first.
    pub closed spec fn spec_events(&self) -> Seq<Event> {
        self.events@
    }

    /// A fresh store: the cell holds 0 and no event has been deposited.
    pub fn new(config: Config) -> (p: Pallet)
        ensures
            p.spec_config() == config,
            p.spec_value() == 0,
            p.spec_events() == Seq::<Event>::empty(),
    {
        Pallet { config, single_value: 0, events: Vec::new() }
    }

    fn deposit_event(&mut self, e: Event)
        ensures
            final(self).config == old(self).config,
            final(self).single_value == old(self).single_value,
            final(self).events@ == old(self).events@.push(e),
    {
        self.events.push(e);
    }

    /// Adds `val_to_add` to the cell on behalf of `caller`, whom the host has
    /// authenticated; the cell is shared, so who calls does not change the
    /// outcome. Refused with `InvalidAmount` above the configured ceiling and
    /// with `Overflow` where the sum does not fit; a refused call changes
    /// nothing and deposits nothing.
    pub fn add_value(&mut self, caller: AccountId, val_to_add: u32) -> (r: Result<(), Error>)
        ensures
            final(self).spec_config() == old(self).spec_config(),
            match add_outcome(old(self).spec_config(), old(self).spec_value(), val_to_add) {
                Ok(new_value) => {
                    &&& r == Ok::<(), Error>(())
                    &&& final(self).spec_value() == new_value
                    &&& final(self).spec_events() == old(self).spec_events().push(
                        Event::Added(old(self).spec_value(), val_to_add, new_value),
                    )
                },
                Err(e) => {
                    &&& r == Err::<(), Error>(e)
                    &&& final(self).spec_value() == old(self).spec_value()
                    &&& final(self).spec_events() == old(self).spec_events()
                },
            },
    {
        if val_to_add > self.config.max_addend {
            return Err(Error::InvalidAmount);
        }
        let c_val = self.single_value;
        let result = match c_val.checked_add(val_to_add) {
            Some(v) => v,
            None => return Err(Error::Overflow),
        };
        self.single_value = result;
        self.deposit_event(Event::Added(c_val, val_to_add, result));
        Ok(())
    }

    /// The hook the host runs at the end of block `n`: on every block that is a
    /// multiple of `clear_frequency` the cell is set to 0 and `Cleared` with the
    /// old value is deposited, whatever that value was; on other blocks nothing
    /// changes.
    pub fn on_finalize(&mut self, n: BlockNumber)
        requires
            old(self).spec_config().clear_frequency > 0,
        ensures
            final(self).spec_config() == old(self).spec_config(),
            clears_at(old(self).spec_config(), n) ==> {
                &&& final(self).spec_value() == 0
                &&& final(self).spec_events() == old(self).spec_events().push(
                    Event::Cleared(old(self).spec_value()),
                )
            },
            !clears_at(old(self).spec_config(), n) ==> {
                &&& final(self).spec_value() == old(self).spec_value()
                &&& final(self).spec_events() == old(self).spec_events()
            },
    {
        if n % self.config.clear_frequency == 0 {
            let current_value = self.single_value;
            self.single_value = 0;
            self.deposit_event(Event::Cleared(current_value));
        }
    }

    /// The value of the cell.
    pub fn single_value(&self) -> (r: u32)
        ensures
            r == self.spec_value(),
    {
        self.single_value
    }

    /// The constants the pallet was built with.
    pub fn config(&self) -> (r: Config)
        ensures
            r == self.spec_config(),
    {
        self.config
    }

    /// The deposited events, oldest first.
    pub fn events(&self) -> (r: &Vec<Event>)
        ensures
            r@ == self.spec_events(),
    {
        &self.events
    }
}

} // verus!
