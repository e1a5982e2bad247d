//! Epoch bookkeeping of the governance contract.

use vstd::prelude::*;

verus! {

/// Length of an epoch in seconds (six hours).
pub const EPOC: u64 = 21600;

/// The current epoch and the block time at which it was last brought up to date.
#[derive(Clone, Copy, Debug, PartialEq, Eq, Structural)]
pub struct EpocId {
    pub epoc_id: u64,
    pub current_block_time: u64,
}

impl EpocId {
    /// Advances the epoch by the whole number of epochs elapsed since the last
    /// update, and records `block_time` as the time of this update.
    pub fn compute_current_epoc(&mut self, block_time: u64)
        requires
            old(self).current_block_time <= block_time,
            old(self).epoc_id + (block_time - old(self).current_block_time) / (EPOC as int) <= u64::MAX,
        ensures
            final(self).current_block_time == block_time,
            final(self).epoc_id == old(self).epoc_id + (block_time - old(self).current_block_time) / (EPOC as int),
    {
        let epoc = self.epoc_id;
        let time = self.current_block_time;
        self.current_block_time = block_time;
        self.epoc_id = epoc + (block_time - time) / EPOC;
    }

    /// Whether at least one epoch has passed since the last update.
    pub fn is_epoc_passed(&self, block_time: u64) -> (r: bool)
        requires
            self.current_block_time <= block_time,
        ensures
            r == (block_time - self.current_block_time >= EPOC),
    {
        let time = self.current_block_time;
        if (block_time - time) < EPOC {
            return false;
        }
        true
    }
}

/// The epochs whose requests are not processed yet.
#[derive(Clone, Debug, PartialEq, Eq)]
pub struct AllEpoc {
    pub epoces: Vec<EpocId>,
}

/// An epoch whose length is a parameter of the contract.
#[derive(Clone, Copy, Debug, PartialEq, Eq, Structural)]
pub struct EpochId {
    pub epoch_id: u64,
    pub current_block_time: u64,
}

impl EpochId {
    /// Advances the epoch by the whole number of `epoch_time` periods elapsed
    /// since the last update, and records `block_time` as the time of this update.
    pub fn compute_current_epoch(&mut self, block_time: u64, epoch_time: u64)
        requires
            epoch_time > 0,
            old(self).current_block_time <= block_time,
            old(self).epoch_id + (block_time - old(self).current_block_time) / (epoch_time as int) <= u64::MAX,
        ensures
            final(self).current_block_time == block_time,
            final(self).epoch_id == old(self).epoch_id + (block_time - old(self).current_block_time) / (epoch_time as int),
    {
        let epoch = self.epoch_id;
        let time = self.current_block_time;
        self.current_block_time = block_time;
        self.epoch_id = epoch + (block_time - time) / epoch_time;
    }

    /// Whether at least `epoch_time` seconds have passed since the last update.
    pub fn is_epoch_passed(&self, block_time: u64, epoch_time: u64) -> (r: bool)
        requires
            self.current_block_time <= block_time,
        ensures
            r == (block_time - self.current_block_time >= epoch_time),
    {
        let time = self.current_block_time;
        if (block_time - time) < epoch_time {
            return false;
        }
        true
    }
}

} // verus!
