use vstd::prelude::*;

verus! {

/// Config builder for the arena
pub struct ArenaConfig {
    /// Whether `Drop::drop` will be called on all items when the arena is dropped.
    /// An item outlives the arena while a reference to it lives, and is dropped with
    /// the last one; otherwise its memory is freed without `Drop::drop`.
    ///
    /// Defaults to `true`.
    pub drop_items: bool,
}

impl ArenaConfig {
    /// Whether `Drop::drop` will be called on all items when the arena is dropped.
    ///
    /// Defaults to `true`.
    pub fn drop_items(self, drop_items: bool) -> (res: Self)
        ensures
            res.drop_items == drop_items,
    {
        let mut cfg = self;
        cfg.drop_items = drop_items;
        cfg
    }
}

impl Default for ArenaConfig {
    fn default() -> (res: Self)
        ensures
            res.drop_items,
    {
        ArenaConfig { drop_items: true }
    }
}

} // verus!
