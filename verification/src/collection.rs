pub mod any_ref;
pub mod arena;
pub mod entry;
pub mod iter;
pub mod reference;
pub mod secondary;
pub mod strong;
pub mod weak;
