pub(crate) mod hash;
pub(crate) mod index;
pub(crate) mod slots;
pub(crate) mod token;
pub(crate) mod stored;
