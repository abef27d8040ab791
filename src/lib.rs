//! Additive composition of unary functions whose results form a semigroup.

pub mod compose;
pub mod concretes;
pub mod map_each;
pub mod semigroup;

pub use compose::{add_functions, SavedMap};
pub use semigroup::Semigroup;
pub use concretes::{double, identity, negate_unsigned};
pub use map_each::MapEach;
