//! Chains of errors.
//!
//! An error that implements [`Doom`] names its kind with a tag and describes
//! itself in a sentence. A [`Top`] holds the most recent error of a chain as
//! it is, on top of a [`Stack`] of the older errors; a `Stack` holds every
//! error as an [`Entry`], the archived record of its tag and description,
//! which keeps the error itself as an [`Original`] only where the error's type
//! asks for it. Turning a `Top` into a `Stack` archives the error on top.
//!
//! The contracts say of every function what it gives; [`laws`] states what
//! holds of several of them together.
pub mod description;
pub mod doom;
pub mod entry;
pub mod laws;
pub mod location;
pub mod original;
pub mod stack;
pub mod text;
pub mod top;

pub use description::Description;
pub use doom::Doom;
pub use entry::Entry;
pub use location::Location;
pub use original::Original;
pub use stack::Stack;
pub use top::Top;
