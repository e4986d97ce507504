//! Sample types whose documentation serves as input for a grammar and
//! spelling checker, with small verified constructors and accessors.

pub mod docs;
pub mod person;

pub use docs::{ExampleClassWithNoTypos, ExampleClassWithTypos, ForMultiLanguageSupport};
pub use person::Person;
