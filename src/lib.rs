//! Conditional-compilation predicates: decides from an item's attributes and
//! the active compile options whether the item is compiled, with the laws that
//! this evaluation obeys, and a naming helper of the interactive shell.

pub mod cfg;
pub mod laws;
pub mod repl;
