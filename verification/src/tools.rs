pub mod definitions;
pub mod pages;
pub mod search;
pub mod snippets;
