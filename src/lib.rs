//! A persistent singly-linked list of `u32` values, with a verified length
//! query and a verified textual rendering.

pub mod decimal;
pub mod list;
pub mod numbers;
