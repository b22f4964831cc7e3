//! Small exercises from an introductory Rust course, each written as a
//! verified library: a number-guessing game, a string-slice helper, a
//! table of magic bonuses and a restaurant module tree.

pub mod back_of_house;
pub mod customer;
pub mod elves;
pub mod front_of_house;
pub mod guessing;
pub mod text;
