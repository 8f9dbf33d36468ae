//! Core logic of a small shop-bartering simulation: a registry of customers
//! that spawn on a cooldown and patrol the shop floor, and a turn-based
//! barter session in which haggle attempts adjust a sale price until the
//! player approves or denies the deal.

pub mod barter;
pub mod customers;
pub mod player;
mod rng;
