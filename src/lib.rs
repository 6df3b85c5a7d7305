//! A helper crate for generative drawings: a stepping counter and a
//! Gray-Scott reaction-diffusion simulator on a double-buffered grid.
//!
//! Concentrations, rates and stencil weights are fixed-point numbers in
//! millionths: [`cell::ONE`] stands for 1.0.

pub mod cell;
pub mod mixture;
pub mod petri_dish;
pub mod stencil;
pub mod skipper;
