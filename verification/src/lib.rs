//! Input rules for fitting a linear trend to a series sampled at unit steps.
//!
//! The regressor of such a fit is the position of each observation
//! (0, 1, 2, ...), so whether a line can be fitted at all depends on the
//! length of the series alone. This crate states those rules over exact
//! integers and decides them for any slice of observations.

pub mod entrada;
pub mod falha;
pub mod indices;
