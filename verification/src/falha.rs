//! Reasons for which a fit or a fit-quality measure has no value.

use vstd::prelude::*;

verus! {

/// Why an operation on a series yields no value.
#[derive(Debug, Clone, Copy, PartialEq, Eq, Structural)]
pub enum Falha {
    /// The series holds no observation.
    EntradaVazia,
    /// The quantity whose spread the operation divides by does not vary: the
    /// positions of the observations for a fit, the observations themselves
    /// for a share of explained variance.
    VarianciaNula,
}

} // verus!
