//! What becomes of a series handed to the fit or to a fit-quality measure.

use crate::falha::Falha;
use crate::indices::{desvio_indices, indices_sem_variancia, lema_desvio_nulo};
use vstd::prelude::*;

verus! {

/// Outcome of fitting a line to a series of `n` observations: an empty series
/// is refused first, then one whose positions do not vary.
pub open spec fn ajuste_esperado(n: int) -> Result<(), Falha> {
    if n == 0 {
        Err(Falha::EntradaVazia)
    } else if desvio_indices(n) == 0 {
        Err(Falha::VarianciaNula)
    } else {
        Ok(())
    }
}

/// Outcome of measuring a model against a series of `n` observations, as far
/// as the length decides it.
pub open spec fn avaliacao_esperada(n: int) -> Result<(), Falha> {
    if n == 0 {
        Err(Falha::EntradaVazia)
    } else {
        Ok(())
    }
}

/// Decides whether a line can be fitted to `y`, with the position of each
/// observation as regressor.
pub fn situacao_do_ajuste<T>(y: &[T]) -> (r: Result<(), Falha>)
    ensures
        r == ajuste_esperado(y@.len() as int),
        r == Err::<(), Falha>(Falha::EntradaVazia) <==> y@.len() == 0,
        r == Err::<(), Falha>(Falha::VarianciaNula) <==> y@.len() == 1,
        r is Ok <==> y@.len() >= 2,
{
    let n: usize = y.len();
    if n == 0 {
        Err(Falha::EntradaVazia)
    } else if indices_sem_variancia(n) {
        Err(Falha::VarianciaNula)
    } else {
        Ok(())
    }
}

/// Decides whether a mean over `y` exists, which every fit-quality measure
/// needs before it looks at a single observation.
pub fn situacao_da_avaliacao<T>(y: &[T]) -> (r: Result<(), Falha>)
    ensures
        r == avaliacao_esperada(y@.len() as int),
        r == Err::<(), Falha>(Falha::EntradaVazia) <==> y@.len() == 0,
        r is Ok <==> y@.len() >= 1,
{
    if y.len() == 0 {
        Err(Falha::EntradaVazia)
    } else {
        Ok(())
    }
}

/// An empty series is never fitted, whatever else holds of it.
pub proof fn lema_vazia_sem_ajuste()
    ensures
        ajuste_esperado(0) == Err::<(), Falha>(Falha::EntradaVazia),
{
}

/// A series of one observation is never fitted: its only position has no
/// variance, whatever value was observed there.
pub proof fn lema_ponto_unico_sem_ajuste()
    ensures
        desvio_indices(1) == 0,
        ajuste_esperado(1) == Err::<(), Falha>(Falha::VarianciaNula),
{
    lema_desvio_nulo(1);
}

/// From two observations on a line always exists.
pub proof fn lema_dois_pontos_bastam(n: int)
    requires
        n >= 2,
    ensures
        desvio_indices(n) > 0,
        ajuste_esperado(n) == Ok::<(), Falha>(()),
{
    lema_desvio_nulo(n);
}

/// The outcome depends on the length of the series alone: two series of the
/// same length meet the same fate, whatever they hold.
pub proof fn lema_ajuste_so_depende_do_tamanho<T>(a: Seq<T>, b: Seq<T>)
    requires
        a.len() == b.len(),
    ensures
        ajuste_esperado(a.len() as int) == ajuste_esperado(b.len() as int),
        avaliacao_esperada(a.len() as int) == avaliacao_esperada(b.len() as int),
{
}

/// Wherever a series cannot be fitted for want of observations, no measure
/// of fit quality exists for it either; wherever it can be fitted, the length
/// does not stand in the way of measuring.
pub proof fn lema_falhas_encadeadas(n: int)
    requires
        0 <= n,
    ensures
        ajuste_esperado(n) == Err::<(), Falha>(Falha::EntradaVazia) ==> avaliacao_esperada(n)
            == Err::<(), Falha>(Falha::EntradaVazia),
        ajuste_esperado(n) is Ok ==> avaliacao_esperada(n) is Ok,
{
}

} // verus!
