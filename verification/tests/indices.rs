use regressao_linear::falha::Falha;
use regressao_linear::indices::indices_sem_variancia;

#[test]
fn ate_um_indice_nao_ha_variancia() {
    assert!(indices_sem_variancia(0));
    assert!(indices_sem_variancia(1));
}

#[test]
fn a_partir_de_dois_indices_ha_variancia() {
    assert!(!indices_sem_variancia(2));
    assert!(!indices_sem_variancia(3));
    assert!(!indices_sem_variancia(1_000_000));
    assert!(!indices_sem_variancia(usize::MAX));
}

#[test]
fn falhas_sao_distintas_e_copiaveis() {
    let a = Falha::EntradaVazia;
    let b = a;
    assert_eq!(a, b);
    assert_ne!(Falha::EntradaVazia, Falha::VarianciaNula);
    assert_eq!(format!("{:?}", Falha::VarianciaNula), "VarianciaNula");
}
