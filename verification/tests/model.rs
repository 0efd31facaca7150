use clank::model::Model;

#[test]
fn rejects_pauses() {
    let mut m = Model::default();
    assert!(!m.observe('a', 'b', 5000 * 1000));
    assert_eq!(m.pair_count('a', 'b'), 0);
}
