use ceammc_net::keyed::Keyed;

#[test]
fn keyed_insert_replace_remove() {
    let mut k: Keyed<u8> = Keyed::new();
    assert_eq!(k.len(), 0);
    assert!(!k.insert("a".to_string(), 1));
    assert!(!k.insert("b".to_string(), 2));
    assert!(k.insert("a".to_string(), 3));
    assert_eq!(k.len(), 2);
    assert!(k.contains(&"a".to_string()));
    assert_eq!(k.entries(), &vec![("b".to_string(), 2), ("a".to_string(), 3)]);
    assert!(k.remove(&"b".to_string()));
    assert!(!k.remove(&"b".to_string()));
    assert!(!k.contains(&"b".to_string()));
    let all = k.take_all();
    assert_eq!(all, vec![("a".to_string(), 3)]);
    assert_eq!(k.len(), 0);
}
