use clu::glitch::leet_map;

#[test]
fn test_leet_map_contains_vowels() {
    let map = leet_map();
    assert!(map.contains_key(&'a'));
    assert!(map.contains_key(&'e'));
    assert!(map.contains_key(&'i'));
    assert!(map.contains_key(&'o'));
}

#[test]
fn test_leet_map_lookalikes() {
    let map = leet_map();
    assert_eq!(map.get(&'a'), Some(&vec!['4', '@', 'Δ', 'α']));
    assert!(map.get(&'z').is_none());
    assert!(!map.contains_key(&'z'));
}
