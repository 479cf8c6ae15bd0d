use animosity::sprite_map::SpriteMap;
use animosity::SpriteType;

#[test]
fn sprite_map_keeps_one_value_per_key() {
    let mut map: SpriteMap<u32> = SpriteMap::new();
    assert!(map.is_empty());
    assert_eq!(map.len(), 0);
    map.insert(3, SpriteType::Hd, 30);
    map.insert(3, SpriteType::Sd, 31);
    map.insert(1, SpriteType::Hd, 10);
    assert_eq!(map.len(), 3);
    assert_eq!(map.get(3, SpriteType::Hd), Some(&30));
    assert_eq!(map.get(3, SpriteType::Sd), Some(&31));
    assert_eq!(map.get(3, SpriteType::Hd2), None);
    assert!(map.contains_key(1, SpriteType::Hd));
    assert!(!map.contains_key(1, SpriteType::Sd));
    // A second value for a key takes the place of the first.
    map.insert(3, SpriteType::Hd, 33);
    assert_eq!(map.len(), 3);
    assert_eq!(map.get(3, SpriteType::Hd), Some(&33));
    assert_eq!(map.position(3, SpriteType::Hd), Some(0));
    assert_eq!(map.key_at(1), (3, SpriteType::Sd));
    assert_eq!(map.value_at(2), &10);
}

#[test]
fn sprite_map_removes_and_clears() {
    let mut map: SpriteMap<u32> = SpriteMap::new();
    map.insert(3, SpriteType::Hd, 30);
    map.insert(3, SpriteType::Sd, 31);
    map.insert(1, SpriteType::Hd, 10);
    assert_eq!(map.remove(3, SpriteType::Sd), Some(31));
    assert_eq!(map.remove(3, SpriteType::Sd), None);
    assert_eq!(map.len(), 2);
    assert_eq!(map.key_at(0), (3, SpriteType::Hd));
    assert_eq!(map.key_at(1), (1, SpriteType::Hd));
    assert_eq!(map.position(1, SpriteType::Hd), Some(1));
    assert_eq!(map.position(3, SpriteType::Sd), None);
    map.clear();
    assert!(map.is_empty());
    assert_eq!(map.get(3, SpriteType::Hd), None);
}
