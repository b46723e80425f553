use igdbc::igdb::deserializers::{
    deserialize_artworks, deserialize_cover, deserialize_franchise, deserialize_game_modes,
    deserialize_genres, deserialize_platforms, deserialize_supports_online_multiplayer,
    deserialize_themes, deserialize_unix_timestamp, CoverData, ImageData, MultiplayerMetadata,
    Named,
};

fn named(items: &[&str]) -> Option<Vec<Named>> {
    Some(items.iter().map(|item| Named { name: item.to_string() }).collect())
}

fn strings(items: &[&str]) -> Option<Vec<String>> {
    Some(items.iter().map(|item| item.to_string()).collect())
}

fn modes(items: &[bool]) -> Option<Vec<MultiplayerMetadata>> {
    Some(items.iter().map(|item| MultiplayerMetadata { onlinecoop: *item }).collect())
}

#[test]
fn artworks_give_the_first_address() {
    let artworks = vec![
        ImageData { url: "//images.igdb.com/a.jpg".to_string() },
        ImageData { url: "//images.igdb.com/b.jpg".to_string() },
    ];
    assert_eq!(deserialize_artworks(artworks), Some("//images.igdb.com/a.jpg".to_string()));
}

#[test]
fn single_artwork_gives_its_address() {
    let artworks = vec![ImageData { url: "//images.igdb.com/only.jpg".to_string() }];
    assert_eq!(deserialize_artworks(artworks), Some("//images.igdb.com/only.jpg".to_string()));
}

#[test]
fn no_artworks_give_no_address() {
    assert_eq!(deserialize_artworks(Vec::new()), None);
}

#[test]
fn cover_gives_its_address() {
    let cover = CoverData { url: Some("//images.igdb.com/c.jpg".to_string()) };
    assert_eq!(deserialize_cover(cover), Some("//images.igdb.com/c.jpg".to_string()));
}

#[test]
fn cover_without_address_gives_none() {
    assert_eq!(deserialize_cover(CoverData { url: None }), None);
}

#[test]
fn unix_timestamp_becomes_an_instant() {
    assert_eq!(deserialize_unix_timestamp(Some(1_488_499_200)), Some(1_488_499_200_000));
}

#[test]
fn unix_timestamp_zero_is_the_epoch() {
    assert_eq!(deserialize_unix_timestamp(Some(0)), Some(0));
}

#[test]
fn largest_unix_timestamp_fits() {
    assert_eq!(deserialize_unix_timestamp(Some(u32::MAX)), Some(4_294_967_295_000));
}

#[test]
fn missing_unix_timestamp_stays_missing() {
    assert_eq!(deserialize_unix_timestamp(None), None);
}

#[test]
fn franchise_gives_its_name() {
    let franchise = Some(Named { name: "Metroid".to_string() });
    assert_eq!(deserialize_franchise(franchise), Some("Metroid".to_string()));
}

#[test]
fn missing_franchise_stays_missing() {
    assert_eq!(deserialize_franchise(None), None);
}

#[test]
fn platforms_give_their_names_in_order() {
    assert_eq!(deserialize_platforms(named(&["Switch", "PC", "Switch"])), strings(&["Switch", "PC", "Switch"]));
    assert_eq!(deserialize_platforms(None), None);
    assert_eq!(deserialize_platforms(named(&[])), strings(&[]));
}

#[test]
fn genres_give_their_names_in_order() {
    assert_eq!(deserialize_genres(named(&["Shooter", "Puzzle"])), strings(&["Shooter", "Puzzle"]));
    assert_eq!(deserialize_genres(None), None);
}

#[test]
fn game_modes_give_their_names_in_order() {
    assert_eq!(deserialize_game_modes(named(&["Co-operative", "Single player"])), strings(&["Co-operative", "Single player"]));
    assert_eq!(deserialize_game_modes(None), None);
}

#[test]
fn themes_give_their_names_in_order() {
    assert_eq!(deserialize_themes(named(&["Horror"])), strings(&["Horror"]));
    assert_eq!(deserialize_themes(None), None);
}

#[test]
fn online_if_any_mode_is_online() {
    assert_eq!(deserialize_supports_online_multiplayer(modes(&[false, true, false])), Some(true));
    assert_eq!(deserialize_supports_online_multiplayer(modes(&[true])), Some(true));
    assert_eq!(deserialize_supports_online_multiplayer(modes(&[false, false, true])), Some(true));
}

#[test]
fn not_online_if_no_mode_is_online() {
    assert_eq!(deserialize_supports_online_multiplayer(modes(&[false, false])), Some(false));
}

#[test]
fn not_online_without_any_mode() {
    assert_eq!(deserialize_supports_online_multiplayer(modes(&[])), Some(false));
}

#[test]
fn online_unknown_without_a_list_of_modes() {
    assert_eq!(deserialize_supports_online_multiplayer(None), None);
}
