use yt_music_downloader::ident::has_identifier_shape;

#[test]
fn identifier_shape_is_checked() {
    assert!(has_identifier_shape("123e4567-e89b-42d3-a456-426614174000"));
    assert!(has_identifier_shape("00000000-0000-4000-8000-000000000000"));
    assert!(has_identifier_shape("ffffffff-ffff-4fff-bfff-ffffffffffff"));
    assert!(!has_identifier_shape(""));
    assert!(!has_identifier_shape("123e4567-e89b-12d3-a456-426614174000"));
    assert!(!has_identifier_shape("123e4567-e89b-42d3-c456-426614174000"));
    assert!(!has_identifier_shape("123E4567-E89B-42D3-A456-426614174000"));
    assert!(!has_identifier_shape("123e4567e89b42d3a456426614174000"));
    assert!(!has_identifier_shape("123e4567-e89b-42d3-a456-4266141740000"));
    assert!(!has_identifier_shape("123e4567-e89b-42d3-a456-42661417400"));
    assert!(!has_identifier_shape("123e4567+e89b-42d3-a456-426614174000"));
    assert!(!has_identifier_shape("123e4567-e89b-42d3-a456-42661417400g"));
    assert!(!has_identifier_shape("123e4567-e89b-42d3-a456-42661417400\u{e9}"));
}

#[test]
fn drawn_identifiers_have_the_shape() {
    for _ in 0..2000 {
        let drawn = uuid::Uuid::new_v4().to_string();
        assert!(has_identifier_shape(&drawn), "{}", drawn);
    }
}

#[test]
fn identifiers_of_other_versions_do_not() {
    let nil = uuid::Uuid::nil().to_string();
    assert!(!has_identifier_shape(&nil));
    let shouted = uuid::Uuid::new_v4().to_string().to_uppercase();
    assert_eq!(has_identifier_shape(&shouted), shouted == shouted.to_lowercase());
}
