use yt_music_downloader::commands::{greet, select_folder};

#[test]
fn greeting_names_the_guest() {
    assert_eq!(greet("Ada"), "Hello, Ada! Welcome to YouTube Music Downloader Pro!");
    assert_eq!(greet(""), "Hello, ! Welcome to YouTube Music Downloader Pro!");
}

#[test]
fn folder_is_the_default_one() {
    assert_eq!(select_folder(), Ok("/Users/Downloads".to_string()));
}
