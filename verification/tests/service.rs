use tune_catalog::collect_tunes;
use tune_catalog::is_tune_name;
use tune_catalog::render_songs_json;
use tune_catalog::route;
use tune_catalog::song_path;
use tune_catalog::status_for_asset;
use tune_catalog::status_for_page;
use tune_catalog::tunes_reply;
use tune_catalog::DirListing;
use tune_catalog::FetchOutcome;
use tune_catalog::Route;

fn names(v: &[&str]) -> Vec<String> {
    v.iter().map(|s| s.to_string()).collect()
}

#[test]
fn listing_keeps_only_exact_mp3() {
    let entries = names(&["song1.mp3", "notes.txt", "song2.MP3"]);
    let reply = tunes_reply(DirListing::Entries(entries));
    assert_eq!(reply.status, 200);
    assert_eq!(reply.body, "{\"songs\":[\"song1.mp3\"]}");
}

#[test]
fn missing_directory_lists_nothing() {
    let reply = tunes_reply(DirListing::Missing);
    assert_eq!(reply.status, 200);
    assert_eq!(reply.body, "{\"songs\":[]}");
}

#[test]
fn failed_walk_fails_the_request() {
    let reply = tunes_reply(DirListing::ReadError);
    assert_eq!(reply.status, 500);
    assert_eq!(reply.body, "");
}

#[test]
fn extension_match_is_case_sensitive_and_exact() {
    assert!(is_tune_name("a.mp3"));
    assert!(is_tune_name("a.b.mp3"));
    assert!(is_tune_name("..mp3"));
    assert!(!is_tune_name("song2.MP3"));
    assert!(!is_tune_name(".mp3"));
    assert!(!is_tune_name("mp3"));
    assert!(!is_tune_name("song.mp4"));
    assert!(!is_tune_name("song.mp3.txt"));
    assert!(!is_tune_name(""));
}

#[test]
fn collect_keeps_every_tune_in_listing_order() {
    let entries = names(&["a.mp3", "b.txt", "c.mp3", "d.jpg", "e.mp3"]);
    let songs = collect_tunes(&entries);
    assert_eq!(songs, names(&["a.mp3", "c.mp3", "e.mp3"]));
}

#[test]
fn listing_set_is_the_same_for_any_iteration_order() {
    let one = names(&["a.mp3", "b.txt", "c.mp3", "d.jpg"]);
    let other = names(&["d.jpg", "c.mp3", "b.txt", "a.mp3"]);
    let mut songs_one = collect_tunes(&one);
    let mut songs_other = collect_tunes(&other);
    songs_one.sort();
    songs_other.sort();
    assert_eq!(songs_one, songs_other);
    assert_eq!(songs_one, names(&["a.mp3", "c.mp3"]));
}

#[test]
fn json_escapes_quotes_backslashes_and_controls() {
    let body = render_songs_json(&names(&["a\"b.mp3"]));
    assert_eq!(body, "{\"songs\":[\"a\\\"b.mp3\"]}");
    let body = render_songs_json(&names(&["a\\b.mp3"]));
    assert_eq!(body, "{\"songs\":[\"a\\\\b.mp3\"]}");
    let body = render_songs_json(&names(&["a\nb.mp3", "\u{1f}.mp3"]));
    assert_eq!(body, "{\"songs\":[\"a\\u000ab.mp3\",\"\\u001f.mp3\"]}");
}

#[test]
fn json_lists_several_names_with_commas() {
    let body = render_songs_json(&names(&["a.mp3", "b.mp3", "c.mp3"]));
    assert_eq!(body, "{\"songs\":[\"a.mp3\",\"b.mp3\",\"c.mp3\"]}");
}

#[test]
fn root_path_routes_to_the_home_page() {
    assert!(matches!(route("/"), Route::Home));
}

#[test]
fn tunes_path_routes_to_the_listing() {
    assert!(matches!(route("/tunes"), Route::Listing));
}

#[test]
fn tune_path_routes_to_the_named_song() {
    match route("/tunes/song1.mp3") {
        Route::Song(f) => assert_eq!(f, "song1.mp3"),
        _ => panic!("expected a song route"),
    }
}

#[test]
fn static_paths_route_to_the_asset_responder() {
    match route("/static/css/site.css") {
        Route::Asset(rest) => assert_eq!(rest, "css/site.css"),
        _ => panic!("expected an asset route"),
    }
    match route("/static") {
        Route::Asset(rest) => assert_eq!(rest, ""),
        _ => panic!("expected an asset route"),
    }
    match route("/static/") {
        Route::Asset(rest) => assert_eq!(rest, ""),
        _ => panic!("expected an asset route"),
    }
}

#[test]
fn unbound_paths_have_no_route() {
    assert!(matches!(route(""), Route::NoRoute));
    assert!(matches!(route("/tunes/"), Route::NoRoute));
    assert!(matches!(route("/tunes/a/b"), Route::NoRoute));
    assert!(matches!(route("/tunesx"), Route::NoRoute));
    assert!(matches!(route("/staticx"), Route::NoRoute));
    assert!(matches!(route("/other"), Route::NoRoute));
    assert!(matches!(route("tunes"), Route::NoRoute));
}

#[test]
fn song_path_joins_the_raw_name_verbatim() {
    assert_eq!(song_path("song1.mp3"), "tunes/song1.mp3");
    assert_eq!(song_path("../secret.txt"), "tunes/../secret.txt");
}

#[test]
fn page_routes_treat_denied_as_an_unexpected_io_error() {
    assert_eq!(status_for_page(&FetchOutcome::Found), 200);
    assert_eq!(status_for_page(&FetchOutcome::Missing), 404);
    assert_eq!(status_for_page(&FetchOutcome::Denied), 500);
    assert_eq!(status_for_page(&FetchOutcome::OtherError), 500);
}

#[test]
fn the_asset_route_alone_answers_denied_with_403() {
    assert_eq!(status_for_asset(&FetchOutcome::Found), 200);
    assert_eq!(status_for_asset(&FetchOutcome::Missing), 404);
    assert_eq!(status_for_asset(&FetchOutcome::Denied), 403);
    assert_eq!(status_for_asset(&FetchOutcome::OtherError), 500);
}

#[test]
fn repeating_a_listing_request_repeats_the_reply() {
    let entries = names(&["a.mp3", "b.txt"]);
    let first = tunes_reply(DirListing::Entries(entries.clone()));
    let second = tunes_reply(DirListing::Entries(entries));
    assert_eq!(first.status, second.status);
    assert_eq!(first.body, second.body);
}
