use vm_core::map_info::{can_read_pair, map_info_pair};

/// A `/map_info` snapshot as the game serves it: no space after the commas.
const MAP_INFO_MOCK: &str = "{\"grid_size\": [57584.11328125,64194.1953125],\"grid_steps\": [6400.0,6400.0],\"grid_zero\": [-24816.11328125,31426.1953125],\"hud_type\": 0,\"map_generation\": 9,\"map_max\": [32768.0,32768.0],\"map_min\": [-32768.0,-32768.0],\"valid\": true}";

/// The same snapshot with a space after each comma.
const MAP_INFO_DEFAULT: &str = "{\"grid_size\": [57584.11328125, 64194.1953125], \"grid_steps\": [6400.0, 6400.0], \"grid_zero\": [-24816.11328125, 31426.1953125], \"hud_type\": 0, \"map_generation\": 9, \"map_max\": [32768.0, 32768.0], \"map_min\": [-32768.0, -32768.0], \"valid\": true}";

fn pair(s: &str, key: &str) -> Option<(String, String)> {
    assert!(can_read_pair(s, key));
    map_info_pair(s, key)
}

fn texts(x: &str, y: &str) -> Option<(String, String)> {
    Some((x.to_string(), y.to_string()))
}

#[test]
fn get_map_info_parser_array_missing_key_returns_zeros() {
    assert_eq!(pair("{\"foo\": [1.0, 2.0]}", "grid_steps"), None);
}

#[test]
fn compact_pairs_lose_their_first_characters() {
    // x always loses its first character; without a space after the comma
    // y loses its first character too, and y always loses its last one
    assert_eq!(pair(MAP_INFO_MOCK, "grid_steps"), texts("400.0", "400."));
    assert_eq!(pair(MAP_INFO_MOCK, "grid_zero"), texts("24816.11328125", "1426.195312"));
    assert_eq!(pair(MAP_INFO_MOCK, "map_max"), texts("2768.0", "2768."));
    assert_eq!(pair(MAP_INFO_MOCK, "map_min"), texts("32768.0", "32768."));
}

#[test]
fn spaced_pairs_keep_y_whole_but_its_last_character() {
    assert_eq!(pair(MAP_INFO_DEFAULT, "grid_steps"), texts("400.0", "6400."));
    assert_eq!(pair(MAP_INFO_DEFAULT, "grid_zero"), texts("24816.11328125", "31426.195312"));
    assert_eq!(pair(MAP_INFO_DEFAULT, "map_max"), texts("2768.0", "32768."));
    assert_eq!(pair(MAP_INFO_DEFAULT, "map_min"), texts("32768.0", "-32768."));
}

#[test]
fn unreadable_pairs_are_refused() {
    // no `]` after the comma
    assert!(!can_read_pair("{\"a\": [1.5,2.5", "a"));
    // no comma after the colon
    assert!(!can_read_pair("{\"a\": [1.5]", "a"));
    // x would start after its end
    assert!(!can_read_pair("{\"a\": [,2.5]", "a"));
    // y would start after its end
    assert!(!can_read_pair("{\"a\": [1.5,2]", "a"));
    assert!(can_read_pair("{\"a\": [1.5,2.5]", "b"));
}

#[test]
fn short_values_give_empty_texts() {
    assert_eq!(pair("{\"a\": [1,345]}", "a"), texts("", "4"));
    assert_eq!(pair("{\"a\": [12,345]}", "a"), texts("2", "4"));
}
