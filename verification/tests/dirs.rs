use swapi::dirs::db_root_path;
use swapi::dirs::default_data_path;
use swapi::dirs::replace_home;
use swapi::dirs::Directories;
use swapi::dirs::AUTHOR;
use swapi::dirs::DB;
use swapi::dirs::FALLBACK;
use swapi::dirs::PRODUCT;

#[test]
fn names_under_which_the_data_is_filed() {
    assert_eq!(AUTHOR, "mmacedoeu");
    assert_eq!(PRODUCT, "swapi");
    assert_eq!(FALLBACK, "$HOME/.swapi");
    assert_eq!(DB, "db");
}

#[test]
fn data_path_is_the_platforms_or_the_fallback() {
    assert_eq!(default_data_path(Some(String::from("/home/u/.local/share/swapi"))), "/home/u/.local/share/swapi");
    assert_eq!(default_data_path(None), "$HOME/.swapi");
}

#[test]
fn home_and_base_are_filled_in() {
    assert_eq!(replace_home("/data", "$HOME/.swapi", "/home/u", "/"), "/home/u/.swapi");
    assert_eq!(replace_home("/data", "$BASE/db", "/home/u", "/"), "/data/db");
    assert_eq!(replace_home("/data", "$BASE", "/home/u", "/"), "/data");
    assert_eq!(replace_home("/data", "$HOME:$BASE:$HOME", "/h", "/"), "/h:/data:/h");
    assert_eq!(replace_home("/data", "plain", "/home/u", "/"), "plain");
    assert_eq!(replace_home("/data", "", "/home/u", "/"), "");
}

#[test]
fn separators_are_the_platforms() {
    assert_eq!(replace_home("C:/data", "$BASE/db", "C:/Users/u", "\\"), "C:\\data\\db");
    assert_eq!(replace_home("/data", "$HOME/a/b", "/home/u", "\\"), "\\home\\u\\a\\b");
}

#[test]
fn home_is_filled_in_before_base() {
    // A home directory that holds the word for the base has it filled in too.
    assert_eq!(replace_home("/data", "$HOME", "/x/$BASE", "/"), "/x//data");
    // A base that holds the word for the home is left as it is.
    assert_eq!(replace_home("/x/$HOME", "$BASE", "/home/u", "/"), "/x/$HOME");
}

#[test]
fn occurrences_are_taken_from_the_left() {
    assert_eq!(replace_home("b", "$$BASE$BASE", "h", "/"), "$bb");
    assert_eq!(replace_home("b", "$BAS$BASE", "h", "/"), "$BASb");
}

#[test]
fn store_is_in_db_under_the_data_directory() {
    let sep = std::path::MAIN_SEPARATOR;
    assert_eq!(db_root_path("swapi"), format!("swapi{}db", sep));
    assert_eq!(db_root_path(&format!("swapi{}", sep)), format!("swapi{}db", sep));
    assert_eq!(db_root_path(""), "db");
}

#[test]
fn directories_of_a_data_directory() {
    let sep = std::path::MAIN_SEPARATOR.to_string();
    let dirs = Directories::resolve("share/swapi", "/home/u", &sep);
    assert_eq!(dirs.base, format!("share{}swapi", sep));
    assert_eq!(dirs.db, format!("share{}swapi{}db", sep, sep));
}

#[test]
fn store_goes_where_the_command_line_puts_it() {
    let dirs = Directories { base: String::from("/data"), db: String::from("/data/db") };
    let moved = dirs.with_db(Some(String::from("/tmp/planets")));
    assert_eq!(moved, Directories { base: String::from("/data"), db: String::from("/tmp/planets") });
    let kept = moved.with_db(None);
    assert_eq!(kept.db, "/tmp/planets");
    assert_eq!(kept.base, "/data");
}
