use movie_watchlist::app::App;
use movie_watchlist::movie::Movie;
use movie_watchlist::storage::{load_from_file, LoadOutcome};

fn film(year: u32, watched: bool, title: &str) -> Movie {
    Movie { year, watched, movie: String::from(title) }
}

#[test]
fn missing_file_gives_an_empty_list_without_complaint() {
    let loaded = load_from_file(LoadOutcome::Missing);
    assert!(loaded.movies.is_empty());
    assert_eq!(loaded.diagnostic, None);
}

#[test]
fn unreadable_file_gives_an_empty_list_and_says_why() {
    let loaded = load_from_file(LoadOutcome::Unreadable(String::from("Permission denied (os error 13)")));
    assert!(loaded.movies.is_empty());
    assert_eq!(
        loaded.diagnostic,
        Some(String::from("Error reading file: Permission denied (os error 13)"))
    );
}

#[test]
fn malformed_file_gives_an_empty_list_and_says_why() {
    let loaded = load_from_file(LoadOutcome::Malformed(String::from("expected value at line 1 column 1")));
    assert!(loaded.movies.is_empty());
    assert_eq!(
        loaded.diagnostic,
        Some(String::from("Error parsing JSON: expected value at line 1 column 1"))
    );
}

#[test]
fn parsed_file_gives_its_records_in_order() {
    let records = vec![film(2010, false, "A"), film(1999, true, "B"), film(2020, true, "C")];
    let loaded = load_from_file(LoadOutcome::Parsed(records.clone()));
    assert_eq!(loaded.movies, records);
    assert_eq!(loaded.diagnostic, None);
}

#[test]
fn parsed_empty_file_gives_no_records() {
    let loaded = load_from_file(LoadOutcome::Parsed(Vec::new()));
    assert!(loaded.movies.is_empty());
    assert_eq!(loaded.diagnostic, None);
}

#[test]
fn program_starts_on_a_malformed_file() {
    let loaded = load_from_file(LoadOutcome::Malformed(String::from("EOF while parsing a list")));
    let mut app = App::new("movies.json", loaded.movies);
    assert_eq!(app.get_stats(), (0, 0));
    app.next();
    app.previous();
    assert!(!app.toggle_current());
    assert!(app.watchlist.movies().is_empty());
}
