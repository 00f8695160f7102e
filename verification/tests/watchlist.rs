use movie_watchlist::movie::Movie;
use movie_watchlist::watchlist::Watchlist;

fn movie(year: u32, watched: bool, title: &str) -> Movie {
    Movie { year, watched, movie: String::from(title) }
}

fn three() -> Vec<Movie> {
    vec![movie(2010, false, "A"), movie(1999, true, "B"), movie(2020, true, "C")]
}

#[test]
fn new_list_starts_on_the_first_row() {
    let list = Watchlist::new(three());
    assert_eq!(list.selected(), 0);
    assert_eq!(list.movies(), &three());
}

#[test]
fn next_steps_down_one_row() {
    let mut list = Watchlist::new(three());
    assert!(list.next());
    assert_eq!(list.selected(), 1);
    assert!(list.next());
    assert_eq!(list.selected(), 2);
}

#[test]
fn next_wraps_from_the_last_row_to_the_first() {
    let mut list = Watchlist::new(three());
    list.next();
    list.next();
    assert_eq!(list.selected(), 2);
    list.next();
    assert_eq!(list.selected(), 0);
}

#[test]
fn next_as_often_as_there_are_rows_comes_back() {
    for start in 0..3 {
        let mut list = Watchlist::new(three());
        for _ in 0..start {
            list.next();
        }
        assert_eq!(list.selected(), start);
        for _ in 0..3 {
            list.next();
        }
        assert_eq!(list.selected(), start);
    }
}

#[test]
fn previous_from_the_first_row_lands_on_the_last() {
    let mut list = Watchlist::new(three());
    assert!(list.previous());
    assert_eq!(list.selected(), 2);
}

#[test]
fn previous_steps_up_one_row() {
    let mut list = Watchlist::new(three());
    list.next();
    list.next();
    list.previous();
    assert_eq!(list.selected(), 1);
    list.previous();
    assert_eq!(list.selected(), 0);
}

#[test]
fn previous_undoes_next() {
    for start in 0..3 {
        let mut list = Watchlist::new(three());
        for _ in 0..start {
            list.next();
        }
        list.next();
        list.previous();
        assert_eq!(list.selected(), start);
        list.previous();
        list.next();
        assert_eq!(list.selected(), start);
    }
}

#[test]
fn navigation_on_one_row_stays_there() {
    let mut list = Watchlist::new(vec![movie(1994, false, "Pulp Fiction")]);
    list.next();
    assert_eq!(list.selected(), 0);
    list.previous();
    assert_eq!(list.selected(), 0);
}

#[test]
fn navigation_leaves_the_records_alone() {
    let mut list = Watchlist::new(three());
    list.next();
    list.previous();
    list.previous();
    assert_eq!(list.movies(), &three());
}

#[test]
fn toggle_flips_the_record_under_the_cursor_only() {
    let mut list = Watchlist::new(three());
    list.next();
    assert!(list.toggle_current());
    assert_eq!(
        list.movies(),
        &vec![movie(2010, false, "A"), movie(1999, false, "B"), movie(2020, true, "C")]
    );
    assert_eq!(list.selected(), 1);
}

#[test]
fn toggle_twice_restores_the_flag() {
    for row in 0..3 {
        let mut list = Watchlist::new(three());
        for _ in 0..row {
            list.next();
        }
        let before = list.movies()[row].watched;
        list.toggle_current();
        assert_eq!(list.movies()[row].watched, !before);
        list.toggle_current();
        assert_eq!(list.movies()[row].watched, before);
        assert_eq!(list.movies(), &three());
    }
}

#[test]
fn empty_list_stays_empty() {
    let mut list = Watchlist::new(Vec::new());
    assert!(!list.toggle_current());
    assert!(!list.next());
    assert!(!list.previous());
    assert!(list.movies().is_empty());
    assert_eq!(list.selected(), 0);
    assert_eq!(list.stats(), (0, 0));
}

#[test]
fn stats_count_watched_and_all() {
    let list = Watchlist::new(three());
    assert_eq!(list.stats(), (2, 3));
}

#[test]
fn stats_follow_a_toggle() {
    let mut list = Watchlist::new(three());
    list.toggle_current();
    assert_eq!(list.stats(), (3, 3));
    list.toggle_current();
    assert_eq!(list.stats(), (2, 3));
}

#[test]
fn stats_with_nothing_watched() {
    let list = Watchlist::new(vec![movie(1, false, ""), movie(2, false, "")]);
    assert_eq!(list.stats(), (0, 2));
}

#[test]
fn equal_records_may_stand_twice() {
    let mut list = Watchlist::new(vec![movie(1994, false, "Pulp Fiction"), movie(1994, false, "Pulp Fiction")]);
    list.next();
    list.toggle_current();
    assert!(!list.movies()[0].watched);
    assert!(list.movies()[1].watched);
    assert_eq!(list.stats(), (1, 2));
}
