use orca_auth::sort::{Sort, SortTime};

#[test]
fn post_sort() {
    assert_eq!(Sort::Top(SortTime::All).param(), &[("sort", "top"), ("t", "all")])
}

#[test]
fn sort_without_time_window() {
    assert_eq!(Sort::Hot.param(), &[("sort", "hot")]);
    assert_eq!(
        Sort::Controversial(SortTime::Week).param(),
        &[("sort", "controversial"), ("t", "week")]
    );
}
