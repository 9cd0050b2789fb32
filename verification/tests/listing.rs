use repo_migrator::api::{Enumerator, Repo};

fn repo(name: &str, fork: bool) -> Repo {
    Repo {
        name: String::from(name),
        full_name: format!("src-org/{}", name),
        clone_url: format!("https://github.com/src-org/{}.git", name),
        description: None,
        private: false,
        fork,
        url: format!("https://api.github.com/repos/src-org/{}", name),
    }
}

#[test]
fn pagination_collects_nonempty_pages_in_order() {
    let mut e = Enumerator::new();
    assert_eq!(e.next_request(), Some(1));
    e.accept_page(vec![repo("a", false), repo("b", false)]);
    assert_eq!(e.next_request(), Some(2));
    e.accept_page(vec![repo("c", true)]);
    assert_eq!(e.next_request(), Some(3));
    e.accept_page(vec![]);
    assert_eq!(e.next_request(), None);
    let names: Vec<String> = e.into_repos().into_iter().map(|r| r.name).collect();
    assert_eq!(names, vec!["a", "b", "c"]);
}

#[test]
fn pagination_stops_only_on_empty_page() {
    // A page smaller than the page size does not end the listing.
    let mut e = Enumerator::new();
    e.accept_page(vec![repo("lone", false)]);
    assert_eq!(e.next_request(), Some(2));
    e.accept_page(vec![]);
    assert_eq!(e.next_request(), None);
    assert_eq!(e.into_repos().len(), 1);
}

#[test]
fn pagination_empty_first_page_yields_nothing() {
    let mut e = Enumerator::new();
    assert_eq!(e.next_request(), Some(1));
    e.accept_page(vec![]);
    assert_eq!(e.next_request(), None);
    assert!(e.into_repos().is_empty());
}

#[test]
fn repo_duplicate_is_exact() {
    let r = repo("a", true);
    let d = r.duplicate();
    assert_eq!(r, d);
}

#[test]
fn should_skip_only_forks_with_flag() {
    assert!(repo("a", true).should_skip(true));
    assert!(!repo("a", false).should_skip(true));
    assert!(!repo("a", true).should_skip(false));
    assert!(!repo("a", false).should_skip(false));
}
