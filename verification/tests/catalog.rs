use image_sort::catalog::Catalog;

fn names(list: &[&str]) -> Vec<String> {
    list.iter().map(|s| String::from(*s)).collect()
}

#[test]
fn load_filters_a_directory_listing() {
    let c = Catalog::load(names(&["a.png", "b.txt", "c.JPEG"]));
    assert_eq!(c.entries(), &names(&["a.png"]));
}

#[test]
fn peek_head_returns_the_current_image() {
    let c = Catalog::load(names(&["a.png", "b.jpg"]));
    assert_eq!(c.peek_head(), Some(&String::from("a.png")));
}

#[test]
fn peek_head_on_empty_catalog_is_none() {
    let c = Catalog::new();
    assert_eq!(c.peek_head(), None);
}

#[test]
fn pop_head_is_swap_removal() {
    let mut c = Catalog::load(names(&["a.png", "b.jpg", "c.jpg"]));
    let popped = c.pop_head();
    assert_eq!(popped, Some(String::from("a.png")));
    // The last entry moved into position 0: scan order is not preserved.
    assert_eq!(c.entries(), &names(&["c.jpg", "b.jpg"]));
}

#[test]
fn pop_head_on_empty_catalog_is_a_noop() {
    let mut c = Catalog::new();
    assert_eq!(c.pop_head(), None);
    assert!(c.is_empty());
    assert_eq!(c.len(), 0);
}

#[test]
fn push_front_restores_the_head() {
    let mut c = Catalog::load(names(&["b.jpg", "c.jpg"]));
    c.push_front(String::from("a.png"));
    assert_eq!(c.entries(), &names(&["a.png", "b.jpg", "c.jpg"]));
}

#[test]
fn pop_then_push_front_restores_the_multiset() {
    let mut c = Catalog::load(names(&["a.png", "b.jpg", "c.jpg"]));
    let popped = c.pop_head().unwrap();
    c.push_front(popped);
    // Same three paths, head back at index 0; only the tail order moved.
    assert_eq!(c.entries(), &names(&["a.png", "c.jpg", "b.jpg"]));
    let mut sorted = c.entries().clone();
    sorted.sort();
    assert_eq!(sorted, names(&["a.png", "b.jpg", "c.jpg"]));
}
