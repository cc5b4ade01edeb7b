use mousai::song::{Song, Uid};
use mousai::window::history_view::{NavigationHistory, PageKind};

fn new_test_song(id: &str) -> Song {
    Song::new(Uid::from_prefixed("Test", id), "Title".to_string(), "Artist".to_string(), "Album".to_string())
}

fn assert_navigation_stack_n_pages(view: &NavigationHistory, expected_n_pages: usize) {
    assert_eq!(view.n_pages(), expected_n_pages);
}

fn assert_forward_navigation_stack_n_pages(view: &NavigationHistory, expected_n_pages: usize) {
    assert_eq!(view.n_forward_pages(), expected_n_pages);
}

fn assert_visible_main(view: &NavigationHistory) {
    assert_eq!(view.visible_page(), &PageKind::Main);
}

fn assert_visible_recognized(view: &NavigationHistory) {
    assert_eq!(view.visible_page(), &PageKind::Recognized);
}

fn assert_navigation_visible_page_is_song_page_with_id(view: &NavigationHistory, id: &str) {
    assert_eq!(view.visible_page(), &PageKind::Song(Uid::from_prefixed("Test", id)));
}

fn assert_visible_some_song(view: &NavigationHistory) {
    assert!(matches!(view.visible_page(), PageKind::Song(_)));
}

#[test]
fn navigation_simple() {
    let mut view = NavigationHistory::new();

    assert_navigation_stack_n_pages(&view, 1);
    assert_forward_navigation_stack_n_pages(&view, 0);
    assert_visible_main(&view);
    assert!(view.is_on_navigation_main_page());

    view.push_song_page(&mut new_test_song("1"));
    assert_navigation_stack_n_pages(&view, 2);
    assert_forward_navigation_stack_n_pages(&view, 0);
    assert_visible_some_song(&view);
    assert!(!view.is_on_navigation_main_page());

    view.push_recognized_page();
    assert_navigation_stack_n_pages(&view, 3);
    assert_forward_navigation_stack_n_pages(&view, 0);
    assert_visible_recognized(&view);
    assert!(!view.is_on_navigation_main_page());

    // Already on last page, navigating forward should not do anything
    assert!(!view.navigate_forward());
    assert_navigation_stack_n_pages(&view, 3);
    assert_forward_navigation_stack_n_pages(&view, 0);
    assert_visible_recognized(&view);
    assert!(!view.is_on_navigation_main_page());

    assert!(view.pop_page());
    assert_navigation_stack_n_pages(&view, 2);
    assert_forward_navigation_stack_n_pages(&view, 1);
    assert_visible_some_song(&view);
    assert!(!view.is_on_navigation_main_page());

    assert!(view.pop_page());
    assert_navigation_stack_n_pages(&view, 1);
    assert_forward_navigation_stack_n_pages(&view, 2);
    assert_visible_main(&view);
    assert!(view.is_on_navigation_main_page());

    // Already on main navigation page, popping page should not do anything
    assert!(!view.pop_page());
    assert_navigation_stack_n_pages(&view, 1);
    assert_forward_navigation_stack_n_pages(&view, 2);
    assert_visible_main(&view);
    assert!(view.is_on_navigation_main_page());
}

#[test]
fn navigation_pop_and_push() {
    let mut view = NavigationHistory::new();
    assert_navigation_stack_n_pages(&view, 1);
    assert_forward_navigation_stack_n_pages(&view, 0);

    view.push_song_page(&mut new_test_song("1"));
    view.push_song_page(&mut new_test_song("2"));
    view.push_recognized_page();
    assert_navigation_stack_n_pages(&view, 4);
    assert_forward_navigation_stack_n_pages(&view, 0);

    assert!(view.pop_page());
    assert!(view.pop_page());
    assert_navigation_stack_n_pages(&view, 2);
    assert_forward_navigation_stack_n_pages(&view, 2);

    view.push_song_page(&mut new_test_song("3"));
    assert_navigation_stack_n_pages(&view, 3);
    assert_forward_navigation_stack_n_pages(&view, 0);

    assert!(!view.navigate_forward());
    assert_navigation_stack_n_pages(&view, 3);
    assert_forward_navigation_stack_n_pages(&view, 0);
}

#[test]
fn navigation_pop_and_forward() {
    let mut view = NavigationHistory::new();
    assert_navigation_stack_n_pages(&view, 1);
    assert_forward_navigation_stack_n_pages(&view, 0);
    assert_visible_main(&view);

    view.push_song_page(&mut new_test_song("1"));
    view.push_recognized_page();
    view.push_song_page(&mut new_test_song("2"));
    assert_navigation_stack_n_pages(&view, 4);
    assert_forward_navigation_stack_n_pages(&view, 0);
    assert_navigation_visible_page_is_song_page_with_id(&view, "2");

    assert!(view.pop_page());
    assert_navigation_stack_n_pages(&view, 3);
    assert_forward_navigation_stack_n_pages(&view, 1);
    assert_visible_recognized(&view);

    assert!(view.navigate_forward());
    assert_navigation_stack_n_pages(&view, 4);
    assert_forward_navigation_stack_n_pages(&view, 0);
    assert_navigation_visible_page_is_song_page_with_id(&view, "2");

    assert!(!view.navigate_forward());
    assert_navigation_stack_n_pages(&view, 4);
    assert_forward_navigation_stack_n_pages(&view, 0);
    assert_navigation_visible_page_is_song_page_with_id(&view, "2");

    assert!(view.pop_page());
    assert!(view.pop_page());
    assert!(view.pop_page());
    assert_navigation_stack_n_pages(&view, 1);
    assert_forward_navigation_stack_n_pages(&view, 3);
    assert_visible_main(&view);

    assert!(!view.pop_page());
    assert_navigation_stack_n_pages(&view, 1);
    assert_forward_navigation_stack_n_pages(&view, 3);
    assert_visible_main(&view);

    assert!(view.navigate_forward());
    assert_navigation_stack_n_pages(&view, 2);
    assert_forward_navigation_stack_n_pages(&view, 2);
    assert_navigation_visible_page_is_song_page_with_id(&view, "1");

    assert!(view.navigate_forward());
    assert_navigation_stack_n_pages(&view, 3);
    assert_forward_navigation_stack_n_pages(&view, 1);
    assert_visible_recognized(&view);

    assert!(view.navigate_forward());
    assert_navigation_stack_n_pages(&view, 4);
    assert_forward_navigation_stack_n_pages(&view, 0);
    assert_navigation_visible_page_is_song_page_with_id(&view, "2");

    assert!(!view.navigate_forward());
    assert_navigation_stack_n_pages(&view, 4);
    assert_forward_navigation_stack_n_pages(&view, 0);
    assert_navigation_visible_page_is_song_page_with_id(&view, "2");
}

#[test]
fn navigation_complex() {
    let mut view = NavigationHistory::new();

    view.push_song_page(&mut new_test_song("1"));
    view.push_recognized_page();
    view.push_song_page(&mut new_test_song("2"));

    assert!(!view.navigate_forward());
    assert_navigation_visible_page_is_song_page_with_id(&view, "2");

    assert!(view.pop_page());
    assert_visible_recognized(&view);

    assert!(view.navigate_forward());
    assert_navigation_visible_page_is_song_page_with_id(&view, "2");

    assert!(view.pop_page());
    assert_visible_recognized(&view);

    assert!(view.pop_page());
    assert_navigation_visible_page_is_song_page_with_id(&view, "1");

    view.push_song_page(&mut new_test_song("3"));
    assert_navigation_visible_page_is_song_page_with_id(&view, "3");

    assert!(!view.navigate_forward());
    assert_navigation_visible_page_is_song_page_with_id(&view, "3");

    assert!(view.pop_page());
    assert_navigation_visible_page_is_song_page_with_id(&view, "1");

    assert!(view.pop_page());
    assert_visible_main(&view);

    assert!(!view.pop_page());
    assert_visible_main(&view);

    assert!(view.navigate_forward());
    assert_navigation_visible_page_is_song_page_with_id(&view, "1");

    assert!(view.navigate_forward());
    assert_navigation_visible_page_is_song_page_with_id(&view, "3");

    view.push_song_page(&mut new_test_song("2"));
    assert_navigation_visible_page_is_song_page_with_id(&view, "2");

    assert_navigation_stack_n_pages(&view, 4);
    assert_forward_navigation_stack_n_pages(&view, 0);
}

#[test]
fn navigation_push_song_page_same_song_id() {
    let mut view = NavigationHistory::new();
    assert_navigation_stack_n_pages(&view, 1);

    // Added unique song, n pages should increase by 1
    view.push_song_page(&mut new_test_song("1"));
    assert_navigation_stack_n_pages(&view, 2);

    // Added unique song, n pages should increase by 1
    view.push_song_page(&mut new_test_song("2"));
    assert_navigation_stack_n_pages(&view, 3);

    // Added same song as last, n pages should not change
    view.push_song_page(&mut new_test_song("2"));
    assert_navigation_stack_n_pages(&view, 3);

    // Added recognized page, n pages should increase by 1
    view.push_recognized_page();
    assert_navigation_stack_n_pages(&view, 4);

    // Added same song as last, but there is a recognized page in between so
    // n pages should increase by 1
    view.push_song_page(&mut new_test_song("1"));
    assert_navigation_stack_n_pages(&view, 5);

    // Added an already added song, but non adjacent, n pages should increase by 1
    view.push_song_page(&mut new_test_song("2"));
    assert_navigation_stack_n_pages(&view, 6);
}

#[test]
fn navigation_push_recognized_page_with_duplicate() {
    // A second recognized page is refused by the contract of
    // `push_recognized_page`; callers ask `has_recognized_page` first.
    let mut view = NavigationHistory::new();
    assert!(!view.has_recognized_page());
    view.push_recognized_page();
    assert!(view.has_recognized_page());
    view.push_song_page(&mut new_test_song("1"));
    assert!(view.has_recognized_page());
    assert!(view.pop_page());
    assert!(view.pop_page());
    assert!(!view.has_recognized_page());
}

#[test]
fn forward_after_pop_restores_pages() {
    let mut view = NavigationHistory::new();
    view.push_song_page(&mut new_test_song("1"));
    view.push_song_page(&mut new_test_song("2"));
    assert!(view.pop_page());
    assert!(view.navigate_forward());
    assert_navigation_stack_n_pages(&view, 3);
    assert_forward_navigation_stack_n_pages(&view, 0);
    assert_navigation_visible_page_is_song_page_with_id(&view, "2");
}

#[test]
fn push_drops_forward_pages() {
    let mut view = NavigationHistory::new();
    view.push_song_page(&mut new_test_song("1"));
    view.push_song_page(&mut new_test_song("2"));
    assert!(view.pop_page());
    assert!(view.pop_page());
    let dropped = view.push_song_page(&mut new_test_song("3"));
    assert_eq!(
        dropped,
        vec![PageKind::Song(Uid::from_prefixed("Test", "2")), PageKind::Song(Uid::from_prefixed("Test", "1"))]
    );
    assert_forward_navigation_stack_n_pages(&view, 0);
}

#[test]
fn pushing_a_song_page_unsets_newly_heard() {
    let mut view = NavigationHistory::new();
    let mut song = new_test_song("1");
    song.is_newly_heard = true;
    view.push_song_page(&mut song);
    assert!(!song.is_newly_heard);

    // The same song again: nothing changes, the flag included
    song.is_newly_heard = true;
    view.push_song_page(&mut song);
    assert!(song.is_newly_heard);
    assert_eq!(view.n_pages(), 2);
}
