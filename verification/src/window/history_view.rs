//! The navigation history of the history view: a back stack of pages with
//! the main page at its bottom, and a stack of pages to go forward to.
use vstd::prelude::*;

use crate::recognizer::recording::Recording;
use crate::song::{same_song, Song, Uid};
use crate::text::str_eq;

verus! {

/// The kinds of page the history view navigates between.
#[derive(Debug, PartialEq, Eq)]
pub enum PageKind {
    /// The page that lists the history.
    Main,
    /// The page of the song with the given identifier.
    Song(Uid),
    /// The page of the songs of the last recognition.
    Recognized,
}

/// A page kind, with a song page's identifier taken as its two texts:
/// the service's name and the service's own identifier.
pub enum PageView {
    Main,
    Song(Seq<char>, Seq<char>),
    Recognized,
}

/// What a page is, seen from outside.
pub open spec fn page_view(page: PageKind) -> PageView {
    match page {
        PageKind::Main => PageView::Main,
        PageKind::Song(id) => PageView::Song(id.prefix@, id.value@),
        PageKind::Recognized => PageView::Recognized,
    }
}

/// The pages of `pages`, seen from outside.
pub open spec fn pages_view(pages: Seq<PageKind>) -> Seq<PageView> {
    pages.map_values(|p: PageKind| page_view(p))
}

/// Whether any page of `pages` is a recognized page.
pub open spec fn has_recognized(pages: Seq<PageView>) -> bool {
    exists|i: int| 0 <= i < pages.len() && #[trigger] pages[i] == PageView::Recognized
}

/// The pages as a navigation view holds them: the back stack, whose top
/// is the visible page, and the pages popped from it that one can go
/// forward to again, the next one last.
pub struct NavigationHistory {
    stack: Vec<PageKind>,
    forward: Vec<PageKind>,
}

impl View for NavigationHistory {
    /// The back stack, bottom first, and the forward stack, the next page last.
    type V = (Seq<PageView>, Seq<PageView>);

    closed spec fn view(&self) -> Self::V {
        (pages_view(self.stack@), pages_view(self.forward@))
    }
}

/// The main page is at the bottom of the back stack and nowhere else.
pub open spec fn is_navigation(stack: Seq<PageView>, forward: Seq<PageView>) -> bool {
    &&& stack.len() >= 1
    &&& stack[0] == PageView::Main
    &&& forall|i: int| 1 <= i < stack.len() ==> !(#[trigger] stack[i] is Main)
    &&& forall|i: int| 0 <= i < forward.len() ==> !(#[trigger] forward[i] is Main)
}

/// The back and forward stacks after the visible page is popped, if it is
/// not the main page.
pub open spec fn after_pop(v: (Seq<PageView>, Seq<PageView>)) -> (Seq<PageView>, Seq<PageView>) {
    if v.0.len() > 1 {
        (v.0.drop_last(), v.1.push(v.0.last()))
    } else {
        v
    }
}

/// The back and forward stacks after the page last popped is pushed back,
/// if there is one.
pub open spec fn after_forward(v: (Seq<PageView>, Seq<PageView>)) -> (Seq<PageView>, Seq<PageView>) {
    if v.1.len() > 0 {
        (v.0.push(v.1.last()), v.1.drop_last())
    } else {
        v
    }
}

/// Going forward after a pop shows again what was shown before, with the
/// same pages to go forward to.
pub proof fn forward_undoes_pop(v: (Seq<PageView>, Seq<PageView>))
    requires
        is_navigation(v.0, v.1),
        v.0.len() > 1,
    ensures
        after_forward(after_pop(v)) == v,
{
    assert(after_forward(after_pop(v)).0 =~= v.0);
    assert(after_forward(after_pop(v)).1 =~= v.1);
}

/// Popping after going forward returns to where one was.
pub proof fn pop_undoes_forward(v: (Seq<PageView>, Seq<PageView>))
    requires
        is_navigation(v.0, v.1),
        v.1.len() > 0,
    ensures
        after_pop(after_forward(v)) == v,
{
    assert(after_pop(after_forward(v)).0 =~= v.0);
    assert(after_pop(after_forward(v)).1 =~= v.1);
}

/// Popping and going forward move pages between the two stacks: no page
/// is lost or made, and the main page stays alone at the bottom.
pub proof fn pop_and_forward_keep_pages(v: (Seq<PageView>, Seq<PageView>))
    requires
        is_navigation(v.0, v.1),
    ensures
        is_navigation(after_pop(v).0, after_pop(v).1),
        is_navigation(after_forward(v).0, after_forward(v).1),
        after_pop(v).0.len() + after_pop(v).1.len() == v.0.len() + v.1.len(),
        after_forward(v).0.len() + after_forward(v).1.len() == v.0.len() + v.1.len(),
        after_pop(v).0[0] == PageView::Main,
        after_forward(v).0[0] == PageView::Main,
{
}

impl NavigationHistory {
    /// The history is a navigation: the main page at the bottom and
    /// nowhere else.
    pub open spec fn wf(self) -> bool {
        is_navigation(self@.0, self@.1)
    }

    /// Only the main page, with nothing to go forward to.
    pub fn new() -> (r: Self)
        ensures
            r.wf(),
            r@.0 == seq![PageView::Main],
            r@.1 == Seq::<PageView>::empty(),
    {
        let mut stack = Vec::new();
        stack.push(PageKind::Main);
        let r = NavigationHistory { stack, forward: Vec::new() };
        assert(pages_view(r.stack@) =~= seq![PageView::Main]);
        assert(pages_view(r.forward@) =~= Seq::<PageView>::empty());
        r
    }

    /// The page on top of the back stack.
    pub fn visible_page(&self) -> (r: &PageKind)
        requires
            self.wf(),
        ensures
            page_view(*r) == self@.0.last(),
    {
        &self.stack[self.stack.len() - 1]
    }

    /// Whether the main page is the one shown.
    pub fn is_on_navigation_main_page(&self) -> (r: bool)
        requires
            self.wf(),
        ensures
            r == (self@.0.len() == 1),
    {
        self.stack.len() == 1
    }

    /// How many pages the back stack holds.
    pub fn n_pages(&self) -> (r: usize)
        ensures
            r == self@.0.len(),
    {
        self.stack.len()
    }

    /// How many pages one can go forward to.
    pub fn n_forward_pages(&self) -> (r: usize)
        ensures
            r == self@.1.len(),
    {
        self.forward.len()
    }

    /// Pushes a new page; the pages one could go forward to are dropped and
    /// returned, so that they can be released.
    fn push_new(&mut self, kind: PageKind) -> (dropped: Vec<PageKind>)
        requires
            old(self).wf(),
            !(kind is Main),
        ensures
            final(self).wf(),
            final(self)@.0 == old(self)@.0.push(page_view(kind)),
            final(self)@.1 == Seq::<PageView>::empty(),
            pages_view(dropped@) == old(self)@.1,
    {
        self.stack.push(kind);
        let mut dropped = Vec::new();
        std::mem::swap(&mut dropped, &mut self.forward);
        proof {
            assert(pages_view(self.stack@) =~= pages_view(old(self).stack@).push(page_view(kind)));
            assert(pages_view(self.forward@) =~= Seq::<PageView>::empty());
        }
        dropped
    }

    /// Pushes the page of `song`, unless the visible page is already that
    /// song's page. The user is then aware of the song, so it is no longer
    /// newly heard. Returns the pages that can no longer be gone forward to.
    pub fn push_song_page(&mut self, song: &mut Song) -> (dropped: Vec<PageKind>)
        requires
            old(self).wf(),
        ensures
            final(self).wf(),
            if old(self)@.0.last() == PageView::Song(old(song).id.prefix@, old(song).id.value@) {
                &&& final(self)@ == old(self)@
                &&& dropped@.len() == 0
                &&& *final(song) == *old(song)
            } else {
                &&& final(self)@.0 == old(self)@.0.push(PageView::Song(old(song).id.prefix@, old(song).id.value@))
                &&& final(self)@.1.len() == 0
                &&& pages_view(dropped@) == old(self)@.1
                &&& *final(song) == (Song { is_newly_heard: false, ..*old(song) })
            },
    {
        // Return if the last page is a song page and its song is the same as the given song
        let last = self.stack.len() - 1;
        let same = match &self.stack[last] {
            PageKind::Song(id) => str_eq(id.prefix.as_str(), song.id.prefix.as_str()) && str_eq(
                id.value.as_str(),
                song.id.value.as_str(),
            ),
            _ => false,
        };
        if same {
            return Vec::new();
        }
        let id = Uid { prefix: song.id.prefix.clone(), value: song.id.value.clone() };
        let dropped = self.push_new(PageKind::Song(id));

        // User is already aware of the newly recognized song, so unset it.
        song.is_newly_heard = false;
        dropped
    }

    /// Pushes the page of the recognized songs. Returns the pages that can
    /// no longer be gone forward to.
    pub fn push_recognized_page(&mut self) -> (dropped: Vec<PageKind>)
        requires
            old(self).wf(),
            // there must not be already a recognized page on the navigation stack
            !has_recognized(old(self)@.0),
        ensures
            final(self).wf(),
            final(self)@.0 == old(self)@.0.push(PageView::Recognized),
            final(self)@.1.len() == 0,
            pages_view(dropped@) == old(self)@.1,
    {
        self.push_new(PageKind::Recognized)
    }

    /// Whether a recognized page is on the back stack.
    pub fn has_recognized_page(&self) -> (r: bool)
        ensures
            r == has_recognized(self@.0),
    {
        let mut i: usize = 0;
        while i < self.stack.len()
            invariant
                i <= self.stack@.len(),
                forall|j: int| 0 <= j < i ==> !(#[trigger] self.stack@[j] is Recognized),
            decreases self.stack.len() - i,
        {
            if let PageKind::Recognized = self.stack[i] {
                assert(pages_view(self.stack@)[i as int] == PageView::Recognized);
                return true;
            }
            i = i + 1;
        }
        assert forall|j: int| 0 <= j < self@.0.len() implies #[trigger] self@.0[j] != PageView::Recognized by {
            assert(!(self.stack@[j] is Recognized));
        }
        false
    }

    /// Pops the visible page onto the forward stack. Returns true if a page
    /// has been popped, which the main page never is.
    pub fn pop_page(&mut self) -> (popped: bool)
        requires
            old(self).wf(),
        ensures
            final(self).wf(),
            popped == (old(self)@.0.len() > 1),
            final(self)@ == after_pop(old(self)@),
    {
        if self.stack.len() <= 1 {
            return false;
        }
        let page = self.stack.pop().unwrap();
        self.forward.push(page);
        proof {
            assert(pages_view(self.stack@) =~= pages_view(old(self).stack@).drop_last());
            assert(pages_view(self.forward@) =~= pages_view(old(self).forward@).push(
                pages_view(old(self).stack@).last(),
            ));
        }
        true
    }

    /// Pushes back the page last popped. Returns true if there was one.
    pub fn navigate_forward(&mut self) -> (pushed: bool)
        requires
            old(self).wf(),
        ensures
            final(self).wf(),
            pushed == (old(self)@.1.len() > 0),
            final(self)@ == after_forward(old(self)@),
    {
        match self.forward.pop() {
            Some(page) => {
                self.stack.push(page);
                proof {
                    assert(pages_view(self.forward@) =~= pages_view(old(self).forward@).drop_last());
                    assert(pages_view(self.stack@) =~= pages_view(old(self).stack@).push(
                        pages_view(old(self).forward@).last(),
                    ));
                }
                true
            },
            None => false,
        }
    }
}

/// What the content area of the history shows.
#[derive(Debug, Clone, Copy, PartialEq, Eq, Structural)]
pub enum ContentPage {
    /// A search that matches nothing.
    EmptySearchResult,
    /// No song in the history.
    Empty,
    /// The songs.
    Main,
}

/// Decides what the content area shows: `n_filtered` is how many songs
/// match the search and `n_songs` how many the history holds, `None`
/// where the list is gone, which counts as empty.
pub fn content_page(n_filtered: Option<usize>, n_songs: Option<usize>, search_text_is_empty: bool) -> (r: ContentPage)
    ensures
        r == if (n_filtered matches Some(n) ==> n == 0) && !search_text_is_empty {
            ContentPage::EmptySearchResult
        } else if (n_songs matches Some(n) ==> n == 0) && search_text_is_empty {
            ContentPage::Empty
        } else {
            ContentPage::Main
        },
{
    let no_match = match n_filtered {
        Some(n) => n == 0,
        None => true,
    };
    let no_song = match n_songs {
        Some(n) => n == 0,
        None => true,
    };
    if no_match && !search_text_is_empty {
        ContentPage::EmptySearchResult
    } else if no_song && search_text_is_empty {
        ContentPage::Empty
    } else {
        ContentPage::Main
    }
}

/// What the selection mode's controls show for a selection of
/// `selection_size` songs: whether copying and removing are enabled, and
/// the untranslated label of the menu button with its plural form and
/// count, the label being "Select items" for an empty selection.
#[derive(Debug, Clone, Copy, PartialEq, Eq)]
pub struct SelectionUi {
    pub can_copy: bool,
    pub can_remove: bool,
    pub label: Option<(&'static str, &'static str, u64)>,
    pub copy_tooltip: (&'static str, &'static str),
    pub remove_tooltip: (&'static str, &'static str),
}

/// Decides what the selection mode's controls show.
pub fn selection_ui(selection_size: u64) -> (r: SelectionUi)
    ensures
        r.can_copy == (selection_size != 0),
        r.can_remove == (selection_size != 0),
        selection_size == 0 ==> r.label is None,
        selection_size != 0 ==> (r.label matches Some((one, many, n)) && n == selection_size
            && one@ == "Selected {selection_size} song"@ && many@ == "Selected {selection_size} songs"@),
        r.copy_tooltip.0@ == "Copy Song"@ && r.copy_tooltip.1@ == "Copy Songs"@,
        r.remove_tooltip.0@ == "Remove Song From History"@ && r.remove_tooltip.1@ == "Remove Songs From History"@,
{
    SelectionUi {
        can_copy: selection_size != 0,
        can_remove: selection_size != 0,
        label: if selection_size == 0 {
            None
        } else {
            // Translators: Do NOT translate the contents between '{' and '}', this is a variable name.
            Some(("Selected {selection_size} song", "Selected {selection_size} songs", selection_size))
        },
        copy_tooltip: ("Copy Song", "Copy Songs"),
        remove_tooltip: ("Remove Song From History", "Remove Songs From History"),
    }
}

/// The songs of the recognized recordings taken out, in order; failures
/// are left out.
pub open spec fn songs_of(taken: Seq<Recording>) -> Seq<Song>
    decreases taken.len(),
{
    if taken.len() == 0 {
        Seq::empty()
    } else {
        match taken.last().spec_recognize_result() {
            Some(Ok(song)) => songs_of(taken.drop_last()).push(song),
            _ => songs_of(taken.drop_last()),
        }
    }
}

/// How many of the taken recordings hold a song.
pub open spec fn count_song_results(taken: Seq<Recording>) -> nat
    decreases taken.len(),
{
    if taken.len() == 0 {
        0
    } else {
        count_song_results(taken.drop_last()) + if taken.last().spec_recognize_result() is Some
            && taken.last().spec_recognize_result()->0 is Ok {
            1nat
        } else {
            0nat
        }
    }
}

proof fn lemma_songs_len(taken: Seq<Recording>)
    ensures
        songs_of(taken).len() == count_song_results(taken),
    decreases taken.len(),
{
    if taken.len() > 0 {
        lemma_songs_len(taken.drop_last());
    }
}

proof fn lemma_songs_prefix(taken: Seq<Recording>, j: int)
    requires
        0 <= j <= taken.len(),
    ensures
        songs_of(taken.take(j)).len() <= songs_of(taken).len(),
        forall|m: int| 0 <= m < songs_of(taken.take(j)).len() ==> songs_of(taken)[m] == songs_of(taken.take(j))[m],
    decreases taken.len(),
{
    if j == taken.len() {
        assert(taken.take(j) =~= taken);
    } else {
        let d = taken.drop_last();
        assert(taken.take(j) =~= d.take(j));
        lemma_songs_prefix(d, j);
    }
}

/// The songs shown from the recognized recordings are exactly those of
/// the recordings whose result is a song, in order: there are as many as
/// such recordings, and the song of each one sits after the songs of those
/// before it, whatever failures come first.
pub proof fn every_song_result_is_shown(taken: Seq<Recording>)
    ensures
        songs_of(taken).len() == count_song_results(taken),
        forall|i: int|
            0 <= i < taken.len() && #[trigger] taken[i].spec_recognize_result() is Some
                && taken[i].spec_recognize_result()->0 is Ok ==> songs_of(taken)[count_song_results(taken.take(i)) as int]
                == taken[i].spec_recognize_result()->0->Ok_0,
{
    lemma_songs_len(taken);
    assert forall|i: int|
        0 <= i < taken.len() && #[trigger] taken[i].spec_recognize_result() is Some
            && taken[i].spec_recognize_result()->0 is Ok implies songs_of(taken)[count_song_results(taken.take(i)) as int]
        == taken[i].spec_recognize_result()->0->Ok_0 by {
        let t1 = taken.take(i + 1);
        assert(t1.drop_last() =~= taken.take(i));
        assert(t1.last() == taken[i]);
        lemma_songs_len(taken.take(i));
        lemma_songs_prefix(taken, i + 1);
    }
}

/// The songs to show from the recognized recordings taken out.
pub fn recognized_songs(taken: Vec<Recording>) -> (r: Vec<Song>)
    ensures
        r@.len() == songs_of(taken@).len(),
        forall|i: int| 0 <= i < r@.len() ==> same_song(#[trigger] r@[i], songs_of(taken@)[i]),
{
    let mut songs: Vec<Song> = Vec::new();
    let mut i: usize = 0;
    while i < taken.len()
        invariant
            i <= taken@.len(),
            songs@.len() == songs_of(taken@.take(i as int)).len(),
            forall|k: int| 0 <= k < songs@.len() ==> same_song(#[trigger] songs@[k], songs_of(taken@.take(i as int))[k]),
        decreases taken@.len() - i,
    {
        proof {
            assert(taken@.take(i + 1).drop_last() =~= taken@.take(i as int));
        }
        match taken[i].recognize_result() {
            Some(Ok(song)) => {
                songs.push(song.duplicate());
            },
            // Failures are not shown
            _ => {},
        }
        i = i + 1;
    }
    proof {
        assert(taken@.take(taken@.len() as int) =~= taken@);
    }
    songs
}

/// Marks a song of a recognition as newly heard unless the history holds
/// it already as heard before: `previous_is_newly_heard` is whether the
/// history's song of the same identifier is newly heard, if there is one.
pub fn update_newly_heard(song: &mut Song, previous_is_newly_heard: Option<bool>)
    ensures
        *final(song) == (Song {
            is_newly_heard: match previous_is_newly_heard {
                None => true,
                Some(p) => p || old(song).is_newly_heard,
            },
            ..*old(song)
        }),
{
    // If the song is not found in the history, set it as newly heard
    // (That's why an always true value is used after `or`). If it is in the
    // history and it was newly heard, pass that state to the new value.
    let newly = match previous_is_newly_heard {
        None => true,
        Some(p) => p,
    };
    if newly {
        song.is_newly_heard = true;
    }
}

} // verus!
