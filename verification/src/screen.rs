use vstd::prelude::*;
use vstd::string::*;
use crate::download::DownloadProgress;
use vstd::utf8::is_ascii_chars;
use crate::library::{
    IpaEntry, all_categories, entry_is_ascii, filter_entries, shown_ascii_pred, shown_entries,
};
use crate::text::ascii_lower;

verus! {

/// A filesystem path, carried through the screen unchanged.
#[verifier::external_type_specification]
#[verifier::external_body]
pub struct ExPathBuf(std::path::PathBuf);

/// Specifies `<PathBuf as Clone>::clone`. Claimed of it: the copy holds the same path.
pub assume_specification[ <std::path::PathBuf as Clone>::clone ](path: &std::path::PathBuf) -> (copy: std::path::PathBuf)
    ensures
        copy == *path,
;

/// The events the library screen reacts to.
#[derive(Debug)]
pub enum Message {
    /// The user asked for the library (again).
    FetchLibrary,
    /// The library list arrived.
    LibraryFetched(Vec<IpaEntry>),
    /// Fetching the library failed, with a description of the failure.
    LibraryFetchError(String),
    /// The search field now holds this text.
    SearchChanged(String),
    /// This category tab was chosen.
    CategoryChanged(String),
    /// The install button of this entry was pressed.
    DownloadClicked(IpaEntry),
    /// The running download has come this far.
    DownloadProgress(DownloadProgress),
    /// The running download is stored at this path.
    DownloadFinished(std::path::PathBuf),
    /// The running download failed.
    DownloadError(String),
    /// A downloaded package is ready for the installer; handled by the enclosing application.
    NavigateToInstaller,
    /// The user left the screen; handled by the enclosing application.
    Back,
}

/// `copy` carries the same event as `original`: the same values, and a list with the same
/// entries.
pub open spec fn same_message(copy: Message, original: Message) -> bool {
    match (copy, original) {
        (Message::LibraryFetched(a), Message::LibraryFetched(b)) => a@ == b@,
        _ => copy == original,
    }
}

impl Clone for Message {
    fn clone(&self) -> (copy: Self)
        ensures
            same_message(copy, *self),
    {
        match self {
            Message::FetchLibrary => Message::FetchLibrary,
            Message::LibraryFetched(entries) => {
                let mut copied: Vec<IpaEntry> = Vec::new();
                for i in 0..entries.len()
                    invariant
                        copied@ == entries@.take(i as int),
                {
                    copied.push(entries[i].clone());
                    assert(copied@ =~= entries@.take(i + 1));
                }
                assert(entries@.take(entries@.len() as int) =~= entries@);
                Message::LibraryFetched(copied)
            },
            Message::LibraryFetchError(e) => Message::LibraryFetchError(e.clone()),
            Message::SearchChanged(q) => Message::SearchChanged(q.clone()),
            Message::CategoryChanged(c) => Message::CategoryChanged(c.clone()),
            Message::DownloadClicked(entry) => Message::DownloadClicked(entry.clone()),
            Message::DownloadProgress(p) => Message::DownloadProgress(*p),
            Message::DownloadFinished(path) => Message::DownloadFinished(path.clone()),
            Message::DownloadError(e) => Message::DownloadError(e.clone()),
            Message::NavigateToInstaller => Message::NavigateToInstaller,
            Message::Back => Message::Back,
        }
    }
}

/// The work the screen asks its host to carry out after an update.
#[derive(Debug)]
pub enum Effect {
    /// Nothing to do.
    Nothing,
    /// Fetch the library list, and answer with `LibraryFetched` or `LibraryFetchError`.
    FetchLibrary,
    /// Download the package at `url` for the entry titled `title`, reporting with
    /// `DownloadProgress`, `DownloadFinished` and `DownloadError`.
    Download { url: String, title: String },
    /// Open the downloaded package at `path` and, if it is a valid package, go on to the
    /// installer with it.
    OpenPackage { path: std::path::PathBuf },
}

/// State of the screen that lists the downloadable applications.
pub struct IpaLibraryScreen {
    pub entries: Vec<IpaEntry>,
    pub filtered_entries: Vec<IpaEntry>,
    pub search_query: String,
    pub selected_category: String,
    /// Title of the entry being downloaded, if a download runs.
    pub downloading_entry: Option<String>,
    pub download_progress: DownloadProgress,
    pub is_loading: bool,
    pub error: Option<String>,
}

/// The screen's state as mathematical values.
pub struct ScreenView {
    pub entries: Seq<IpaEntry>,
    pub filtered_entries: Seq<IpaEntry>,
    pub search_query: Seq<char>,
    pub selected_category: Seq<char>,
    pub downloading_entry: Option<Seq<char>>,
    pub download_progress: DownloadProgress,
    pub is_loading: bool,
    pub error: Option<Seq<char>>,
}

/// The characters of an optional text.
pub open spec fn opt_text(s: Option<String>) -> Option<Seq<char>> {
    match s {
        Some(t) => Some(t@),
        None => None,
    }
}

impl View for IpaLibraryScreen {
    type V = ScreenView;

    open spec fn view(&self) -> ScreenView {
        ScreenView {
            entries: self.entries@,
            filtered_entries: self.filtered_entries@,
            search_query: self.search_query@,
            selected_category: self.selected_category@,
            downloading_entry: opt_text(self.downloading_entry),
            download_progress: self.download_progress,
            is_loading: self.is_loading,
            error: opt_text(self.error),
        }
    }
}

impl ScreenView {
    /// The listed entries are exactly those that the search query and the category select.
    pub open spec fn filter_is_current(self) -> bool {
        self.filtered_entries == shown_entries(
            self.entries,
            self.search_query,
            self.selected_category,
        )
    }

    /// The listed entries recomputed from the entries, query and category.
    pub open spec fn refiltered(self) -> ScreenView {
        ScreenView {
            filtered_entries: shown_entries(self.entries, self.search_query, self.selected_category),
            ..self
        }
    }
}

/// The state `update` moves to on `message`.
pub open spec fn next_view(s: ScreenView, message: Message) -> ScreenView {
    match message {
        Message::FetchLibrary => ScreenView { is_loading: true, error: None, ..s },
        Message::LibraryFetched(entries) => ScreenView {
            is_loading: false,
            entries: entries@,
            ..s
        }.refiltered(),
        Message::LibraryFetchError(e) => ScreenView { is_loading: false, error: Some(e@), ..s },
        Message::SearchChanged(query) => ScreenView { search_query: query@, ..s }.refiltered(),
        Message::CategoryChanged(category) => ScreenView {
            selected_category: category@,
            ..s
        }.refiltered(),
        Message::DownloadClicked(entry) => ScreenView {
            downloading_entry: Some(entry.title@),
            download_progress: DownloadProgress { downloaded: 0, total: 0 },
            ..s
        },
        Message::DownloadProgress(p) => ScreenView { download_progress: p, ..s },
        Message::DownloadFinished(_) => ScreenView { downloading_entry: None, ..s },
        Message::DownloadError(_) => ScreenView { downloading_entry: None, ..s },
        Message::NavigateToInstaller => s,
        Message::Back => s,
    }
}

/// The effect `update` asks for on `message`.
pub open spec fn expected_effect(message: Message, effect: Effect) -> bool {
    match message {
        Message::FetchLibrary => effect is FetchLibrary,
        Message::DownloadClicked(entry) => (effect matches Effect::Download { url, title } && url@
            == entry.download_url@ && title@ == entry.title@),
        Message::DownloadFinished(path) => (effect matches Effect::OpenPackage { path: p } && p
            == path),
        _ => effect is Nothing,
    }
}

impl IpaLibraryScreen {
    /// A screen that waits for the library: nothing listed, empty search, category "all".
    pub fn new() -> (screen: Self)
        ensures
            screen@.entries.len() == 0,
            screen@.filtered_entries.len() == 0,
            screen@.search_query.len() == 0,
            screen@.selected_category == all_categories(),
            screen@.downloading_entry is None,
            screen@.download_progress == (DownloadProgress { downloaded: 0, total: 0 }),
            screen@.is_loading,
            screen@.error is None,
            screen@.filter_is_current(),
    {
        let screen = IpaLibraryScreen {
            entries: Vec::new(),
            filtered_entries: Vec::new(),
            search_query: String::new(),
            selected_category: String::from_str("all"),
            downloading_entry: None,
            download_progress: DownloadProgress::none(),
            is_loading: true,
            error: None,
        };
        proof {
            reveal(Seq::filter);
            assert(screen@.entries =~= Seq::<IpaEntry>::empty());
        }
        screen
    }

    /// Recomputes the listed entries from the entries, the search query and the category;
    /// with an empty query and category "all" every entry is listed.
    pub fn apply_filter(&mut self)
        ensures
            final(self)@ == old(self)@.refiltered(),
            old(self).search_query@.len() == 0 && old(self).selected_category@ == all_categories()
                ==> final(self).filtered_entries@ == old(self).entries@,
            is_ascii_chars(old(self).search_query@) && (forall|i: int|
                0 <= i < old(self).entries@.len() ==> entry_is_ascii(
                    #[trigger] old(self).entries@[i],
                )) ==> final(self).filtered_entries@ == old(self).entries@.filter(
                shown_ascii_pred(ascii_lower(old(self).search_query@), old(self).selected_category@),
            ),
    {
        self.filtered_entries = filter_entries(
            &self.entries,
            self.search_query.as_str(),
            self.selected_category.as_str(),
        );
    }

    /// Handles one event: the new state is `next_view` of the old one, and the effect is the
    /// one `expected_effect` names. A listing that matched the query and category still does,
    /// and a list that arrives while the search is empty and "all" is selected is listed whole.
    pub fn update(&mut self, message: Message) -> (effect: Effect)
        ensures
            final(self)@ == next_view(old(self)@, message),
            expected_effect(message, effect),
            old(self)@.filter_is_current() ==> final(self)@.filter_is_current(),
            (message matches Message::LibraryFetched(entries) && old(self).search_query@.len()
                == 0 && old(self).selected_category@ == all_categories())
                ==> final(self).filtered_entries@ == final(self).entries@,
            message matches Message::LibraryFetched(list) ==> final(self).entries@ == list@
                && !final(self).is_loading,
            message matches Message::SearchChanged(query) ==> final(self).search_query@ == query@
                && final(self).entries@ == old(self).entries@ && final(self).filtered_entries@
                == shown_entries(old(self).entries@, query@, old(self).selected_category@),
            message matches Message::CategoryChanged(category) ==> final(self).selected_category@
                == category@ && final(self).entries@ == old(self).entries@
                && final(self).filtered_entries@ == shown_entries(
                old(self).entries@,
                old(self).search_query@,
                category@,
            ),
            message matches Message::DownloadClicked(entry) ==> final(self).download_progress == (
            DownloadProgress { downloaded: 0, total: 0 }) && (final(self).downloading_entry
                matches Some(title) && title@ == entry.title@),
    {
        match message {
            Message::FetchLibrary => {
                self.is_loading = true;
                self.error = None;
                Effect::FetchLibrary
            },
            Message::LibraryFetched(entries) => {
                self.is_loading = false;
                self.entries = entries;
                self.apply_filter();
                Effect::Nothing
            },
            Message::LibraryFetchError(e) => {
                self.is_loading = false;
                self.error = Some(e);
                Effect::Nothing
            },
            Message::SearchChanged(query) => {
                self.search_query = query;
                self.apply_filter();
                Effect::Nothing
            },
            Message::CategoryChanged(category) => {
                self.selected_category = category;
                self.apply_filter();
                Effect::Nothing
            },
            Message::DownloadClicked(entry) => {
                self.downloading_entry = Some(entry.title.clone());
                self.download_progress = DownloadProgress::none();
                let url = entry.download_url.clone();
                let title = entry.title.clone();
                Effect::Download { url, title }
            },
            Message::DownloadProgress(p) => {
                self.download_progress = p;
                Effect::Nothing
            },
            Message::DownloadFinished(path) => {
                self.downloading_entry = None;
                Effect::OpenPackage { path }
            },
            Message::DownloadError(_) => {
                self.downloading_entry = None;
                Effect::Nothing
            },
            Message::NavigateToInstaller => Effect::Nothing,
            Message::Back => Effect::Nothing,
        }
    }
}


/// Changing the search text and then putting the old text back restores the screen, when its
/// listing matched before.
pub proof fn lemma_search_change_undone(s: ScreenView, query: String, previous: String)
    requires
        s.filter_is_current(),
        previous@ == s.search_query,
    ensures
        next_view(next_view(s, Message::SearchChanged(query)), Message::SearchChanged(previous))
            == s,
{
}

/// Choosing another category and then the old one again restores the screen, when its
/// listing matched before.
pub proof fn lemma_category_change_undone(s: ScreenView, category: String, previous: String)
    requires
        s.filter_is_current(),
        previous@ == s.selected_category,
    ensures
        next_view(next_view(s, Message::CategoryChanged(category)), Message::CategoryChanged(previous))
            == s,
{
}

/// A finished or failed download leaves the screen with no download running, whichever
/// entry was being downloaded.
pub proof fn lemma_download_ends(s: ScreenView, entry: IpaEntry, outcome: Message)
    requires
        outcome is DownloadFinished || outcome is DownloadError,
    ensures
        next_view(next_view(s, Message::DownloadClicked(entry)), outcome).downloading_entry is None,
        next_view(s, Message::DownloadClicked(entry)).downloading_entry == Some(entry.title@),
{
}


/// A copy of an event moves the screen exactly as the event does.
pub proof fn lemma_copy_updates_alike(s: ScreenView, copy: Message, original: Message)
    requires
        same_message(copy, original),
    ensures
        next_view(s, copy) == next_view(s, original),
{
}


/// Starting a fetch shows the loading notice, clears a previous error and asks for the
/// library; nothing else changes.
pub proof fn lemma_fetch_starts_loading(s: ScreenView, effect: Effect)
    requires
        expected_effect(Message::FetchLibrary, effect),
    ensures
        next_view(s, Message::FetchLibrary) == (ScreenView { is_loading: true, error: None, ..s }),
        effect is FetchLibrary,
{
}

/// A fetched list replaces whatever entries the screen held, ends the loading, and is listed
/// through the current search and category; the rest of the screen is kept.
pub proof fn lemma_fetch_replaces_entries(s: ScreenView, list: Vec<IpaEntry>, effect: Effect)
    requires
        expected_effect(Message::LibraryFetched(list), effect),
    ensures
        next_view(s, Message::LibraryFetched(list)).entries == list@,
        !next_view(s, Message::LibraryFetched(list)).is_loading,
        next_view(s, Message::LibraryFetched(list)).filtered_entries == shown_entries(
            list@,
            s.search_query,
            s.selected_category,
        ),
        next_view(s, Message::LibraryFetched(list)).search_query == s.search_query,
        next_view(s, Message::LibraryFetched(list)).selected_category == s.selected_category,
        next_view(s, Message::LibraryFetched(list)).error == s.error,
        next_view(s, Message::LibraryFetched(list)).downloading_entry == s.downloading_entry,
        next_view(s, Message::LibraryFetched(list)).download_progress == s.download_progress,
        effect is Nothing,
{
}

/// A failed fetch ends the loading and keeps the failure's description; the rest is kept.
pub proof fn lemma_fetch_error_shown(s: ScreenView, e: String, effect: Effect)
    requires
        expected_effect(Message::LibraryFetchError(e), effect),
    ensures
        next_view(s, Message::LibraryFetchError(e)) == (ScreenView {
            is_loading: false,
            error: Some(e@),
            ..s
        }),
        effect is Nothing,
{
}

/// A new search text is kept and the list is relisted through it; the rest is kept.
pub proof fn lemma_search_relists(s: ScreenView, query: String, effect: Effect)
    requires
        expected_effect(Message::SearchChanged(query), effect),
    ensures
        next_view(s, Message::SearchChanged(query)) == (ScreenView {
            search_query: query@,
            filtered_entries: shown_entries(s.entries, query@, s.selected_category),
            ..s
        }),
        effect is Nothing,
{
}

/// A new category is kept and the list is relisted through it; the rest is kept.
pub proof fn lemma_category_relists(s: ScreenView, category: String, effect: Effect)
    requires
        expected_effect(Message::CategoryChanged(category), effect),
    ensures
        next_view(s, Message::CategoryChanged(category)) == (ScreenView {
            selected_category: category@,
            filtered_entries: shown_entries(s.entries, s.search_query, category@),
            ..s
        }),
        effect is Nothing,
{
}

/// Pressing an entry's install button marks that entry as downloading with no byte received
/// yet, whatever download ran before, and asks to download the entry's URL under its title.
pub proof fn lemma_download_click_starts_fresh(s: ScreenView, entry: IpaEntry, effect: Effect)
    requires
        expected_effect(Message::DownloadClicked(entry), effect),
    ensures
        next_view(s, Message::DownloadClicked(entry)) == (ScreenView {
            downloading_entry: Some(entry.title@),
            download_progress: DownloadProgress { downloaded: 0, total: 0 },
            ..s
        }),
        effect matches Effect::Download { url, title } && url@ == entry.download_url@ && title@
            == entry.title@,
{
}

/// A progress report is kept as it came; the rest is kept.
pub proof fn lemma_progress_recorded(s: ScreenView, p: DownloadProgress, effect: Effect)
    requires
        expected_effect(Message::DownloadProgress(p), effect),
    ensures
        next_view(s, Message::DownloadProgress(p)) == (ScreenView { download_progress: p, ..s }),
        effect is Nothing,
{
}

/// A finished download ends the download marker and asks to open the stored file; a failed
/// one only ends the marker; leaving or going on to the installer changes nothing.
pub proof fn lemma_download_outcomes(
    s: ScreenView,
    path: std::path::PathBuf,
    e: String,
    finished: Effect,
    failed: Effect,
)
    requires
        expected_effect(Message::DownloadFinished(path), finished),
        expected_effect(Message::DownloadError(e), failed),
    ensures
        next_view(s, Message::DownloadFinished(path)) == (ScreenView {
            downloading_entry: None,
            ..s
        }),
        finished matches Effect::OpenPackage { path: p } && p == path,
        next_view(s, Message::DownloadError(e)) == (ScreenView { downloading_entry: None, ..s }),
        failed is Nothing,
        next_view(s, Message::NavigateToInstaller) == s,
        next_view(s, Message::Back) == s,
{
}

} // verus!
