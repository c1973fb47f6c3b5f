use vstd::prelude::*;
use vstd::string::*;
use crate::icons::{BundledIcon, bundled_icon, icon_for_path};
use crate::library::{IpaEntry, same_text};
use crate::screen::IpaLibraryScreen;

verus! {

/// A category tab above the list.
pub struct CategoryTab {
    /// The category the tab selects.
    pub category: String,
    /// The key under which the tab's caption is translated.
    pub label_key: String,
    /// Whether this is the selected category.
    pub selected: bool,
}

/// One listed entry.
pub struct EntryRow {
    pub entry: IpaEntry,
    /// Whether this entry is the one being downloaded (it then shows progress in place of
    /// its install button).
    pub downloading: bool,
    /// The bundled icon its icon path names, if any; the generic file icon otherwise.
    pub icon: Option<BundledIcon>,
}

/// What the screen shows.
pub enum ScreenLayout {
    /// The library is being fetched.
    Loading,
    /// Fetching failed; the message and a retry button.
    Failed { message: String },
    /// The category tabs, the "nothing found" notice when no entry is listed, the rows, and
    /// whether the running download has received anything (a percentage is shown then, a
    /// loading caption before).
    Library {
        categories: Vec<CategoryTab>,
        nothing_found: bool,
        rows: Vec<EntryRow>,
        progress_started: bool,
    },
}

/// The category tabs, in order.
pub open spec fn category_names() -> Seq<Seq<char>> {
    seq!["all"@, "jailbreak"@, "utility"@, "container"@]
}

/// A tab selects `name`, is captioned by `category_` followed by the name, and is marked
/// exactly when `name` is the selected category.
pub open spec fn tab_for(tab: CategoryTab, name: Seq<char>, selected: Seq<char>) -> bool {
    &&& tab.category@ == name
    &&& tab.label_key@ == "category_"@ + name
    &&& tab.selected == (selected == name)
}

/// The bundled icon an entry's icon path names.
pub open spec fn entry_icon(entry: IpaEntry) -> Option<BundledIcon> {
    match entry.icon_path {
        Some(p) => icon_for_path(p@),
        None => None,
    }
}

/// A row shows `entry`, marked as downloading exactly when its title is the title of the
/// running download.
pub open spec fn row_for(row: EntryRow, entry: IpaEntry, downloading: Option<Seq<char>>) -> bool {
    &&& row.entry == entry
    &&& row.downloading == (downloading == Some(entry.title@))
    &&& row.icon == entry_icon(entry)
}

/// The tabs and rows of the library view of a screen in state `s`.
pub open spec fn library_shown(
    s: IpaLibraryScreen,
    categories: Seq<CategoryTab>,
    nothing_found: bool,
    rows: Seq<EntryRow>,
    progress_started: bool,
) -> bool {
    &&& categories.len() == category_names().len()
    &&& forall|i: int|
        0 <= i < categories.len() ==> tab_for(
            #[trigger] categories[i],
            category_names()[i],
            s.selected_category@,
        )
    &&& nothing_found == (s.filtered_entries@.len() == 0)
    &&& rows.len() == s.filtered_entries@.len()
    &&& forall|i: int|
        0 <= i < rows.len() ==> row_for(
            #[trigger] rows[i],
            s.filtered_entries@[i],
            s@.downloading_entry,
        )
    &&& progress_started == (s.download_progress.downloaded > 0)
}

fn category_tab(name: &str, selected: &String) -> (tab: CategoryTab)
    ensures
        tab_for(tab, name@, selected@),
{
    CategoryTab {
        category: String::from_str(name),
        label_key: String::from_str("category_").concat(name),
        selected: same_text(selected.as_str(), name),
    }
}

fn entry_row(entry: &IpaEntry, downloading: &Option<String>) -> (row: EntryRow)
    ensures
        row_for(
            row,
            *entry,
            match downloading {
                Some(t) => Some(t@),
                None => None,
            },
        ),
{
    let is_downloading = match downloading {
        Some(t) => same_text(t.as_str(), entry.title.as_str()),
        None => false,
    };
    let icon = match &entry.icon_path {
        Some(p) => bundled_icon(p.as_str()),
        None => None,
    };
    EntryRow { entry: entry.clone(), downloading: is_downloading, icon }
}

impl IpaLibraryScreen {
    /// What the screen shows: the loading notice while the library is fetched, otherwise the
    /// error (prefixed by `Error: `) if fetching failed, otherwise the category tabs and one
    /// row per listed entry.
    pub fn layout(&self) -> (layout: ScreenLayout)
        ensures
            self.is_loading ==> (layout is Loading),
            !self.is_loading && self.error is Some ==> (layout matches ScreenLayout::Failed {
                message,
            } && message@ == "Error: "@ + self.error.unwrap()@),
            !self.is_loading && self.error is None ==> (layout matches ScreenLayout::Library {
                categories,
                nothing_found,
                rows,
                progress_started,
            } && library_shown(*self, categories@, nothing_found, rows@, progress_started)
                && categories@.len() == 4 && (forall|i: int|
                0 <= i < 4 ==> (#[trigger] categories@[i]).selected == (categories@[i].category@
                    == self.selected_category@)) && rows@.len() == self.filtered_entries@.len()),
    {
        if self.is_loading {
            return ScreenLayout::Loading;
        }
        if let Some(err) = &self.error {
            let message = String::from_str("Error: ").concat(err.as_str());
            return ScreenLayout::Failed { message };
        }
        let mut categories: Vec<CategoryTab> = Vec::new();
        categories.push(category_tab("all", &self.selected_category));
        categories.push(category_tab("jailbreak", &self.selected_category));
        categories.push(category_tab("utility", &self.selected_category));
        categories.push(category_tab("container", &self.selected_category));
        let mut rows: Vec<EntryRow> = Vec::new();
        for i in 0..self.filtered_entries.len()
            invariant
                rows@.len() == i,
                forall|j: int|
                    0 <= j < i ==> row_for(
                        #[trigger] rows@[j],
                        self.filtered_entries@[j],
                        self@.downloading_entry,
                    ),
        {
            rows.push(entry_row(&self.filtered_entries[i], &self.downloading_entry));
        }
        let nothing_found = self.filtered_entries.len() == 0;
        let progress_started = self.download_progress.has_started();
        ScreenLayout::Library { categories, nothing_found, rows, progress_started }
    }
}


/// The library view has the tabs all, jailbreak, utility and container, in that order, each
/// captioned by `category_` and its name and marked exactly when it is the selected category
/// (so when the selected category is one of them, exactly that tab is marked); and one row per
/// listed entry, in order, marked as downloading exactly when its title is the running
/// download's title, with the bundled icon its icon path names.
pub proof fn lemma_library_view(
    s: IpaLibraryScreen,
    categories: Seq<CategoryTab>,
    nothing_found: bool,
    rows: Seq<EntryRow>,
    progress_started: bool,
)
    requires
        library_shown(s, categories, nothing_found, rows, progress_started),
    ensures
        categories.len() == 4,
        categories[0].category@ == "all"@,
        categories[1].category@ == "jailbreak"@,
        categories[2].category@ == "utility"@,
        categories[3].category@ == "container"@,
        forall|i: int|
            0 <= i < 4 ==> (#[trigger] categories[i]).selected == (categories[i].category@
                == s.selected_category@) && categories[i].label_key@ == "category_"@
                + categories[i].category@,
        forall|i: int, j: int|
            0 <= i < 4 && 0 <= j < 4 && (#[trigger] categories[i]).selected && (
            #[trigger] categories[j]).selected ==> i == j,
        nothing_found <==> s.filtered_entries@.len() == 0,
        rows.len() == s.filtered_entries@.len(),
        forall|i: int|
            0 <= i < rows.len() ==> (#[trigger] rows[i]).entry == s.filtered_entries@[i]
                && rows[i].downloading == (s.downloading_entry matches Some(t) && t@
                == s.filtered_entries@[i].title@) && rows[i].icon == match s.filtered_entries@[
                i].icon_path {
                Some(p) => icon_for_path(p@),
                None => None,
            },
        progress_started <==> s.download_progress.downloaded > 0,
{
    assert(tab_for(categories[0], "all"@, s.selected_category@));
    assert(tab_for(categories[1], "jailbreak"@, s.selected_category@));
    assert(tab_for(categories[2], "utility"@, s.selected_category@));
    assert(tab_for(categories[3], "container"@, s.selected_category@));
    reveal_strlit("all");
    reveal_strlit("jailbreak");
    reveal_strlit("utility");
    reveal_strlit("container");
    assert forall|i: int, j: int|
        0 <= i < 4 && 0 <= j < 4 && (#[trigger] categories[i]).selected && (
        #[trigger] categories[j]).selected implies i == j by {
        if i != j {
            assert(categories[i].category@[0] != categories[j].category@[0]);
        }
    }
    assert forall|i: int| 0 <= i < rows.len() implies (#[trigger] rows[i]).downloading == (
    s.downloading_entry matches Some(t) && t@ == s.filtered_entries@[i].title@) by {
        assert(row_for(rows[i], s.filtered_entries@[i], s@.downloading_entry));
    }
}

} // verus!
