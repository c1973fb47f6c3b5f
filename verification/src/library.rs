use vstd::prelude::*;
use vstd::string::*;
use vstd::utf8::is_ascii_chars;
use crate::text::{
    ascii_lower, ascii_upper, contains_text, lemma_contains_transitive, lemma_empty_occurs_everywhere,
    lemma_lower_of_upper, lowercase, text_contains, to_lowercase,
};

verus! {

/// One application offered by the remote library.
#[derive(Debug)]
pub struct IpaEntry {
    pub title: String,
    pub description: String,
    pub download_url: String,
    /// Name of an icon shipped with the application, if the record gives one.
    pub icon_path: Option<String>,
    pub category: String,
}

impl Clone for IpaEntry {
    fn clone(&self) -> (r: Self)
        ensures
            r == *self,
    {
        let icon_path = match &self.icon_path {
            Some(p) => Some(p.clone()),
            None => None,
        };
        IpaEntry {
            title: self.title.clone(),
            description: self.description.clone(),
            download_url: self.download_url.clone(),
            icon_path,
            category: self.category.clone(),
        }
    }
}

/// Category assigned to a library entry whose record names none.
pub fn default_category() -> (category: String)
    ensures
        category@ == "utility"@,
{
    String::from_str("utility")
}

/// The category selection under which no entry is left out for its category.
pub open spec fn all_categories() -> Seq<char> {
    "all"@
}

/// The search half of the filter, over the already lowercased query.
pub open spec fn matches_search(entry: IpaEntry, lower_query: Seq<char>) -> bool {
    text_contains(lowercase(entry.title@), lower_query) || text_contains(
        lowercase(entry.description@),
        lower_query,
    )
}

/// The category half of the filter.
pub open spec fn matches_category(entry: IpaEntry, selected: Seq<char>) -> bool {
    selected == all_categories() || entry.category@ == selected
}

/// Whether an entry is listed, given the lowercased query and the selected category.
pub open spec fn is_shown(entry: IpaEntry, lower_query: Seq<char>, selected: Seq<char>) -> bool {
    matches_search(entry, lower_query) && matches_category(entry, selected)
}

/// The predicate `is_shown` for a fixed query and category.
pub open spec fn shown_pred(lower_query: Seq<char>, selected: Seq<char>) -> spec_fn(IpaEntry) -> bool {
    |e: IpaEntry| is_shown(e, lower_query, selected)
}

/// The entries that the library lists for a search query and a selected category, in the
/// order of `entries`.
pub open spec fn shown_entries(entries: Seq<IpaEntry>, query: Seq<char>, selected: Seq<char>) -> Seq<
    IpaEntry,
> {
    entries.filter(shown_pred(lowercase(query), selected))
}

/// Title and description are ASCII text.
pub open spec fn entry_is_ascii(entry: IpaEntry) -> bool {
    is_ascii_chars(entry.title@) && is_ascii_chars(entry.description@)
}

/// For ASCII text the filter spelled out: the lowercased query must occur in the ASCII
/// lowercase title or description, and the category must match.
pub open spec fn is_shown_ascii(entry: IpaEntry, lower_query: Seq<char>, selected: Seq<char>) -> bool {
    (text_contains(ascii_lower(entry.title@), lower_query) || text_contains(
        ascii_lower(entry.description@),
        lower_query,
    )) && matches_category(entry, selected)
}

/// The predicate `is_shown_ascii` for a fixed query and category.
pub open spec fn shown_ascii_pred(lower_query: Seq<char>, selected: Seq<char>) -> spec_fn(
    IpaEntry,
) -> bool {
    |e: IpaEntry| is_shown_ascii(e, lower_query, selected)
}

/// Whether two texts are equal.
pub fn same_text(a: &str, b: &str) -> (r: bool)
    ensures
        r == (a@ == b@),
{
    let a = String::from_str(a);
    let b = String::from_str(b);
    a == b
}

/// The filter decision for texts that are already lowercased: the query must occur in the title
/// or in the description, and the entry's category must be the selected one unless "all" is
/// selected.
pub fn matches_lowered(
    lower_title: &str,
    lower_description: &str,
    lower_query: &str,
    category: &str,
    selected: &str,
) -> (r: bool)
    ensures
        r == ((text_contains(lower_title@, lower_query@) || text_contains(
            lower_description@,
            lower_query@,
        )) && (selected@ == "all"@ || category@ == selected@)),
{
    let in_search = contains_text(lower_title, lower_query) || contains_text(
        lower_description,
        lower_query,
    );
    let in_category = same_text(selected, "all") || same_text(category, selected);
    in_search && in_category
}

/// Whether `entry` is listed for an already lowercased query and a selected category.
pub fn entry_is_shown(entry: &IpaEntry, lower_query: &str, selected: &str) -> (r: bool)
    ensures
        r == is_shown(*entry, lower_query@, selected@),
        entry_is_ascii(*entry) ==> r == is_shown_ascii(*entry, lower_query@, selected@),
        r == ((text_contains(lowercase(entry.title@), lower_query@) || text_contains(
            lowercase(entry.description@),
            lower_query@,
        )) && (selected@ == "all"@ || entry.category@ == selected@)),
{
    let lower_title = to_lowercase(entry.title.as_str());
    let lower_description = to_lowercase(entry.description.as_str());
    matches_lowered(
        lower_title.as_str(),
        lower_description.as_str(),
        lower_query,
        entry.category.as_str(),
        selected,
    )
}

/// The entries listed for `query` and `selected`, cloned, in their original order.
pub fn filter_entries(entries: &Vec<IpaEntry>, query: &str, selected: &str) -> (shown: Vec<IpaEntry>)
    ensures
        shown@ == shown_entries(entries@, query@, selected@),
        query@.len() == 0 && selected@ == all_categories() ==> shown@ == entries@,
        forall|i: int|
            0 <= i < entries@.len() ==> (shown@.contains(#[trigger] entries@[i]) <==> ((
            text_contains(lowercase(entries@[i].title@), lowercase(query@)) || text_contains(
                lowercase(entries@[i].description@),
                lowercase(query@),
            )) && (selected@ == "all"@ || entries@[i].category@ == selected@))),
        forall|j: int| 0 <= j < shown@.len() ==> entries@.contains(#[trigger] shown@[j]),
        is_ascii_chars(query@) && (forall|i: int|
            0 <= i < entries@.len() ==> entry_is_ascii(#[trigger] entries@[i])) ==> shown@
            == entries@.filter(shown_ascii_pred(ascii_lower(query@), selected@)),
{
    let lower_query = to_lowercase(query);
    let ghost pred = shown_pred(lowercase(query@), selected@);
    let ghost apred = shown_ascii_pred(ascii_lower(query@), selected@);
    let ghost all_ascii = is_ascii_chars(query@) && (forall|i: int|
        0 <= i < entries@.len() ==> entry_is_ascii(#[trigger] entries@[i]));
    let mut shown: Vec<IpaEntry> = Vec::new();
    for i in 0..entries.len()
        invariant
            lower_query@ == lowercase(query@),
            query@.len() == 0 ==> lower_query@.len() == 0,
            is_ascii_chars(query@) ==> lower_query@ == ascii_lower(query@),
            apred == shown_ascii_pred(ascii_lower(query@), selected@),
            all_ascii == (is_ascii_chars(query@) && (forall|i: int|
                0 <= i < entries@.len() ==> entry_is_ascii(#[trigger] entries@[i]))),
            all_ascii ==> shown@ == entries@.take(i as int).filter(apred),
            pred == shown_pred(lowercase(query@), selected@),
            shown@ == entries@.take(i as int).filter(pred),
            query@.len() == 0 && selected@ == all_categories() ==> shown@ == entries@.take(
                i as int,
            ),
    {
        let keep = entry_is_shown(&entries[i], lower_query.as_str(), selected);
        proof {
            entries@.take(i as int).lemma_filter_push(entries@[i as int], pred);
            entries@.take(i as int).lemma_filter_push(entries@[i as int], apred);
            assert(entries@.take(i as int).push(entries@[i as int]) =~= entries@.take(i + 1));
        }
        proof {
            if query@.len() == 0 && selected@ == all_categories() {
                lemma_empty_occurs_everywhere(lowercase(entries@[i as int].title@), lower_query@);
            }
        }
        if keep {
            shown.push(entries[i].clone());
        }
    }
    assert(entries@.take(entries@.len() as int) =~= entries@);
    proof {
        lemma_listing_follows_search_and_category(entries@, query@, selected@);
    }
    shown
}

/// Filtering by a predicate is the same as first filtering by a weaker one and then by it.
pub proof fn lemma_filter_through_weaker<A>(s: Seq<A>, weak: spec_fn(A) -> bool, strong: spec_fn(A) -> bool)
    requires
        forall|x: A| #[trigger] strong(x) ==> weak(x),
    ensures
        s.filter(strong) == s.filter(weak).filter(strong),
    decreases s.len(),
{
    if s.len() > 0 {
        let rest = s.drop_last();
        let last = s.last();
        lemma_filter_through_weaker(rest, weak, strong);
        assert(s =~= rest.push(last));
        rest.lemma_filter_push(last, strong);
        rest.lemma_filter_push(last, weak);
        rest.filter(weak).lemma_filter_push(last, strong);
    } else {
        reveal(Seq::filter);
        assert(s.filter(weak) =~= s);
    }
}

/// A more specific query never lists more: when the lowercased broad query occurs in the
/// lowercased narrow one, what the narrow query lists is what the broad one lists, filtered
/// again by the narrow query (so it keeps the broad listing's order and is no longer).
pub proof fn lemma_narrower_query_lists_less(
    entries: Seq<IpaEntry>,
    lower_broad: Seq<char>,
    lower_narrow: Seq<char>,
    selected: Seq<char>,
)
    requires
        text_contains(lower_narrow, lower_broad),
    ensures
        entries.filter(shown_pred(lower_narrow, selected)) == entries.filter(
            shown_pred(lower_broad, selected),
        ).filter(shown_pred(lower_narrow, selected)),
        entries.filter(shown_pred(lower_narrow, selected)).len() <= entries.filter(
            shown_pred(lower_broad, selected),
        ).len(),
{
    let weak = shown_pred(lower_broad, selected);
    let strong = shown_pred(lower_narrow, selected);
    assert forall|e: IpaEntry| #[trigger] strong(e) implies weak(e) by {
        if text_contains(lowercase(e.title@), lower_narrow) {
            lemma_contains_transitive(lowercase(e.title@), lower_narrow, lower_broad);
        } else {
            lemma_contains_transitive(lowercase(e.description@), lower_narrow, lower_broad);
        }
    }
    lemma_filter_through_weaker(entries, weak, strong);
    entries.filter(weak).lemma_filter_len(strong);
}

/// For ASCII text the search ignores letter case: a query and its uppercase form list the
/// same entries.
pub proof fn lemma_query_case_ignored(entries: Seq<IpaEntry>, query: Seq<char>, selected: Seq<char>)
    ensures
        entries.filter(shown_ascii_pred(ascii_lower(ascii_upper(query)), selected)) == entries.filter(
            shown_ascii_pred(ascii_lower(query), selected),
        ),
{
    lemma_lower_of_upper(query);
}


/// Every listed entry is one of the entries and passes the search and the category; every
/// entry that passes them is listed; the listing is never longer than the entries.
pub proof fn lemma_shown_entries_exact(entries: Seq<IpaEntry>, query: Seq<char>, selected: Seq<char>)
    ensures
        forall|i: int|
            0 <= i < shown_entries(entries, query, selected).len() ==> entries.contains(
                #[trigger] shown_entries(entries, query, selected)[i],
            ) && is_shown(shown_entries(entries, query, selected)[i], lowercase(query), selected),
        forall|i: int|
            0 <= i < entries.len() && is_shown(#[trigger] entries[i], lowercase(query), selected)
                ==> shown_entries(entries, query, selected).contains(entries[i]),
        shown_entries(entries, query, selected).len() <= entries.len(),
{
    broadcast use vstd::seq_lib::group_filter_ensures;

    let pred = shown_pred(lowercase(query), selected);
    let shown = entries.filter(pred);
    assert forall|i: int| 0 <= i < shown.len() implies entries.contains(#[trigger] shown[i])
        && is_shown(shown[i], lowercase(query), selected) by {
        assert(shown.contains(shown[i]));
        entries.lemma_filter_contains_rev(pred, shown[i]);
        assert(pred(shown[i]));
    }
    assert forall|i: int|
        0 <= i < entries.len() && is_shown(#[trigger] entries[i], lowercase(query), selected)
            implies shown.contains(entries[i]) by {
        assert(pred(entries[i]));
    }
}

/// Unless "all" is selected, every listed entry belongs to the selected category.
pub proof fn lemma_shown_entries_in_category(entries: Seq<IpaEntry>, query: Seq<char>, selected: Seq<char>)
    requires
        selected != all_categories(),
    ensures
        forall|i: int|
            0 <= i < shown_entries(entries, query, selected).len() ==> (
            #[trigger] shown_entries(entries, query, selected)[i]).category@ == selected,
{
    lemma_shown_entries_exact(entries, query, selected);
}


/// An entry is listed exactly when the lowercased query occurs in its lowercased title or
/// description and it belongs to the selected category, or "all" is selected; only entries
/// of the list are listed.
pub proof fn lemma_listing_follows_search_and_category(
    entries: Seq<IpaEntry>,
    query: Seq<char>,
    selected: Seq<char>,
)
    ensures
        forall|i: int|
            0 <= i < entries.len() ==> (shown_entries(entries, query, selected).contains(
                #[trigger] entries[i],
            ) <==> ((text_contains(lowercase(entries[i].title@), lowercase(query))
                || text_contains(lowercase(entries[i].description@), lowercase(query))) && (
            selected == "all"@ || entries[i].category@ == selected))),
        forall|j: int|
            0 <= j < shown_entries(entries, query, selected).len() ==> entries.contains(
                #[trigger] shown_entries(entries, query, selected)[j],
            ),
{
    lemma_shown_entries_exact(entries, query, selected);
    let shown = shown_entries(entries, query, selected);
    assert forall|i: int| 0 <= i < entries.len() && shown.contains(#[trigger] entries[i]) implies ((
    text_contains(lowercase(entries[i].title@), lowercase(query)) || text_contains(
        lowercase(entries[i].description@),
        lowercase(query),
    )) && (selected == "all"@ || entries[i].category@ == selected)) by {
        let j = choose|j: int| 0 <= j < shown.len() && shown[j] == entries[i];
        assert(is_shown(shown[j], lowercase(query), selected));
    }
}

/// When every entry passes the search and the category, all of them are listed, in their
/// order.
pub proof fn lemma_all_passing_all_listed(entries: Seq<IpaEntry>, query: Seq<char>, selected: Seq<char>)
    requires
        forall|i: int|
            0 <= i < entries.len() ==> (text_contains(
                lowercase((#[trigger] entries[i]).title@),
                lowercase(query),
            ) || text_contains(lowercase(entries[i].description@), lowercase(query))) && (
            selected == "all"@ || entries[i].category@ == selected),
    ensures
        shown_entries(entries, query, selected) == entries,
    decreases entries.len(),
{
    let pred = shown_pred(lowercase(query), selected);
    if entries.len() == 0 {
        reveal(Seq::filter);
    } else {
        let rest = entries.drop_last();
        assert forall|i: int| 0 <= i < rest.len() implies (text_contains(
            lowercase((#[trigger] rest[i]).title@),
            lowercase(query),
        ) || text_contains(lowercase(rest[i].description@), lowercase(query))) && (selected
            == "all"@ || rest[i].category@ == selected) by {
            assert(rest[i] == entries[i]);
        }
        lemma_all_passing_all_listed(rest, query, selected);
        assert(entries =~= rest.push(entries.last()));
        rest.lemma_filter_push(entries.last(), pred);
        assert(pred(entries[entries.len() - 1]));
    }
}

} // verus!
