//! Filtering and sorting options for task listings.
use vstd::prelude::*;
use crate::text::same_str;

verus! {

/// Order of a task listing.
#[derive(Clone, Copy, PartialEq, Eq, Structural, Debug)]
pub enum TaskSort {
    Id,
    Date,
    Name,
    Status,
}

/// The lower-case form of a string, as `str::to_lowercase` gives it.
pub uninterp spec fn lower_of(s: Seq<char>) -> Seq<char>;

/// Relies on `str::to_lowercase`: its result depends on the chars alone.
#[verifier::external_body]
fn lowercase(s: &str) -> (r: String)
    ensures
        r@ == lower_of(s@),
{
    s.to_lowercase()
}

/// The order a lower-case name selects; any other name selects `Id`.
pub open spec fn sort_of_lower(s: Seq<char>) -> TaskSort {
    if s == "date"@ {
        TaskSort::Date
    } else if s == "name"@ {
        TaskSort::Name
    } else if s == "status"@ {
        TaskSort::Status
    } else {
        TaskSort::Id
    }
}

impl TaskSort {
    /// The order a name selects, ignoring case.
    pub fn from_str(s: &str) -> (r: TaskSort)
        ensures
            r == sort_of_lower(lower_of(s@)),
    {
        let lower = lowercase(s);
        TaskSort::from_lowercase(lower.as_str())
    }

    /// The order an already lower-case name selects.
    pub fn from_lowercase(s: &str) -> (r: TaskSort)
        ensures
            r == sort_of_lower(s@),
    {
        if same_str(s, "date") {
            TaskSort::Date
        } else if same_str(s, "name") {
            TaskSort::Name
        } else if same_str(s, "status") {
            TaskSort::Status
        } else {
            TaskSort::Id
        }
    }
}

/// Options that select and order tasks.
pub struct TaskFilter {
    /// Completed (`Some(true)`) or open (`Some(false)`) tasks only.
    pub checked: Option<bool>,
    /// Tasks with (`Some(true)`) or without (`Some(false)`) a date only.
    pub scheduled: Option<bool>,
    /// Overdue tasks only.
    pub overdue: bool,
    /// Term the title must hold, ignoring case.
    pub search: Option<String>,
    /// Order of the listing.
    pub sort: TaskSort,
    /// Reverse the order.
    pub reverse: bool,
    /// Tasks of one category (`Some(Some(c))`) or of none (`Some(None)`) only.
    pub category: Option<Option<String>>,
    /// Tags a task must all carry.
    pub tags: Vec<String>,
}

impl TaskFilter {
    /// A filter that lets every task through, in order of id.
    pub fn new() -> (r: TaskFilter)
        ensures
            r.checked is None,
            r.scheduled is None,
            !r.overdue,
            r.search is None,
            r.sort == TaskSort::Id,
            !r.reverse,
            r.category is None,
            r.tags@.len() == 0,
    {
        TaskFilter {
            checked: None,
            scheduled: None,
            overdue: false,
            search: None,
            sort: TaskSort::Id,
            reverse: false,
            category: None,
            tags: Vec::new(),
        }
    }

    /// Completed tasks only.
    pub fn completed(self) -> (r: TaskFilter)
        ensures
            r.scheduled == self.scheduled,
            r.overdue == self.overdue,
            r.search == self.search,
            r.sort == self.sort,
            r.reverse == self.reverse,
            r.category == self.category,
            r.tags == self.tags,
            r.checked == Some(true),
    {
        let mut f = self;
        f.checked = Some(true);
        f
    }

    /// Open tasks only.
    pub fn incomplete(self) -> (r: TaskFilter)
        ensures
            r.scheduled == self.scheduled,
            r.overdue == self.overdue,
            r.search == self.search,
            r.sort == self.sort,
            r.reverse == self.reverse,
            r.category == self.category,
            r.tags == self.tags,
            r.checked == Some(false),
    {
        let mut f = self;
        f.checked = Some(false);
        f
    }

    /// The completion option set to `checked`.
    pub fn with_checked(self, checked: Option<bool>) -> (r: TaskFilter)
        ensures
            r.scheduled == self.scheduled,
            r.overdue == self.overdue,
            r.search == self.search,
            r.sort == self.sort,
            r.reverse == self.reverse,
            r.category == self.category,
            r.tags == self.tags,
            r.checked == checked,
    {
        let mut f = self;
        f.checked = checked;
        f
    }

    /// Tasks with a date only.
    pub fn with_schedule(self) -> (r: TaskFilter)
        ensures
            r.checked == self.checked,
            r.overdue == self.overdue,
            r.search == self.search,
            r.sort == self.sort,
            r.reverse == self.reverse,
            r.category == self.category,
            r.tags == self.tags,
            r.scheduled == Some(true),
    {
        let mut f = self;
        f.scheduled = Some(true);
        f
    }

    /// Tasks without a date only.
    pub fn without_schedule(self) -> (r: TaskFilter)
        ensures
            r.checked == self.checked,
            r.overdue == self.overdue,
            r.search == self.search,
            r.sort == self.sort,
            r.reverse == self.reverse,
            r.category == self.category,
            r.tags == self.tags,
            r.scheduled == Some(false),
    {
        let mut f = self;
        f.scheduled = Some(false);
        f
    }

    /// The date option set to `scheduled`.
    pub fn with_scheduled(self, scheduled: Option<bool>) -> (r: TaskFilter)
        ensures
            r.checked == self.checked,
            r.overdue == self.overdue,
            r.search == self.search,
            r.sort == self.sort,
            r.reverse == self.reverse,
            r.category == self.category,
            r.tags == self.tags,
            r.scheduled == scheduled,
    {
        let mut f = self;
        f.scheduled = scheduled;
        f
    }

    /// Overdue tasks only.
    pub fn overdue_only(self) -> (r: TaskFilter)
        ensures
            r.checked == self.checked,
            r.scheduled == self.scheduled,
            r.search == self.search,
            r.sort == self.sort,
            r.reverse == self.reverse,
            r.category == self.category,
            r.tags == self.tags,
            r.overdue,
    {
        let mut f = self;
        f.overdue = true;
        f
    }

    /// The overdue option set to `overdue`.
    pub fn with_overdue(self, overdue: bool) -> (r: TaskFilter)
        ensures
            r.checked == self.checked,
            r.scheduled == self.scheduled,
            r.search == self.search,
            r.sort == self.sort,
            r.reverse == self.reverse,
            r.category == self.category,
            r.tags == self.tags,
            r.overdue == overdue,
    {
        let mut f = self;
        f.overdue = overdue;
        f
    }

    /// Tasks whose title holds `term` only.
    pub fn search(self, term: String) -> (r: TaskFilter)
        ensures
            r.checked == self.checked,
            r.scheduled == self.scheduled,
            r.overdue == self.overdue,
            r.sort == self.sort,
            r.reverse == self.reverse,
            r.category == self.category,
            r.tags == self.tags,
            r.search matches Some(t) && t@ == term@,
    {
        let mut f = self;
        f.search = Some(term);
        f
    }

    /// The search term set to `term`.
    pub fn with_search(self, term: Option<String>) -> (r: TaskFilter)
        ensures
            r.checked == self.checked,
            r.scheduled == self.scheduled,
            r.overdue == self.overdue,
            r.sort == self.sort,
            r.reverse == self.reverse,
            r.category == self.category,
            r.tags == self.tags,
            r.search == term,
    {
        let mut f = self;
        f.search = term;
        f
    }

    /// Ordered by `sort`.
    pub fn sort_by(self, sort: TaskSort) -> (r: TaskFilter)
        ensures
            r.checked == self.checked,
            r.scheduled == self.scheduled,
            r.overdue == self.overdue,
            r.search == self.search,
            r.reverse == self.reverse,
            r.category == self.category,
            r.tags == self.tags,
            r.sort == sort,
    {
        let mut f = self;
        f.sort = sort;
        f
    }

    /// In reverse order.
    pub fn reversed(self) -> (r: TaskFilter)
        ensures
            r.checked == self.checked,
            r.scheduled == self.scheduled,
            r.overdue == self.overdue,
            r.search == self.search,
            r.sort == self.sort,
            r.category == self.category,
            r.tags == self.tags,
            r.reverse,
    {
        let mut f = self;
        f.reverse = true;
        f
    }

    /// The reverse option set to `reverse`.
    pub fn with_reverse(self, reverse: bool) -> (r: TaskFilter)
        ensures
            r.checked == self.checked,
            r.scheduled == self.scheduled,
            r.overdue == self.overdue,
            r.search == self.search,
            r.sort == self.sort,
            r.category == self.category,
            r.tags == self.tags,
            r.reverse == reverse,
    {
        let mut f = self;
        f.reverse = reverse;
        f
    }

    /// Tasks of `category` only.
    pub fn in_category(self, category: String) -> (r: TaskFilter)
        ensures
            r.checked == self.checked,
            r.scheduled == self.scheduled,
            r.overdue == self.overdue,
            r.search == self.search,
            r.sort == self.sort,
            r.reverse == self.reverse,
            r.tags == self.tags,
            r.category matches Some(Some(c)) && c@ == category@,
    {
        let mut f = self;
        f.category = Some(Some(category));
        f
    }

    /// Tasks of no category only.
    pub fn uncategorized(self) -> (r: TaskFilter)
        ensures
            r.checked == self.checked,
            r.scheduled == self.scheduled,
            r.overdue == self.overdue,
            r.search == self.search,
            r.sort == self.sort,
            r.reverse == self.reverse,
            r.tags == self.tags,
            r.category == Some(None::<String>),
    {
        let mut f = self;
        f.category = Some(None);
        f
    }

    /// The category option set to `category`.
    pub fn with_category(self, category: Option<Option<String>>) -> (r: TaskFilter)
        ensures
            r.checked == self.checked,
            r.scheduled == self.scheduled,
            r.overdue == self.overdue,
            r.search == self.search,
            r.sort == self.sort,
            r.reverse == self.reverse,
            r.tags == self.tags,
            r.category == category,
    {
        let mut f = self;
        f.category = category;
        f
    }

    /// Tasks that also carry `tag` only.
    pub fn with_tag(self, tag: String) -> (r: TaskFilter)
        ensures
            r.checked == self.checked,
            r.scheduled == self.scheduled,
            r.overdue == self.overdue,
            r.search == self.search,
            r.sort == self.sort,
            r.reverse == self.reverse,
            r.category == self.category,
            r.tags@ == self.tags@.push(tag),
    {
        let mut f = self;
        f.tags.push(tag);
        f
    }

    /// The required tags set to `tags`.
    pub fn with_tags(self, tags: Vec<String>) -> (r: TaskFilter)
        ensures
            r.checked == self.checked,
            r.scheduled == self.scheduled,
            r.overdue == self.overdue,
            r.search == self.search,
            r.sort == self.sort,
            r.reverse == self.reverse,
            r.category == self.category,
            r.tags == tags,
    {
        let mut f = self;
        f.tags = tags;
        f
    }
}

} // verus!
