//! The listing modes of the terminal interface, which cycle in a fixed order.
use vstd::prelude::*;

verus! {

/// Which tasks a listing shows.
#[derive(Clone, Copy, PartialEq, Eq, Structural, Debug)]
pub enum FilterMode {
    All,
    Unchecked,
    Checked,
    Scheduled,
    Overdue,
}

/// The mode after `m`, in the cycle All, Unchecked, Checked, Scheduled,
/// Overdue.
pub open spec fn filter_mode_after(m: FilterMode) -> FilterMode {
    match m {
        FilterMode::All => FilterMode::Unchecked,
        FilterMode::Unchecked => FilterMode::Checked,
        FilterMode::Checked => FilterMode::Scheduled,
        FilterMode::Scheduled => FilterMode::Overdue,
        FilterMode::Overdue => FilterMode::All,
    }
}

/// The label of a filter mode.
pub open spec fn filter_mode_label(m: FilterMode) -> Seq<char> {
    match m {
        FilterMode::All => "All"@,
        FilterMode::Unchecked => "Incomplete"@,
        FilterMode::Checked => "Complete"@,
        FilterMode::Scheduled => "Scheduled"@,
        FilterMode::Overdue => "Overdue"@,
    }
}

impl FilterMode {
    /// The next mode in the cycle.
    pub fn next(&self) -> (r: FilterMode)
        ensures
            r == filter_mode_after(*self),
    {
        match self {
            FilterMode::All => FilterMode::Unchecked,
            FilterMode::Unchecked => FilterMode::Checked,
            FilterMode::Checked => FilterMode::Scheduled,
            FilterMode::Scheduled => FilterMode::Overdue,
            FilterMode::Overdue => FilterMode::All,
        }
    }

    /// The mode's label.
    pub fn as_str(&self) -> (r: &'static str)
        ensures
            r@ == filter_mode_label(*self),
    {
        match self {
            FilterMode::All => "All",
            FilterMode::Unchecked => "Incomplete",
            FilterMode::Checked => "Complete",
            FilterMode::Scheduled => "Scheduled",
            FilterMode::Overdue => "Overdue",
        }
    }
}

/// Order of a listing.
#[derive(Clone, Copy, PartialEq, Eq, Structural, Debug)]
pub enum SortMode {
    Id,
    Date,
    Name,
    Status,
}

/// The order after `m`, in the cycle Id, Date, Name, Status.
pub open spec fn sort_mode_after(m: SortMode) -> SortMode {
    match m {
        SortMode::Id => SortMode::Date,
        SortMode::Date => SortMode::Name,
        SortMode::Name => SortMode::Status,
        SortMode::Status => SortMode::Id,
    }
}

/// The label of an order.
pub open spec fn sort_mode_label(m: SortMode) -> Seq<char> {
    match m {
        SortMode::Id => "ID"@,
        SortMode::Date => "Date"@,
        SortMode::Name => "Name"@,
        SortMode::Status => "Status"@,
    }
}

impl SortMode {
    /// The next order in the cycle.
    pub fn next(&self) -> (r: SortMode)
        ensures
            r == sort_mode_after(*self),
    {
        match self {
            SortMode::Id => SortMode::Date,
            SortMode::Date => SortMode::Name,
            SortMode::Name => SortMode::Status,
            SortMode::Status => SortMode::Id,
        }
    }

    /// The order's label.
    pub fn as_str(&self) -> (r: &'static str)
        ensures
            r@ == sort_mode_label(*self),
    {
        match self {
            SortMode::Id => "ID",
            SortMode::Date => "Date",
            SortMode::Name => "Name",
            SortMode::Status => "Status",
        }
    }
}

} // verus!
