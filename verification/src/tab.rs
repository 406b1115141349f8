//! The editor tab selected below the URL bar, with the numeric tags the UI's
//! radio buttons exchange for it.

use vstd::prelude::*;

verus! {

#[derive(Debug, Clone, Copy, PartialEq, Eq, Structural)]
pub enum Tab {
    Closed,
    Auth,
    Headers,
    Body,
}

/// The numeric tag of each tab.
pub open spec fn tab_index(t: Tab) -> u8 {
    match t {
        Tab::Closed => 0,
        Tab::Auth => 1,
        Tab::Headers => 2,
        Tab::Body => 3,
    }
}

/// The tab a numeric tag selects; unknown tags select no tab.
pub open spec fn tab_of_index(i: u8) -> Tab {
    if i == 0 {
        Tab::Closed
    } else if i == 1 {
        Tab::Auth
    } else if i == 2 {
        Tab::Headers
    } else if i == 3 {
        Tab::Body
    } else {
        Tab::Closed
    }
}

impl Tab {
    pub fn to_int(&self) -> (r: Option<u8>)
        ensures
            r == Some(tab_index(*self)),
    {
        match self {
            Tab::Closed => Some(0),
            Tab::Auth => Some(1),
            Tab::Headers => Some(2),
            Tab::Body => Some(3),
        }
    }

    pub fn from_int(i: u8) -> (r: Self)
        ensures
            r == tab_of_index(i),
    {
        match i {
            0 => Tab::Closed,
            1 => Tab::Auth,
            2 => Tab::Headers,
            3 => Tab::Body,
            _ => Tab::Closed,
        }
    }
}

impl Default for Tab {
    fn default() -> (r: Self)
        ensures
            r == Tab::Closed,
    {
        Tab::Closed
    }
}

} // verus!
