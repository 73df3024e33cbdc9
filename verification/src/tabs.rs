//! Top-level tab identity and its saturating navigation.

pub mod broker;
pub mod group;
pub mod topic;
pub mod topic_send;

use vstd::prelude::*;

verus! {

/// The three top-level views, in declaration order.  `next` and `prev`
/// saturate at the ends of this order; there is no wrap-around.
#[derive(Debug, Clone, Copy, PartialEq, Eq, Structural)]
pub enum Tab {
    Topic,
    Group,
    Broker,
}

/// What `Tab::next` returns: one step later in declaration order,
/// saturating at the last tab.
pub open spec fn spec_tab_next(t: Tab) -> Tab {
    match t {
        Tab::Topic => Tab::Group,
        Tab::Group => Tab::Broker,
        Tab::Broker => Tab::Broker,
    }
}

/// What `Tab::prev` returns: one step earlier in declaration order,
/// saturating at the first tab.
pub open spec fn spec_tab_prev(t: Tab) -> Tab {
    match t {
        Tab::Topic => Tab::Topic,
        Tab::Group => Tab::Topic,
        Tab::Broker => Tab::Group,
    }
}

impl Tab {
    /// The tab one step later in declaration order; the last tab stays put.
    pub fn next(self) -> (t: Self)
        ensures
            t == spec_tab_next(self),
    {
        match self {
            Tab::Topic => Tab::Group,
            Tab::Group => Tab::Broker,
            Tab::Broker => Tab::Broker,
        }
    }

    /// The tab one step earlier in declaration order; the first tab stays put.
    pub fn prev(self) -> (t: Self)
        ensures
            t == spec_tab_prev(self),
    {
        match self {
            Tab::Topic => Tab::Topic,
            Tab::Group => Tab::Topic,
            Tab::Broker => Tab::Group,
        }
    }

    /// The label shown in the title bar for this tab.
    pub fn title(self) -> (t: String)
        ensures
            self is Topic ==> t@ == "Topic"@,
            self is Group ==> t@ == "Group"@,
            self is Broker ==> t@ == "Broker"@,
    {
        match self {
            Tab::Topic => "Topic".to_owned(),
            Tab::Group => "Group".to_owned(),
            Tab::Broker => "Broker".to_owned(),
        }
    }
}

/// Tab navigation is saturating: from the first tab `prev` returns the first
/// tab, from the last tab `next` returns the last tab, and every step of
/// either kind stays inside the declared order.
pub proof fn law_tab_navigation_saturates()
    ensures
        spec_tab_prev(Tab::Topic) == Tab::Topic,
        spec_tab_next(Tab::Broker) == Tab::Broker,
{
}

} // verus!
