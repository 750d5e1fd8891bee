//! An ordered list of labelled tabs with a single active selection.
use vstd::prelude::*;

use crate::text::{ascii_eq_ignore_case, eq_ignore_ascii_case};

verus! {

/// A labelled, selectable value.
#[derive(Debug, PartialEq, Eq)]
pub struct Tab<T> {
    pub label: String,
    pub value: T,
}

impl<T> Tab<T> {
    pub fn new(label: String, value: T) -> (r: Self)
        ensures
            r.label == label,
            r.value == value,
    {
        Tab { label, value }
    }
}

/// Whether `tab`'s label matches `label` when ASCII case is ignored.
pub open spec fn tab_matches<T>(tab: Tab<T>, label: Seq<char>) -> bool {
    ascii_eq_ignore_case(tab.label@, label)
}

/// Tabs in a fixed order, one of which is active. On an empty list no tab is
/// active and the index stays at zero.
#[derive(Debug, PartialEq, Eq)]
pub struct Tabs<T> {
    tabs: Vec<Tab<T>>,
    active_index: usize,
}

impl<T> Tabs<T> {
    /// The tabs, in order.
    pub closed spec fn spec_tabs(&self) -> Seq<Tab<T>> {
        self.tabs@
    }

    /// The position of the active tab.
    pub closed spec fn spec_active_index(&self) -> nat {
        self.active_index as nat
    }

    /// The active index names a tab, or the list is empty and the index is zero.
    pub open spec fn wf(&self) -> bool {
        ||| self.spec_active_index() < self.spec_tabs().len()
        ||| (self.spec_tabs().len() == 0 && self.spec_active_index() == 0)
    }

    /// The active tab, if any.
    pub open spec fn spec_active(&self) -> Option<Tab<T>> {
        if self.spec_active_index() < self.spec_tabs().len() {
            Some(self.spec_tabs()[self.spec_active_index() as int])
        } else {
            None
        }
    }

    /// Whether `i` is the first position whose label matches `label`.
    pub open spec fn first_match(&self, label: Seq<char>, i: int) -> bool {
        &&& 0 <= i < self.spec_tabs().len()
        &&& tab_matches(self.spec_tabs()[i], label)
        &&& forall|j: int| 0 <= j < i ==> !tab_matches(#[trigger] self.spec_tabs()[j], label)
    }

    pub fn new(tabs: Vec<Tab<T>>) -> (r: Self)
        ensures
            r.spec_tabs() == tabs@,
            r.spec_active_index() == 0,
            r.wf(),
            tabs@.len() > 0 ==> r.spec_active() == Some(tabs@[0]),
            tabs@.len() == 0 ==> r.spec_active() is None,
    {
        Tabs { tabs, active_index: 0 }
    }

    pub fn tabs(&self) -> (r: &[Tab<T>])
        ensures
            r@ == self.spec_tabs(),
    {
        self.tabs.as_slice()
    }

    /// The labels of all tabs, in order, whichever is active.
    pub fn labels(&self) -> (r: Vec<&str>)
        ensures
            r@.len() == self.spec_tabs().len(),
            forall|i: int| 0 <= i < r@.len() ==> #[trigger] r@[i]@ == self.spec_tabs()[i].label@,
    {
        let mut out: Vec<&str> = Vec::new();
        let mut i: usize = 0;
        while i < self.tabs.len()
            invariant
                i <= self.tabs@.len(),
                out@.len() == i,
                forall|j: int| 0 <= j < i ==> #[trigger] out@[j]@ == self.tabs@[j].label@,
            decreases self.tabs@.len() - i,
        {
            out.push(self.tabs[i].label.as_str());
            i = i + 1;
        }
        out
    }

    /// Makes the first tab whose label matches `label`, ignoring ASCII case,
    /// the active one. Reports whether such a tab exists; when none does the
    /// selection is left as it was.
    pub fn set_active_label(&mut self, label: &str) -> (found: bool)
        ensures
            final(self).spec_tabs() == old(self).spec_tabs(),
            found == exists|i: int|
                0 <= i < old(self).spec_tabs().len() && #[trigger] tab_matches(
                    old(self).spec_tabs()[i],
                    label@,
                ),
            found ==> old(self).first_match(label@, final(self).spec_active_index() as int),
            !found ==> final(self).spec_active_index() == old(self).spec_active_index(),
            old(self).wf() ==> final(self).wf(),
    {
        let mut i: usize = 0;
        while i < self.tabs.len()
            invariant
                self.tabs == old(self).tabs,
                self.active_index == old(self).active_index,
                i <= self.tabs@.len(),
                forall|j: int| 0 <= j < i ==> !tab_matches(#[trigger] self.tabs@[j], label@),
            decreases self.tabs@.len() - i,
        {
            if eq_ignore_ascii_case(self.tabs[i].label.as_str(), label) {
                assert(tab_matches(old(self).spec_tabs()[i as int], label@));
                self.active_index = i;
                return true;
            }
            i = i + 1;
        }
        false
    }

    pub fn active_index(&self) -> (r: usize)
        ensures
            r == self.spec_active_index(),
    {
        self.active_index
    }

    /// Selects the tab at `index` when there is one; otherwise does nothing.
    pub fn set_active_index(&mut self, index: usize)
        ensures
            final(self).spec_tabs() == old(self).spec_tabs(),
            index < old(self).spec_tabs().len() ==> final(self).spec_active_index() == index,
            index >= old(self).spec_tabs().len() ==> final(self).spec_active_index()
                == old(self).spec_active_index(),
            old(self).wf() ==> final(self).wf(),
    {
        if index < self.tabs.len() {
            self.active_index = index;
        }
    }

    pub fn active(&self) -> (r: Option<&Tab<T>>)
        ensures
            r is Some <==> self.spec_active() is Some,
            r is Some ==> *r->0 == self.spec_active()->0,
    {
        if self.active_index < self.tabs.len() {
            Some(&self.tabs[self.active_index])
        } else {
            None
        }
    }
}

impl<T: Clone> Tabs<T> {
    /// A copy of the active tab's value, if any.
    pub fn active_value(&self) -> (r: Option<T>)
        ensures
            r is Some <==> self.spec_active() is Some,
            r is Some ==> cloned::<T>(self.spec_active()->0.value, r->0),
    {
        match self.active() {
            Some(tab) => Some(tab.value.clone()),
            None => None,
        }
    }
}

} // verus!
