use vstd::prelude::*;

use crate::http::HttpMethod;
use crate::list::{next_index, previous_index, StatefulList};

verus! {

/// The methods offered for selection, in display order.
pub open spec fn all_methods() -> Seq<HttpMethod> {
    seq![HttpMethod::Get, HttpMethod::Post, HttpMethod::Put, HttpMethod::Delete]
}

/// The method picker: the fixed list of methods and the selection in it.
pub struct Method {
    pub methods: StatefulList<HttpMethod>,
}

impl Method {
    pub open spec fn wf(&self) -> bool {
        self.methods.items@ == all_methods() && self.methods.wf()
    }

    pub open spec fn selection(&self) -> Option<int> {
        self.methods.selection()
    }

    /// All four methods, nothing selected.
    pub fn new() -> (r: Self)
        ensures
            r.wf(),
            r.selection() is None,
    {
        let items = vec![HttpMethod::Get, HttpMethod::Post, HttpMethod::Put, HttpMethod::Delete];
        assert(items@ == all_methods());
        Method { methods: StatefulList::with_items(items) }
    }

    pub fn select_next_method(&mut self)
        requires
            old(self).wf(),
        ensures
            final(self).wf(),
            final(self).selection() == next_index(old(self).selection(), 4),
    {
        self.methods.next();
    }

    pub fn select_previous_method(&mut self)
        requires
            old(self).wf(),
        ensures
            final(self).wf(),
            final(self).selection() == previous_index(old(self).selection(), 4),
    {
        self.methods.previous();
    }

    /// The selected method; GET while nothing is selected.
    pub fn selected_method(&self) -> (r: HttpMethod)
        requires
            self.wf(),
        ensures
            r == match self.selection() {
                Some(i) => all_methods()[i],
                None => HttpMethod::Get,
            },
    {
        match self.methods.selected() {
            Some(i) => self.methods.items[i],
            None => HttpMethod::Get,
        }
    }
}

} // verus!
