use vstd::prelude::*;

verus! {

/// The mathematical value of one todo item.
pub struct Entry {
    pub id: i64,
    pub label: Seq<char>,
    pub completed: bool,
}

/// One todo item: its storage identifier, its label and whether it is done.
#[derive(Debug)]
pub struct Todo {
    pub id: i64,
    pub label: String,
    pub completed: bool,
}

impl View for Todo {
    type V = Entry;

    open spec fn view(&self) -> Entry {
        Entry { id: self.id, label: self.label@, completed: self.completed }
    }
}

impl Todo {
    /// A fresh item, not yet completed.
    pub fn new(id: i64, label: String) -> (r: Todo)
        ensures
            r@ == (Entry { id, label: label@, completed: false }),
    {
        Todo { id, label, completed: false }
    }

    /// Flips `completed`; identifier and label stay.
    pub fn toggle(&mut self)
        ensures
            final(self)@ == (Entry { completed: !old(self).completed, ..old(self)@ }),
    {
        self.completed = !self.completed;
    }
}

} // verus!
