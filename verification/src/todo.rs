//! The todo item and its mathematical model.

use vstd::prelude::*;

verus! {

/// One task of the list, as the database stores it.
#[derive(Debug)]
pub struct Todo {
    pub id: usize,
    pub title: String,
    pub done: bool,
}

/// What a [`Todo`] holds, as plain values.
pub ghost struct TodoView {
    pub id: nat,
    pub title: Seq<char>,
    pub done: bool,
}

impl View for Todo {
    type V = TodoView;

    open spec fn view(&self) -> TodoView {
        TodoView { id: self.id as nat, title: self.title@, done: self.done }
    }
}

impl DeepView for Todo {
    type V = TodoView;

    open spec fn deep_view(&self) -> TodoView {
        self@
    }
}

impl Clone for Todo {
    fn clone(&self) -> (copy: Todo)
        ensures
            copy == *self,
    {
        Todo { id: self.id, title: self.title.clone(), done: self.done }
    }
}

impl Todo {
    /// An item that was not stored yet: it is not done, and its id is 0 until
    /// the database assigns one.
    pub fn new(title: String) -> (todo: Todo)
        ensures
            todo.id == 0,
            todo.title == title,
            todo.done == false,
    {
        Todo { title, done: false, id: 0 }
    }
}

} // verus!
