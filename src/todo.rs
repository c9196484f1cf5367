use vstd::prelude::*;

verus! {

/// What a client sees of a todo item: its id, its title and its flag.
pub type Row = (i32, Seq<char>, bool);

/// A todo item as the store holds it and as the list and create endpoints
/// return it.
#[derive(Clone, Debug, PartialEq, Eq)]
pub struct TodoItem {
    pub id: i32,
    pub title: String,
    pub completed: bool,
}

impl View for TodoItem {
    type V = Row;

    open spec fn view(&self) -> Row {
        (self.id, self.title@, self.completed)
    }
}

impl TodoItem {
    /// A copy of the item, field for field.
    pub fn copy(&self) -> (r: TodoItem)
        ensures
            r@ == self@,
    {
        TodoItem { id: self.id, title: self.title.clone(), completed: self.completed }
    }
}

/// The body of a create request: the title of the new item.
#[derive(Clone, Debug, PartialEq, Eq)]
pub struct CreateTodo {
    pub title: String,
}

/// The body of an update request: the new value of the `completed` flag.
#[derive(Clone, Debug, PartialEq, Eq)]
pub struct UpdateTodo {
    pub completed: bool,
}

/// The rows that a sequence of items shows.
pub open spec fn rows_of(items: Seq<TodoItem>) -> Seq<Row> {
    items.map_values(|t: TodoItem| t@)
}

} // verus!
