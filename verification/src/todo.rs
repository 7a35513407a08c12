use vstd::prelude::*;
use crate::error::Error;

verus! {

/// A todo item of a user.
#[derive(Debug)]
pub struct Todo {
    /// The item's UUID, as its 128-bit value.
    pub id: u128,
    pub content: String,
    pub complete: bool,
}

/// A request to create a todo item.
#[derive(Debug)]
pub struct NewTodo {
    pub content: String,
}

/// A request to change a todo item: each field that is present replaces the
/// item's field; an absent field leaves it as it is.
#[derive(Debug)]
pub struct UpdateTodo {
    pub content: Option<String>,
    pub complete: Option<bool>,
}

/// One column update of a todo item.
#[derive(Debug)]
pub enum TodoChange {
    Content(String),
    Complete(bool),
}

/// A todo item as plain values: id, content, completion.
pub type TodoValue = (u128, Seq<char>, bool);

/// An update request as plain values.
pub type UpdateValue = (Option<Seq<char>>, Option<bool>);

/// A column update as plain values.
pub enum ChangeValue {
    Content(Seq<char>),
    Complete(bool),
}

impl View for Todo {
    type V = TodoValue;

    open spec fn view(&self) -> TodoValue {
        (self.id, self.content@, self.complete)
    }
}

impl View for UpdateTodo {
    type V = UpdateValue;

    open spec fn view(&self) -> UpdateValue {
        (
            match self.content {
                Some(c) => Some(c@),
                None => None,
            },
            self.complete,
        )
    }
}

impl View for TodoChange {
    type V = ChangeValue;

    open spec fn view(&self) -> ChangeValue {
        match self {
            TodoChange::Content(c) => ChangeValue::Content(c@),
            TodoChange::Complete(b) => ChangeValue::Complete(*b),
        }
    }
}

/// The item after an update: each present field replaces the item's field.
pub open spec fn updated(t: TodoValue, u: UpdateValue) -> TodoValue {
    (
        t.0,
        match u.0 {
            Some(c) => c,
            None => t.1,
        },
        match u.1 {
            Some(b) => b,
            None => t.2,
        },
    )
}

/// The item after one column update.
pub open spec fn apply_change(t: TodoValue, c: ChangeValue) -> TodoValue {
    match c {
        ChangeValue::Content(s) => (t.0, s, t.2),
        ChangeValue::Complete(b) => (t.0, t.1, b),
    }
}

/// The item after column updates applied in order.
pub open spec fn apply_changes(t: TodoValue, cs: Seq<ChangeValue>) -> TodoValue
    decreases cs.len(),
{
    if cs.len() == 0 {
        t
    } else {
        apply_changes(apply_change(t, cs[0]), cs.drop_first())
    }
}

/// The column updates an update request asks for: the content first, then
/// the completion, each only where present.
pub open spec fn change_list(u: UpdateValue) -> Seq<ChangeValue> {
    (match u.0 {
        Some(c) => seq![ChangeValue::Content(c)],
        None => Seq::empty(),
    }) + (match u.1 {
        Some(b) => seq![ChangeValue::Complete(b)],
        None => Seq::empty(),
    })
}

impl UpdateTodo {
    /// The column updates to run for this request, in order.
    pub fn changes(&self) -> (cs: Vec<TodoChange>)
        ensures
            cs@.map_values(|c: TodoChange| c@) == change_list(self@),
    {
        let mut cs: Vec<TodoChange> = Vec::new();
        match &self.content {
            Some(c) => cs.push(TodoChange::Content(String::from_str(c.as_str()))),
            None => {},
        }
        match self.complete {
            Some(b) => cs.push(TodoChange::Complete(b)),
            None => {},
        }
        assert(cs@.map_values(|c: TodoChange| c@) =~= change_list(self@));
        cs
    }
}

/// Running the column updates of a request, in order, gives the updated item.
pub proof fn changes_give_update(t: TodoValue, u: UpdateValue)
    ensures
        apply_changes(t, change_list(u)) == updated(t, u),
{
    let cs = change_list(u);
    reveal_with_fuel(apply_changes, 3);
    match u.0 {
        Some(c) => {
            assert(cs.drop_first() =~= change_list((None, u.1)));
        },
        None => {
            assert(cs =~= change_list((None, u.1)));
        },
    }
}

/// An update leaves the item's id as it is, and the fields it does not name.
pub proof fn update_keeps_unnamed_fields(t: TodoValue, u: UpdateValue)
    ensures
        updated(t, u).0 == t.0,
        u.0 is None ==> updated(t, u).1 == t.1,
        u.1 is None ==> updated(t, u).2 == t.2,
{
}

/// Repeating an update changes nothing more.
pub proof fn update_idempotent(t: TodoValue, u: UpdateValue)
    ensures
        updated(updated(t, u), u) == updated(t, u),
{
}

/// An update that names no field leaves the item as it is.
pub proof fn empty_update_is_identity(t: TodoValue)
    ensures
        updated(t, (None, None)) == t,
{
}

/// The answer to a lookup of one item: the item, or not found.
pub fn found_or_not_found(row: Option<Todo>) -> (r: Result<Todo, Error>)
    ensures
        row matches Some(t) ==> r matches Ok(found) && found == t,
        row is None ==> r matches Err(Error::NotFound),
{
    match row {
        Some(t) => Ok(t),
        None => Err(Error::NotFound),
    }
}

} // verus!
