use vstd::prelude::*;

verus! {

/// One task record.
#[derive(Debug)]
pub struct Todo {
    pub id: u64,
    pub title: String,
    pub completed: bool,
}

/// The mathematical value of a `Todo`.
pub struct TodoView {
    pub id: u64,
    pub title: Seq<char>,
    pub completed: bool,
}

impl View for Todo {
    type V = TodoView;

    open spec fn view(&self) -> TodoView {
        TodoView { id: self.id, title: self.title@, completed: self.completed }
    }
}

/// The views of a sequence of records.
pub open spec fn todos_view(v: Seq<Todo>) -> Seq<TodoView> {
    v.map_values(|t: Todo| t@)
}

/// The seed records, in order: ids 1 and 2, both not completed.
pub open spec fn seed() -> Seq<TodoView> {
    seq![
        TodoView { id: 1, title: "Belajar Rust"@, completed: false },
        TodoView { id: 2, title: "Belajar Rust lagi"@, completed: false },
    ]
}

/// The first record of `s` whose id is `id`, if any.
pub open spec fn find_by_id(s: Seq<TodoView>, id: u64) -> Option<TodoView>
    decreases s.len(),
{
    if s.len() == 0 {
        None
    } else if s[0].id == id {
        Some(s[0])
    } else {
        find_by_id(s.drop_first(), id)
    }
}

impl Todo {
    /// A copy of this record with the same fields.
    pub fn duplicate(&self) -> (r: Todo)
        ensures
            r@ == self@,
    {
        Todo { id: self.id, title: self.title.clone(), completed: self.completed }
    }
}

/// A fresh copy of the seed records.
pub fn get_dummy_data() -> (r: Vec<Todo>)
    ensures
        todos_view(r@) == seed(),
{
    let mut data: Vec<Todo> = Vec::new();
    data.push(Todo { id: 1, title: "Belajar Rust".to_string(), completed: false });
    data.push(Todo { id: 2, title: "Belajar Rust lagi".to_string(), completed: false });
    assert(todos_view(data@) =~= seed());
    data
}

/// The first record of `data` whose id is `id`, copied.
pub fn find_todo(data: &Vec<Todo>, id: u64) -> (r: Option<Todo>)
    ensures
        match r {
            Some(t) => find_by_id(todos_view(data@), id) == Some(t@),
            None => find_by_id(todos_view(data@), id) is None,
        },
{
    let mut i: usize = 0;
    assert(todos_view(data@).skip(0) =~= todos_view(data@));
    while i < data.len()
        invariant
            i <= data@.len(),
            find_by_id(todos_view(data@), id) == find_by_id(todos_view(data@).skip(i as int), id),
        decreases data@.len() - i,
    {
        let ghost rest = todos_view(data@).skip(i as int);
        assert(rest.drop_first() =~= todos_view(data@).skip(i + 1));
        if data[i].id == id {
            return Some(data[i].duplicate());
        }
        i = i + 1;
    }
    assert(todos_view(data@).skip(i as int) =~= Seq::<TodoView>::empty());
    None
}

} // verus!
