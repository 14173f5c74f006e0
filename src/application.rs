use vstd::prelude::*;

verus! {

/// The interactive application, known by its window title.
#[derive(Debug)]
pub struct App {
    title: String,
}

impl View for App {
    type V = Seq<char>;

    /// The title.
    closed spec fn view(&self) -> Seq<char> {
        self.title@
    }
}

impl App {
    pub fn new(title: String) -> (r: Self)
        ensures
            r@ == title@,
    {
        App { title }
    }
}

} // verus!
