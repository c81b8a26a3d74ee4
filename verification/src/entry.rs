use vstd::prelude::*;

verus! {

/// One record of the table, and also the body of a request.
///
/// A record read from the table carries the `id` that the table assigned to
/// it. In a request every field may be absent; which fields an operation
/// reads is said at that operation.
#[derive(Debug, Clone, PartialEq, Eq)]
pub struct Entry {
    pub id: Option<i32>,
    pub key: Option<String>,
    pub license: Option<String>,
}

/// The mathematical value of an [`Entry`]: its texts as character sequences.
pub ghost struct EntryView {
    pub id: Option<i32>,
    pub key: Option<Seq<char>>,
    pub license: Option<Seq<char>>,
}

/// The characters of an optional text.
pub open spec fn text_of(text: Option<String>) -> Option<Seq<char>> {
    match text {
        Some(s) => Some(s@),
        None => None,
    }
}

impl View for Entry {
    type V = EntryView;

    open spec fn view(&self) -> EntryView {
        EntryView { id: self.id, key: text_of(self.key), license: text_of(self.license) }
    }
}

} // verus!
