//! The catalogue's record type and the form a client fills in to create or
//! edit one.

use vstd::prelude::*;

verus! {

/// An instant on the UTC time line: whole seconds since 1970-01-01T00:00:00Z
/// and the nanoseconds elapsed within that second.
#[derive(Clone, Copy, Debug, PartialEq, Eq, Structural)]
pub struct Timestamp {
    pub secs: i64,
    pub nanos: u32,
}

/// The fields a client supplies when creating or editing a book.
#[derive(Debug)]
pub struct BookRequest {
    pub name: String,
    pub author: String,
    pub language: String,
    pub pages: i32,
}

/// A catalogue record.
///
/// `id` and `added_at` are assigned when the record is created and never
/// change afterwards; the other four fields are replaced as a whole by an
/// edit.
#[derive(Debug)]
pub struct Book {
    pub id: String,
    pub name: String,
    pub author: String,
    pub language: String,
    pub pages: i32,
    pub added_at: Timestamp,
}

/// The mathematical value of a [`BookRequest`].
pub ghost struct Fields {
    pub name: Seq<char>,
    pub author: Seq<char>,
    pub language: Seq<char>,
    pub pages: i32,
}

/// The mathematical value of a [`Book`].
pub ghost struct Record {
    pub id: Seq<char>,
    pub name: Seq<char>,
    pub author: Seq<char>,
    pub language: Seq<char>,
    pub pages: i32,
    pub added_at: Timestamp,
}

impl Record {
    /// The four fields an edit replaces.
    pub open spec fn fields(self) -> Fields {
        Fields {
            name: self.name,
            author: self.author,
            language: self.language,
            pages: self.pages,
        }
    }
}

impl View for BookRequest {
    type V = Fields;

    open spec fn view(&self) -> Fields {
        Fields {
            name: self.name@,
            author: self.author@,
            language: self.language@,
            pages: self.pages,
        }
    }
}

impl View for Book {
    type V = Record;

    open spec fn view(&self) -> Record {
        Record {
            id: self.id@,
            name: self.name@,
            author: self.author@,
            language: self.language@,
            pages: self.pages,
            added_at: self.added_at,
        }
    }
}

impl Clone for Book {
    fn clone(&self) -> (copy: Book)
        ensures
            copy@ == self@,
    {
        Book {
            id: self.id.clone(),
            name: self.name.clone(),
            author: self.author.clone(),
            language: self.language.clone(),
            pages: self.pages,
            added_at: self.added_at,
        }
    }
}

} // verus!
