//! The record store: an ordered collection of books with create, read,
//! update and delete by id.

use crate::book::{Book, BookRequest, Fields, Record, Timestamp};
use crate::error::Error;
use crate::stamp::{fresh_id, is_book_id, is_within_second, now};
use vstd::prelude::*;

verus! {

/// The values of a run of books, in order.
pub open spec fn records(books: Seq<Book>) -> Seq<Record> {
    books.map_values(|b: Book| b@)
}

/// Some record of `s` carries `id`.
pub open spec fn has_id(s: Seq<Record>, id: Seq<char>) -> bool {
    exists|i: int| 0 <= i < s.len() && (#[trigger] s[i]).id == id
}

/// `i` is the place of the first record of `s` that carries `id`.
pub open spec fn is_first_with_id(s: Seq<Record>, id: Seq<char>, i: int) -> bool {
    &&& 0 <= i < s.len()
    &&& s[i].id == id
    &&& forall|j: int| 0 <= j < i ==> (#[trigger] s[j]).id != id
}

/// The place of the first record of `s` that carries `id`. Meaningful only
/// when [`has_id`] holds.
pub open spec fn place_of(s: Seq<Record>, id: Seq<char>) -> int {
    choose|i: int| is_first_with_id(s, id, i)
}

/// No two records of `s` carry the same id.
pub open spec fn ids_distinct(s: Seq<Record>) -> bool {
    forall|i: int, j: int| 0 <= i < j < s.len() ==> (#[trigger] s[i]).id != (#[trigger] s[j]).id
}

/// The record a creation adds.
pub open spec fn created(id: Seq<char>, fields: Fields, added_at: Timestamp) -> Record {
    Record {
        id,
        name: fields.name,
        author: fields.author,
        language: fields.language,
        pages: fields.pages,
        added_at,
    }
}

/// A record after an edit: the four editable fields replaced, id and
/// creation time kept.
pub open spec fn edited(r: Record, fields: Fields) -> Record {
    Record {
        id: r.id,
        name: fields.name,
        author: fields.author,
        language: fields.language,
        pages: fields.pages,
        added_at: r.added_at,
    }
}

/// The store after a creation: the new record at the end.
pub open spec fn after_create(
    s: Seq<Record>,
    id: Seq<char>,
    fields: Fields,
    added_at: Timestamp,
) -> Seq<Record> {
    s.push(created(id, fields, added_at))
}

/// The record found under `id`: the first that carries it, if any does.
pub open spec fn lookup(s: Seq<Record>, id: Seq<char>) -> Option<Record> {
    if has_id(s, id) {
        Some(s[place_of(s, id)])
    } else {
        None
    }
}

/// The store after an edit of `id`: the first record that carries it
/// replaced in place. `None` when no record carries `id`.
pub open spec fn after_update(s: Seq<Record>, id: Seq<char>, fields: Fields) -> Option<
    Seq<Record>,
> {
    if has_id(s, id) {
        Some(s.update(place_of(s, id), edited(s[place_of(s, id)], fields)))
    } else {
        None
    }
}

/// The store after a deletion of `id`: the first record that carries it
/// taken out, the others in their old order. `None` when no record carries
/// `id`.
pub open spec fn after_delete(s: Seq<Record>, id: Seq<char>) -> Option<Seq<Record>> {
    if has_id(s, id) {
        Some(s.remove(place_of(s, id)))
    } else {
        None
    }
}

/// At most one place is the first to carry an id, and it is [`place_of`].
pub proof fn lemma_place_of(s: Seq<Record>, id: Seq<char>, i: int)
    requires
        is_first_with_id(s, id, i),
    ensures
        has_id(s, id),
        place_of(s, id) == i,
{
    let p = place_of(s, id);
    assert(is_first_with_id(s, id, p));
    if p < i {
        assert(s[p].id != id);
    } else if i < p {
        assert(s[i].id != id);
    }
}

/// Where an id is carried at all, it is carried first somewhere.
pub proof fn lemma_has_first(s: Seq<Record>, id: Seq<char>)
    requires
        has_id(s, id),
    ensures
        is_first_with_id(s, id, place_of(s, id)),
{
    let k = choose|k: int| 0 <= k < s.len() && (#[trigger] s[k]).id == id;
    lemma_first_up_to(s, id, k);
}

/// Induction behind [`lemma_has_first`]: a carrier at `k` implies a first
/// carrier at or before `k`.
proof fn lemma_first_up_to(s: Seq<Record>, id: Seq<char>, k: int)
    requires
        0 <= k < s.len(),
        s[k].id == id,
    ensures
        exists|i: int| is_first_with_id(s, id, i),
    decreases k,
{
    if exists|j: int| 0 <= j < k && (#[trigger] s[j]).id == id {
        let j = choose|j: int| 0 <= j < k && (#[trigger] s[j]).id == id;
        lemma_first_up_to(s, id, j);
    } else {
        assert(is_first_with_id(s, id, k));
    }
}

/// The in-memory catalogue. Records keep the order in which they were
/// created; removing one leaves the others where they were.
pub struct Store {
    books: Vec<Book>,
}

impl View for Store {
    type V = Seq<Record>;

    closed spec fn view(&self) -> Seq<Record> {
        records(self.books@)
    }
}

impl Store {
    /// An empty store.
    pub fn new() -> (store: Store)
        ensures
            store@ == Seq::<Record>::empty(),
    {
        Store { books: Vec::new() }
    }

    /// The number of records.
    pub fn len(&self) -> (n: usize)
        ensures
            n == self@.len(),
    {
        self.books.len()
    }

    /// The place of the first record that carries `id`.
    fn find(&self, id: &String) -> (found: Option<usize>)
        ensures
            match found {
                Some(i) => is_first_with_id(self@, id@, i as int),
                None => !has_id(self@, id@),
            },
    {
        let mut i: usize = 0;
        while i < self.books.len()
            invariant
                i <= self.books.len(),
                forall|j: int| 0 <= j < i ==> (#[trigger] self@[j]).id != id@,
            decreases self.books.len() - i,
        {
            if self.books[i].id == *id {
                return Some(i);
            }
            i += 1;
        }
        None
    }

    /// A copy of every record, in the store's order.
    pub fn list(&self) -> (snapshot: Vec<Book>)
        ensures
            records(snapshot@) == self@,
    {
        let mut snapshot: Vec<Book> = Vec::new();
        let mut i: usize = 0;
        while i < self.books.len()
            invariant
                i <= self.books.len(),
                snapshot.len() == i,
                forall|j: int| 0 <= j < i ==> (#[trigger] snapshot[j])@ == self.books[j]@,
            decreases self.books.len() - i,
        {
            snapshot.push(self.books[i].clone());
            i += 1;
        }
        assert(records(snapshot@) =~= self@);
        snapshot
    }

    /// Appends a record made of the given id, fields and creation time. The
    /// id is taken as given: whether another record carries it already is
    /// not looked at.
    pub fn insert(&mut self, id: String, body: BookRequest, added_at: Timestamp)
        ensures
            final(self)@ == after_create(old(self)@, id@, body@, added_at),
    {
        let book = Book {
            id,
            name: body.name,
            author: body.author,
            language: body.language,
            pages: body.pages,
            added_at,
        };
        self.books.push(book);
        assert(self@ =~= after_create(old(self)@, id@, body@, added_at));
    }

    /// Creates a record from `body` under a fresh id and the current time,
    /// appends it, and returns the store's new contents. The id is a random
    /// UUID; it is not compared with the ids already in the store.
    pub fn create(&mut self, body: BookRequest) -> (snapshot: Vec<Book>)
        ensures
            final(self)@.len() == old(self)@.len() + 1,
            final(self)@ == after_create(
                old(self)@,
                final(self)@.last().id,
                body@,
                final(self)@.last().added_at,
            ),
            is_book_id(final(self)@.last().id),
            is_within_second(final(self)@.last().added_at),
            records(snapshot@) == final(self)@,
    {
        let id = fresh_id();
        let added_at = now();
        self.insert(id, body, added_at);
        self.list()
    }

    /// A copy of the record that carries `id`; of the first, should several
    /// carry it. Fails when no record carries `id`.
    pub fn get(&self, id: &String) -> (found: Result<Book, Error>)
        ensures
            match found {
                Ok(book) => lookup(self@, id@) == Some(book@),
                Err(e) => lookup(self@, id@).is_none() && e == Error::BookNotFoundError,
            },
    {
        match self.find(id) {
            Some(i) => {
                proof {
                    lemma_place_of(self@, id@, i as int);
                }
                Ok(self.books[i].clone())
            },
            None => Err(Error::BookNotFoundError),
        }
    }

    /// Replaces the editable fields of the first record that carries `id`
    /// and returns the store's new contents. Fails, and changes nothing, when
    /// no record carries `id`.
    pub fn update(&mut self, id: &String, body: BookRequest) -> (updated: Result<Vec<Book>, Error>)
        ensures
            match updated {
                Ok(snapshot) => {
                    &&& after_update(old(self)@, id@, body@) == Some(final(self)@)
                    &&& records(snapshot@) == final(self)@
                },
                Err(e) => {
                    &&& after_update(old(self)@, id@, body@).is_none()
                    &&& final(self)@ == old(self)@
                    &&& e == Error::BookNotFoundError
                },
            },
    {
        match self.find(id) {
            Some(i) => {
                proof {
                    lemma_place_of(self@, id@, i as int);
                }
                self.books[i].name = body.name;
                self.books[i].language = body.language;
                self.books[i].author = body.author;
                self.books[i].pages = body.pages;
                assert(self@ =~= old(self)@.update(i as int, edited(old(self)@[i as int], body@)));
                Ok(self.list())
            },
            None => Err(Error::BookNotFoundError),
        }
    }

    /// Removes the first record that carries `id`, keeping the others in
    /// order, and returns the store's new contents. Fails, and changes
    /// nothing, when no record carries `id`.
    pub fn delete(&mut self, id: &String) -> (deleted: Result<Vec<Book>, Error>)
        ensures
            match deleted {
                Ok(snapshot) => {
                    &&& after_delete(old(self)@, id@) == Some(final(self)@)
                    &&& records(snapshot@) == final(self)@
                },
                Err(e) => {
                    &&& after_delete(old(self)@, id@).is_none()
                    &&& final(self)@ == old(self)@
                    &&& e == Error::BookNotFoundError
                },
            },
    {
        match self.find(id) {
            Some(i) => {
                proof {
                    lemma_place_of(self@, id@, i as int);
                }
                self.books.remove(i);
                assert(self@ =~= old(self)@.remove(i as int));
                Ok(self.list())
            },
            None => Err(Error::BookNotFoundError),
        }
    }
}

} // verus!
