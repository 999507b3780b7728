//! The rows of the `posts` table.

use crate::interface::CreatePostInput;
use crate::timestamp::{Moment, Timestamp};
use vstd::prelude::*;

verus! {

/// The mathematical value of a row: three texts and two instants.
pub struct RowView {
    pub id: Seq<char>,
    pub title: Seq<char>,
    pub content: Seq<char>,
    pub create_time: Moment,
    pub update_time: Moment,
}

/// A row as it is read from the table. The times are UTC wall-clock values
/// without a zone.
#[derive(Debug)]
pub struct Post {
    pub id: String,
    pub title: String,
    pub content: String,
    pub create_time: Timestamp,
    pub update_time: Timestamp,
}

impl View for Post {
    type V = RowView;

    open spec fn view(&self) -> RowView {
        RowView {
            id: self.id@,
            title: self.title@,
            content: self.content@,
            create_time: self.create_time@,
            update_time: self.update_time@,
        }
    }
}

impl Clone for Post {
    fn clone(&self) -> (copy: Post)
        ensures
            copy == *self,
    {
        Post {
            id: self.id.clone(),
            title: self.title.clone(),
            content: self.content.clone(),
            create_time: self.create_time,
            update_time: self.update_time,
        }
    }
}

/// A row to insert.
#[derive(Debug)]
pub struct NewPost<'a> {
    pub id: &'a str,
    pub title: &'a str,
    pub content: &'a str,
    pub create_time: Timestamp,
    pub update_time: Timestamp,
}

impl<'a> View for NewPost<'a> {
    type V = RowView;

    open spec fn view(&self) -> RowView {
        RowView {
            id: self.id@,
            title: self.title@,
            content: self.content@,
            create_time: self.create_time@,
            update_time: self.update_time@,
        }
    }
}

impl RowView {
    /// The row was not updated before it was created.
    pub open spec fn is_in_order(self) -> bool {
        self.create_time.le(self.update_time)
    }
}

/// The row of a post created under `id` from a title and a content at the
/// clock reading `now`.
pub open spec fn new_row(id: Seq<char>, title: Seq<char>, content: Seq<char>, now: Moment) -> RowView {
    RowView { id, title, content, create_time: now, update_time: now }
}

impl<'a> NewPost<'a> {
    /// The row to insert for `input` under the identifier `id`, with `now`
    /// as both of its times.
    pub fn new(id: &'a str, input: &CreatePostInput<'a>, now: Timestamp) -> (row: NewPost<'a>)
        ensures
            row@ == new_row(id@, input.title@, input.content@, now@),
            row@.is_in_order(),
    {
        NewPost {
            id,
            title: input.title,
            content: input.content,
            create_time: now,
            update_time: now,
        }
    }
}

} // verus!
