//! The post, its identifier, and the operations every backend offers.

use crate::identifier::{is_uuid_v4_text, random_uuid_text};
use std::ops::Deref;
use vstd::prelude::*;

verus! {

/// The identifier of a post: an opaque text, unique among the posts of a
/// store when it was drawn.
#[derive(Debug)]
pub struct PostId(pub String);

impl View for PostId {
    type V = Seq<char>;

    open spec fn view(&self) -> Seq<char> {
        self.0@
    }
}

impl PostId {
    /// Draws a fresh random identifier.
    pub fn generate() -> (id: PostId)
        ensures
            is_uuid_v4_text(id@),
    {
        PostId(random_uuid_text())
    }
}

impl Clone for PostId {
    fn clone(&self) -> (copy: PostId)
        ensures
            copy == *self,
    {
        PostId(self.0.clone())
    }
}

impl Deref for PostId {
    type Target = String;

    fn deref(&self) -> (text: &String)
        ensures
            *text == self.0,
    {
        &self.0
    }
}

impl PartialEq for PostId {
    fn eq(&self, other: &PostId) -> (same: bool) {
        self.0 == other.0
    }
}

impl vstd::std_specs::cmp::PartialEqSpecImpl for PostId {
    open spec fn obeys_eq_spec() -> bool {
        true
    }

    open spec fn eq_spec(&self, other: &PostId) -> bool {
        self@ == other@
    }
}

/// The mathematical value of a [`Post`]: its five texts.
pub struct PostView {
    pub id: Seq<char>,
    pub title: Seq<char>,
    pub content: Seq<char>,
    pub create_time: Seq<char>,
    pub update_time: Seq<char>,
}

/// A blog entry as callers see it. Both times are RFC 3339 texts in UTC.
#[derive(Debug)]
pub struct Post {
    pub id: PostId,
    pub title: String,
    pub content: String,
    pub create_time: String,
    pub update_time: String,
}

impl View for Post {
    type V = PostView;

    open spec fn view(&self) -> PostView {
        PostView {
            id: self.id@,
            title: self.title@,
            content: self.content@,
            create_time: self.create_time@,
            update_time: self.update_time@,
        }
    }
}

impl Clone for Post {
    fn clone(&self) -> (copy: Post)
        ensures
            copy == *self,
    {
        Post {
            id: self.id.clone(),
            title: self.title.clone(),
            content: self.content.clone(),
            create_time: self.create_time.clone(),
            update_time: self.update_time.clone(),
        }
    }
}

/// What a caller supplies to have a post created; the store assigns the
/// identifier and the times.
pub struct CreatePostInput<'a> {
    pub title: &'a str,
    pub content: &'a str,
}

/// The values of the posts in `posts`, in the same order.
pub open spec fn views(posts: Seq<Post>) -> Seq<PostView> {
    posts.map_values(|post: Post| post@)
}

/// The value of the post in `found`, if there is one.
pub open spec fn view_of(found: Option<Post>) -> Option<PostView> {
    match found {
        Some(post) => Some(post@),
        None => None,
    }
}

/// The operations of a post store. A backend behind this interface assigns
/// identifiers and times itself and hands out copies of what it holds.
pub trait IApplication {
    /// Stores a new post made from `input` and returns it as stored.
    fn create_post<'a, 'b>(&mut self, input: &'a CreatePostInput<'b>) -> (post: Post)
        ensures
            post@.id.len() > 0,
            post@.title == input.title@,
            post@.content == input.content@,
            post@.create_time == post@.update_time,
    ;

    /// The post with the identifier `id`, or `None` where there is none.
    fn get_post(&self, id: &PostId) -> (found: Option<Post>)
        ensures
            found matches Some(post) ==> post@.id == id@,
    ;

    /// At most `count` posts, the most recently updated first.
    fn get_latest_posts(&self, count: usize) -> (posts: Vec<Post>)
        ensures
            posts@.len() <= count,
    ;
}

} // verus!
