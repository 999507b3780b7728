//! What the relational backend computes between its statements: the row to
//! insert, the row limit of a query, and the posts made of the rows read.

pub mod models;

use self::models::{new_row, Post as DieselPost, RowView};
use crate::history::made_post;
use crate::interface::{Post as ApplicationPost, PostId, PostView};
use crate::timestamp::{rfc3339, Moment};
use vstd::prelude::*;

verus! {

/// The post that stands for a row: the same texts, and each time as its
/// RFC 3339 text in UTC.
pub open spec fn rendered(row: RowView) -> PostView {
    PostView {
        id: row.id,
        title: row.title,
        content: row.content,
        create_time: rfc3339(row.create_time),
        update_time: rfc3339(row.update_time),
    }
}

/// The posts that stand for `rows`, in the same order.
pub open spec fn rendered_all(rows: Seq<DieselPost>) -> Seq<PostView> {
    rows.map_values(|row: DieselPost| rendered(row@))
}

/// The largest number of rows a query for `count` posts may return.
pub open spec fn limit_for(count: usize) -> int {
    if count <= i64::MAX {
        count as int
    } else {
        i64::MAX as int
    }
}

/// Turns a row into the post that callers see.
pub fn map_diesel_post_to_application_post(diesel_post: DieselPost) -> (post: ApplicationPost)
    ensures
        post@ == rendered(diesel_post@),
{
    ApplicationPost {
        id: PostId(diesel_post.id),
        title: diesel_post.title,
        content: diesel_post.content,
        create_time: diesel_post.create_time.to_rfc3339(),
        update_time: diesel_post.update_time.to_rfc3339(),
    }
}

/// The post of a single-row lookup: that of the row where one matched, and
/// `None` where none did.
pub fn map_found_post(found: Option<DieselPost>) -> (post: Option<ApplicationPost>)
    ensures
        match found {
            Some(row) => post matches Some(p) && p@ == rendered(row@),
            None => post is None,
        },
{
    match found {
        Some(row) => Some(map_diesel_post_to_application_post(row)),
        None => None,
    }
}

/// The posts of the rows that a query returned, in the order of the rows.
pub fn map_diesel_posts(rows: Vec<DieselPost>) -> (posts: Vec<ApplicationPost>)
    ensures
        crate::interface::views(posts@) == rendered_all(rows@),
{
    let ghost all = rows@;
    let mut posts: Vec<ApplicationPost> = Vec::new();
    for row in it: rows
        invariant
            it.seq() == all,
            posts@.len() == it.index(),
            forall|i: int| 0 <= i < posts@.len() ==> (#[trigger] posts@[i])@ == rendered(all[i]@),
    {
        posts.push(map_diesel_post_to_application_post(row));
    }
    proof {
        assert(crate::interface::views(posts@) =~= rendered_all(all));
    }
    posts
}

/// The `LIMIT` of a query for the latest `count` posts. A count beyond what
/// the column type holds asks for as many rows as it can name.
pub fn row_limit(count: usize) -> (limit: i64)
    ensures
        limit == limit_for(count),
{
    let wide: u64 = count as u64;
    if wide > i64::MAX as u64 {
        i64::MAX
    } else {
        wide as i64
    }
}

/// A new row is created and updated at one instant, and read back as it
/// was inserted it gives the post that the in-memory store makes of the
/// same identifier, input and clock reading: the title and content of the
/// input, and one time in both places.
pub proof fn lemma_new_row_renders_as_made_post(
    id: Seq<char>,
    title: Seq<char>,
    content: Seq<char>,
    now: Moment,
)
    ensures
        new_row(id, title, content, now).is_in_order(),
        rendered(new_row(id, title, content, now)) == made_post(id, title, content, now),
        rendered(new_row(id, title, content, now)).create_time == rendered(
            new_row(id, title, content, now),
        ).update_time,
{
}

} // verus!
