//! A post store that keeps its posts in memory, in the order of creation.

use crate::history::{
    ascending, descending, granted, has_id, latest, lemma_created_post_is_found,
    lemma_latest_is_newest_first, lemma_lookup_first, lookup, made_post, stamped,
};
use crate::identifier::is_uuid_v4_text;
use crate::interface::{view_of, views, CreatePostInput, IApplication, Post, PostId, PostView};
use crate::timestamp::{Moment, Timestamp};
use vstd::prelude::*;

verus! {

/// The in-memory store. Posts are only ever appended, so they stand in the
/// order of creation, which is the order of their update times as long as
/// the clock did not run backwards from one creation to the next.
///
/// The store has no lock of its own: a creation takes it by `&mut`, so one
/// writer at a time is all the compiler lets through.
pub struct InmemoryApplication {
    posts_sorted: Vec<Post>,
    recorded_at: Ghost<Seq<Moment>>,
}

impl InmemoryApplication {
    /// The stored posts, oldest first.
    pub closed spec fn history(&self) -> Seq<PostView> {
        views(self.posts_sorted@)
    }

    /// The clock reading taken at the creation of each stored post.
    pub closed spec fn readings(&self) -> Seq<Moment> {
        self.recorded_at@
    }

    #[verifier::type_invariant]
    spec fn well_stamped(self) -> bool {
        stamped(self.history(), self.readings())
    }

    /// An empty store.
    pub fn new() -> (store: InmemoryApplication)
        ensures
            store.history() == Seq::<PostView>::empty(),
            store.readings() == Seq::<Moment>::empty(),
    {
        InmemoryApplication { posts_sorted: Vec::new(), recorded_at: Ghost(Seq::empty()) }
    }

    /// Appends the post made of `id`, `input` and the clock reading `now`,
    /// and returns a copy of it.
    pub fn create_post_with<'a, 'b>(
        &mut self,
        id: PostId,
        now: Timestamp,
        input: &'a CreatePostInput<'b>,
    ) -> (post: Post)
        ensures
            post@ == made_post(id@, input.title@, input.content@, now@),
            final(self).history() == old(self).history().push(post@),
            final(self).readings() == old(self).readings().push(now@),
            stamped(final(self).history(), final(self).readings()),
            !has_id(old(self).history(), id@) ==> lookup(final(self).history(), id@) == Some(post@),
    {
        let time = now.to_rfc3339();
        let new_post = Post {
            id,
            title: input.title.to_owned(),
            content: input.content.to_owned(),
            create_time: time.clone(),
            update_time: time,
        };
        let mut held = InmemoryApplication::new();
        std::mem::swap(self, &mut held);
        proof {
            use_type_invariant(&held);
        }
        let InmemoryApplication { posts_sorted, recorded_at } = held;
        let mut posts = posts_sorted;
        posts.push(new_post.clone());
        proof {
            assert(views(posts@) =~= views(posts_sorted@).push(new_post@));
            if !has_id(views(posts_sorted@), new_post@.id) {
                lemma_created_post_is_found(views(posts_sorted@), new_post@);
            }
        }
        *self = InmemoryApplication {
            posts_sorted: posts,
            recorded_at: Ghost(recorded_at@.push(now@)),
        };
        new_post
    }
}

impl IApplication for InmemoryApplication {
    /// Draws an identifier, reads the clock once for both times, and appends
    /// the post.
    fn create_post<'a, 'b>(&mut self, input: &'a CreatePostInput<'b>) -> (post: Post)
        ensures
            is_uuid_v4_text(post@.id),
            final(self).history() == old(self).history().push(post@),
            final(self).readings().len() == old(self).readings().len() + 1,
            final(self).readings() == old(self).readings().push(final(self).readings().last()),
            final(self).readings().last().nanos < 1_000_000_000,
            post@ == made_post(
                post@.id,
                input.title@,
                input.content@,
                final(self).readings().last(),
            ),
            stamped(final(self).history(), final(self).readings()),
            !has_id(old(self).history(), post@.id) ==> lookup(final(self).history(), post@.id)
                == Some(post@),
    {
        let id = PostId::generate();
        let now = Timestamp::now();
        self.create_post_with(id, now, input)
    }

    /// A copy of the oldest post with the identifier `id`.
    fn get_post(&self, id: &PostId) -> (found: Option<Post>)
        ensures
            view_of(found) == lookup(self.history(), id@),
    {
        let mut i: usize = 0;
        while i < self.posts_sorted.len()
            invariant
                0 <= i <= self.posts_sorted.len(),
                forall|j: int| 0 <= j < i ==> (#[trigger] self.history()[j]).id != id@,
            decreases self.posts_sorted.len() - i,
        {
            if self.posts_sorted[i].id == *id {
                proof {
                    lemma_lookup_first(self.history(), id@, i as int);
                }
                return Some(self.posts_sorted[i].clone());
            }
            i += 1;
        }
        None
    }

    /// Copies of the `count` posts created last, or of all where the store
    /// holds fewer, the newest first.
    fn get_latest_posts(&self, count: usize) -> (posts: Vec<Post>)
        ensures
            views(posts@) == latest(self.history(), count as nat),
            posts@.len() == granted(count as nat, self.history().len()),
            stamped(self.history(), self.readings()),
            stamped(views(posts@), latest(self.readings(), count as nat)),
            ascending(self.readings()) ==> descending(latest(self.readings(), count as nat)),
    {
        proof {
            use_type_invariant(self);
            if ascending(self.readings()) {
                lemma_latest_is_newest_first(self.history(), self.readings(), count as nat);
            }
        }
        let len = self.posts_sorted.len();
        let wanted = if count > len {
            len
        } else {
            count
        };
        let mut posts: Vec<Post> = Vec::new();
        let mut taken: usize = 0;
        while taken < wanted
            invariant
                taken <= wanted <= len,
                len == self.posts_sorted.len(),
                posts@.len() == taken,
                forall|i: int| 0 <= i < taken ==> (#[trigger] posts@[i]) == self.posts_sorted@[len - 1 - i],
            decreases wanted - taken,
        {
            posts.push(self.posts_sorted[len - 1 - taken].clone());
            taken += 1;
        }
        proof {
            assert(views(posts@) =~= latest(self.history(), count as nat));
        }
        posts
    }
}

} // verus!
