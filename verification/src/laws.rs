//! System-wide laws, stated over the store model and the success
//! predicates that the operation contracts use. Each is proved here
//! once and holds for every run of the corresponding operations.

use vstd::prelude::*;

use crate::domain::PostView;
use crate::services::{create_post_success, post_owned_by, update_post_success};
use crate::store::{lemma_post_id_unique, post_id_present, posts_wf, PostStoreView};

verus! {

/// Law — round trip: after a successful post creation, reading the new
/// id back yields exactly the created post: same title, same content,
/// and the creator as author.
pub proof fn law_create_then_get(
    pre: PostStoreView,
    title: Seq<char>,
    content: Seq<char>,
    author_id: i64,
    now: i64,
    p: PostView,
    post: PostStoreView,
)
    requires
        posts_wf(pre),
        posts_wf(post),
        create_post_success(pre, title, content, author_id, now, p, post),
    ensures
        post_id_present(post.posts, p.id),
        forall|k: int|
            0 <= k < post.posts.len() && (#[trigger] post.posts[k]).id == p.id ==> post.posts[k]
                == p,
        p.title == title,
        p.content == content,
        p.author_id == author_id as int,
{
    assert(post.posts[0] == p);
    assert forall|k: int|
        0 <= k < post.posts.len() && (#[trigger] post.posts[k]).id == p.id implies post.posts[k]
        == p by {
        lemma_post_id_unique(post, 0, k);
    }
}

/// Law — ownership invariant: a stored post whose author is not
/// `user_id` is never owned by `user_id`. Together with the mutation
/// guard's contract — `Forbidden` exactly when the post exists and is
/// not owned, and an unchanged store on every failure — this says that
/// for every post and every user other than its author, update and
/// delete always yield `Forbidden` and leave the stored post as it
/// was.
pub proof fn law_non_owner_never_owns(s: PostStoreView, k: int, user_id: int)
    requires
        posts_wf(s),
        0 <= k < s.posts.len(),
        s.posts[k].author_id != user_id,
    ensures
        post_id_present(s.posts, s.posts[k].id),
        !post_owned_by(s.posts, s.posts[k].id, user_id),
{
    if post_owned_by(s.posts, s.posts[k].id, user_id) {
        let j = choose|j: int|
            0 <= j < s.posts.len() && (#[trigger] s.posts[j]).id == s.posts[k].id
                && s.posts[j].author_id == user_id;
        lemma_post_id_unique(s, j, k);
    }
}

/// Law — idempotent reads: what a read of one id can return is fully
/// determined by the store; two reads of the same id with no mutation
/// in between return the same post.
pub proof fn law_get_post_idempotent(s: PostStoreView, id: int, p1: PostView, p2: PostView)
    requires
        posts_wf(s),
        s.posts.contains(p1),
        p1.id == id,
        s.posts.contains(p2),
        p2.id == id,
    ensures
        p1 == p2,
{
    let k1 = choose|k: int| 0 <= k < s.posts.len() && s.posts[k] == p1;
    let k2 = choose|k: int| 0 <= k < s.posts.len() && s.posts[k] == p2;
    lemma_post_id_unique(s, k1, k2);
}

/// Law — idempotent reads: a page is a function of the store and the
/// paging parameters alone; two listings with identical arguments and
/// no mutation in between return identical sequences.
pub proof fn law_get_posts_idempotent(
    s: PostStoreView,
    lo: int,
    hi: int,
    v1: Seq<PostView>,
    v2: Seq<PostView>,
)
    requires
        0 <= lo <= hi <= s.posts.len(),
        v1 == s.posts.subrange(lo, hi),
        v2 == s.posts.subrange(lo, hi),
    ensures
        v1 == v2,
{
}

/// Law — partial update: updating with no title and a new content
/// changes only the content and `updated_at`; the title, the author,
/// the id and `created_at` of the stored row are untouched, and no
/// other row moves.
pub proof fn law_partial_update(
    pre: PostStoreView,
    id: i64,
    content: Seq<char>,
    user_id: i64,
    now: i64,
    p: PostView,
    post: PostStoreView,
)
    requires
        posts_wf(pre),
        update_post_success(pre, id, None, Some(content), user_id, now, p, post),
    ensures
        forall|k: int|
            0 <= k < pre.posts.len() && (#[trigger] pre.posts[k]).id == id ==> {
                &&& p.title == pre.posts[k].title
                &&& p.content == content
                &&& p.author_id == pre.posts[k].author_id
                &&& p.created_at == pre.posts[k].created_at
                &&& p.updated_at == now as int
                &&& post.posts == pre.posts.update(k, p)
            },
{
    let w = choose|w: int|
        {
            &&& 0 <= w < pre.posts.len()
            &&& (#[trigger] pre.posts[w]).id == id
            &&& pre.posts[w].author_id == user_id
            &&& p == (PostView {
                id: pre.posts[w].id,
                title: pre.posts[w].title,
                content: content,
                author_id: pre.posts[w].author_id,
                created_at: pre.posts[w].created_at,
                updated_at: now as int,
            })
            &&& post.posts == pre.posts.update(w, p)
        };
    assert forall|k: int|
        0 <= k < pre.posts.len() && (#[trigger] pre.posts[k]).id == id implies {
        &&& p.title == pre.posts[k].title
        &&& p.content == content
        &&& p.author_id == pre.posts[k].author_id
        &&& p.created_at == pre.posts[k].created_at
        &&& p.updated_at == now as int
        &&& post.posts == pre.posts.update(k, p)
    } by {
        lemma_post_id_unique(pre, w, k);
    }
}

/// Law — refreshed timestamp: when the clock has moved past the
/// stored row's `updated_at` — which holds of a real clock between two
/// successive operations, and is assumed here because the clock is a
/// parameter of the model — a successful update returns a post whose
/// `updated_at` is strictly greater than before.
pub proof fn law_update_advances_updated_at(
    pre: PostStoreView,
    id: i64,
    title: Option<Seq<char>>,
    content: Option<Seq<char>>,
    user_id: i64,
    now: i64,
    p: PostView,
    post: PostStoreView,
)
    requires
        posts_wf(pre),
        update_post_success(pre, id, title, content, user_id, now, p, post),
        forall|k: int|
            0 <= k < pre.posts.len() && (#[trigger] pre.posts[k]).id == id
                ==> pre.posts[k].updated_at < now,
    ensures
        forall|k: int|
            0 <= k < pre.posts.len() && (#[trigger] pre.posts[k]).id == id ==> p.updated_at
                > pre.posts[k].updated_at,
        p.updated_at == now as int,
{
    let w = choose|w: int|
        {
            &&& 0 <= w < pre.posts.len()
            &&& (#[trigger] pre.posts[w]).id == id
            &&& pre.posts[w].author_id == user_id
            &&& p == (PostView {
                id: pre.posts[w].id,
                title: if title is Some {
                    title->0
                } else {
                    pre.posts[w].title
                },
                content: if content is Some {
                    content->0
                } else {
                    pre.posts[w].content
                },
                author_id: pre.posts[w].author_id,
                created_at: pre.posts[w].created_at,
                updated_at: now as int,
            })
            &&& post.posts == pre.posts.update(w, p)
        };
    assert(pre.posts[w].updated_at < now);
}

/// Law — pagination order: any page cut from a well-formed store is
/// ordered by strictly descending id.
pub proof fn law_page_descending(s: PostStoreView, lo: int, hi: int)
    requires
        posts_wf(s),
        0 <= lo <= hi <= s.posts.len(),
    ensures
        forall|i: int, j: int|
            lo <= i < j < hi ==> (#[trigger] s.posts[i]).id > (#[trigger] s.posts[j]).id,
        forall|i: int, j: int|
            0 <= i < j < hi - lo ==> (#[trigger] s.posts.subrange(lo, hi)[i]).id > (
            #[trigger] s.posts.subrange(lo, hi)[j]).id,
{
}

} // verus!
