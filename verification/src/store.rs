//! In-memory storage model: the rows the services read and mutate.
//!
//! The stores assign ids in increasing order, keep user names unique,
//! and hold posts sorted by strictly descending id — newest first, the
//! order in which pages are served. Every operation is atomic: it
//! either applies fully or leaves the store untouched.

use vstd::prelude::*;
use vstd::math::min;

use crate::domain::{CreatePostRequest, Post, PostView, UpdatePostRequest, User, UserView};
use crate::errors::{PostError, UserError};

verus! {

/// Model of the user table.
#[verifier::ext_equal]
pub ghost struct UserStoreView {
    pub users: Seq<UserView>,
    pub next_id: int,
}

/// Model of the post table.
#[verifier::ext_equal]
pub ghost struct PostStoreView {
    pub posts: Seq<PostView>,
    pub next_id: int,
}

/// Whether some stored user carries the given name.
pub open spec fn username_taken(users: Seq<UserView>, name: Seq<char>) -> bool {
    exists|j: int| 0 <= j < users.len() && #[trigger] users[j].username == name
}

/// Invariant of the user table: ids are assigned from a counter that
/// only grows, and user names are unique.
pub open spec fn users_wf(s: UserStoreView) -> bool {
    &&& 1 <= s.next_id <= i64::MAX
    &&& forall|i: int| 0 <= i < s.users.len() ==> 0 < (#[trigger] s.users[i]).id < s.next_id
    &&& forall|i: int, j: int|
        0 <= i < j < s.users.len() ==> (#[trigger] s.users[i]).id < (#[trigger] s.users[j]).id
    &&& forall|i: int, j: int|
        0 <= i < j < s.users.len() ==> (#[trigger] s.users[i]).username != (
        #[trigger] s.users[j]).username
}

/// Invariant of the post table: ids are assigned from a counter that
/// only grows, and rows are kept sorted by strictly descending id.
pub open spec fn posts_wf(s: PostStoreView) -> bool {
    &&& 1 <= s.next_id <= i64::MAX
    &&& forall|i: int| 0 <= i < s.posts.len() ==> 0 < (#[trigger] s.posts[i]).id < s.next_id
    &&& forall|i: int, j: int|
        0 <= i < j < s.posts.len() ==> (#[trigger] s.posts[i]).id > (#[trigger] s.posts[j]).id
}

/// Whether some stored post carries the given id.
pub open spec fn post_id_present(posts: Seq<PostView>, id: int) -> bool {
    exists|j: int| 0 <= j < posts.len() && (#[trigger] posts[j]).id == id
}

/// In a well-formed user table a name occurs at most once.
pub proof fn lemma_username_unique(s: UserStoreView, i: int, j: int)
    requires
        users_wf(s),
        0 <= i < s.users.len(),
        0 <= j < s.users.len(),
        s.users[i].username == s.users[j].username,
    ensures
        i == j,
{
    if i < j {
        assert(s.users[i].username != s.users[j].username);
    }
    if j < i {
        assert(s.users[j].username != s.users[i].username);
    }
}

/// In a well-formed post table an id occurs at most once.
pub proof fn lemma_post_id_unique(s: PostStoreView, i: int, j: int)
    requires
        posts_wf(s),
        0 <= i < s.posts.len(),
        0 <= j < s.posts.len(),
        s.posts[i].id == s.posts[j].id,
    ensures
        i == j,
{
    if i < j {
        assert(s.posts[i].id > s.posts[j].id);
    }
    if j < i {
        assert(s.posts[j].id > s.posts[i].id);
    }
}

/// Storage of users.
pub struct UserRepository {
    users: Vec<User>,
    next_id: i64,
}

impl View for UserRepository {
    type V = UserStoreView;

    closed spec fn view(&self) -> UserStoreView {
        UserStoreView {
            users: self.users@.map_values(|u: User| u@),
            next_id: self.next_id as int,
        }
    }
}

impl UserRepository {
    /// Invariant this store maintains.
    pub open spec fn wf(&self) -> bool {
        users_wf(self@)
    }

    /// An empty user table.
    pub fn new() -> (r: UserRepository)
        ensures
            r.wf(),
            r@.users.len() == 0,
            r@.next_id == 1,
    {
        let r = UserRepository { users: Vec::new(), next_id: 1 };
        proof {
            assert(r@.users =~= Seq::<UserView>::empty());
        }
        r
    }

    /// Create a new user row. Fails with `UserAlreadyExists` exactly
    /// when the name is taken — the storage-level uniqueness invariant
    /// surfacing as a distinct condition — and with a storage failure
    /// exactly when the id space is exhausted.
    pub fn create_user(
        &mut self,
        username: String,
        email: String,
        password_hash: String,
        now: i64,
    ) -> (r: Result<User, UserError>)
        requires
            old(self).wf(),
        ensures
            final(self).wf(),
            r matches Ok(u) ==> {
                &&& !username_taken(old(self)@.users, username@)
                &&& u@ == (UserView {
                    id: old(self)@.next_id,
                    username: username@,
                    email: email@,
                    password_hash: password_hash@,
                    created_at: now as int,
                })
                &&& final(self)@.users == old(self)@.users.push(u@)
                &&& final(self)@.next_id == old(self)@.next_id + 1
            },
            r is Err ==> final(self)@ == old(self)@,
            (r is Err && r->Err_0 is UserAlreadyExists) <==> username_taken(
                old(self)@.users,
                username@,
            ),
            r is Err && !(r->Err_0 is UserAlreadyExists) ==> r->Err_0 is Database && old(
                self,
            )@.next_id == i64::MAX,
            !username_taken(old(self)@.users, username@) && old(self)@.next_id < i64::MAX
                ==> r is Ok,
    {
        let n = self.users.len();
        let mut i: usize = 0;
        while i < n
            invariant
                users_wf(old(self)@),
                self@ == old(self)@,
                n == self.users.len(),
                0 <= i <= n,
                forall|j: int| 0 <= j < i ==> self@.users[j].username != username@,
            decreases n - i,
        {
            if self.users[i].username == username {
                assert(self@.users[i as int].username == username@);
                return Err(UserError::UserAlreadyExists);
            }
            i += 1;
        }
        if self.next_id == i64::MAX {
            return Err(UserError::Database("user id space exhausted".to_owned()));
        }
        let user = User { id: self.next_id, username, email, password_hash, created_at: now };
        let result = user.duplicate();
        let ghost prev = self@;
        self.users.push(user);
        self.next_id = self.next_id + 1;
        proof {
            assert(self@.users =~= prev.users.push(result@));
        }
        Ok(result)
    }

    /// Look a user up by name. Fails with `UserNotFound` exactly when
    /// no user carries the name.
    pub fn get_user(&self, username: &str) -> (r: Result<User, UserError>)
        requires
            self.wf(),
        ensures
            r matches Ok(u) ==> exists|j: int|
                0 <= j < self@.users.len() && #[trigger] self@.users[j] == u@ && u@.username
                    == username@,
            r is Ok <==> username_taken(self@.users, username@),
            r matches Err(e) ==> e is UserNotFound,
    {
        let target = username.to_owned();
        let n = self.users.len();
        let mut i: usize = 0;
        while i < n
            invariant
                target@ == username@,
                n == self.users.len(),
                0 <= i <= n,
                forall|j: int| 0 <= j < i ==> self@.users[j].username != username@,
            decreases n - i,
        {
            if self.users[i].username == target {
                let u = self.users[i].duplicate();
                assert(self@.users[i as int] == u@);
                assert(self@.users[i as int].username == username@);
                assert(username_taken(self@.users, username@));
                return Ok(u);
            }
            i += 1;
        }
        Err(UserError::UserNotFound)
    }
}

/// Storage of posts.
pub struct PostRepository {
    posts: Vec<Post>,
    next_id: i64,
}

impl View for PostRepository {
    type V = PostStoreView;

    closed spec fn view(&self) -> PostStoreView {
        PostStoreView {
            posts: self.posts@.map_values(|p: Post| p@),
            next_id: self.next_id as int,
        }
    }
}

impl PostRepository {
    /// Invariant this store maintains.
    pub open spec fn wf(&self) -> bool {
        posts_wf(self@)
    }

    /// An empty post table.
    pub fn new() -> (r: PostRepository)
        ensures
            r.wf(),
            r@.posts.len() == 0,
            r@.next_id == 1,
    {
        let r = PostRepository { posts: Vec::new(), next_id: 1 };
        proof {
            assert(r@.posts =~= Seq::<PostView>::empty());
        }
        r
    }

    /// Index of the row carrying `id`, if any.
    fn find_index(&self, id: i64) -> (r: Option<usize>)
        ensures
            r matches Some(k) ==> 0 <= k < self@.posts.len() && self@.posts[k as int].id == id,
            r is None ==> !post_id_present(self@.posts, id as int),
    {
        let n = self.posts.len();
        let mut i: usize = 0;
        while i < n
            invariant
                n == self.posts.len(),
                0 <= i <= n,
                forall|j: int| 0 <= j < i ==> (#[trigger] self@.posts[j]).id != id,
            decreases n - i,
        {
            if self.posts[i].id == id {
                return Some(i);
            }
            i += 1;
        }
        None
    }

    /// Create a new post row owned by `author_id`. Fails only when the
    /// id space is exhausted; the new row becomes the newest, standing
    /// at the head of the descending order.
    pub fn create_post(&mut self, post: CreatePostRequest, author_id: i64, now: i64) -> (r: Result<
        Post,
        PostError,
    >)
        requires
            old(self).wf(),
        ensures
            final(self).wf(),
            r matches Ok(p) ==> {
                &&& p@ == (PostView {
                    id: old(self)@.next_id,
                    title: post.title@,
                    content: post.content@,
                    author_id: author_id as int,
                    created_at: now as int,
                    updated_at: now as int,
                })
                &&& final(self)@.posts == seq![p@] + old(self)@.posts
                &&& final(self)@.next_id == old(self)@.next_id + 1
            },
            r is Err ==> final(self)@ == old(self)@ && r->Err_0 is Database && old(self)@.next_id
                == i64::MAX,
            old(self)@.next_id < i64::MAX ==> r is Ok,
    {
        if self.next_id == i64::MAX {
            return Err(PostError::Database("post id space exhausted".to_owned()));
        }
        let new_post = Post {
            id: self.next_id,
            title: post.title,
            content: post.content,
            author_id,
            created_at: now,
            updated_at: now,
        };
        let result = new_post.duplicate();
        let ghost prev = self@;
        self.posts.insert(0, new_post);
        self.next_id = self.next_id + 1;
        proof {
            assert(self@.posts =~= seq![result@] + prev.posts);
        }
        Ok(result)
    }

    /// Read the post carrying `id`. Fails with `PostNotFound` exactly
    /// when no post carries it.
    pub fn get_post(&self, id: i64) -> (r: Result<Post, PostError>)
        requires
            self.wf(),
        ensures
            r matches Ok(p) ==> p@.id == id && self@.posts.contains(p@),
            r is Ok <==> post_id_present(self@.posts, id as int),
            r matches Err(e) ==> e is PostNotFound,
    {
        match self.find_index(id) {
            Some(k) => {
                let p = self.posts[k].duplicate();
                assert(self@.posts[k as int] == p@);
                Ok(p)
            },
            None => Err(PostError::PostNotFound),
        }
    }

    /// Serve one page: skip `offset` rows from the head of the
    /// descending order, then return at most `limit` rows. Negative
    /// paging parameters are rejected by the storage layer; an empty
    /// page is not a failure.
    pub fn get_posts(&self, limit: i64, offset: i64) -> (r: Result<Vec<Post>, PostError>)
        requires
            self.wf(),
        ensures
            r is Ok <==> limit >= 0 && offset >= 0,
            r matches Err(e) ==> e is Database,
            r matches Ok(v) ==> {
                let t = self@.posts.len() as int;
                let s = min(offset as int, t);
                let e = min(offset as int + limit as int, t);
                &&& v@.map_values(|p: Post| p@) == self@.posts.subrange(s, e)
                &&& v@.len() == min(limit as int, vstd::math::max(0, t - offset as int))
            },
    {
        if limit < 0 || offset < 0 {
            return Err(PostError::Database("negative paging parameter".to_owned()));
        }
        let total: usize = self.posts.len();
        let start: usize = if (offset as u64) >= (total as u64) {
            total
        } else {
            offset as usize
        };
        let rem: usize = total - start;
        let take: usize = if (limit as u64) >= (rem as u64) {
            rem
        } else {
            limit as usize
        };
        let mut out: Vec<Post> = Vec::new();
        let mut k: usize = 0;
        while k < take
            invariant
                0 <= k <= take,
                start + take <= self.posts.len(),
                take <= self@.posts.len(),
                out@.len() == k,
                forall|j: int| 0 <= j < k ==> (#[trigger] out@[j])@ == self@.posts[start + j],
            decreases take - k,
        {
            let p = self.posts[start + k].duplicate();
            out.push(p);
            k += 1;
        }
        proof {
            let t = self@.posts.len() as int;
            let s = min(offset as int, t);
            let e = min(offset as int + limit as int, t);
            assert(out@.map_values(|p: Post| p@) =~= self@.posts.subrange(s, e));
        }
        Ok(out)
    }

    /// Overwrite the fields present in the request on the post carrying
    /// `post.id`, leave absent fields untouched, and refresh
    /// `updated_at` unconditionally. Fails with `PostNotFound` exactly
    /// when no post carries the id. Ownership is not checked here.
    pub fn update_post(&mut self, post: UpdatePostRequest, now: i64) -> (r: Result<
        Post,
        PostError,
    >)
        requires
            old(self).wf(),
        ensures
            final(self).wf(),
            final(self)@.next_id == old(self)@.next_id,
            r is Ok <==> post_id_present(old(self)@.posts, post.id as int),
            r matches Err(e) ==> e is PostNotFound && final(self)@ == old(self)@,
            r matches Ok(p) ==> exists|k: int|
                {
                    &&& 0 <= k < old(self)@.posts.len()
                    &&& (#[trigger] old(self)@.posts[k]).id == post.id
                    &&& p@ == (PostView {
                        id: old(self)@.posts[k].id,
                        title: if post.title is Some {
                            post.title->0@
                        } else {
                            old(self)@.posts[k].title
                        },
                        content: if post.content is Some {
                            post.content->0@
                        } else {
                            old(self)@.posts[k].content
                        },
                        author_id: old(self)@.posts[k].author_id,
                        created_at: old(self)@.posts[k].created_at,
                        updated_at: now as int,
                    })
                    &&& final(self)@.posts == old(self)@.posts.update(k, p@)
                },
    {
        let k = match self.find_index(post.id) {
            Some(k) => k,
            None => {
                return Err(PostError::PostNotFound);
            },
        };
        let row = self.posts.remove(k);
        let updated = Post {
            id: row.id,
            title: match post.title {
                Some(t) => t,
                None => row.title,
            },
            content: match post.content {
                Some(c) => c,
                None => row.content,
            },
            author_id: row.author_id,
            created_at: row.created_at,
            updated_at: now,
        };
        let result = updated.duplicate();
        let ghost prev = old(self)@;
        self.posts.insert(k, updated);
        proof {
            assert(self@.posts =~= prev.posts.update(k as int, result@));
        }
        Ok(result)
    }

    /// Remove the post carrying `id`; removing an absent id is not a
    /// failure. Ownership is not checked here.
    pub fn delete_post(&mut self, id: i64) -> (r: Result<(), PostError>)
        requires
            old(self).wf(),
        ensures
            final(self).wf(),
            final(self)@.next_id == old(self)@.next_id,
            r is Ok,
            !post_id_present(old(self)@.posts, id as int) ==> final(self)@ == old(self)@,
            post_id_present(old(self)@.posts, id as int) ==> exists|k: int|
                {
                    &&& 0 <= k < old(self)@.posts.len()
                    &&& (#[trigger] old(self)@.posts[k]).id == id
                    &&& final(self)@.posts == old(self)@.posts.remove(k)
                },
    {
        match self.find_index(id) {
            Some(k) => {
                let ghost prev = self@;
                self.posts.remove(k);
                proof {
                    assert(self@.posts =~= prev.posts.remove(k as int));
                }
                Ok(())
            },
            None => Ok(()),
        }
    }
}

} // verus!
