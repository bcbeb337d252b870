//! The post store: transactional create / delete of the post aggregate and
//! the surrounding bookkeeping tables (users, uploaded files, reactions).
//!
//! Each mutation behaves as one atomic unit: on any failure exit the store
//! is exactly as it was, with one documented exception — a deletion whose
//! captured URI turns out malformed has already removed the row when it
//! reports the internal error (local truth is authoritative, the
//! announcement is best effort).

use vstd::prelude::*;
use vstd::string::StringExecFns;

use crate::media::{parse_url, parsed_url};
use crate::model::{
    ApiError, AttachmentRow, CreateRequest, ErrorKind, FileRow, PostRow, ReactionRow, UserRow,
    clone_opt_string, opt_str_eq,
};
use crate::uri::{canonical_uri, post_uri};
use crate::visibility::{spec_to_stored, visibility_to_stored};

verus! {

// ---------------------------------------------------------------------
// First-match lookups over the stored tables.
// ---------------------------------------------------------------------

/// The first post row with the given id, if any.
pub open spec fn post_lookup(posts: Seq<PostRow>, id: u128) -> Option<PostRow>
    decreases posts.len(),
{
    if posts.len() == 0 {
        None
    } else if posts[0].id == id {
        Some(posts[0])
    } else {
        post_lookup(posts.drop_first(), id)
    }
}

pub open spec fn contains_post(posts: Seq<PostRow>, id: u128) -> bool {
    post_lookup(posts, id) is Some
}

/// The first user row with the given id, if any.
pub open spec fn user_lookup(users: Seq<UserRow>, id: u128) -> Option<UserRow>
    decreases users.len(),
{
    if users.len() == 0 {
        None
    } else if users[0].id == id {
        Some(users[0])
    } else {
        user_lookup(users.drop_first(), id)
    }
}

pub open spec fn contains_user(users: Seq<UserRow>, id: u128) -> bool {
    user_lookup(users, id) is Some
}

/// The first file row with the given id, if any.
pub open spec fn file_lookup(files: Seq<FileRow>, id: u128) -> Option<FileRow>
    decreases files.len(),
{
    if files.len() == 0 {
        None
    } else if files[0].id == id {
        Some(files[0])
    } else {
        file_lookup(files.drop_first(), id)
    }
}

pub open spec fn contains_file(files: Seq<FileRow>, id: u128) -> bool {
    file_lookup(files, id) is Some
}

pub proof fn lemma_post_lookup_none(posts: Seq<PostRow>, id: u128)
    ensures
        (post_lookup(posts, id) is None) <==> (forall|i: int|
            0 <= i < posts.len() ==> (#[trigger] posts[i]).id != id),
    decreases posts.len(),
{
    if posts.len() > 0 {
        lemma_post_lookup_none(posts.drop_first(), id);
        if post_lookup(posts, id) is None {
            assert forall|i: int| 0 <= i < posts.len() implies (#[trigger] posts[i]).id != id by {
                if i > 0 {
                    assert(posts.drop_first()[i - 1] == posts[i]);
                    assert(posts.drop_first()[i - 1].id != id);
                }
            }
        }
        if forall|i: int| 0 <= i < posts.len() ==> (#[trigger] posts[i]).id != id {
            assert forall|j: int|
                0 <= j < posts.drop_first().len() implies (#[trigger] posts.drop_first()[j]).id
                != id by {
                assert(posts.drop_first()[j] == posts[j + 1]);
                assert(posts[j + 1].id != id);
            }
            assert(posts[0].id != id);
            assert(post_lookup(posts, id) is None);
        }
    }
}

pub proof fn lemma_user_lookup_none(users: Seq<UserRow>, id: u128)
    ensures
        (user_lookup(users, id) is None) <==> (forall|i: int|
            0 <= i < users.len() ==> (#[trigger] users[i]).id != id),
    decreases users.len(),
{
    if users.len() > 0 {
        lemma_user_lookup_none(users.drop_first(), id);
        if user_lookup(users, id) is None {
            assert forall|i: int| 0 <= i < users.len() implies (#[trigger] users[i]).id != id by {
                if i > 0 {
                    assert(users.drop_first()[i - 1] == users[i]);
                    assert(users.drop_first()[i - 1].id != id);
                }
            }
        }
        if forall|i: int| 0 <= i < users.len() ==> (#[trigger] users[i]).id != id {
            assert forall|j: int|
                0 <= j < users.drop_first().len() implies (#[trigger] users.drop_first()[j]).id
                != id by {
                assert(users.drop_first()[j] == users[j + 1]);
                assert(users[j + 1].id != id);
            }
            assert(users[0].id != id);
            assert(user_lookup(users, id) is None);
        }
    }
}

pub proof fn lemma_file_lookup_none(files: Seq<FileRow>, id: u128)
    ensures
        (file_lookup(files, id) is None) <==> (forall|i: int|
            0 <= i < files.len() ==> (#[trigger] files[i]).id != id),
    decreases files.len(),
{
    if files.len() > 0 {
        lemma_file_lookup_none(files.drop_first(), id);
        if file_lookup(files, id) is None {
            assert forall|i: int| 0 <= i < files.len() implies (#[trigger] files[i]).id != id by {
                if i > 0 {
                    assert(files.drop_first()[i - 1] == files[i]);
                    assert(files.drop_first()[i - 1].id != id);
                }
            }
        }
        if forall|i: int| 0 <= i < files.len() ==> (#[trigger] files[i]).id != id {
            assert forall|j: int|
                0 <= j < files.drop_first().len() implies (#[trigger] files.drop_first()[j]).id
                != id by {
                assert(files.drop_first()[j] == files[j + 1]);
                assert(files[j + 1].id != id);
            }
            assert(files[0].id != id);
            assert(file_lookup(files, id) is None);
        }
    }
}

pub proof fn lemma_post_lookup_push(posts: Seq<PostRow>, row: PostRow, id: u128)
    ensures
        post_lookup(posts.push(row), id) == (if post_lookup(posts, id) is Some {
            post_lookup(posts, id)
        } else if row.id == id {
            Some(row)
        } else {
            None::<PostRow>
        }),
    decreases posts.len(),
{
    if posts.len() == 0 {
        assert(posts.push(row)[0] == row);
        assert(posts.push(row).drop_first() =~= Seq::<PostRow>::empty());
    } else {
        assert(posts.push(row)[0] == posts[0]);
        assert(posts.push(row).drop_first() =~= posts.drop_first().push(row));
        lemma_post_lookup_push(posts.drop_first(), row, id);
    }
}

/// The position of the first match, when a match exists.
pub open spec fn first_match_at(posts: Seq<PostRow>, id: u128, k: int) -> bool {
    &&& 0 <= k < posts.len()
    &&& posts[k].id == id
    &&& post_lookup(posts, id) == Some(posts[k])
    &&& forall|l: int| 0 <= l < k ==> (#[trigger] posts[l]).id != id
}

pub proof fn lemma_post_lookup_first(posts: Seq<PostRow>, id: u128, k: int)
    requires
        0 <= k < posts.len(),
        posts[k].id == id,
        forall|l: int| 0 <= l < k ==> (#[trigger] posts[l]).id != id,
    ensures
        post_lookup(posts, id) == Some(posts[k]),
    decreases k,
{
    if k > 0 {
        assert forall|l: int|
            0 <= l < k - 1 implies (#[trigger] posts.drop_first()[l]).id != id by {
            assert(posts.drop_first()[l] == posts[l + 1]);
            assert(posts[l + 1].id != id);
        }
        assert(posts.drop_first()[k - 1] == posts[k]);
        lemma_post_lookup_first(posts.drop_first(), id, k - 1);
    }
}

pub proof fn lemma_post_lookup_some_first(posts: Seq<PostRow>, id: u128)
    requires
        post_lookup(posts, id) is Some,
    ensures
        exists|k: int| first_match_at(posts, id, k),
    decreases posts.len(),
{
    if posts[0].id == id {
        assert(first_match_at(posts, id, 0));
    } else {
        lemma_post_lookup_some_first(posts.drop_first(), id);
        let k = choose|k: int| first_match_at(posts.drop_first(), id, k);
        assert(posts[k + 1] == posts.drop_first()[k]);
        assert forall|l: int| 0 <= l < k + 1 implies (#[trigger] posts[l]).id != id by {
            if l > 0 {
                assert(posts.drop_first()[l - 1] == posts[l]);
                assert(posts.drop_first()[l - 1].id != id);
            }
        }
        assert(first_match_at(posts, id, k + 1));
    }
}

/// Removing a row with one id leaves lookups of every other id unchanged.
pub proof fn lemma_post_lookup_remove_other(posts: Seq<PostRow>, i: int, id2: u128)
    requires
        0 <= i < posts.len(),
        posts[i].id != id2,
    ensures
        post_lookup(posts.remove(i), id2) == post_lookup(posts, id2),
{
    let rem = posts.remove(i);
    if post_lookup(posts, id2) is None {
        lemma_post_lookup_none(posts, id2);
        assert forall|k: int| 0 <= k < rem.len() implies (#[trigger] rem[k]).id != id2 by {
            if k < i {
                assert(rem[k] == posts[k]);
            } else {
                assert(rem[k] == posts[k + 1]);
            }
        }
        lemma_post_lookup_none(rem, id2);
    } else {
        lemma_post_lookup_some_first(posts, id2);
        let k = choose|k: int| first_match_at(posts, id2, k);
        let k2 = if k < i {
            k
        } else {
            k - 1
        };
        assert(rem[k2] == posts[k]);
        assert forall|l: int| 0 <= l < k2 implies (#[trigger] rem[l]).id != id2 by {
            if l < i {
                assert(rem[l] == posts[l]);
            } else {
                assert(rem[l] == posts[l + 1]);
            }
        }
        lemma_post_lookup_first(rem, id2, k2);
    }
}

/// With pairwise-distinct ids, removing the row with an id removes every
/// trace of it.
pub proof fn lemma_post_lookup_remove_gone(posts: Seq<PostRow>, i: int, id: u128)
    requires
        0 <= i < posts.len(),
        posts[i].id == id,
        distinct_post_ids(posts),
    ensures
        post_lookup(posts.remove(i), id) is None,
{
    let rem = posts.remove(i);
    assert forall|k: int| 0 <= k < rem.len() implies (#[trigger] rem[k]).id != id by {
        if k < i {
            assert(rem[k] == posts[k]);
        } else {
            assert(rem[k] == posts[k + 1]);
        }
    }
    lemma_post_lookup_none(rem, id);
}

// ---------------------------------------------------------------------
// Executable first-match finders.
// ---------------------------------------------------------------------

pub(crate) fn find_post_index(posts: &Vec<PostRow>, id: u128) -> (r: Option<usize>)
    ensures
        match r {
            Some(i) => i < posts.len() && posts@[i as int].id == id && post_lookup(posts@, id)
                == Some(posts@[i as int]),
            None => post_lookup(posts@, id) is None,
        },
{
    let n = posts.len();
    let mut i: usize = 0;
    proof {
        assert(posts@.subrange(0, n as int) =~= posts@);
    }
    while i < n
        invariant
            i <= n,
            n == posts.len(),
            post_lookup(posts@, id) == post_lookup(posts@.subrange(i as int, n as int), id),
        decreases n - i,
    {
        if posts[i].id == id {
            proof {
                assert(posts@.subrange(i as int, n as int)[0] == posts@[i as int]);
            }
            return Some(i);
        }
        proof {
            assert(posts@.subrange(i as int, n as int).drop_first() =~= posts@.subrange(
                i as int + 1,
                n as int,
            ));
        }
        i += 1;
    }
    None
}

pub(crate) fn find_user_index(users: &Vec<UserRow>, id: u128) -> (r: Option<usize>)
    ensures
        match r {
            Some(i) => i < users.len() && users@[i as int].id == id && user_lookup(users@, id)
                == Some(users@[i as int]),
            None => user_lookup(users@, id) is None,
        },
{
    let n = users.len();
    let mut i: usize = 0;
    proof {
        assert(users@.subrange(0, n as int) =~= users@);
    }
    while i < n
        invariant
            i <= n,
            n == users.len(),
            user_lookup(users@, id) == user_lookup(users@.subrange(i as int, n as int), id),
        decreases n - i,
    {
        if users[i].id == id {
            proof {
                assert(users@.subrange(i as int, n as int)[0] == users@[i as int]);
            }
            return Some(i);
        }
        proof {
            assert(users@.subrange(i as int, n as int).drop_first() =~= users@.subrange(
                i as int + 1,
                n as int,
            ));
        }
        i += 1;
    }
    None
}

pub(crate) fn find_file_index(files: &Vec<FileRow>, id: u128) -> (r: Option<usize>)
    ensures
        match r {
            Some(i) => i < files.len() && files@[i as int].id == id && file_lookup(files@, id)
                == Some(files@[i as int]),
            None => file_lookup(files@, id) is None,
        },
{
    let n = files.len();
    let mut i: usize = 0;
    proof {
        assert(files@.subrange(0, n as int) =~= files@);
    }
    while i < n
        invariant
            i <= n,
            n == files.len(),
            file_lookup(files@, id) == file_lookup(files@.subrange(i as int, n as int), id),
        decreases n - i,
    {
        if files[i].id == id {
            proof {
                assert(files@.subrange(i as int, n as int)[0] == files@[i as int]);
            }
            return Some(i);
        }
        proof {
            assert(files@.subrange(i as int, n as int).drop_first() =~= files@.subrange(
                i as int + 1,
                n as int,
            ));
        }
        i += 1;
    }
    None
}

fn uri_exists(posts: &Vec<PostRow>, uri: &String) -> (b: bool)
    ensures
        b == uri_taken(posts@, uri@),
{
    let n = posts.len();
    let mut i: usize = 0;
    while i < n
        invariant
            i <= n,
            n == posts.len(),
            forall|k: int| 0 <= k < i ==> (#[trigger] posts@[k]).uri@ != uri@,
        decreases n - i,
    {
        if posts[i].uri == *uri {
            proof {
                assert(posts@[i as int].uri@ == uri@);
            }
            return true;
        }
        i += 1;
    }
    proof {
        assert(!uri_taken(posts@, uri@)) by {
            if uri_taken(posts@, uri@) {
                let k = choose|k: int| 0 <= k < posts@.len() && (#[trigger] posts@[k]).uri@
                    == uri@;
                assert(posts@[k].uri@ != uri@);
            }
        }
    }
    false
}

// ---------------------------------------------------------------------
// Well-formedness.
// ---------------------------------------------------------------------

pub open spec fn distinct_post_ids(posts: Seq<PostRow>) -> bool {
    forall|a: int, b: int|
        0 <= a < b < posts.len() ==> (#[trigger] posts[a]).id != (#[trigger] posts[b]).id
}

pub open spec fn distinct_user_ids(users: Seq<UserRow>) -> bool {
    forall|a: int, b: int|
        0 <= a < b < users.len() ==> (#[trigger] users[a]).id != (#[trigger] users[b]).id
}

pub open spec fn distinct_file_ids(files: Seq<FileRow>) -> bool {
    forall|a: int, b: int|
        0 <= a < b < files.len() ==> (#[trigger] files[a]).id != (#[trigger] files[b]).id
}

/// No two stored posts carry the same URI: the unique index the storage
/// keeps on the canonical URI.
pub open spec fn distinct_post_uris(posts: Seq<PostRow>) -> bool {
    forall|a: int, b: int|
        0 <= a < b < posts.len() ==> (#[trigger] posts[a]).uri@ != (#[trigger] posts[b]).uri@
}

/// Some stored post already carries the given URI.
pub open spec fn uri_taken(posts: Seq<PostRow>, uri: Seq<char>) -> bool {
    exists|k: int| 0 <= k < posts.len() && (#[trigger] posts[k]).uri@ == uri
}

/// The invariant of a stored aggregate's attachments: at most 256 of them,
/// and the stored order of the k-th is exactly k.
pub open spec fn atts_wf(atts: Seq<AttachmentRow>) -> bool {
    &&& atts.len() <= 256
    &&& forall|k: int| 0 <= k < atts.len() ==> (#[trigger] atts[k]).order as int == k
}

// ---------------------------------------------------------------------
// The store.
// ---------------------------------------------------------------------

/// The durable state this core manages: the configured domain, the post
/// aggregates, and the read-only tables the aggregator joins against.
pub struct Store {
    pub domain: String,
    pub posts: Vec<PostRow>,
    pub reactions: Vec<ReactionRow>,
    pub users: Vec<UserRow>,
    pub files: Vec<FileRow>,
}

/// A creation request names a reply target that does not exist.
pub open spec fn reply_target_missing(s: Store, req: CreateRequest) -> bool {
    req.reply_id matches Some(t) && !contains_post(s.posts@, t)
}

/// Some id in the request's file list has no uploaded file.
pub open spec fn some_file_missing(s: Store, fids: Seq<u128>) -> bool {
    exists|k: int| 0 <= k < fids.len() && !contains_file(s.files@, #[trigger] fids[k])
}

/// The storage refuses the new row: its id or its canonical URI is
/// already taken — the duplicate-key failure of a unique index.
pub open spec fn insert_refused(s: Store, id: u128) -> bool {
    contains_post(s.posts@, id) || uri_taken(s.posts@, canonical_uri(s.domain@, id))
}

/// The k-th created attachment: the association to the k-th requested
/// file, at order k, carrying that file's projection.
pub open spec fn attachment_from_file(a: AttachmentRow, tbl: Seq<FileRow>, fid: u128, k: int) -> bool {
    &&& a.file_id == fid
    &&& a.order as int == k
    &&& file_lookup(tbl, fid) matches Some(f) && a.media_type@ == f.media_type@ && a.url@
        == f.url@ && opt_str_eq(a.alt, f.alt)
}

pub open spec fn attachments_built(atts: Seq<AttachmentRow>, tbl: Seq<FileRow>, fids: Seq<u128>) -> bool {
    &&& atts.len() == fids.len()
    &&& forall|k: int| 0 <= k < fids.len() ==> attachment_from_file(#[trigger] atts[k], tbl, fids[k], k)
}

/// What a successful creation stores: the requested fields, no owner, the
/// canonical URI, and the attachments in request order.
pub open spec fn created_row_matches(
    row: PostRow,
    id: u128,
    created_at: i64,
    req: CreateRequest,
    s0: Store,
) -> bool {
    &&& row.id == id
    &&& row.created_at == created_at
    &&& row.reply_id == req.reply_id
    &&& row.text@ == req.text@
    &&& opt_str_eq(row.title, req.title)
    &&& row.user_id is None
    &&& row.visibility == spec_to_stored(req.visibility)
    &&& row.is_sensitive == req.is_sensitive
    &&& row.uri@ == canonical_uri(s0.domain@, id)
    &&& attachments_built(row.attachments@, s0.files@, req.files@)
}

/// The reactions that survive deleting the post with the given id: every
/// reaction to another post, in stored order.
pub open spec fn reactions_without(rs: Seq<ReactionRow>, pid: u128) -> Seq<ReactionRow>
    decreases rs.len(),
{
    if rs.len() == 0 {
        rs
    } else if rs[0].post_id == pid {
        reactions_without(rs.drop_first(), pid)
    } else {
        seq![rs[0]] + reactions_without(rs.drop_first(), pid)
    }
}

fn not_found(msg: &str) -> (r: ApiError)
    ensures
        r.kind == ErrorKind::NotFound,
        r.message@ == msg@,
{
    ApiError { kind: ErrorKind::NotFound, message: String::from_str(msg) }
}

fn internal(msg: &str) -> (r: ApiError)
    ensures
        r.kind == ErrorKind::Internal,
        r.message@ == msg@,
{
    ApiError { kind: ErrorKind::Internal, message: String::from_str(msg) }
}

/// Relies on uuid::Uuid::new_v4: a freshly drawn random identifier.
/// Nothing is promised of the value; callers handle every outcome.
#[verifier::external_body]
fn fresh_post_id() -> u128 {
    uuid::Uuid::new_v4().as_u128()
}

/// Relies on chrono::Utc::now: the current time as microseconds since the
/// Unix epoch. Nothing is promised of the value.
#[verifier::external_body]
fn now_micros() -> i64 {
    chrono::Utc::now().timestamp_micros()
}

impl Store {
    /// The representation invariant: ids are unique per table, every
    /// stored post's URI is unique, and each aggregate's attachments
    /// carry orders 0, 1, ... in sequence.
    pub open spec fn wf(self) -> bool {
        &&& distinct_post_ids(self.posts@)
        &&& distinct_post_uris(self.posts@)
        &&& distinct_user_ids(self.users@)
        &&& distinct_file_ids(self.files@)
        &&& forall|p: int| 0 <= p < self.posts@.len() ==> atts_wf((#[trigger] self.posts@[p]).attachments@)
    }

    /// An empty store for the given configured domain.
    pub fn new(domain: String) -> (r: Store)
        ensures
            r.wf(),
            r.domain@ == domain@,
            r.posts@ == Seq::<PostRow>::empty(),
            r.reactions@ == Seq::<ReactionRow>::empty(),
            r.users@ == Seq::<UserRow>::empty(),
            r.files@ == Seq::<FileRow>::empty(),
    {
        Store {
            domain,
            posts: Vec::new(),
            reactions: Vec::new(),
            users: Vec::new(),
            files: Vec::new(),
        }
    }

    /// Records a user row, as the surrounding system would after resolving
    /// an actor. Refused only when the id is already taken.
    pub fn add_user(&mut self, user: UserRow) -> (r: bool)
        requires
            old(self).wf(),
        ensures
            final(self).wf(),
            r == !contains_user(old(self).users@, user.id),
            !r ==> *final(self) == *old(self),
            r ==> final(self).users@ == old(self).users@.push(user)
                && final(self).posts@ == old(self).posts@
                && final(self).reactions@ == old(self).reactions@
                && final(self).files@ == old(self).files@
                && final(self).domain@ == old(self).domain@,
    {
        if find_user_index(&self.users, user.id).is_some() {
            return false;
        }
        proof {
            lemma_user_lookup_none(self.users@, user.id);
        }
        self.users.push(user);
        true
    }

    /// Records an uploaded file, as the upload slice would. Refused only
    /// when the id is already taken.
    pub fn add_file(&mut self, file: FileRow) -> (r: bool)
        requires
            old(self).wf(),
        ensures
            final(self).wf(),
            r == !contains_file(old(self).files@, file.id),
            !r ==> *final(self) == *old(self),
            r ==> final(self).files@ == old(self).files@.push(file)
                && final(self).posts@ == old(self).posts@
                && final(self).reactions@ == old(self).reactions@
                && final(self).users@ == old(self).users@
                && final(self).domain@ == old(self).domain@,
    {
        if find_file_index(&self.files, file.id).is_some() {
            return false;
        }
        proof {
            lemma_file_lookup_none(self.files@, file.id);
        }
        self.files.push(file);
        true
    }

    /// Records a reaction, as the reaction slice would. The reacting user
    /// is a weak reference and nothing is checked of it.
    pub fn add_reaction(&mut self, reaction: ReactionRow)
        requires
            old(self).wf(),
        ensures
            final(self).wf(),
            final(self).reactions@ == old(self).reactions@.push(reaction),
            final(self).posts@ == old(self).posts@,
            final(self).users@ == old(self).users@,
            final(self).files@ == old(self).files@,
            final(self).domain@ == old(self).domain@,
    {
        self.reactions.push(reaction);
    }

    /// Records a post row produced outside the creation path (for example
    /// one received over federation). Refused when the id or the URI is
    /// taken, or when the attachments do not carry orders 0, 1, ... in
    /// sequence.
    pub fn insert_post_row(&mut self, row: PostRow) -> (r: bool)
        requires
            old(self).wf(),
        ensures
            final(self).wf(),
            r == (!contains_post(old(self).posts@, row.id) && !uri_taken(
                old(self).posts@,
                row.uri@,
            ) && atts_wf(row.attachments@)),
            !r ==> *final(self) == *old(self),
            r ==> final(self).posts@ == old(self).posts@.push(row)
                && final(self).reactions@ == old(self).reactions@
                && final(self).users@ == old(self).users@
                && final(self).files@ == old(self).files@
                && final(self).domain@ == old(self).domain@,
    {
        if find_post_index(&self.posts, row.id).is_some() {
            return false;
        }
        if uri_exists(&self.posts, &row.uri) {
            return false;
        }
        if !attachments_ordered(&row.attachments) {
            return false;
        }
        proof {
            lemma_post_lookup_none(self.posts@, row.id);
        }
        let ghost prev = self.posts@;
        let ghost new_uri = row.uri@;
        self.posts.push(row);
        proof {
            assert forall|a: int, b: int|
                0 <= a < b < self.posts@.len() implies (#[trigger] self.posts@[a]).uri@ != (
            #[trigger] self.posts@[b]).uri@ by {
                if b < prev.len() {
                    assert(self.posts@[a] == prev[a]);
                    assert(self.posts@[b] == prev[b]);
                } else {
                    assert(self.posts@[a] == prev[a]);
                    assert(self.posts@[b].uri@ == new_uri);
                    if prev[a].uri@ == new_uri {
                        assert(uri_taken(prev, new_uri));
                    }
                }
            }
        }
        true
    }

    /// Creates a post from the request with a caller-supplied identifier
    /// and creation time, as one atomic unit.
    ///
    /// Failures, in the order they are checked: a named reply target that
    /// does not exist (not found), an identifier or canonical-URI clash
    /// (internal, as a storage engine reports a duplicate key), more files
    /// than attachment orders exist (internal), a file id with no uploaded
    /// file (not found). On any failure nothing is persisted.
    pub fn create_post_with_id(&mut self, id: u128, created_at: i64, req: &CreateRequest) -> (r:
        Result<u128, ApiError>)
        requires
            old(self).wf(),
        ensures
            final(self).wf(),
            r matches Err(_) ==> *final(self) == *old(self),
            reply_target_missing(*old(self), *req) ==> (r matches Err(e) && e.kind
                == ErrorKind::NotFound && e.message@ == "reply target post not found"@),
            !reply_target_missing(*old(self), *req) && insert_refused(*old(self), id)
                ==> (r matches Err(e) && e.kind == ErrorKind::Internal && e.message@
                == "failed to insert to database"@),
            !reply_target_missing(*old(self), *req) && !insert_refused(*old(self), id)
                && req.files@.len() > 256 ==> (r matches Err(e) && e.kind == ErrorKind::Internal
                && e.message@ == "attachment order out of range"@),
            !reply_target_missing(*old(self), *req) && !insert_refused(*old(self), id)
                && req.files@.len() <= 256 && some_file_missing(*old(self), req.files@)
                ==> (r matches Err(e) && e.kind == ErrorKind::NotFound && e.message@
                == "file not found"@),
            !reply_target_missing(*old(self), *req) && !insert_refused(*old(self), id)
                && req.files@.len() <= 256 && !some_file_missing(*old(self), req.files@)
                ==> (r matches Ok(pid) && pid == id),
            r matches Ok(_) ==> !insert_refused(*old(self), id)
                && final(self).posts@.len() == old(self).posts@.len() + 1
                && final(self).posts@.subrange(0, old(self).posts@.len() as int)
                == old(self).posts@
                && created_row_matches(final(self).posts@.last(), id, created_at, *req, *old(self))
                && final(self).reactions@ == old(self).reactions@
                && final(self).users@ == old(self).users@
                && final(self).files@ == old(self).files@
                && final(self).domain@ == old(self).domain@,
    {
        if let Some(t) = req.reply_id {
            let target = find_post_index(&self.posts, t);
            if target.is_none() {
                return Err(not_found("reply target post not found"));
            }
        }
        proof {
            assert(!reply_target_missing(*old(self), *req));
        }
        let clash = find_post_index(&self.posts, id);
        if clash.is_some() {
            return Err(internal("failed to insert to database"));
        }
        let uri = post_uri(self.domain.as_str(), id);
        if uri_exists(&self.posts, &uri) {
            return Err(internal("failed to insert to database"));
        }
        proof {
            assert(!insert_refused(*old(self), id));
        }
        if req.files.len() > 256 {
            return Err(internal("attachment order out of range"));
        }
        let mut atts: Vec<AttachmentRow> = Vec::new();
        let n = req.files.len();
        let mut k: usize = 0;
        while k < n
            invariant
                k <= n,
                n == req.files@.len(),
                n <= 256,
                atts@.len() == k,
                self == old(self),
                old(self).wf(),
                !reply_target_missing(*old(self), *req),
                !insert_refused(*old(self), id),
                uri@ == canonical_uri(old(self).domain@, id),
                forall|j: int|
                    0 <= j < k ==> attachment_from_file(
                        #[trigger] atts@[j],
                        old(self).files@,
                        req.files@[j],
                        j,
                    ),
            decreases n - k,
        {
            match find_file_index(&self.files, req.files[k]) {
                None => {
                    return Err(not_found("file not found"));
                },
                Some(fi) => {
                    let f = &self.files[fi];
                    atts.push(
                        AttachmentRow {
                            file_id: req.files[k],
                            order: k as u8,
                            media_type: f.media_type.clone(),
                            url: f.url.clone(),
                            alt: clone_opt_string(&f.alt),
                        },
                    );
                },
            }
            k += 1;
        }
        proof {
            assert(!some_file_missing(*old(self), req.files@)) by {
                assert forall|j: int|
                    0 <= j < req.files@.len() implies contains_file(
                    old(self).files@,
                    #[trigger] req.files@[j],
                ) by {
                    assert(attachment_from_file(atts@[j], old(self).files@, req.files@[j], j));
                }
            }
        }
        let row = PostRow {
            id,
            created_at,
            reply_id: req.reply_id,
            text: req.text.clone(),
            title: clone_opt_string(&req.title),
            user_id: None,
            visibility: visibility_to_stored(req.visibility),
            is_sensitive: req.is_sensitive,
            uri,
            attachments: atts,
        };
        proof {
            lemma_post_lookup_none(self.posts@, id);
        }
        self.posts.push(row);
        proof {
            assert(final(self).posts@.subrange(0, old(self).posts@.len() as int) =~= old(
                self,
            ).posts@);
            let prev = old(self).posts@;
            assert forall|a: int, b: int|
                0 <= a < b < self.posts@.len() implies (#[trigger] self.posts@[a]).uri@ != (
            #[trigger] self.posts@[b]).uri@ by {
                if b < prev.len() {
                    assert(self.posts@[a] == prev[a]);
                    assert(self.posts@[b] == prev[b]);
                } else {
                    assert(self.posts@[a] == prev[a]);
                    assert(self.posts@[b].uri@ == canonical_uri(old(self).domain@, id));
                    if prev[a].uri@ == canonical_uri(old(self).domain@, id) {
                        assert(uri_taken(prev, canonical_uri(old(self).domain@, id)));
                    }
                }
            }
        }
        Ok(id)
    }

    /// Creates a post from the request, drawing a fresh random identifier
    /// and the current time, as the creation endpoint does.
    ///
    /// A missing reply target or a missing file is reported as not found
    /// and persists nothing; with a clash of the drawn identifier being
    /// the only other failure, a request whose reply target and files all
    /// exist gets either the new post's id or an internal error — and on
    /// an empty post table, where no drawn identifier can clash, it gets
    /// the id.
    pub fn create_post(&mut self, req: &CreateRequest) -> (r: Result<u128, ApiError>)
        requires
            old(self).wf(),
        ensures
            final(self).wf(),
            r matches Err(_) ==> *final(self) == *old(self),
            reply_target_missing(*old(self), *req) ==> (r matches Err(e) && e.kind
                == ErrorKind::NotFound && e.message@ == "reply target post not found"@),
            r matches Err(e) && e.kind == ErrorKind::NotFound ==> reply_target_missing(
                *old(self),
                *req,
            ) || some_file_missing(*old(self), req.files@),
            !reply_target_missing(*old(self), *req) && req.files@.len() <= 256
                && !some_file_missing(*old(self), req.files@) ==> r matches Ok(_) || (r matches Err(
                e,
            ) && e.kind == ErrorKind::Internal),
            old(self).posts@.len() == 0 && !reply_target_missing(*old(self), *req)
                && req.files@.len() <= 256 && !some_file_missing(*old(self), req.files@)
                ==> r matches Ok(_),
            r matches Ok(pid) ==> !contains_post(old(self).posts@, pid)
                && final(self).posts@.len() == old(self).posts@.len() + 1
                && final(self).posts@.subrange(0, old(self).posts@.len() as int)
                == old(self).posts@
                && created_row_matches(
                final(self).posts@.last(),
                pid,
                final(self).posts@.last().created_at,
                *req,
                *old(self),
            )
                && final(self).reactions@ == old(self).reactions@
                && final(self).users@ == old(self).users@
                && final(self).files@ == old(self).files@
                && final(self).domain@ == old(self).domain@,
    {
        let id = fresh_post_id();
        let created_at = now_micros();
        proof {
            if self.posts@.len() == 0 {
                assert(!contains_post(self.posts@, id));
                assert(!uri_taken(self.posts@, canonical_uri(self.domain@, id))) by {
                    if uri_taken(self.posts@, canonical_uri(self.domain@, id)) {
                        let k = choose|k: int|
                            0 <= k < self.posts@.len() && (#[trigger] self.posts@[k]).uri@
                                == canonical_uri(self.domain@, id);
                        assert(0 <= k < 0);
                    }
                }
            }
        }
        self.create_post_with_id(id, created_at, req)
    }

    /// Deletes a post. Deleting an id with no post succeeds as a no-op.
    /// Otherwise the row and the reactions to it are removed in one atomic
    /// unit and the captured canonical URI is returned, parsed, for the
    /// deletion announcement. A captured URI that does not parse is an
    /// internal error reported after the deletion is already durable.
    pub fn delete_post(&mut self, id: u128) -> (r: Result<Option<String>, ApiError>)
        requires
            old(self).wf(),
        ensures
            final(self).wf(),
            final(self).domain@ == old(self).domain@,
            final(self).users@ == old(self).users@,
            final(self).files@ == old(self).files@,
            post_lookup(old(self).posts@, id) is None ==> (r matches Ok(o) && o is None
                && *final(self) == *old(self)),
            post_lookup(old(self).posts@, id) matches Some(row) ==> ({
                &&& post_lookup(final(self).posts@, id) is None
                &&& final(self).posts@.len() == old(self).posts@.len() - 1
                &&& forall|id2: u128|
                    id2 != id ==> post_lookup(final(self).posts@, id2) == post_lookup(
                        old(self).posts@,
                        id2,
                    )
                &&& final(self).reactions@ == reactions_without(old(self).reactions@, id)
                &&& match parsed_url(row.uri@) {
                    Some(n) => r matches Ok(o) && o matches Some(u) && u@ == n,
                    None => r matches Err(e) && e.kind == ErrorKind::Internal && e.message@
                        == "malformed post URI"@,
                }
            }),
    {
        let found = find_post_index(&self.posts, id);
        let idx = match found {
            None => {
                return Ok(None);
            },
            Some(i) => i,
        };
        let ghost posts0 = self.posts@;
        let row = self.posts.remove(idx);
        proof {
            lemma_post_lookup_remove_gone(posts0, idx as int, id);
            assert forall|id2: u128| id2 != id implies post_lookup(self.posts@, id2)
                == post_lookup(posts0, id2) by {
                lemma_post_lookup_remove_other(posts0, idx as int, id2);
            }
            assert forall|a: int, b: int|
                0 <= a < b < self.posts@.len() implies (#[trigger] self.posts@[a]).id != (
            #[trigger] self.posts@[b]).id by {
                let a2 = if a < idx as int {
                    a
                } else {
                    a + 1
                };
                let b2 = if b < idx as int {
                    b
                } else {
                    b + 1
                };
                assert(self.posts@[a] == posts0[a2]);
                assert(self.posts@[b] == posts0[b2]);
            }
            assert forall|a: int, b: int|
                0 <= a < b < self.posts@.len() implies (#[trigger] self.posts@[a]).uri@ != (
            #[trigger] self.posts@[b]).uri@ by {
                let a2 = if a < idx as int {
                    a
                } else {
                    a + 1
                };
                let b2 = if b < idx as int {
                    b
                } else {
                    b + 1
                };
                assert(self.posts@[a] == posts0[a2]);
                assert(self.posts@[b] == posts0[b2]);
            }
            assert forall|p: int| 0 <= p < self.posts@.len() implies atts_wf(
                (#[trigger] self.posts@[p]).attachments@,
            ) by {
                let p2 = if p < idx as int {
                    p
                } else {
                    p + 1
                };
                assert(self.posts@[p] == posts0[p2]);
            }
        }
        let ghost posts1 = self.posts@;
        let ghost rs0 = self.reactions@;
        let mut j: usize = 0;
        proof {
            assert(rs0.subrange(0, rs0.len() as int) =~= rs0);
            assert(self.reactions@.subrange(0, 0) + reactions_without(rs0, id)
                =~= reactions_without(rs0, id));
        }
        while j < self.reactions.len()
            invariant
                j <= self.reactions@.len(),
                forall|k: int| 0 <= k < j ==> (#[trigger] self.reactions@[k]).post_id != id,
                reactions_without(rs0, id) == self.reactions@.subrange(0, j as int)
                    + reactions_without(
                    self.reactions@.subrange(j as int, self.reactions@.len() as int),
                    id,
                ),
                self.posts@ == posts1,
                self.users@ == old(self).users@,
                self.files@ == old(self).files@,
                self.domain@ == old(self).domain@,
            decreases self.reactions@.len() - j,
        {
            let ghost pre = self.reactions@;
            if self.reactions[j].post_id == id {
                let _removed = self.reactions.remove(j);
                proof {
                    let tail = pre.subrange(j as int, pre.len() as int);
                    assert(tail[0] == pre[j as int]);
                    assert(tail.drop_first() =~= pre.subrange(j as int + 1, pre.len() as int));
                    assert(self.reactions@.subrange(0, j as int) =~= pre.subrange(0, j as int));
                    assert(self.reactions@.subrange(j as int, self.reactions@.len() as int)
                        =~= pre.subrange(j as int + 1, pre.len() as int));
                }
            } else {
                proof {
                    let tail = pre.subrange(j as int, pre.len() as int);
                    let rest = reactions_without(
                        pre.subrange(j as int + 1, pre.len() as int),
                        id,
                    );
                    assert(tail[0] == pre[j as int]);
                    assert(tail.drop_first() =~= pre.subrange(j as int + 1, pre.len() as int));
                    assert(reactions_without(tail, id) == seq![pre[j as int]] + rest);
                    assert(pre.subrange(0, j as int + 1) =~= pre.subrange(0, j as int) + seq![
                        pre[j as int],
                    ]);
                    assert((pre.subrange(0, j as int) + seq![pre[j as int]]) + rest
                        =~= pre.subrange(0, j as int) + (seq![pre[j as int]] + rest));
                }
                j += 1;
            }
        }
        proof {
            assert(self.reactions@.subrange(0, j as int) =~= self.reactions@);
            assert(self.reactions@.subrange(j as int, self.reactions@.len() as int)
                =~= Seq::<ReactionRow>::empty());
            assert(reactions_without(rs0, id) =~= self.reactions@);
        }
        match parse_url(row.uri.as_str()) {
            Some(u) => Ok(Some(u)),
            None => Err(internal("malformed post URI")),
        }
    }

    /// After a committed mutation the caller dispatches the announcement;
    /// this turns the delivery outcome into the request's outcome.
    /// Delivery failure fails the request even though the local
    /// change is already durable — an accepted inconsistency.
    pub fn confirm_dispatch(delivered: bool) -> (r: Result<(), ApiError>)
        ensures
            delivered <==> r is Ok,
            !delivered ==> (r matches Err(e) && e.kind == ErrorKind::Internal && e.message@
                == "failed to deliver activity"@),
    {
        if delivered {
            Ok(())
        } else {
            Err(internal("failed to deliver activity"))
        }
    }
}

/// True exactly when the attachments carry orders 0, 1, ... in sequence
/// and fit the order range.
fn attachments_ordered(atts: &Vec<AttachmentRow>) -> (b: bool)
    ensures
        b == atts_wf(atts@),
{
    if atts.len() > 256 {
        return false;
    }
    let n = atts.len();
    let mut k: usize = 0;
    while k < n
        invariant
            k <= n,
            n == atts@.len(),
            n <= 256,
            forall|j: int| 0 <= j < k ==> (#[trigger] atts@[j]).order as int == j,
        decreases n - k,
    {
        if atts[k].order as usize != k {
            return false;
        }
        k += 1;
    }
    true
}

} // verus!
