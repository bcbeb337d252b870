//! The read aggregator: assembles the denormalized read model of one post
//! from the post row, its owner, its ordered attachments and its
//! reactions.
//!
//! The write path is strict; this path is lenient. An attachment whose
//! stored media type or URL does not parse is dropped from the
//! projection, and a reaction whose custom-emoji descriptor is incomplete
//! or unparseable is returned without an emoji — availability over
//! completeness. The one strict check is the post's own canonical URI,
//! which must parse: creation guarantees it, so a failure is an internal
//! error.

use vstd::prelude::*;
use vstd::string::StringExecFns;

use crate::media::{parse_media_type, parse_url, parsed_media_type, parsed_url};
use crate::model::{
    ApiError, AttachmentRow, EmojiView, ErrorKind, FileView, PostRow, PostView, ReactionRow,
    ReactionView, UserRef, UserRow, clone_opt_string, opt_str_eq,
};
use crate::store::{Store, find_post_index, find_user_index, post_lookup, user_lookup};
use crate::visibility::{spec_to_wire, visibility_to_wire};

verus! {

/// An attachment survives projection when both its media type and its URL
/// parse.
pub open spec fn att_kept(a: AttachmentRow) -> bool {
    parsed_media_type(a.media_type@) is Some && parsed_url(a.url@) is Some
}

/// The projection of one kept attachment: parsed media type and URL in
/// canonical text form, alt text carried through.
pub open spec fn file_view_ok(a: AttachmentRow, f: FileView) -> bool {
    &&& parsed_media_type(a.media_type@) matches Some(m) && f.media_type@ == m
    &&& parsed_url(a.url@) matches Some(u) && f.url@ == u
    &&& opt_str_eq(f.alt, a.alt)
}

/// The projected attachments are exactly the kept attachments, in stored
/// order.
pub open spec fn files_match(atts: Seq<AttachmentRow>, out: Seq<FileView>) -> bool
    decreases atts.len(),
{
    if atts.len() == 0 {
        out.len() == 0
    } else if att_kept(atts.last()) {
        &&& out.len() > 0
        &&& file_view_ok(atts.last(), out.last())
        &&& files_match(atts.drop_last(), out.drop_last())
    } else {
        files_match(atts.drop_last(), out)
    }
}

/// The emoji projection of a reaction: present exactly when both stored
/// fields are populated and both parse.
pub open spec fn emoji_view_ok(x: ReactionRow, e: Option<EmojiView>) -> bool {
    match (x.emoji_media_type, x.emoji_image_url) {
        (Some(mt), Some(iu)) => match (parsed_media_type(mt@), parsed_url(iu@)) {
            (Some(m), Some(u)) => e matches Some(ev) && ev.media_type@ == m && ev.image_url@
                == u,
            _ => e is None,
        },
        _ => e is None,
    }
}

/// The projection of one reaction: content carried through, the reacting
/// user resolved leniently (a dangling reference projects to no user),
/// and the emoji as `emoji_view_ok` says.
pub open spec fn reaction_view_ok(x: ReactionRow, users: Seq<UserRow>, v: ReactionView) -> bool {
    &&& v.content@ == x.content@
    &&& match x.user_id {
        None => v.user is None,
        Some(uid) => match user_lookup(users, uid) {
            Some(u) => v.user matches Some(ur) && ur.handle@ == u.handle@ && ur.host@
                == u.host@,
            None => v.user is None,
        },
    }
    &&& emoji_view_ok(x, v.emoji)
}

/// The projected reactions are exactly the reactions to the given post,
/// in stored order, each projected as `reaction_view_ok` says.
pub open spec fn reactions_match(
    rs: Seq<ReactionRow>,
    users: Seq<UserRow>,
    pid: u128,
    out: Seq<ReactionView>,
) -> bool
    decreases rs.len(),
{
    if rs.len() == 0 {
        out.len() == 0
    } else if rs.last().post_id == pid {
        &&& out.len() > 0
        &&& reaction_view_ok(rs.last(), users, out.last())
        &&& reactions_match(rs.drop_last(), users, pid, out.drop_last())
    } else {
        reactions_match(rs.drop_last(), users, pid, out)
    }
}

/// The whole read model of one post row: every scalar field carried over,
/// visibility mapped back to the wire vocabulary, the owner resolved, the
/// URI in parsed form, and the attachment and reaction projections.
pub open spec fn post_view_ok(
    v: PostView,
    row: PostRow,
    users: Seq<UserRow>,
    reactions: Seq<ReactionRow>,
) -> bool {
    &&& v.id == row.id
    &&& v.created_at == row.created_at
    &&& v.reply_id == row.reply_id
    &&& v.text@ == row.text@
    &&& opt_str_eq(v.title, row.title)
    &&& match row.user_id {
        None => v.user is None,
        Some(uid) => user_lookup(users, uid) matches Some(u) && v.user matches Some(ur)
            && ur.handle@ == u.handle@ && ur.host@ == u.host@,
    }
    &&& v.visibility == spec_to_wire(row.visibility)
    &&& v.is_sensitive == row.is_sensitive
    &&& parsed_url(row.uri@) matches Some(n) && v.uri@ == n
    &&& files_match(row.attachments@, v.files@)
    &&& reactions_match(reactions, users, row.id, v.reactions@)
}

impl Store {
    /// Assembles the read model of the post with the given id.
    ///
    /// Not found when no such post exists. A present owner reference that
    /// resolves to no user is an internal error (referential integrity is
    /// assumed), as is a stored URI that does not parse; attachment and
    /// reaction blemishes are tolerated instead.
    pub fn get_post(&self, id: u128) -> (r: Result<PostView, ApiError>)
        ensures
            match post_lookup(self.posts@, id) {
                None => r matches Err(e) && e.kind == ErrorKind::NotFound && e.message@
                    == "post not found"@,
                Some(row) => {
                    if row.user_id matches Some(uid) && user_lookup(self.users@, uid) is None {
                        r matches Err(e) && e.kind == ErrorKind::Internal && e.message@
                            == "user not found"@
                    } else if parsed_url(row.uri@) is None {
                        r matches Err(e) && e.kind == ErrorKind::Internal && e.message@
                            == "malformed post URI"@
                    } else {
                        r matches Ok(v) && post_view_ok(v, row, self.users@, self.reactions@)
                    }
                },
            },
    {
        let found = find_post_index(&self.posts, id);
        let i = match found {
            None => {
                return Err(ApiError {
                    kind: ErrorKind::NotFound,
                    message: String::from_str("post not found"),
                });
            },
            Some(i) => i,
        };
        let user: Option<UserRef> = match self.posts[i].user_id {
            Some(uid) => {
                match find_user_index(&self.users, uid) {
                    None => {
                        return Err(ApiError {
                            kind: ErrorKind::Internal,
                            message: String::from_str("user not found"),
                        });
                    },
                    Some(ui) => Some(
                        UserRef {
                            handle: self.users[ui].handle.clone(),
                            host: self.users[ui].host.clone(),
                        },
                    ),
                }
            },
            None => None,
        };
        let uri = match parse_url(self.posts[i].uri.as_str()) {
            None => {
                return Err(ApiError {
                    kind: ErrorKind::Internal,
                    message: String::from_str("malformed post URI"),
                });
            },
            Some(u) => u,
        };
        let mut files: Vec<FileView> = Vec::new();
        let n = self.posts[i].attachments.len();
        let mut k: usize = 0;
        while k < n
            invariant
                i < self.posts@.len(),
                n == self.posts@[i as int].attachments@.len(),
                k <= n,
                files_match(self.posts@[i as int].attachments@.subrange(0, k as int), files@),
            decreases n - k,
        {
            let a = &self.posts[i].attachments[k];
            let ghost prev = files@;
            match parse_media_type(a.media_type.as_str()) {
                Some(m) => {
                    match parse_url(a.url.as_str()) {
                        Some(u) => {
                            files.push(
                                FileView { media_type: m, url: u, alt: clone_opt_string(&a.alt) },
                            );
                        },
                        None => {},
                    }
                },
                None => {},
            }
            proof {
                let atts = self.posts@[i as int].attachments@;
                assert(atts.subrange(0, k as int + 1).last() == atts[k as int]);
                assert(atts.subrange(0, k as int + 1).drop_last() =~= atts.subrange(
                    0,
                    k as int,
                ));
                if files@.len() > prev.len() {
                    assert(files@.drop_last() =~= prev);
                }
            }
            k += 1;
        }
        proof {
            assert(self.posts@[i as int].attachments@.subrange(0, n as int) =~= self.posts@[
                i as int].attachments@);
        }
        let mut reactions: Vec<ReactionView> = Vec::new();
        let m = self.reactions.len();
        let mut j: usize = 0;
        while j < m
            invariant
                m == self.reactions@.len(),
                j <= m,
                i < self.posts@.len(),
                self.posts@[i as int].id == id,
                reactions_match(
                    self.reactions@.subrange(0, j as int),
                    self.users@,
                    id,
                    reactions@,
                ),
            decreases m - j,
        {
            let x = &self.reactions[j];
            let ghost prev = reactions@;
            if x.post_id == id {
                let ruser: Option<UserRef> = match x.user_id {
                    Some(uid) => {
                        match find_user_index(&self.users, uid) {
                            Some(ui) => Some(
                                UserRef {
                                    handle: self.users[ui].handle.clone(),
                                    host: self.users[ui].host.clone(),
                                },
                            ),
                            None => None,
                        }
                    },
                    None => None,
                };
                let emoji: Option<EmojiView> = match &x.emoji_media_type {
                    Some(mt) => {
                        match &x.emoji_image_url {
                            Some(iu) => {
                                match parse_media_type(mt.as_str()) {
                                    Some(m2) => {
                                        match parse_url(iu.as_str()) {
                                            Some(u2) => Some(
                                                EmojiView { media_type: m2, image_url: u2 },
                                            ),
                                            None => None,
                                        }
                                    },
                                    None => None,
                                }
                            },
                            None => None,
                        }
                    },
                    None => None,
                };
                reactions.push(
                    ReactionView { user: ruser, content: x.content.clone(), emoji },
                );
            }
            proof {
                let rs = self.reactions@;
                assert(rs.subrange(0, j as int + 1).last() == rs[j as int]);
                assert(rs.subrange(0, j as int + 1).drop_last() =~= rs.subrange(0, j as int));
                if reactions@.len() > prev.len() {
                    assert(reactions@.drop_last() =~= prev);
                }
            }
            j += 1;
        }
        proof {
            assert(self.reactions@.subrange(0, m as int) =~= self.reactions@);
        }
        Ok(PostView {
            id: self.posts[i].id,
            created_at: self.posts[i].created_at,
            reply_id: self.posts[i].reply_id,
            text: self.posts[i].text.clone(),
            title: clone_opt_string(&self.posts[i].title),
            user,
            visibility: visibility_to_wire(self.posts[i].visibility),
            is_sensitive: self.posts[i].is_sensitive,
            uri,
            files,
            reactions,
        })
    }
}

} // verus!
