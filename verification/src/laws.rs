//! Laws of the post core, stated over the same spec functions that the
//! store's and the aggregator's contracts use, and proved once and for
//! all.

use vstd::prelude::*;

use crate::model::{
    ApiError, AttachmentRow, CreateRequest, ErrorKind, FileView, PostView, ReactionRow,
    ReactionView, UserRow,
};
use crate::read::{att_kept, file_view_ok, files_match, post_view_ok, reaction_view_ok};
use crate::store::{
    Store, contains_post, created_row_matches, lemma_post_lookup_push, post_lookup,
};
use crate::visibility::lemma_visibility_round_trip;

verus! {

/// When every attachment of a row survives projection, the projection
/// keeps them all: one file view per attachment, in stored order.
pub proof fn lemma_files_match_all_kept(atts: Seq<AttachmentRow>, out: Seq<FileView>)
    requires
        files_match(atts, out),
        forall|k: int| 0 <= k < atts.len() ==> att_kept(#[trigger] atts[k]),
    ensures
        out.len() == atts.len(),
        forall|k: int| 0 <= k < atts.len() ==> file_view_ok(atts[k], #[trigger] out[k]),
    decreases atts.len(),
{
    if atts.len() > 0 {
        lemma_files_match_all_kept(atts.drop_last(), out.drop_last());
        assert forall|k: int| 0 <= k < atts.len() implies file_view_ok(
            atts[k],
            #[trigger] out[k],
        ) by {
            if k < atts.len() - 1 {
                assert(atts.drop_last()[k] == atts[k]);
                assert(out.drop_last()[k] == out[k]);
                assert(file_view_ok(atts.drop_last()[k], out.drop_last()[k]));
            }
        }
    }
}

/// Reading a freshly created post returns what the request supplied.
///
/// Given a store in which a creation for `id` just succeeded (the new row
/// is the last one, over the prior store `s0` where `id` was fresh), and
/// any read model of that row: the read model echoes the request's text,
/// reply target, title, visibility (a perfect round trip through the two
/// vocabularies) and sensitivity flag, reports no owner, and — whenever
/// every attached file's stored media type and URL parse — contains
/// exactly one file view per requested file, in request order.
pub proof fn lemma_created_post_reads_back(
    s0: Store,
    s1: Store,
    req: CreateRequest,
    id: u128,
    created_at: i64,
    v: PostView,
)
    requires
        !contains_post(s0.posts@, id),
        s1.posts@.len() == s0.posts@.len() + 1,
        s1.posts@.subrange(0, s0.posts@.len() as int) == s0.posts@,
        created_row_matches(s1.posts@.last(), id, created_at, req, s0),
        post_view_ok(v, s1.posts@.last(), s1.users@, s1.reactions@),
    ensures
        post_lookup(s1.posts@, id) == Some(s1.posts@.last()),
        v.id == id,
        v.text@ == req.text@,
        v.reply_id == req.reply_id,
        crate::model::opt_str_eq(v.title, req.title),
        v.visibility == req.visibility,
        v.is_sensitive == req.is_sensitive,
        v.user is None,
        s1.posts@.last().attachments@.len() == req.files@.len(),
        (forall|k: int|
            0 <= k < s1.posts@.last().attachments@.len() ==> att_kept(
                #[trigger] s1.posts@.last().attachments@[k],
            )) ==> v.files@.len() == req.files@.len() && (forall|k: int|
            0 <= k < req.files@.len() ==> file_view_ok(
                s1.posts@.last().attachments@[k],
                #[trigger] v.files@[k],
            )),
{
    let row = s1.posts@.last();
    assert(s1.posts@ =~= s0.posts@.push(row));
    lemma_post_lookup_push(s0.posts@, row, id);
    lemma_visibility_round_trip(req.visibility, row.visibility);
    if forall|k: int| 0 <= k < row.attachments@.len() ==> att_kept(#[trigger] row.attachments@[k]) {
        lemma_files_match_all_kept(row.attachments@, v.files@);
    }
}

/// Deleting a post and then reading the same id always reports not
/// found, whether or not the post existed and however the deletion's
/// announcement fared.
pub fn delete_then_read_is_not_found(s: &mut Store, id: u128) -> (r: Result<PostView, ApiError>)
    requires
        old(s).wf(),
    ensures
        r matches Err(e) && e.kind == ErrorKind::NotFound && e.message@ == "post not found"@,
{
    let _ = s.delete_post(id);
    s.get_post(id)
}

/// A reaction whose custom-emoji descriptor has only one of its two
/// fields populated is projected with no emoji, never as an error.
pub proof fn lemma_lenient_emoji(x: ReactionRow, users: Seq<UserRow>, v: ReactionView)
    requires
        reaction_view_ok(x, users, v),
        (x.emoji_media_type is Some) <==> (x.emoji_image_url is None),
    ensures
        v.emoji is None,
{
}

} // verus!
