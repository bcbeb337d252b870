//! Data model of the post core: stored rows, the creation request, the
//! denormalized read model, and the error taxonomy.
//!
//! Identifiers are 128-bit values (the numeric form of a UUID). Timestamps
//! are microseconds since the Unix epoch. Media types and URLs are carried
//! as text and validated through the parsers at the read boundary.

use vstd::prelude::*;

verus! {

/// The two failure classes the core distinguishes: a missing entity named
/// by the client, and everything that should not happen under the core's
/// invariants (storage faults, malformed stored data, failed dispatch).
#[derive(Clone, Copy, Debug, PartialEq, Eq, Structural)]
pub enum ErrorKind {
    NotFound,
    Internal,
}

/// An operation failure: its class and a human-readable message.
pub struct ApiError {
    pub kind: ErrorKind,
    pub message: String,
}

/// An attachment stored with its post: the association to a previously
/// uploaded file, the zero-based display position, and the projection of
/// the file used by the read model.
pub struct AttachmentRow {
    pub file_id: u128,
    pub order: u8,
    pub media_type: String,
    pub url: String,
    pub alt: Option<String>,
}

/// A stored post aggregate: the row and its ordered attachments, created
/// together in one atomic unit and never structurally mutated afterwards.
pub struct PostRow {
    pub id: u128,
    pub created_at: i64,
    pub reply_id: Option<u128>,
    pub text: String,
    pub title: Option<String>,
    pub user_id: Option<u128>,
    pub visibility: crate::visibility::StoredVisibility,
    pub is_sensitive: bool,
    pub uri: String,
    pub attachments: Vec<AttachmentRow>,
}

/// A previously uploaded file that a post may attach.
pub struct FileRow {
    pub id: u128,
    pub media_type: String,
    pub url: String,
    pub alt: Option<String>,
}

/// An owner or reacting user, read-only from this core's perspective.
pub struct UserRow {
    pub id: u128,
    pub handle: String,
    pub host: String,
}

/// A reaction to a post. The reacting user is a weak reference, and the
/// custom-emoji descriptor is meant to be fully present or fully absent;
/// the read path tolerates anything else.
pub struct ReactionRow {
    pub post_id: u128,
    pub user_id: Option<u128>,
    pub content: String,
    pub emoji_media_type: Option<String>,
    pub emoji_image_url: Option<String>,
}

/// A creation request: optional reply target, body, optional title,
/// visibility in wire vocabulary, sensitivity flag, and the ordered list
/// of ids of already uploaded files to attach.
pub struct CreateRequest {
    pub reply_id: Option<u128>,
    pub text: String,
    pub title: Option<String>,
    pub visibility: crate::visibility::Visibility,
    pub is_sensitive: bool,
    pub files: Vec<u128>,
}

/// Owner projection in the read model: handle and host.
pub struct UserRef {
    pub handle: String,
    pub host: String,
}

/// Attachment projection in the read model, with the media type and URL in
/// their parsed, canonical text form.
pub struct FileView {
    pub media_type: String,
    pub url: String,
    pub alt: Option<String>,
}

/// Custom-emoji projection of a reaction, present only when both stored
/// fields exist and parse.
pub struct EmojiView {
    pub media_type: String,
    pub image_url: String,
}

/// Reaction projection in the read model.
pub struct ReactionView {
    pub user: Option<UserRef>,
    pub content: String,
    pub emoji: Option<EmojiView>,
}

/// The assembled read model of one post.
pub struct PostView {
    pub id: u128,
    pub created_at: i64,
    pub reply_id: Option<u128>,
    pub text: String,
    pub title: Option<String>,
    pub user: Option<UserRef>,
    pub visibility: crate::visibility::Visibility,
    pub is_sensitive: bool,
    pub uri: String,
    pub files: Vec<FileView>,
    pub reactions: Vec<ReactionView>,
}

/// Equality of optional strings by their character content.
pub open spec fn opt_str_eq(a: Option<String>, b: Option<String>) -> bool {
    match (a, b) {
        (Some(x), Some(y)) => x@ == y@,
        (None, None) => true,
        _ => false,
    }
}

/// Copies an optional string, preserving presence and content.
pub fn clone_opt_string(x: &Option<String>) -> (r: Option<String>)
    ensures
        opt_str_eq(r, *x),
{
    match x {
        Some(s) => Some(s.clone()),
        None => None,
    }
}

} // verus!
