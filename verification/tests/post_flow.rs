use post_core::model::{CreateRequest, FileRow, PostRow, ReactionRow, UserRow};
use post_core::model::ErrorKind;
use post_core::store::Store;
use post_core::visibility::{
    StoredVisibility, Visibility, visibility_to_stored, visibility_to_wire,
};

fn store() -> Store {
    Store::new(String::from("example.com"))
}

fn simple_request(text: &str, visibility: Visibility, files: Vec<u128>) -> CreateRequest {
    CreateRequest {
        reply_id: None,
        text: String::from(text),
        title: None,
        visibility,
        is_sensitive: false,
        files,
    }
}

#[test]
fn create_public_post_then_read() {
    let mut s = store();
    let id = 0xa1a2a3a4b1b2c1c2d1d2d3d4d5d6d7d8u128;
    let req = simple_request("hello", Visibility::Public, vec![]);
    let created = s.create_post_with_id(id, 1_700_000_000_000_000, &req);
    assert_eq!(created.ok(), Some(id));

    let view = s.get_post(id).ok().expect("fresh post must be readable");
    assert_eq!(view.id, id);
    assert_eq!(view.created_at, 1_700_000_000_000_000);
    assert_eq!(view.reply_id, None);
    assert_eq!(view.text, "hello");
    assert_eq!(view.title, None);
    assert!(view.user.is_none());
    assert!(matches!(view.visibility, Visibility::Public));
    assert!(!view.is_sensitive);
    assert_eq!(
        view.uri,
        "https://example.com/ap/post/a1a2a3a4-b1b2-c1c2-d1d2-d3d4d5d6d7d8"
    );
    assert!(view.files.is_empty());
    assert!(view.reactions.is_empty());
}

#[test]
fn create_with_random_id_then_read() {
    let mut s = store();
    let req = simple_request("drawn id", Visibility::Home, vec![]);
    let id = s.create_post(&req).ok().expect("creation with no reply and no files succeeds");
    let view = s.get_post(id).ok().expect("fresh post must be readable");
    assert_eq!(view.text, "drawn id");
    assert!(matches!(view.visibility, Visibility::Home));

    let second = s.create_post(&req).ok().expect("independent creation succeeds");
    assert_ne!(id, second);
}

#[test]
fn missing_reply_target_is_not_found_and_persists_nothing() {
    let mut s = store();
    let req = CreateRequest {
        reply_id: Some(0x9999_9999u128),
        text: String::from("orphan reply"),
        title: None,
        visibility: Visibility::Public,
        is_sensitive: false,
        files: vec![],
    };
    let err = s.create_post_with_id(5, 0, &req).err().expect("must fail");
    assert_eq!(err.kind, ErrorKind::NotFound);
    assert_eq!(err.message, "reply target post not found");
    let read = s.get_post(5).err().expect("nothing was persisted");
    assert_eq!(read.kind, ErrorKind::NotFound);
}

#[test]
fn random_unused_reply_id_is_not_found_with_telling_message() {
    let mut s = store();
    let req = CreateRequest {
        reply_id: Some(0xfeed_beef_dead_c0deu128),
        text: String::from("x"),
        title: None,
        visibility: Visibility::Followers,
        is_sensitive: true,
        files: vec![],
    };
    let err = s.create_post(&req).err().expect("must fail");
    assert_eq!(err.kind, ErrorKind::NotFound);
    assert!(err.message.contains("reply target"));
}

#[test]
fn reply_to_existing_post_succeeds() {
    let mut s = store();
    let target = simple_request("target", Visibility::Public, vec![]);
    assert!(s.create_post_with_id(1, 0, &target).is_ok());
    let reply = CreateRequest {
        reply_id: Some(1),
        text: String::from("reply"),
        title: Some(String::from("re")),
        visibility: Visibility::Public,
        is_sensitive: false,
        files: vec![],
    };
    assert!(s.create_post_with_id(2, 1, &reply).is_ok());
    let view = s.get_post(2).ok().expect("reply readable");
    assert_eq!(view.reply_id, Some(1));
    assert_eq!(view.title.as_deref(), Some("re"));
}

fn seed_file(s: &mut Store, id: u128, media_type: &str, url: &str, alt: Option<&str>) {
    let added = s.add_file(FileRow {
        id,
        media_type: String::from(media_type),
        url: String::from(url),
        alt: alt.map(String::from),
    });
    assert!(added);
}

#[test]
fn attachments_keep_request_order() {
    let mut s = store();
    seed_file(&mut s, 10, "image/png", "https://files.example/a.png", Some("first"));
    seed_file(&mut s, 11, "image/jpeg", "https://files.example/b.jpg", None);
    seed_file(&mut s, 12, "video/mp4", "https://files.example/c.mp4", Some("third"));
    let req = simple_request("gallery", Visibility::Public, vec![12, 10, 11]);
    assert!(s.create_post_with_id(7, 0, &req).is_ok());

    let view = s.get_post(7).ok().expect("readable");
    assert_eq!(view.files.len(), 3);
    assert_eq!(view.files[0].media_type, "video/mp4");
    assert_eq!(view.files[0].url, "https://files.example/c.mp4");
    assert_eq!(view.files[0].alt.as_deref(), Some("third"));
    assert_eq!(view.files[1].media_type, "image/png");
    assert_eq!(view.files[1].url, "https://files.example/a.png");
    assert_eq!(view.files[1].alt.as_deref(), Some("first"));
    assert_eq!(view.files[2].media_type, "image/jpeg");
    assert_eq!(view.files[2].url, "https://files.example/b.jpg");
    assert_eq!(view.files[2].alt, None);
}

#[test]
fn one_missing_file_persists_no_post_row() {
    let mut s = store();
    seed_file(&mut s, 20, "image/png", "https://files.example/a.png", None);
    let req = simple_request("half valid", Visibility::Public, vec![20, 21]);
    let err = s.create_post_with_id(8, 0, &req).err().expect("must fail");
    assert_eq!(err.kind, ErrorKind::NotFound);
    assert_eq!(err.message, "file not found");
    let read = s.get_post(8).err().expect("all-or-nothing: no row survives");
    assert_eq!(read.kind, ErrorKind::NotFound);
    assert_eq!(read.message, "post not found");
}

#[test]
fn unparseable_attachment_is_dropped_from_the_read_model() {
    let mut s = store();
    seed_file(&mut s, 30, "not a mime at all", "https://files.example/x.bin", None);
    seed_file(&mut s, 31, "image/png", "relative/url/no/scheme", None);
    seed_file(&mut s, 32, "image/gif", "https://files.example/ok.gif", None);
    let req = simple_request("blemished", Visibility::Public, vec![30, 31, 32]);
    assert!(s.create_post_with_id(9, 0, &req).is_ok());
    let view = s.get_post(9).ok().expect("read stays available");
    assert_eq!(view.files.len(), 1);
    assert_eq!(view.files[0].media_type, "image/gif");
}

#[test]
fn read_unknown_id_is_not_found_and_visibility_round_trips() {
    let mut s = store();
    let unknown = s.get_post(424242).err().expect("unknown id");
    assert_eq!(unknown.kind, ErrorKind::NotFound);
    assert_eq!(unknown.message, "post not found");

    let cases = [
        Visibility::Public,
        Visibility::Home,
        Visibility::Followers,
        Visibility::DirectMessage,
    ];
    for (k, visibility) in cases.into_iter().enumerate() {
        let id = 1000 + k as u128;
        let req = simple_request("v", visibility, vec![]);
        assert!(s.create_post_with_id(id, 0, &req).is_ok());
        let view = s.get_post(id).ok().expect("readable");
        assert_eq!(view.visibility, visibility);
    }
}

#[test]
fn visibility_mapping_is_total_and_bijective() {
    assert_eq!(visibility_to_stored(Visibility::Public), StoredVisibility::Public);
    assert_eq!(visibility_to_stored(Visibility::Home), StoredVisibility::Home);
    assert_eq!(visibility_to_stored(Visibility::Followers), StoredVisibility::Followers);
    assert_eq!(
        visibility_to_stored(Visibility::DirectMessage),
        StoredVisibility::DirectMessage
    );
    assert_eq!(visibility_to_wire(StoredVisibility::Public), Visibility::Public);
    assert_eq!(visibility_to_wire(StoredVisibility::Home), Visibility::Home);
    assert_eq!(visibility_to_wire(StoredVisibility::Followers), Visibility::Followers);
    assert_eq!(
        visibility_to_wire(StoredVisibility::DirectMessage),
        Visibility::DirectMessage
    );
}

#[test]
fn partial_emoji_descriptor_reads_as_no_emoji() {
    let mut s = store();
    let req = simple_request("reacted", Visibility::Public, vec![]);
    assert!(s.create_post_with_id(50, 0, &req).is_ok());
    s.add_reaction(ReactionRow {
        post_id: 50,
        user_id: None,
        content: String::from(":tada:"),
        emoji_media_type: Some(String::from("image/png")),
        emoji_image_url: None,
    });
    s.add_reaction(ReactionRow {
        post_id: 50,
        user_id: None,
        content: String::from(":wave:"),
        emoji_media_type: None,
        emoji_image_url: Some(String::from("https://emoji.example/wave.png")),
    });
    let view = s.get_post(50).ok().expect("lenient read succeeds");
    assert_eq!(view.reactions.len(), 2);
    assert_eq!(view.reactions[0].content, ":tada:");
    assert!(view.reactions[0].emoji.is_none());
    assert_eq!(view.reactions[1].content, ":wave:");
    assert!(view.reactions[1].emoji.is_none());
}

#[test]
fn full_emoji_descriptor_is_projected_and_unparseable_one_downgraded() {
    let mut s = store();
    let req = simple_request("reacted", Visibility::Public, vec![]);
    assert!(s.create_post_with_id(51, 0, &req).is_ok());
    s.add_reaction(ReactionRow {
        post_id: 51,
        user_id: None,
        content: String::from(":ok:"),
        emoji_media_type: Some(String::from("image/png")),
        emoji_image_url: Some(String::from("https://emoji.example/ok.png")),
    });
    s.add_reaction(ReactionRow {
        post_id: 51,
        user_id: None,
        content: String::from(":bad:"),
        emoji_media_type: Some(String::from("image/png")),
        emoji_image_url: Some(String::from("not an absolute url")),
    });
    let view = s.get_post(51).ok().expect("lenient read succeeds");
    assert_eq!(view.reactions.len(), 2);
    let ok = view.reactions[0].emoji.as_ref().expect("complete descriptor kept");
    assert_eq!(ok.media_type, "image/png");
    assert_eq!(ok.image_url, "https://emoji.example/ok.png");
    assert!(view.reactions[1].emoji.is_none());
}

#[test]
fn reaction_users_resolve_leniently() {
    let mut s = store();
    assert!(s.add_user(UserRow {
        id: 70,
        handle: String::from("alice"),
        host: String::from("social.example"),
    }));
    let req = simple_request("who reacted", Visibility::Public, vec![]);
    assert!(s.create_post_with_id(52, 0, &req).is_ok());
    s.add_reaction(ReactionRow {
        post_id: 52,
        user_id: Some(70),
        content: String::from("+1"),
        emoji_media_type: None,
        emoji_image_url: None,
    });
    s.add_reaction(ReactionRow {
        post_id: 52,
        user_id: Some(71),
        content: String::from("-1"),
        emoji_media_type: None,
        emoji_image_url: None,
    });
    let view = s.get_post(52).ok().expect("readable");
    assert_eq!(view.reactions.len(), 2);
    let reactor = view.reactions[0].user.as_ref().expect("known user projected");
    assert_eq!(reactor.handle, "alice");
    assert_eq!(reactor.host, "social.example");
    assert!(view.reactions[1].user.is_none(), "dangling reaction user is tolerated");
}

#[test]
fn delete_is_idempotent_and_makes_reads_not_found() {
    let mut s = store();
    assert_eq!(s.delete_post(12345).ok(), Some(None));

    let id = 0xa1a2a3a4b1b2c1c2d1d2d3d4d5d6d7d8u128;
    let req = simple_request("short lived", Visibility::Public, vec![]);
    assert!(s.create_post_with_id(id, 0, &req).is_ok());
    let deleted = s.delete_post(id).ok().expect("delete succeeds");
    assert_eq!(
        deleted.as_deref(),
        Some("https://example.com/ap/post/a1a2a3a4-b1b2-c1c2-d1d2-d3d4d5d6d7d8")
    );
    let read = s.get_post(id).err().expect("deleted post is gone");
    assert_eq!(read.kind, ErrorKind::NotFound);
    assert_eq!(s.delete_post(id).ok(), Some(None));
}

#[test]
fn owner_reference_is_projected_and_a_dangling_one_is_internal() {
    let mut s = store();
    assert!(s.add_user(UserRow {
        id: 80,
        handle: String::from("bob"),
        host: String::from("remote.example"),
    }));
    let owned = PostRow {
        id: 60,
        created_at: 5,
        reply_id: None,
        text: String::from("from afar"),
        title: None,
        user_id: Some(80),
        visibility: StoredVisibility::Home,
        is_sensitive: false,
        uri: String::from("https://remote.example/ap/post/60"),
        attachments: vec![],
    };
    assert!(s.insert_post_row(owned));
    let view = s.get_post(60).ok().expect("readable");
    let owner = view.user.expect("owner projected");
    assert_eq!(owner.handle, "bob");
    assert_eq!(owner.host, "remote.example");

    let dangling = PostRow {
        id: 61,
        created_at: 5,
        reply_id: None,
        text: String::from("broken"),
        title: None,
        user_id: Some(81),
        visibility: StoredVisibility::Home,
        is_sensitive: false,
        uri: String::from("https://remote.example/ap/post/61"),
        attachments: vec![],
    };
    assert!(s.insert_post_row(dangling));
    let err = s.get_post(61).err().expect("dangling owner is an integrity fault");
    assert_eq!(err.kind, ErrorKind::Internal);
    assert_eq!(err.message, "user not found");
}

#[test]
fn malformed_stored_uri_is_internal_on_read_and_on_delete() {
    let mut s = store();
    let row = PostRow {
        id: 62,
        created_at: 0,
        reply_id: None,
        text: String::from("bad uri"),
        title: None,
        user_id: None,
        visibility: StoredVisibility::Public,
        is_sensitive: false,
        uri: String::from("not an absolute url"),
        attachments: vec![],
    };
    assert!(s.insert_post_row(row));
    let err = s.get_post(62).err().expect("uri must parse on read");
    assert_eq!(err.kind, ErrorKind::Internal);
    assert_eq!(err.message, "malformed post URI");

    let err = s.delete_post(62).err().expect("announcement target must parse");
    assert_eq!(err.kind, ErrorKind::Internal);
    assert_eq!(err.message, "malformed post URI");
    let read = s.get_post(62).err().expect("deletion was already durable");
    assert_eq!(read.kind, ErrorKind::NotFound);
}

#[test]
fn identifier_collision_is_internal() {
    let mut s = store();
    let req = simple_request("first", Visibility::Public, vec![]);
    assert!(s.create_post_with_id(90, 0, &req).is_ok());
    let err = s.create_post_with_id(90, 1, &req).err().expect("duplicate key");
    assert_eq!(err.kind, ErrorKind::Internal);
    assert_eq!(err.message, "failed to insert to database");
}

#[test]
fn more_files_than_order_positions_is_rejected() {
    let mut s = store();
    let mut ids: Vec<u128> = Vec::new();
    for k in 0..257u128 {
        seed_file(
            &mut s,
            2000 + k,
            "image/png",
            &format!("https://files.example/{}.png", k),
            None,
        );
        ids.push(2000 + k);
    }
    let big = simple_request("too many", Visibility::Public, ids.clone());
    let err = s.create_post_with_id(91, 0, &big).err().expect("over the order range");
    assert_eq!(err.kind, ErrorKind::Internal);
    assert_eq!(err.message, "attachment order out of range");

    ids.pop();
    let fitting = simple_request("just enough", Visibility::Public, ids);
    assert!(s.create_post_with_id(92, 0, &fitting).is_ok());
    let view = s.get_post(92).ok().expect("readable");
    assert_eq!(view.files.len(), 256);
    assert_eq!(view.files[255].url, "https://files.example/255.png");
}

#[test]
fn read_returns_parsed_canonical_forms() {
    let mut s = store();
    seed_file(&mut s, 40, "Image/PNG", "https://FILES.example", Some("shout"));
    let req = simple_request("normalized", Visibility::Public, vec![40]);
    assert!(s.create_post_with_id(41, 0, &req).is_ok());
    let view = s.get_post(41).ok().expect("readable");
    assert_eq!(view.files.len(), 1);
    assert_eq!(view.files[0].media_type, "image/png");
    assert_eq!(view.files[0].url, "https://files.example/");

    let row = PostRow {
        id: 42,
        created_at: 0,
        reply_id: None,
        text: String::from("loud uri"),
        title: None,
        user_id: None,
        visibility: StoredVisibility::Public,
        is_sensitive: false,
        uri: String::from("https://REMOTE.example/ap/post/42"),
        attachments: vec![],
    };
    assert!(s.insert_post_row(row));
    let view = s.get_post(42).ok().expect("readable");
    assert_eq!(view.uri, "https://remote.example/ap/post/42");
}

#[test]
fn reactions_of_other_posts_are_not_joined_in() {
    let mut s = store();
    let req = simple_request("mine", Visibility::Public, vec![]);
    assert!(s.create_post_with_id(55, 0, &req).is_ok());
    assert!(s.create_post_with_id(56, 0, &req).is_ok());
    s.add_reaction(ReactionRow {
        post_id: 56,
        user_id: None,
        content: String::from(":other:"),
        emoji_media_type: None,
        emoji_image_url: None,
    });
    s.add_reaction(ReactionRow {
        post_id: 55,
        user_id: None,
        content: String::from(":mine:"),
        emoji_media_type: None,
        emoji_image_url: None,
    });
    let view = s.get_post(55).ok().expect("readable");
    assert_eq!(view.reactions.len(), 1);
    assert_eq!(view.reactions[0].content, ":mine:");
}

#[test]
fn deleting_a_post_drops_its_reactions_only() {
    let mut s = store();
    let req = simple_request("ephemeral", Visibility::Public, vec![]);
    assert!(s.create_post_with_id(57, 0, &req).is_ok());
    assert!(s.create_post_with_id(58, 0, &req).is_ok());
    s.add_reaction(ReactionRow {
        post_id: 57,
        user_id: None,
        content: String::from(":gone:"),
        emoji_media_type: None,
        emoji_image_url: None,
    });
    s.add_reaction(ReactionRow {
        post_id: 58,
        user_id: None,
        content: String::from(":kept:"),
        emoji_media_type: None,
        emoji_image_url: None,
    });
    assert!(s.delete_post(57).is_ok());
    // Re-using the freed id must not resurrect the old reactions.
    assert!(s.create_post_with_id(57, 1, &req).is_ok());
    let view = s.get_post(57).ok().expect("readable");
    assert!(view.reactions.is_empty());
    let view = s.get_post(58).ok().expect("readable");
    assert_eq!(view.reactions.len(), 1);
    assert_eq!(view.reactions[0].content, ":kept:");
}

#[test]
fn duplicate_uri_is_refused_like_a_duplicate_key() {
    let mut s = store();
    let row = PostRow {
        id: 300,
        created_at: 0,
        reply_id: None,
        text: String::from("first claim"),
        title: None,
        user_id: None,
        visibility: StoredVisibility::Public,
        is_sensitive: false,
        uri: String::from("https://remote.example/ap/post/300"),
        attachments: vec![],
    };
    assert!(s.insert_post_row(row));
    let same_uri = PostRow {
        id: 301,
        created_at: 1,
        reply_id: None,
        text: String::from("second claim"),
        title: None,
        user_id: None,
        visibility: StoredVisibility::Public,
        is_sensitive: false,
        uri: String::from("https://remote.example/ap/post/300"),
        attachments: vec![],
    };
    assert!(!s.insert_post_row(same_uri));

    // A row squatting on a canonical URI makes creation of that id fail
    // the way a unique index would.
    let squatter = PostRow {
        id: 302,
        created_at: 2,
        reply_id: None,
        text: String::from("squatter"),
        title: None,
        user_id: None,
        visibility: StoredVisibility::Public,
        is_sensitive: false,
        uri: String::from(
            "https://example.com/ap/post/00000000-0000-0000-0000-000000000001",
        ),
        attachments: vec![],
    };
    assert!(s.insert_post_row(squatter));
    let req = simple_request("blocked", Visibility::Public, vec![]);
    let err = s.create_post_with_id(1, 0, &req).err().expect("URI already taken");
    assert_eq!(err.kind, ErrorKind::Internal);
    assert_eq!(err.message, "failed to insert to database");
}

#[test]
fn delete_then_read_reports_not_found() {
    let mut s = store();
    let req = simple_request("twice removed", Visibility::Public, vec![]);
    assert!(s.create_post_with_id(95, 0, &req).is_ok());
    let read = post_core::laws::delete_then_read_is_not_found(&mut s, 95)
        .err()
        .expect("never readable after deletion");
    assert_eq!(read.kind, ErrorKind::NotFound);
    assert_eq!(read.message, "post not found");
}

#[test]
fn dispatch_outcome_decides_the_request() {
    assert!(Store::confirm_dispatch(true).is_ok());
    let err = Store::confirm_dispatch(false).err().expect("failed delivery fails the request");
    assert_eq!(err.kind, ErrorKind::Internal);
    assert_eq!(err.message, "failed to deliver activity");
}
