use bunnieverse::model::note::{import_note, ApiNote, NoteKind};
use bunnieverse::model::user::{
    import_user, import_user_avatar, import_user_handle, ApiUser, UserAvatar, UserHandle,
};
use bunnieverse::INSTANCE;

fn api_user(name: Option<&str>, host: Option<&str>, avatar: Option<&str>) -> ApiUser {
    ApiUser {
        username: "alice".to_string(),
        name: name.map(|s| s.to_string()),
        host: host.map(|s| s.to_string()),
        avatar_url: avatar.map(|s| s.to_string()),
    }
}

fn api_note(
    text: Option<&str>,
    cw: Option<&str>,
    reply: Option<ApiNote>,
    renote: Option<ApiNote>,
) -> ApiNote {
    ApiNote {
        user: api_user(Some("Alice"), None, Some("https://a.example/alice.png")),
        text: text.map(|s| s.to_string()),
        cw: cw.map(|s| s.to_string()),
        reply: reply.map(Box::new),
        renote: renote.map(Box::new),
    }
}

fn plain(text: &str) -> ApiNote {
    api_note(Some(text), None, None, None)
}

#[test]
fn display_name_defaults_to_unnamed() {
    let user = import_user(&api_user(None, None, None));
    assert_eq!(user.display_name, "unnamed");
    let user = import_user(&api_user(Some("Alice"), None, None));
    assert_eq!(user.display_name, "Alice");
}

#[test]
fn user_without_host_is_local() {
    match import_user_handle(&api_user(None, None, None)) {
        UserHandle::Local(name, instance) => {
            assert_eq!(name, "alice");
            assert_eq!(instance, INSTANCE);
        }
        UserHandle::Remote(..) => panic!("expected a local handle"),
    }
}

#[test]
fn user_on_this_instance_is_local() {
    match import_user_handle(&api_user(None, Some("bunne.garden"), None)) {
        UserHandle::Local(name, instance) => {
            assert_eq!(name, "alice");
            assert_eq!(instance, "bunne.garden");
        }
        UserHandle::Remote(..) => panic!("expected a local handle"),
    }
}

#[test]
fn user_on_other_instance_is_remote() {
    match import_user_handle(&api_user(None, Some("example.org"), None)) {
        UserHandle::Remote(name, instance) => {
            assert_eq!(name, "alice");
            assert_eq!(instance, "example.org");
        }
        UserHandle::Local(..) => panic!("expected a remote handle"),
    }
}

#[test]
fn handle_text_is_name_at_instance() {
    let handle = import_user_handle(&api_user(None, Some("example.org"), None));
    assert_eq!(handle.to_string(), "alice@example.org");
    let handle = import_user_handle(&api_user(None, None, None));
    assert_eq!(handle.to_string(), "alice@bunne.garden");
}

#[test]
fn avatar_is_not_fetched_until_downloaded() {
    match import_user_avatar(&api_user(None, None, Some("https://a.example/a.png"))) {
        UserAvatar::NotFetched(url) => assert_eq!(url, "https://a.example/a.png"),
        _ => panic!("expected an avatar to fetch"),
    }
    assert!(matches!(import_user_avatar(&api_user(None, None, None)), UserAvatar::NotSet));
}

#[test]
fn avatar_from_response() {
    let url = "https://a.example/a.png".to_string();
    match UserAvatar::from_response(url.clone(), Some(vec![1, 2, 3])) {
        UserAvatar::Fetched(u, body) => {
            assert_eq!(u, url);
            assert_eq!(body.to_vec(), vec![1, 2, 3]);
        }
        _ => panic!("expected a fetched avatar"),
    }
    assert!(matches!(UserAvatar::from_response(url, None), UserAvatar::NotSet));
}

#[test]
fn plain_note_kind_and_fields() {
    let note = import_note(api_note(Some("hello"), Some("spoiler"), None, None), true);
    assert_eq!(note.kind, NoteKind::Note);
    assert_eq!(note.body.as_deref(), Some("hello"));
    assert_eq!(note.cw.as_deref(), Some("spoiler"));
    assert!(note.files.is_empty());
    assert!(note.note.is_none());
    assert_eq!(note.user.display_name, "Alice");
}

#[test]
fn pure_renote_is_renote_and_carries_child() {
    let note = import_note(api_note(None, None, None, Some(plain("original"))), true);
    assert_eq!(note.kind, NoteKind::Renote);
    let child = note.note.expect("renote carries its note");
    assert_eq!(child.body.as_deref(), Some("original"));
    assert_eq!(child.kind, NoteKind::Note);
}

#[test]
fn quote_renote_is_reply() {
    let note = import_note(api_note(Some("look"), None, None, Some(plain("original"))), true);
    assert_eq!(note.kind, NoteKind::Reply);
    assert!(note.note.is_some());
}

#[test]
fn reply_with_text_is_reply() {
    let note = import_note(api_note(Some("answer"), None, Some(plain("question")), None), true);
    assert_eq!(note.kind, NoteKind::Reply);
    assert_eq!(note.note.unwrap().body.as_deref(), Some("question"));
}

#[test]
fn reply_and_renote_together_is_plain_and_childless() {
    let note = import_note(
        api_note(Some("both"), None, Some(plain("q")), Some(plain("r"))),
        true,
    );
    assert_eq!(note.kind, NoteKind::Note);
    assert!(note.note.is_none());
}

#[test]
fn renote_with_only_warning_is_plain_but_carries_child() {
    // The note is no renote by its kind, yet the note it refers to is read.
    let note = import_note(api_note(None, Some("cw"), None, Some(plain("original"))), true);
    assert_eq!(note.kind, NoteKind::Note);
    assert!(note.note.is_some());
}

#[test]
fn child_is_read_one_level_deep() {
    let inner = api_note(None, None, None, Some(plain("deepest")));
    let note = import_note(api_note(None, None, None, Some(inner)), true);
    let child = note.note.expect("renote carries its note");
    assert_eq!(child.kind, NoteKind::Renote);
    assert!(child.note.is_none());
}

#[test]
fn no_child_without_recurse() {
    let note = import_note(api_note(None, None, None, Some(plain("original"))), false);
    assert_eq!(note.kind, NoteKind::Renote);
    assert!(note.note.is_none());
}
