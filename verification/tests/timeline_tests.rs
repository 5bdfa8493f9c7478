use bunnieverse::gui::AppMsg;
use bunnieverse::http::HttpMsg;
use bunnieverse::model::note::{import_note, ApiNote, NoteKind};
use bunnieverse::model::user::{ApiUser, UserAvatar};
use bunnieverse::timeline::{note_type_label, BodyLayout, TimelineModel, TimelineMsg};

fn user(name: &str, avatar: Option<&str>) -> ApiUser {
    ApiUser {
        username: name.to_string(),
        name: None,
        host: None,
        avatar_url: avatar.map(|s| s.to_string()),
    }
}

fn note_by(name: &str, avatar: Option<&str>, text: Option<&str>, renote: Option<ApiNote>) -> ApiNote {
    ApiNote {
        user: user(name, avatar),
        text: text.map(|s| s.to_string()),
        cw: None,
        reply: None,
        renote: renote.map(Box::new),
    }
}

const A: &str = "https://a.example/a.png";
const B: &str = "https://b.example/b.png";

fn set_avatar(index: usize, url: &str, body: &[u8]) -> TimelineMsg {
    TimelineMsg::HttpResponse(HttpMsg::SetAvatar(
        index,
        url.to_string(),
        bytes::Bytes::from(body.to_vec()),
    ))
}

fn model_with_renote() -> TimelineModel {
    let mut model = TimelineModel::init_model();
    let inner = note_by("bob", Some(B), Some("original"), None);
    let outer = note_by("alice", Some(A), None, Some(inner));
    assert!(model.update(TimelineMsg::InsertNote(import_note(outer, true))).is_none());
    model
}

fn fetched(avatar: &UserAvatar) -> Option<(String, Vec<u8>)> {
    match avatar {
        UserAvatar::Fetched(url, body) => Some((url.clone(), body.to_vec())),
        _ => None,
    }
}

#[test]
fn insert_appends_notes_in_order() {
    let mut model = TimelineModel::init_model();
    assert!(model.notes().is_empty());
    for text in ["one", "two", "three"] {
        let msg = TimelineMsg::InsertNote(import_note(note_by("a", None, Some(text), None), true));
        assert!(model.update(msg).is_none());
    }
    let bodies: Vec<_> = model.notes().iter().map(|n| n.body.clone().unwrap()).collect();
    assert_eq!(bodies, vec!["one", "two", "three"]);
}

#[test]
fn http_request_goes_to_the_window() {
    let mut model = TimelineModel::init_model();
    let parent = model.update(TimelineMsg::HttpRequest(HttpMsg::GetAvatar(3, A.to_string())));
    match parent {
        Some(AppMsg::HttpRequest(HttpMsg::GetAvatar(3, url))) => assert_eq!(url, A),
        _ => panic!("expected the request to be handed on"),
    }
    assert!(model.notes().is_empty());
}

#[test]
fn avatar_answer_fills_own_avatar() {
    let mut model = model_with_renote();
    assert!(model.update(set_avatar(0, A, &[7, 8])).is_none());
    let entry = &model.notes()[0];
    assert_eq!(fetched(&entry.user.avatar), Some((A.to_string(), vec![7, 8])));
    let child = entry.note.as_ref().unwrap();
    assert!(matches!(&child.user.avatar, UserAvatar::NotFetched(u) if u == B));
}

#[test]
fn avatar_answer_fills_inner_avatar() {
    let mut model = model_with_renote();
    model.update(set_avatar(0, B, &[9]));
    let entry = &model.notes()[0];
    assert!(matches!(&entry.user.avatar, UserAvatar::NotFetched(u) if u == A));
    let child = entry.note.as_ref().unwrap();
    assert_eq!(fetched(&child.user.avatar), Some((B.to_string(), vec![9])));
    assert_eq!(child.body.as_deref(), Some("original"));
}

#[test]
fn avatar_answer_for_other_address_or_entry_changes_nothing() {
    let mut model = model_with_renote();
    model.update(set_avatar(0, "https://c.example/c.png", &[1]));
    model.update(set_avatar(5, A, &[1]));
    let entry = &model.notes()[0];
    assert!(matches!(&entry.user.avatar, UserAvatar::NotFetched(u) if u == A));
    assert_eq!(model.notes().len(), 1);
}

#[test]
fn fetched_avatar_stays() {
    let mut model = model_with_renote();
    model.update(set_avatar(0, A, &[1]));
    model.update(set_avatar(0, A, &[2]));
    assert_eq!(fetched(&model.notes()[0].user.avatar), Some((A.to_string(), vec![1])));
}

#[test]
fn connection_error_and_get_avatar_answer_change_nothing() {
    let mut model = model_with_renote();
    assert!(model.update(TimelineMsg::ConnectionError).is_none());
    assert!(model
        .update(TimelineMsg::HttpResponse(HttpMsg::GetAvatar(0, A.to_string())))
        .is_none());
    assert_eq!(model.notes().len(), 1);
    assert!(matches!(&model.notes()[0].user.avatar, UserAvatar::NotFetched(_)));
}

#[test]
fn labels_by_kind() {
    assert_eq!(note_type_label(NoteKind::Note), "note");
    assert_eq!(note_type_label(NoteKind::Renote), "renote");
    assert_eq!(note_type_label(NoteKind::Reply), "renote");
}

#[test]
fn avatar_urls_of_entry_and_inner_note() {
    let model = model_with_renote();
    assert_eq!(model.notes()[0].avatar_urls(), vec![A.to_string(), B.to_string()]);
    let lonely = import_note(note_by("c", None, Some("x"), None), true);
    assert!(lonely.avatar_urls().is_empty());
}

#[test]
fn fetched_avatar_for_widget_key() {
    let mut model = model_with_renote();
    assert!(model.notes()[0].fetched_avatar(&A.to_string()).is_none());
    model.update(set_avatar(0, A, &[4, 2]));
    let entry = &model.notes()[0];
    assert_eq!(entry.fetched_avatar(&A.to_string()).unwrap().to_vec(), vec![4, 2]);
    assert!(entry.fetched_avatar(&B.to_string()).is_none());
}

#[test]
fn body_layouts() {
    let plain = import_note(note_by("a", None, Some("text"), None), true);
    assert!(matches!(plain.body_layout(), BodyLayout::Plain(t) if t == "text"));
    let mut warned = note_by("a", None, Some("text"), None);
    warned.cw = Some("careful".to_string());
    let warned = import_note(warned, true);
    assert!(matches!(warned.body_layout(), BodyLayout::Collapsed(w, t) if w == "careful" && t == "text"));
    let empty = import_note(note_by("a", None, None, None), true);
    assert!(matches!(empty.body_layout(), BodyLayout::Hidden));
}
