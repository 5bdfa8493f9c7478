//! The home timeline: the notes it holds and how messages change them.
use vstd::prelude::*;

use crate::gui::AppMsg;
use crate::http::{is_avatar_answer, HttpMsg};
use crate::model::note::{Note, NoteKind, NoteView};
use crate::model::user::{AvatarView, UserAvatar, UserView};
use crate::payload::bytes_contents;

verus! {

/// The notes of a timeline, oldest first.
pub struct TimelineModel {
    notes: Vec<Note>,
}

/// What a timeline receives.
pub enum TimelineMsg {
    /// A note to show at the end of the timeline.
    InsertNote(Note),
    /// A download that an entry of the timeline asks for.
    HttpRequest(HttpMsg),
    /// A download that is over.
    HttpResponse(HttpMsg),
    /// The connection to the server failed.
    ConnectionError,
}

/// An avatar once the bytes of `url` are known: an avatar still to fetch
/// from `url` becomes fetched with `content`; any other avatar stays.
pub open spec fn avatar_after(avatar: AvatarView, url: Seq<char>, content: Seq<u8>) -> AvatarView {
    match avatar {
        AvatarView::NotFetched(own) => if own == url {
            AvatarView::Fetched(own, content)
        } else {
            avatar
        },
        _ => avatar,
    }
}

pub open spec fn user_after(user: UserView, url: Seq<char>, content: Seq<u8>) -> UserView {
    UserView { avatar: avatar_after(user.avatar, url, content), ..user }
}

/// A timeline entry once the bytes of `url` are known: the avatars of the
/// note and of the note it shows inside are filled in.
pub open spec fn entry_after(note: NoteView, url: Seq<char>, content: Seq<u8>) -> NoteView {
    NoteView {
        user: user_after(note.user, url, content),
        note: match note.note {
            Some(child) => Some(
                Box::new(NoteView { user: user_after(child.user, url, content), ..*child }),
            ),
            None => None,
        },
        ..note
    }
}

/// The timeline once the bytes of `url` are known for the entry at `index`;
/// an index past the end changes nothing.
pub open spec fn timeline_after_avatar(
    notes: Seq<NoteView>,
    index: int,
    url: Seq<char>,
    content: Seq<u8>,
) -> Seq<NoteView> {
    if 0 <= index < notes.len() {
        notes.update(index, entry_after(notes[index], url, content))
    } else {
        notes
    }
}

/// The timeline after a finished download: an avatar answer fills in the
/// entry it is for, anything else changes nothing.
pub open spec fn timeline_after_response(notes: Seq<NoteView>, response: HttpMsg) -> Seq<NoteView> {
    match response {
        HttpMsg::SetAvatar(index, url, body) => timeline_after_avatar(
            notes,
            index as int,
            url@,
            bytes_contents(body),
        ),
        HttpMsg::GetAvatar(_, _) => notes,
    }
}

impl View for TimelineModel {
    type V = Seq<NoteView>;

    closed spec fn view(&self) -> Seq<NoteView> {
        self.notes@.map_values(|n: Note| n@)
    }
}

/// Fills in `avatar` when it waits for the bytes of `url`.
fn fill_avatar(avatar: &mut UserAvatar, url: &String, body: bytes::Bytes)
    ensures
        final(avatar)@ == avatar_after(old(avatar)@, url@, bytes_contents(body)),
{
    let waits_for_url = match &*avatar {
        UserAvatar::NotFetched(own) => *own == *url,
        _ => false,
    };
    if waits_for_url {
        *avatar = UserAvatar::Fetched(url.clone(), body);
    }
}

impl TimelineModel {
    /// An empty timeline.
    pub fn init_model() -> (model: TimelineModel)
        ensures
            model@ == Seq::<NoteView>::empty(),
    {
        let model = TimelineModel { notes: Vec::new() };
        assert(model@ =~= Seq::<NoteView>::empty());
        model
    }

    /// The notes of the timeline, oldest first.
    pub fn notes(&self) -> (notes: &Vec<Note>)
        ensures
            notes@.map_values(|n: Note| n@) == self@,
    {
        &self.notes
    }

    /// Handles a message: a note is added at the end, a download request is
    /// handed on to the application window, and a downloaded avatar is
    /// filled into the entry it is for.
    pub fn update(&mut self, msg: TimelineMsg) -> (parent: Option<AppMsg>)
        ensures
            match msg {
                TimelineMsg::InsertNote(note) => {
                    &&& final(self)@ == old(self)@.push(note@)
                    &&& parent is None
                },
                TimelineMsg::HttpRequest(request) => {
                    &&& final(self)@ == old(self)@
                    &&& parent == Some(AppMsg::HttpRequest(request))
                },
                TimelineMsg::HttpResponse(response) => {
                    &&& final(self)@ == timeline_after_response(old(self)@, response)
                    &&& parent is None
                },
                TimelineMsg::ConnectionError => {
                    &&& final(self)@ == old(self)@
                    &&& parent is None
                },
            },
    {
        match msg {
            TimelineMsg::InsertNote(note) => {
                self.notes.push(note);
                assert(self@ =~= old(self)@.push(note@));
                None
            },
            TimelineMsg::HttpRequest(request) => Some(AppMsg::HttpRequest(request)),
            TimelineMsg::HttpResponse(response) => {
                if let HttpMsg::SetAvatar(index, url, body) = response {
                    if index < self.notes.len() {
                        let ghost before = self.notes@;
                        let mut entry = self.notes.remove(index);
                        assert(entry == before[index as int]);
                        fill_avatar(&mut entry.user.avatar, &url, body.clone());
                        match entry.note.take() {
                            Some(child) => {
                                let mut child = *child;
                                fill_avatar(&mut child.user.avatar, &url, body);
                                entry.note = Some(Box::new(child));
                            },
                            None => {},
                        }
                        self.notes.insert(index, entry);
                        assert(self.notes@ =~= before.update(index as int, entry));
                        assert(entry@ =~= entry_after(before[index as int]@, url@, bytes_contents(body))) by {
                            reveal_with_fuel(crate::model::note::note_view, 2);
                        }
                        assert(self@ =~= old(self)@.update(index as int, entry@));
                    }
                }
                None
            },
            TimelineMsg::ConnectionError => None,
        }
    }
}

/// How the text of a note is laid out in its timeline entry.
pub enum BodyLayout {
    /// The note has no text.
    Hidden,
    /// The text is shown as it is.
    Plain(String),
    /// The text is folded behind its content warning: `Collapsed(warning, text)`.
    Collapsed(String, String),
}

/// The addresses of the avatars a timeline entry waits for, in the order its
/// widgets show them: the note's own, then those of the notes shown inside it.
pub open spec fn spec_avatar_urls(note: NoteView) -> Seq<Seq<char>>
    decreases note,
{
    let own = match note.user.avatar {
        AvatarView::NotFetched(url) => seq![url],
        _ => Seq::empty(),
    };
    match note.note {
        Some(child) => own + spec_avatar_urls(*child),
        None => own,
    }
}

impl Note {
    /// The addresses of the avatars this entry waits for: its own when it is
    /// not fetched yet, then those of the notes shown inside it.
    pub fn avatar_urls(&self) -> (urls: Vec<String>)
        ensures
            urls@.map_values(|u: String| u@) == spec_avatar_urls(self@),
        decreases self,
    {
        let mut urls: Vec<String> = Vec::new();
        if let UserAvatar::NotFetched(url) = &self.user.avatar {
            urls.push(url.clone());
        }
        let ghost own = urls@.map_values(|u: String| u@);
        if let Some(child) = &self.note {
            let mut rest = child.avatar_urls();
            let ghost rest_view = rest@.map_values(|u: String| u@);
            urls.append(&mut rest);
            assert(urls@.map_values(|u: String| u@) =~= own + rest_view);
        }
        assert(urls@.map_values(|u: String| u@) =~= spec_avatar_urls(self@));
        urls
    }

    /// The image bytes to show in an avatar widget that waits for `url`:
    /// those of the note's own avatar, when it was fetched from `url`.
    pub fn fetched_avatar(&self, url: &String) -> (body: Option<&bytes::Bytes>)
        ensures
            body is Some <==> (self.user.avatar@ matches AvatarView::Fetched(own, _) && own == url@),
            body matches Some(b) ==> self.user.avatar@ == AvatarView::Fetched(url@, bytes_contents(*b)),
    {
        match &self.user.avatar {
            UserAvatar::Fetched(own, body) => if *own == *url {
                Some(body)
            } else {
                None
            },
            _ => None,
        }
    }

    /// How the text of the note is laid out: not at all without text, folded
    /// behind the content warning when there is one, else shown plainly.
    pub fn body_layout(&self) -> (layout: BodyLayout)
        ensures
            match self.body {
                None => layout is Hidden,
                Some(text) => match self.cw {
                    None => layout matches BodyLayout::Plain(t) && t@ == text@,
                    Some(warning) => layout matches BodyLayout::Collapsed(w, t) && w@ == warning@
                        && t@ == text@,
                },
            },
    {
        match &self.body {
            None => BodyLayout::Hidden,
            Some(text) => match &self.cw {
                None => BodyLayout::Plain(text.clone()),
                Some(warning) => BodyLayout::Collapsed(warning.clone(), text.clone()),
            },
        }
    }
}

/// Filling in an avatar twice is filling it in once.
pub proof fn lemma_avatar_answer_idempotent(
    notes: Seq<NoteView>,
    index: int,
    url: Seq<char>,
    content: Seq<u8>,
)
    ensures
        timeline_after_avatar(timeline_after_avatar(notes, index, url, content), index, url, content)
            == timeline_after_avatar(notes, index, url, content),
{
    let once = timeline_after_avatar(notes, index, url, content);
    let twice = timeline_after_avatar(once, index, url, content);
    if 0 <= index < notes.len() {
        assert(twice[index] == once[index]);
        assert(twice =~= once);
    }
}

/// An avatar answer touches only the avatars of the entry it is for: the
/// timeline keeps its length, every other entry, and every other part of
/// that entry; an avatar already fetched, or never set, stays as it is.
pub proof fn lemma_avatar_answer_frame(notes: Seq<NoteView>, index: int, url: Seq<char>, content: Seq<u8>)
    ensures
        ({
            let after = timeline_after_avatar(notes, index, url, content);
            &&& after.len() == notes.len()
            &&& forall|j: int| 0 <= j < notes.len() && j != index ==> #[trigger] after[j] == notes[j]
            &&& 0 <= index < notes.len() ==> {
                &&& after[index].kind == notes[index].kind
                &&& after[index].cw == notes[index].cw
                &&& after[index].body == notes[index].body
                &&& after[index].files == notes[index].files
                &&& after[index].user.display_name == notes[index].user.display_name
                &&& after[index].user.handle == notes[index].user.handle
                &&& after[index].note is Some == notes[index].note is Some
                &&& !(notes[index].user.avatar is NotFetched) ==> after[index].user.avatar
                    == notes[index].user.avatar
            }
        }),
{
}

/// An entry that waits for the avatar at `url` gets it from the answer
/// that the avatar cache gives for that entry and address.
pub proof fn lemma_avatar_round_trip(
    notes: Seq<NoteView>,
    index: usize,
    url: Seq<char>,
    answer: AppMsg,
    content: Seq<u8>,
)
    requires
        index < notes.len(),
        notes[index as int].user.avatar == AvatarView::NotFetched(url),
        is_avatar_answer(answer, index, url, content),
    ensures
        answer matches AppMsg::HttpResponse(response) && timeline_after_response(
            notes,
            response,
        )[index as int].user.avatar == AvatarView::Fetched(url, content),
{
}

/// An avatar answer fills in every avatar of its entry that waits for its
/// address, the entry's own and that of the note shown inside it, each on
/// its own: whatever the state of the other, a waiting avatar becomes
/// fetched with the answer's bytes, and an avatar that does not wait for
/// that address stays as it is.
pub proof fn lemma_avatar_answer_fills_each(
    notes: Seq<NoteView>,
    index: int,
    url: Seq<char>,
    content: Seq<u8>,
)
    requires
        0 <= index < notes.len(),
    ensures
        ({
            let before = notes[index];
            let after = timeline_after_avatar(notes, index, url, content)[index];
            &&& before.user.avatar == AvatarView::NotFetched(url) ==> after.user.avatar
                == AvatarView::Fetched(url, content)
            &&& before.user.avatar != AvatarView::NotFetched(url) ==> after.user.avatar
                == before.user.avatar
            &&& after.note is Some <==> before.note is Some
            &&& before.note is Some ==> {
                let inner_before = before.note->0;
                let inner_after = after.note->0;
                &&& inner_before.user.avatar == AvatarView::NotFetched(url) ==> inner_after.user.avatar
                    == AvatarView::Fetched(url, content)
                &&& inner_before.user.avatar != AvatarView::NotFetched(url) ==> inner_after.user.avatar
                    == inner_before.user.avatar
                &&& inner_after.cw == inner_before.cw
                &&& inner_after.body == inner_before.body
                &&& inner_after.kind == inner_before.kind
                &&& inner_after.note == inner_before.note
            }
        }),
{
}

/// The avatars an entry asks for are its own, when it waits for it, first,
/// then every one the note shown inside it waits for, whatever the kind of
/// the entry.
pub proof fn lemma_avatar_urls_cover(note: NoteView)
    ensures
        note.user.avatar is NotFetched ==> spec_avatar_urls(note).len() > 0
            && spec_avatar_urls(note)[0] == note.user.avatar->NotFetched_0,
        note.user.avatar is NotFetched ==> spec_avatar_urls(note).contains(
            note.user.avatar->NotFetched_0,
        ),
        note.note is Some && note.note->0.user.avatar is NotFetched ==> spec_avatar_urls(
            note,
        ).contains(note.note->0.user.avatar->NotFetched_0),
        note.note is Some ==> spec_avatar_urls(note) == (if note.user.avatar is NotFetched {
            seq![note.user.avatar->NotFetched_0]
        } else {
            Seq::empty()
        }) + spec_avatar_urls(*note.note->0),
        note.note is None && !(note.user.avatar is NotFetched) ==> spec_avatar_urls(note).len()
            == 0,
{
    reveal_with_fuel(spec_avatar_urls, 2);
    if note.note is Some {
        let child = *note.note->0;
        let own: Seq<Seq<char>> = if note.user.avatar is NotFetched {
            seq![note.user.avatar->NotFetched_0]
        } else {
            Seq::empty()
        };
        assert(spec_avatar_urls(note) == own + spec_avatar_urls(child));
        if child.user.avatar is NotFetched {
            let u = child.user.avatar->NotFetched_0;
            assert(spec_avatar_urls(child)[0] == u);
            assert(spec_avatar_urls(note)[own.len() as int] == u);
        }
        if note.user.avatar is NotFetched {
            assert(spec_avatar_urls(note)[0] == note.user.avatar->NotFetched_0);
        }
    } else if note.user.avatar is NotFetched {
        assert(spec_avatar_urls(note)[0] == note.user.avatar->NotFetched_0);
    }
}

/// The label shown in the corner of a timeline entry for a note of this
/// kind; replies are labelled as renotes.
pub fn note_type_label(kind: NoteKind) -> (label: &'static str)
    ensures
        kind == NoteKind::Note ==> label@ == "note"@,
        kind != NoteKind::Note ==> label@ == "renote"@,
{
    match kind {
        NoteKind::Note => "note",
        NoteKind::Renote => "renote",
        NoteKind::Reply => "renote",
    }
}

} // verus!
