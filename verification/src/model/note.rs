//! Notes as the timeline shows them, and how they are read from the server.
use vstd::prelude::*;

use crate::model::user::{
    import_user, opt_str_view, spec_import_user, ApiUser, User, UserAvatar, UserHandle, UserView,
};

verus! {

/// What the server reports about a note, as far as the client reads it.
#[derive(Debug)]
pub struct ApiNote {
    pub user: ApiUser,
    pub text: Option<String>,
    pub cw: Option<String>,
    pub reply: Option<Box<ApiNote>>,
    pub renote: Option<Box<ApiNote>>,
}

/// A note of the timeline, with the note it quotes or answers when the
/// timeline shows that one too.
#[derive(Debug)]
pub struct Note {
    pub kind: NoteKind,
    pub user: User,
    pub cw: Option<String>,
    pub body: Option<String>,
    pub files: Vec<NoteFile>,
    pub note: Option<Box<Note>>,
}

/// A file attached to a note.
#[derive(Debug, Clone)]
pub struct NoteFile {}

/// How a note relates to the notes it refers to.
#[derive(Debug, Clone, Copy, PartialEq, Eq, Structural)]
pub enum NoteKind {
    Note,
    Renote,
    Reply,
}

/// The abstract value of a note.
pub struct NoteView {
    pub kind: NoteKind,
    pub user: UserView,
    pub cw: Option<Seq<char>>,
    pub body: Option<Seq<char>>,
    pub files: Seq<NoteFile>,
    pub note: Option<Box<NoteView>>,
}

pub open spec fn note_view(n: Note) -> NoteView
    decreases n,
{
    NoteView {
        kind: n.kind,
        user: n.user@,
        cw: opt_str_view(n.cw),
        body: opt_str_view(n.body),
        files: n.files@,
        note: match n.note {
            Some(child) => Some(Box::new(note_view(*child))),
            None => None,
        },
    }
}

impl View for Note {
    type V = NoteView;

    open spec fn view(&self) -> NoteView {
        note_view(*self)
    }
}

/// A note without content warning and text that carries only a renote is a
/// renote; one with text that carries a renote or a reply (not both) is a
/// reply; any other is a plain note.
pub open spec fn spec_note_kind(api: ApiNote) -> NoteKind {
    if api.cw is None && api.text is None && api.reply is None && api.renote is Some {
        NoteKind::Renote
    } else if api.text is Some && api.reply is None && api.renote is Some {
        NoteKind::Reply
    } else if api.text is Some && api.reply is Some && api.renote is None {
        NoteKind::Reply
    } else {
        NoteKind::Note
    }
}

/// The note that a note refers to, when it refers to exactly one.
pub open spec fn spec_referred_note(api: ApiNote) -> Option<ApiNote> {
    match (api.reply, api.renote) {
        (Some(reply), None) => Some(*reply),
        (None, Some(renote)) => Some(*renote),
        _ => None,
    }
}

/// The note that `import_note` reads from `api`: the note it refers to is
/// read too (without what that one refers to) when `recurse` holds.
pub open spec fn spec_import_note(api: ApiNote, recurse: bool) -> NoteView
    decreases (if recurse { 1int } else { 0int }),
{
    NoteView {
        kind: spec_note_kind(api),
        user: spec_import_user(api.user),
        cw: opt_str_view(api.cw),
        body: opt_str_view(api.text),
        files: Seq::empty(),
        note: if recurse {
            match spec_referred_note(api) {
                Some(child) => Some(Box::new(spec_import_note(child, false))),
                None => None,
            }
        } else {
            None
        },
    }
}

/// Reads a note as the timeline shows it; with `recurse`, the note it refers
/// to is read as well, one level deep.
pub fn import_note(api_note: ApiNote, recurse: bool) -> (note: Note)
    ensures
        note@ == spec_import_note(api_note, recurse),
    decreases (if recurse { 1int } else { 0int }),
{
    let user = import_user(&api_note.user);

    let kind = match (&api_note.cw, &api_note.text, &api_note.reply, &api_note.renote) {
        (None, None, None, Some(_)) => NoteKind::Renote,
        (_, Some(_), None, Some(_)) => NoteKind::Reply,
        (_, Some(_), Some(_), None) => NoteKind::Reply,
        _ => NoteKind::Note,
    };

    // Only import child notes when the parent isn't a regular note
    let note = if recurse {
        match (api_note.reply, api_note.renote) {
            (Some(reply), None) => Some(Box::new(import_note(*reply, false))),
            (None, Some(renote)) => Some(Box::new(import_note(*renote, false))),
            _ => None,
        }
    } else {
        None
    };

    let cw = api_note.cw;
    let body = api_note.text;
    let files = Vec::new();

    Note { kind, user, cw, body, files, note }
}

fn copy_opt_string(o: &Option<String>) -> (c: Option<String>)
    ensures
        opt_str_view(c) == opt_str_view(*o),
{
    match o {
        Some(s) => Some(s.clone()),
        None => None,
    }
}

fn copy_user(user: &User) -> (c: User)
    ensures
        c@ == user@,
{
    let handle = match &user.handle {
        UserHandle::Local(name, instance) => UserHandle::Local(name.clone(), instance.clone()),
        UserHandle::Remote(name, instance) => UserHandle::Remote(name.clone(), instance.clone()),
    };
    let avatar = match &user.avatar {
        UserAvatar::NotSet => UserAvatar::NotSet,
        UserAvatar::Fetched(url, body) => UserAvatar::Fetched(url.clone(), body.clone()),
        UserAvatar::NotFetched(url) => UserAvatar::NotFetched(url.clone()),
    };
    User { display_name: user.display_name.clone(), handle, avatar }
}

impl Note {
    /// A copy of the note, with copies of the notes shown inside it.
    pub fn duplicate(&self) -> (copy: Note)
        ensures
            copy@ == self@,
        decreases self,
    {
        let mut files: Vec<NoteFile> = Vec::new();
        let mut i: usize = 0;
        while i < self.files.len()
            invariant
                i <= self.files@.len(),
                files@.len() == i,
            decreases self.files@.len() - i,
        {
            files.push(NoteFile {});
            i = i + 1;
        }
        assert(files@ =~= self.files@);
        let note = match &self.note {
            Some(child) => Some(Box::new(child.duplicate())),
            None => None,
        };
        Note {
            kind: self.kind,
            user: copy_user(&self.user),
            cw: copy_opt_string(&self.cw),
            body: copy_opt_string(&self.body),
            files,
            note,
        }
    }
}

/// A note read from the server keeps its content warning, its text and its
/// user's name and avatar address, and so does the note it refers to: that
/// one is read, with `recurse`, exactly when the note refers to a single
/// other note.
pub proof fn lemma_import_keeps_contents(api: ApiNote, recurse: bool)
    ensures
        ({
            let note = spec_import_note(api, recurse);
            &&& note.cw == opt_str_view(api.cw)
            &&& note.body == opt_str_view(api.text)
            &&& note.user.avatar == spec_import_user(api.user).avatar
            &&& note.files.len() == 0
            &&& note.note is Some <==> (recurse && (api.reply is Some != api.renote is Some))
            &&& (recurse && api.reply is Some && api.renote is None) ==> {
                let child = note.note->0;
                let from = *api.reply->0;
                &&& child.cw == opt_str_view(from.cw)
                &&& child.body == opt_str_view(from.text)
                &&& child.user == spec_import_user(from.user)
                &&& child.note is None
            }
            &&& (recurse && api.reply is None && api.renote is Some) ==> {
                let child = note.note->0;
                let from = *api.renote->0;
                &&& child.cw == opt_str_view(from.cw)
                &&& child.body == opt_str_view(from.text)
                &&& child.user == spec_import_user(from.user)
                &&& child.note is None
            }
        }),
{
    reveal_with_fuel(spec_import_note, 2);
}

/// A note read from the server goes at most one level deep: the note it
/// refers to never carries one in turn.
pub proof fn lemma_imported_child_is_leaf(api: ApiNote, recurse: bool)
    ensures
        spec_import_note(api, recurse).note matches Some(child) ==> child.note is None,
        !recurse ==> spec_import_note(api, recurse).note is None,
{
    reveal_with_fuel(spec_import_note, 2);
}

/// A renote or a reply read with `recurse` always carries the note it
/// refers to.
pub proof fn lemma_marked_note_carries_child(api: ApiNote)
    ensures
        spec_note_kind(api) != NoteKind::Note ==> spec_import_note(api, true).note is Some,
{
}

/// For a note with text, the note it refers to is read exactly when the note
/// is not a regular note.
pub proof fn lemma_child_iff_not_regular(api: ApiNote)
    requires
        api.text is Some,
    ensures
        spec_import_note(api, true).note is Some <==> spec_note_kind(api) != NoteKind::Note,
{
}

} // verus!
