//! Users as the timeline shows them, and how they are read from the server.
use vstd::prelude::*;

use crate::payload::{bytes_contents, bytes_from_vec};
use crate::INSTANCE;

verus! {

/// What the server reports about a user, as far as the client reads it.
#[derive(Debug, Clone)]
pub struct ApiUser {
    pub username: String,
    pub name: Option<String>,
    pub host: Option<String>,
    pub avatar_url: Option<String>,
}

/// The characters of an optional string.
pub open spec fn opt_str_view(o: Option<String>) -> Option<Seq<char>> {
    match o {
        Some(s) => Some(s@),
        None => None,
    }
}

/// A user of the timeline.
#[derive(Debug, Clone)]
pub struct User {
    pub display_name: String,
    pub handle: UserHandle,
    pub avatar: UserAvatar,
}

/// A user's handle: the user name and the instance the account lives on.
#[derive(Debug, Clone)]
pub enum UserHandle {
    Local(String, String),
    Remote(String, String),
}

/// The abstract value of a handle.
pub enum HandleView {
    Local(Seq<char>, Seq<char>),
    Remote(Seq<char>, Seq<char>),
}

impl HandleView {
    pub open spec fn name(self) -> Seq<char> {
        match self {
            HandleView::Local(name, _) => name,
            HandleView::Remote(name, _) => name,
        }
    }

    pub open spec fn instance(self) -> Seq<char> {
        match self {
            HandleView::Local(_, instance) => instance,
            HandleView::Remote(_, instance) => instance,
        }
    }

    /// The text a handle is displayed as: `name@instance`.
    pub open spec fn text(self) -> Seq<char> {
        self.name() + "@"@ + self.instance()
    }
}

impl View for UserHandle {
    type V = HandleView;

    open spec fn view(&self) -> HandleView {
        match self {
            UserHandle::Local(name, instance) => HandleView::Local(name@, instance@),
            UserHandle::Remote(name, instance) => HandleView::Remote(name@, instance@),
        }
    }
}

/// A user's avatar: none, known by its address only, or fetched with its
/// image bytes.
#[derive(Debug, Clone)]
pub enum UserAvatar {
    NotSet,
    Fetched(String, bytes::Bytes),
    NotFetched(String),
}

/// The abstract value of an avatar.
pub enum AvatarView {
    NotSet,
    Fetched(Seq<char>, Seq<u8>),
    NotFetched(Seq<char>),
}

impl View for UserAvatar {
    type V = AvatarView;

    open spec fn view(&self) -> AvatarView {
        match self {
            UserAvatar::NotSet => AvatarView::NotSet,
            UserAvatar::Fetched(url, body) => AvatarView::Fetched(url@, bytes_contents(*body)),
            UserAvatar::NotFetched(url) => AvatarView::NotFetched(url@),
        }
    }
}

/// The abstract value of a user.
pub struct UserView {
    pub display_name: Seq<char>,
    pub handle: HandleView,
    pub avatar: AvatarView,
}

impl View for User {
    type V = UserView;

    open spec fn view(&self) -> UserView {
        UserView {
            display_name: self.display_name@,
            handle: self.handle@,
            avatar: self.avatar@,
        }
    }
}

/// The name shown for a user: the display name it chose, else `unnamed`.
pub open spec fn spec_display_name(api: ApiUser) -> Seq<char> {
    match api.name {
        Some(name) => name@,
        None => "unnamed"@,
    }
}

/// A user without a host, or whose host is this client's instance, is local
/// to the instance; any other user is remote on its host.
pub open spec fn spec_user_handle(api: ApiUser) -> HandleView {
    match api.host {
        Some(host) => if host@ == INSTANCE@ {
            HandleView::Local(api.username@, INSTANCE@)
        } else {
            HandleView::Remote(api.username@, host@)
        },
        None => HandleView::Local(api.username@, INSTANCE@),
    }
}

/// A user with an avatar address has an avatar still to fetch.
pub open spec fn spec_user_avatar(api: ApiUser) -> AvatarView {
    match api.avatar_url {
        Some(url) => AvatarView::NotFetched(url@),
        None => AvatarView::NotSet,
    }
}

pub open spec fn spec_import_user(api: ApiUser) -> UserView {
    UserView {
        display_name: spec_display_name(api),
        handle: spec_user_handle(api),
        avatar: spec_user_avatar(api),
    }
}

/// A user's handle reads `username@host`, with this client's instance as
/// the host of users the server reports without one; it is local exactly
/// when that host is this client's instance.
pub proof fn lemma_handle_text(api: ApiUser)
    ensures
        ({
            let host = match api.host {
                Some(host) => host@,
                None => INSTANCE@,
            };
            &&& spec_user_handle(api).text() == api.username@ + "@"@ + host
            &&& (spec_user_handle(api) is Local <==> host == INSTANCE@)
        }),
{
}

/// A user keeps the display name it chose, whoever hosts it; only a user
/// without one is shown as `unnamed`.
pub proof fn lemma_display_name_kept(api: ApiUser)
    ensures
        api.name is Some ==> spec_import_user(api).display_name == api.name->0@,
        api.name is None ==> spec_import_user(api).display_name == "unnamed"@,
{
}

/// A user with an avatar address, wherever it is hosted, has that avatar
/// still to fetch; a user without one has no avatar.
pub proof fn lemma_avatar_address_kept(api: ApiUser)
    ensures
        api.avatar_url is Some <==> spec_import_user(api).avatar is NotFetched,
        api.avatar_url is Some ==> spec_import_user(api).avatar == AvatarView::NotFetched(
            api.avatar_url->0@,
        ),
        api.avatar_url is None ==> spec_import_user(api).avatar == AvatarView::NotSet,
{
}

/// Reads a user as the timeline shows it.
pub fn import_user(api_user: &ApiUser) -> (user: User)
    ensures
        user@ == spec_import_user(*api_user),
        api_user.name is Some ==> user.display_name@ == api_user.name->0@,
        api_user.name is None ==> user.display_name@ == "unnamed"@,
        api_user.avatar_url is Some ==> user.avatar@ == AvatarView::NotFetched(api_user.avatar_url->0@),
        api_user.avatar_url is None ==> user.avatar@ == AvatarView::NotSet,
{
    let display_name = match &api_user.name {
        Some(display_name) => display_name.clone(),
        None => String::from_str("unnamed"),
    };

    let handle = import_user_handle(api_user);
    let avatar = import_user_avatar(api_user);

    User { avatar, display_name, handle }
}

/// Reads a user's handle.
pub fn import_user_handle(api_user: &ApiUser) -> (handle: UserHandle)
    ensures
        handle@ == spec_user_handle(*api_user),
{
    let instance = String::from_str(INSTANCE);
    match &api_user.host {
        Some(host) => {
            if *host == instance {
                UserHandle::Local(api_user.username.clone(), instance)
            } else {
                UserHandle::Remote(api_user.username.clone(), host.clone())
            }
        },
        None => UserHandle::Local(api_user.username.clone(), instance),
    }
}

/// Reads a user's avatar: its address, not fetched yet, when the user has one.
pub fn import_user_avatar(api_user: &ApiUser) -> (avatar: UserAvatar)
    ensures
        avatar@ == spec_user_avatar(*api_user),
        api_user.avatar_url is Some ==> avatar@ == AvatarView::NotFetched(api_user.avatar_url->0@),
        api_user.avatar_url is None ==> avatar@ == AvatarView::NotSet,
{
    match &api_user.avatar_url {
        Some(url) => UserAvatar::NotFetched(url.clone()),
        None => UserAvatar::NotSet,
    }
}

impl UserHandle {
    /// The handle as text, `name@instance`.
    pub fn to_string(&self) -> (text: String)
        ensures
            text@ == self@.text(),
    {
        match self {
            UserHandle::Local(name, instance) | UserHandle::Remote(name, instance) => {
                let mut text = name.clone();
                text.append("@");
                text.append(instance.as_str());
                text
            },
        }
    }
}

impl UserAvatar {
    /// The avatar at `url` once its download is over: fetched with the bytes
    /// of the body when one was read, not set when the request or the read
    /// of its body failed.
    pub fn from_response(url: String, body: Option<Vec<u8>>) -> (avatar: UserAvatar)
        ensures
            avatar@ == (match body {
                Some(body) => AvatarView::Fetched(url@, body@),
                None => AvatarView::NotSet,
            }),
    {
        match body {
            Some(body) => UserAvatar::Fetched(url, bytes_from_vec(body)),
            None => UserAvatar::NotSet,
        }
    }
}

} // verus!
