//! Avatar downloads: the messages that ask for them and answer them, and
//! the cache of downloaded avatars that decides when to download.
use vstd::prelude::*;

use crate::gui::AppMsg;
use crate::payload::bytes_contents;

verus! {

/// Requests and answers of the avatar downloader.
pub enum HttpMsg {
    /// Fetch the avatar at this address for the timeline entry at this position.
    GetAvatar(usize, String),
    /// The avatar at this address, for the entry at this position, has these bytes.
    SetAvatar(usize, String, bytes::Bytes),
}

/// The bytes of an optional buffer.
pub open spec fn opt_bytes_view(o: Option<bytes::Bytes>) -> Option<Seq<u8>> {
    match o {
        Some(b) => Some(bytes_contents(b)),
        None => None,
    }
}

/// `msg` answers that the avatar at `url`, for the entry at `index`, has
/// the bytes `content`.
pub open spec fn is_avatar_answer(msg: AppMsg, index: usize, url: Seq<char>, content: Seq<u8>) -> bool {
    msg matches AppMsg::HttpResponse(HttpMsg::SetAvatar(i, u, b)) && i == index && u@ == url
        && bytes_contents(b) == content
}

/// The answer the cache gives for `url`: the cached bytes when a download of
/// `url` succeeded, none when it failed or was never made.
pub open spec fn answers_from(
    reply: Option<AppMsg>,
    cache: Map<Seq<char>, Option<Seq<u8>>>,
    index: usize,
    url: Seq<char>,
) -> bool {
    if cache.contains_key(url) && cache[url] is Some {
        reply matches Some(msg) && is_avatar_answer(msg, index, url, cache[url]->0)
    } else {
        reply is None
    }
}

/// Once a download of `url` succeeded, every request for `url` is answered
/// with its bytes; once it failed, no request for `url` is answered.
pub proof fn lemma_answer_after_download(
    cache: Map<Seq<char>, Option<Seq<u8>>>,
    index: usize,
    url: Seq<char>,
    outcome: Option<Seq<u8>>,
    reply: Option<AppMsg>,
)
    requires
        answers_from(reply, cache.insert(url, outcome), index, url),
    ensures
        outcome matches Some(content) ==> reply matches Some(msg) && is_avatar_answer(
            msg,
            index,
            url,
            content,
        ),
        outcome is None ==> reply is None,
{
}

/// Downloaded avatars by address; a failed download is kept as `None`, so
/// that it is not tried again.
pub struct AvatarCache {
    entries: Vec<(String, Option<bytes::Bytes>)>,
}

/// What to do about a request for an avatar.
pub enum AvatarStep {
    /// Download the avatar at this address for the entry at this position,
    /// then hand the result to `AvatarCache::complete`.
    Fetch(usize, String),
    /// Send this answer to the application window.
    Reply(AppMsg),
    /// Nothing to do.
    Done,
}

impl AvatarCache {
    /// No address occurs twice.
    #[verifier::type_invariant]
    closed spec fn keys_unique(self) -> bool {
        forall|i: int, j: int|
            0 <= i < j < self.entries@.len() ==> #[trigger] self.entries@[i].0@
                != #[trigger] self.entries@[j].0@
    }

    closed spec fn has_key_at(self, url: Seq<char>, i: int) -> bool {
        0 <= i < self.entries@.len() && self.entries@[i].0@ == url
    }
}

impl View for AvatarCache {
    type V = Map<Seq<char>, Option<Seq<u8>>>;

    closed spec fn view(&self) -> Map<Seq<char>, Option<Seq<u8>>> {
        Map::new(
            |url: Seq<char>| exists|i: int| self.has_key_at(url, i),
            |url: Seq<char>| opt_bytes_view(self.entries@[choose|i: int| self.has_key_at(url, i)].1),
        )
    }
}

impl AvatarCache {
    /// Where `url` stands in a cache whose addresses are unique, the view
    /// holds the entry found there.
    proof fn lemma_entry_at(self, url: Seq<char>, i: int)
        requires
            self.keys_unique(),
            self.has_key_at(url, i),
        ensures
            self@.contains_key(url),
            self@[url] == opt_bytes_view(self.entries@[i].1),
    {
        let c = choose|k: int| self.has_key_at(url, k);
        assert(self.has_key_at(url, c));
        if c < i {
            assert(self.entries@[c].0@ != self.entries@[i].0@);
        } else if i < c {
            assert(self.entries@[i].0@ != self.entries@[c].0@);
        }
    }

    /// An empty cache.
    pub fn new() -> (cache: AvatarCache)
        ensures
            cache@ == Map::<Seq<char>, Option<Seq<u8>>>::empty(),
    {
        let cache = AvatarCache { entries: Vec::new() };
        assert(cache@ =~= Map::<Seq<char>, Option<Seq<u8>>>::empty());
        cache
    }

    /// The position of `url` among the entries, if it is there.
    fn find(&self, url: &String) -> (found: Option<usize>)
        ensures
            found matches Some(i) ==> self.has_key_at(url@, i as int),
            found is None ==> forall|i: int| !self.has_key_at(url@, i),
    {
        let mut i: usize = 0;
        while i < self.entries.len()
            invariant
                i <= self.entries@.len(),
                forall|k: int| 0 <= k < i ==> !self.has_key_at(url@, k),
            decreases self.entries@.len() - i,
        {
            if self.entries[i].0 == *url {
                return Some(i);
            }
            i = i + 1;
        }
        None
    }

    /// The cached result for `url`: `None` when `url` was never downloaded.
    pub fn get(&self, url: &String) -> (cached: Option<&Option<bytes::Bytes>>)
        ensures
            cached is Some <==> self@.contains_key(url@),
            cached matches Some(body) ==> opt_bytes_view(*body) == self@[url@],
    {
        proof {
            use_type_invariant(self);
        }
        match self.find(url) {
            Some(i) => {
                proof {
                    self.lemma_entry_at(url@, i as int);
                }
                Some(&self.entries[i].1)
            },
            None => None,
        }
    }

    /// Records the result of downloading `url`, replacing an earlier one.
    pub fn insert(&mut self, url: String, body: Option<bytes::Bytes>)
        ensures
            final(self)@ == old(self)@.insert(url@, opt_bytes_view(body)),
    {
        proof {
            use_type_invariant(&*self);
        }
        let ghost old_cache = *self;
        let found = self.find(&url);
        let mut entries = Vec::new();
        std::mem::swap(&mut entries, &mut self.entries);
        let ghost url_view = url@;
        let ghost value = opt_bytes_view(body);
        let ghost before = entries@;
        match found {
            Some(i) => {
                entries.remove(i);
                entries.insert(i, (url, body));
                assert(entries@ =~= before.update(i as int, (url, body)));
                assert forall|a: int, b: int| 0 <= a < b < entries@.len() implies #[trigger] entries@[a].0@
                    != #[trigger] entries@[b].0@ by {
                    assert(before[a].0@ != before[b].0@);
                }
            },
            None => {
                entries.push((url, body));
                assert forall|a: int, b: int| 0 <= a < b < entries@.len() implies #[trigger] entries@[a].0@
                    != #[trigger] entries@[b].0@ by {
                    if b < before.len() {
                        assert(before[a].0@ != before[b].0@);
                    } else {
                        assert(!old_cache.has_key_at(url_view, a));
                    }
                }
            },
        }
        self.entries = entries;
        proof {
            let new_cache = *self;
            assert(new_cache.keys_unique());
            assert forall|k: Seq<char>| #[trigger] new_cache@.contains_key(k) == old_cache@.insert(url_view, value).contains_key(k) by {
                if k == url_view {
                    match found {
                        Some(i) => assert(new_cache.has_key_at(k, i as int)),
                        None => assert(new_cache.has_key_at(k, old_cache.entries@.len() as int)),
                    }
                } else if new_cache@.contains_key(k) {
                    let j = choose|j: int| new_cache.has_key_at(k, j);
                    assert(old_cache.has_key_at(k, j));
                } else if old_cache@.contains_key(k) {
                    let j = choose|j: int| old_cache.has_key_at(k, j);
                    assert(new_cache.has_key_at(k, j));
                }
            }
            assert forall|k: Seq<char>| #[trigger] new_cache@.contains_key(k) implies new_cache@[k] == old_cache@.insert(url_view, value)[k] by {
                if k == url_view {
                    match found {
                        Some(i) => new_cache.lemma_entry_at(k, i as int),
                        None => new_cache.lemma_entry_at(k, old_cache.entries@.len() as int),
                    }
                } else {
                    let j = choose|j: int| new_cache.has_key_at(k, j);
                    new_cache.lemma_entry_at(k, j);
                    old_cache.lemma_entry_at(k, j);
                }
            }
            assert(new_cache@ =~= old_cache@.insert(url_view, value));
        }
    }

    /// The answer for the entry at `index` from what the cache holds for
    /// `url`: the bytes when they were downloaded, nothing otherwise.
    fn answer(&self, index: usize, url: String) -> (reply: Option<AppMsg>)
        ensures
            answers_from(reply, self@, index, url@),
    {
        match self.get(&url) {
            Some(Some(body)) => Some(AppMsg::HttpResponse(HttpMsg::SetAvatar(index, url, body.clone()))),
            _ => None,
        }
    }

    /// Handles a message: a request for an avatar whose address was never
    /// downloaded asks for the download; one whose download succeeded is
    /// answered from the cache; one whose download failed, and any answer,
    /// need nothing.
    pub fn update(&self, msg: HttpMsg) -> (step: AvatarStep)
        ensures
            match msg {
                HttpMsg::GetAvatar(index, url) => if !self@.contains_key(url@) {
                    step == AvatarStep::Fetch(index, url)
                } else if self@[url@] is Some {
                    step matches AvatarStep::Reply(msg) && is_avatar_answer(msg, index, url@, self@[url@]->0)
                } else {
                    step is Done
                },
                HttpMsg::SetAvatar(_, _, _) => step is Done,
            },
    {
        match msg {
            HttpMsg::GetAvatar(index, url) => {
                if self.get(&url).is_none() {
                    AvatarStep::Fetch(index, url)
                } else {
                    match self.answer(index, url) {
                        Some(reply) => AvatarStep::Reply(reply),
                        None => AvatarStep::Done,
                    }
                }
            },
            HttpMsg::SetAvatar(_, _, _) => AvatarStep::Done,
        }
    }

    /// Records the outcome of downloading `url` for the entry at `index`
    /// (`None` when the download failed) and answers from the cache.
    pub fn complete(&mut self, index: usize, url: String, body: Option<bytes::Bytes>) -> (reply: Option<AppMsg>)
        ensures
            final(self)@ == old(self)@.insert(url@, opt_bytes_view(body)),
            answers_from(reply, final(self)@, index, url@),
    {
        self.insert(url.clone(), body);
        self.answer(index, url)
    }
}

} // verus!
