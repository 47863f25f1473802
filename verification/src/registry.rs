//! The registry: the sessions that are being served, each under an
//! identifier of its own.
//!
//! It is kept small on purpose. It registers a session, hands an event to one of
//! them, tells how many there are, and lets a closed session go. What one
//! session does never touches another.

use vstd::prelude::*;
use crate::hub::{source_of, Hub};
use crate::frame::FrameView;
use crate::message::rendered_line;
use crate::session::{
    opened, step, Handled, Phase, ReactionView, Session, SessionEvent, SessionEventView,
    SessionView,
};
use tokio::sync::broadcast::Receiver;

verus! {

struct Entry {
    id: u64,
    session: Session,
}

spec fn ids(entries: Seq<Entry>) -> Seq<u64> {
    entries.map_values(|entry: Entry| entry.id)
}

spec fn model(entries: Seq<Entry>) -> Map<u64, SessionView> {
    Map::new(
        |id: u64| ids(entries).contains(id),
        |id: u64| entries[ids(entries).index_of(id)].session@,
    )
}

proof fn lemma_model_at(entries: Seq<Entry>, i: int)
    requires
        ids(entries).no_duplicates(),
        0 <= i < entries.len(),
    ensures
        model(entries).contains_key(entries[i].id),
        model(entries)[entries[i].id] == entries[i].session@,
{
    let all = ids(entries);
    assert(all[i] == entries[i].id);
    let found = all.index_of(entries[i].id);
    assert(0 <= found < all.len() && all[found] == entries[i].id);
    assert(found == i);
}

proof fn lemma_model_absent(entries: Seq<Entry>, id: u64)
    requires
        forall|i: int| 0 <= i < entries.len() ==> (#[trigger] entries[i]).id != id,
    ensures
        !model(entries).contains_key(id),
{
    let all = ids(entries);
    if all.contains(id) {
        let i = choose|i: int| 0 <= i < all.len() && all[i] == id;
        assert(entries[i].id == id);
    }
}

proof fn lemma_model_counts(entries: Seq<Entry>)
    requires
        ids(entries).no_duplicates(),
    ensures
        model(entries).dom().finite(),
        model(entries).dom().len() == entries.len(),
{
    let all = ids(entries);
    assert(model(entries).dom() =~= all.to_set());
    vstd::seq_lib::seq_to_set_is_finite(all);
    all.unique_seq_to_set();
}

proof fn lemma_model_push(before: Seq<Entry>, entry: Entry)
    requires
        ids(before).no_duplicates(),
        forall|i: int| 0 <= i < before.len() ==> (#[trigger] before[i]).id < entry.id,
    ensures
        ids(before.push(entry)).no_duplicates(),
        !model(before).contains_key(entry.id),
        model(before.push(entry)) == model(before).insert(entry.id, entry.session@),
{
    let after = before.push(entry);
    let expected = model(before).insert(entry.id, entry.session@);
    lemma_model_absent(before, entry.id);
    assert(ids(after) =~= ids(before).push(entry.id));
    assert forall|a: int, b: int|
        0 <= a < after.len() && 0 <= b < after.len() && a != b implies ids(after)[a] != ids(
        after,
    )[b] by {
        if a < before.len() {
            assert(before[a].id < entry.id);
        }
        if b < before.len() {
            assert(before[b].id < entry.id);
        }
    }
    assert forall|key: u64| #[trigger] model(after).contains_key(key) <==> expected.contains_key(
        key,
    ) by {
        if ids(before).contains(key) {
            let i = choose|i: int| 0 <= i < ids(before).len() && ids(before)[i] == key;
            assert(ids(after)[i] == key);
        }
        assert(ids(after)[before.len() as int] == entry.id);
    }
    assert forall|key: u64| #[trigger] model(after).contains_key(key) implies model(after)[key]
        == expected[key] by {
        let i = ids(after).index_of(key);
        lemma_model_at(after, i);
        if i < before.len() {
            assert(before[i] == after[i]);
            lemma_model_at(before, i);
        }
    }
    assert(model(after) =~= expected);
}

proof fn lemma_model_update(before: Seq<Entry>, i: int, entry: Entry)
    requires
        ids(before).no_duplicates(),
        0 <= i < before.len(),
        entry.id == before[i].id,
    ensures
        ids(before.update(i, entry)) == ids(before),
        model(before.update(i, entry)) == model(before).insert(entry.id, entry.session@),
{
    let after = before.update(i, entry);
    let expected = model(before).insert(entry.id, entry.session@);
    assert(ids(after) =~= ids(before));
    assert(ids(before)[i] == entry.id);
    assert forall|key: u64| #[trigger] model(after).contains_key(key) implies model(after)[key]
        == expected[key] by {
        let k = ids(after).index_of(key);
        assert(ids(after)[k] == key && ids(before)[k] == key);
        lemma_model_at(after, k);
        lemma_model_at(before, k);
    }
    assert(model(after) =~= expected);
}

proof fn lemma_model_remove(before: Seq<Entry>, i: int)
    requires
        ids(before).no_duplicates(),
        0 <= i < before.len(),
    ensures
        ids(before.remove(i)).no_duplicates(),
        model(before.remove(i)) == model(before).remove(before[i].id),
{
    let after = before.remove(i);
    let id = before[i].id;
    let expected = model(before).remove(id);
    assert(ids(after) =~= ids(before).remove(i));
    assert(ids(before)[i] == id);
    assert forall|a: int, b: int|
        0 <= a < after.len() && 0 <= b < after.len() && a != b implies ids(after)[a] != ids(
        after,
    )[b] by {
        let a0 = if a < i { a } else { a + 1 };
        let b0 = if b < i { b } else { b + 1 };
        assert(ids(after)[a] == ids(before)[a0]);
        assert(ids(after)[b] == ids(before)[b0]);
    }
    assert forall|key: u64| #[trigger] model(after).contains_key(key) <==> expected.contains_key(
        key,
    ) by {
        if ids(after).contains(key) {
            let a = choose|a: int| 0 <= a < ids(after).len() && ids(after)[a] == key;
            let a0 = if a < i { a } else { a + 1 };
            assert(ids(before)[a0] == key);
        }
        if ids(before).contains(key) && key != id {
            let b = choose|b: int| 0 <= b < ids(before).len() && ids(before)[b] == key;
            let b1 = if b < i { b } else { b - 1 };
            assert(ids(after)[b1] == key);
        }
    }
    assert forall|key: u64| #[trigger] model(after).contains_key(key) implies model(after)[key]
        == expected[key] by {
        let a = ids(after).index_of(key);
        let a0 = if a < i { a } else { a + 1 };
        lemma_model_at(after, a);
        assert(after[a] == before[a0]);
        lemma_model_at(before, a0);
    }
    assert(model(after) =~= expected);
}

/// The sessions being served, by identifier.
pub struct Registry {
    entries: Vec<Entry>,
    next_id: u64,
}

impl View for Registry {
    type V = Map<u64, SessionView>;

    closed spec fn view(&self) -> Map<u64, SessionView> {
        model(self.entries@)
    }
}

impl Registry {
    /// No identifier is registered twice, and none that is registered can be
    /// given out again.
    #[verifier::type_invariant]
    spec fn well_formed(self) -> bool {
        &&& ids(self.entries@).no_duplicates()
        &&& forall|i: int| 0 <= i < self.entries@.len() ==> (#[trigger] self.entries@[i]).id < self.next_id
    }

    /// How many sessions were registered since the registry was made. An
    /// identifier is never given twice, so this is also the next identifier.
    pub closed spec fn registrations(&self) -> nat {
        self.next_id as nat
    }

    /// A registry without sessions.
    pub fn new() -> (registry: Registry)
        ensures
            registry@ == Map::<u64, SessionView>::empty(),
            registry.registrations() == 0,
    {
        let registry = Registry { entries: Vec::new(), next_id: 0 };
        assert(registry@ =~= Map::<u64, SessionView>::empty());
        registry
    }

    fn position(entries: &Vec<Entry>, id: u64) -> (found: Option<usize>)
        ensures
            match found {
                Some(i) => i < entries@.len() && entries@[i as int].id == id,
                None => forall|i: int| 0 <= i < entries@.len() ==> (#[trigger] entries@[i]).id != id,
            },
    {
        let mut i: usize = 0;
        while i < entries.len()
            invariant
                i <= entries@.len(),
                forall|k: int| 0 <= k < i ==> (#[trigger] entries@[k]).id != id,
            decreases entries@.len() - i,
        {
            if entries[i].id == id {
                return Some(i);
            }
            i += 1;
        }
        None
    }

    /// How many sessions are registered.
    pub fn len(&self) -> (count: usize)
        ensures
            self@.dom().finite(),
            count == self@.dom().len(),
    {
        proof {
            use_type_invariant(self);
            lemma_model_counts(self.entries@);
        }
        self.entries.len()
    }

    /// Whether a session is registered under `id`.
    pub fn contains(&self, id: u64) -> (registered: bool)
        ensures
            registered == self@.contains_key(id),
    {
        let found = Self::position(&self.entries, id);
        proof {
            use_type_invariant(self);
            match found {
                Some(i) => lemma_model_at(self.entries@, i as int),
                None => lemma_model_absent(self.entries@, id),
            }
        }
        found.is_some()
    }

    /// The phase of the session registered under `id`, if there is one.
    pub fn phase(&self, id: u64) -> (phase: Option<Phase>)
        ensures
            phase == if self@.contains_key(id) {
                Some(self@[id].phase)
            } else {
                None
            },
    {
        let found = Self::position(&self.entries, id);
        proof {
            use_type_invariant(self);
            match found {
                Some(i) => lemma_model_at(self.entries@, i as int),
                None => lemma_model_absent(self.entries@, id),
            }
        }
        match found {
            Some(i) => Some(self.entries[i].session.phase()),
            None => None,
        }
    }

    /// Whether the program should wait for a frame from the peer of the
    /// session registered under `id`: there is such a session, it is active,
    /// and its peer's sequence of frames has not ended.
    pub fn expects_frames(&self, id: u64) -> (expects: bool)
        ensures
            expects == (self@.contains_key(id) && self@[id].phase == Phase::Active
                && self@[id].peer_open),
    {
        let found = Self::position(&self.entries, id);
        proof {
            use_type_invariant(self);
            match found {
                Some(i) => lemma_model_at(self.entries@, i as int),
                None => lemma_model_absent(self.entries@, id),
            }
        }
        match found {
            Some(i) => self.entries[i].session.expects_frames(),
            None => false,
        }
    }

    /// Starts a session for the peer at `origin`, subscribed to `hub`, and
    /// registers it under an identifier that was never used before.
    ///
    /// Returns the identifier and the session's subscription to `hub`.
    /// `None`, with nothing changed, only once every identifier has been
    /// given out.
    pub fn register(&mut self, origin: String, hub: &Hub) -> (registered: Option<(u64, Receiver<String>)>)
        ensures
            registered.is_some() == (old(self).registrations() < u64::MAX),
            match registered {
                Some((id, subscription)) => {
                    &&& source_of(subscription) == hub.channel()
                    &&& id == old(self).registrations()
                    &&& !old(self)@.contains_key(id)
                    &&& final(self)@ == old(self)@.insert(id, opened(origin@))
                    &&& final(self).registrations() == old(self).registrations() + 1
                },
                None => *final(self) == *old(self),
            },
    {
        proof {
            use_type_invariant(&*self);
        }
        if self.next_id == u64::MAX {
            return None;
        }
        let id = self.next_id;
        let (session, subscription) = Session::open(origin, hub);
        let entry = Entry { id, session };
        proof {
            lemma_model_push(self.entries@, entry);
        }
        let mut entries: Vec<Entry> = Vec::new();
        core::mem::swap(&mut entries, &mut self.entries);
        entries.push(entry);
        self.next_id = id + 1;
        self.entries = entries;
        Some((id, subscription))
    }

    /// Hands `event` to the session registered under `id` and returns what
    /// came of it, as [`Session::handle`] does. Every other session stays as
    /// it was. `None`, with nothing changed, where no session is registered
    /// under `id`.
    pub fn dispatch(&mut self, id: u64, hub: &Hub, event: SessionEvent) -> (handled: Option<Handled>)
        ensures
            handled.is_some() == old(self)@.contains_key(id),
            final(self).registrations() == old(self).registrations(),
            final(self)@ == after_event(old(self)@, id, event@),
            handled matches Some(h) ==> {
                &&& h.reaction@ == step(old(self)@[id], event@).1
                &&& h.publication.is_some() == (h.reaction@ is Publish)
                &&& h.publication matches Some(Ok(n)) ==> n >= 1
            },
    {
        proof {
            use_type_invariant(&*self);
        }
        let ghost before = self.entries@;
        match Self::position(&self.entries, id) {
            None => {
                proof {
                    lemma_model_absent(before, id);
                }
                None
            },
            Some(i) => {
                proof {
                    lemma_model_at(before, i as int);
                }
                let mut entries: Vec<Entry> = Vec::new();
                core::mem::swap(&mut entries, &mut self.entries);
                let handled = entries[i].session.handle(hub, event);
                proof {
                    assert(entries@ =~= before.update(i as int, entries@[i as int]));
                    lemma_model_update(before, i as int, entries@[i as int]);
                }
                self.entries = entries;
                Some(handled)
            },
        }
    }

    /// Lets the session registered under `id` go, if it is closed. Returns
    /// whether it did; a session that is not closed stays registered.
    pub fn retire(&mut self, id: u64) -> (retired: bool)
        ensures
            retired == (old(self)@.contains_key(id) && old(self)@[id].phase == Phase::Closed),
            final(self).registrations() == old(self).registrations(),
            final(self)@ == if retired {
                old(self)@.remove(id)
            } else {
                old(self)@
            },
    {
        proof {
            use_type_invariant(&*self);
        }
        let ghost before = self.entries@;
        match Self::position(&self.entries, id) {
            None => {
                proof {
                    lemma_model_absent(before, id);
                }
                false
            },
            Some(i) => {
                proof {
                    lemma_model_at(before, i as int);
                }
                match self.entries[i].session.phase() {
                    Phase::Closed => {
                        proof {
                            lemma_model_remove(before, i as int);
                        }
                        let mut entries: Vec<Entry> = Vec::new();
                        core::mem::swap(&mut entries, &mut self.entries);
                        entries.remove(i);
                        self.entries = entries;
                        true
                    },
                    _ => false,
                }
            },
        }
    }
}

/// What a registry holds after the session under `id` took `event`, as
/// [`Registry::dispatch`] leaves it.
pub open spec fn after_event(
    sessions: Map<u64, SessionView>,
    id: u64,
    event: SessionEventView,
) -> Map<u64, SessionView> {
    if sessions.contains_key(id) {
        sessions.insert(id, step(sessions[id], event).0)
    } else {
        sessions
    }
}

/// Sessions do not touch each other: whatever happens to one session, a
/// close frame, a failure or anything else, every other session is still
/// registered, is in the state it was in, and answers each event exactly as
/// it would have before. The same holds once the first session is let go.
pub proof fn lemma_sessions_are_independent(
    sessions: Map<u64, SessionView>,
    one: u64,
    event: SessionEventView,
    other: u64,
    next: SessionEventView,
)
    requires
        sessions.contains_key(other),
        one != other,
    ensures
        after_event(sessions, one, event).contains_key(other),
        after_event(sessions, one, event)[other] == sessions[other],
        step(after_event(sessions, one, event)[other], next) == step(sessions[other], next),
        after_event(sessions, one, event).remove(one).contains_key(other),
        after_event(sessions, one, event).remove(one)[other] == sessions[other],
{
}

/// A line that one session publishes is forwarded by every active session
/// that it is delivered to, the publisher among them: each forwards the line
/// once, as it was rendered, and stays as it was. This holds of any number of
/// registered sessions.
pub proof fn lemma_every_session_forwards(
    sessions: Map<u64, SessionView>,
    publisher: u64,
    text: Seq<char>,
)
    requires
        sessions.contains_key(publisher),
        sessions[publisher].phase == Phase::Active,
        text.len() > 0,
    ensures
        step(sessions[publisher], SessionEventView::Inbound(FrameView::Text(text))).1
            matches ReactionView::Publish(message) && {
            &&& message.line() == rendered_line(sessions[publisher].origin, text)
            &&& after_event(sessions, publisher, SessionEventView::Inbound(FrameView::Text(text)))
                == sessions
            &&& forall|id: u64| #[trigger]
                sessions.contains_key(id) && sessions[id].phase == Phase::Active ==> {
                    &&& step(sessions[id], SessionEventView::Delivered(message.line())).1
                        == ReactionView::Forward(message.line())
                    &&& after_event(sessions, id, SessionEventView::Delivered(message.line()))
                        == sessions
                }
        },
{
    let published = SessionEventView::Inbound(FrameView::Text(text));
    assert(after_event(sessions, publisher, published) =~= sessions);
    let line = rendered_line(sessions[publisher].origin, text);
    assert forall|id: u64| #[trigger]
        sessions.contains_key(id) && sessions[id].phase == Phase::Active implies after_event(
        sessions,
        id,
        SessionEventView::Delivered(line),
    ) == sessions by {
        assert(after_event(sessions, id, SessionEventView::Delivered(line)) =~= sessions);
    }
}

} // verus!
