//! The session guard: a user's authenticated state, held in a store that is
//! asked on every call and reached through an opaque random handle.

use vstd::prelude::*;
use crate::random::is_token;
use crate::random::random_token;
use crate::text::str_eq;

verus! {

/// How long a session handle is: 64 letters and digits, far more than 128
/// bits of entropy.
pub const HANDLE_LENGTH: usize = 64;

/// One entry of the store.
pub struct SessionRecord {
    pub handle: String,
    pub user_id: uuid::Uuid,
}

/// What a client holds of its session: the cookie's value.
pub struct SessionHandle {
    pub text: String,
}

/// What the store answered when asked for a handle.
#[derive(Debug, Clone, Copy, PartialEq, Eq)]
pub enum StoreReply {
    /// The handle belongs to this user's session.
    Found(uuid::Uuid),
    /// The store knows no such handle: never issued, expired, destroyed or
    /// tampered with.
    Missing,
    /// The store could not be reached.
    Unavailable,
}

/// The one operational error of the guard.
#[derive(Debug, Clone, Copy, PartialEq, Eq, Structural)]
pub enum SessionError {
    /// The store could not be reached.
    StoreUnavailable,
}

/// A session store in memory. It can be taken offline, and then answers as
/// a store does that cannot be reached.
pub struct SessionStore {
    pub records: Vec<SessionRecord>,
    pub online: bool,
}

/// The user of the last record for `handle`, if there is one.
pub open spec fn lookup(records: Seq<SessionRecord>, handle: Seq<char>) -> Option<uuid::Uuid>
    decreases records.len(),
{
    if records.len() == 0 {
        None
    } else if records.last().handle@ == handle {
        Some(records.last().user_id)
    } else {
        lookup(records.drop_last(), handle)
    }
}

/// The current user of a session, given what the store holds.
pub open spec fn current_user_of(sessions: Map<Seq<char>, uuid::Uuid>, handle: Seq<char>) -> Option<
    uuid::Uuid,
> {
    if sessions.contains_key(handle) {
        Some(sessions[handle])
    } else {
        None
    }
}

/// What a reply means for the caller: a user, no session, or an error.
pub open spec fn reply_meaning(reply: StoreReply) -> Result<Option<uuid::Uuid>, SessionError> {
    match reply {
        StoreReply::Found(user_id) => Ok(Some(user_id)),
        StoreReply::Missing => Ok(None),
        StoreReply::Unavailable => Err(SessionError::StoreUnavailable),
    }
}

/// A session that was established is current; once destroyed it is not,
/// whatever else the store holds.
pub proof fn lemma_session_lifecycle(
    sessions: Map<Seq<char>, uuid::Uuid>,
    handle: Seq<char>,
    user_id: uuid::Uuid,
)
    ensures
        current_user_of(sessions.insert(handle, user_id), handle) == Some(user_id),
        current_user_of(sessions.insert(handle, user_id).remove(handle), handle)
            == None::<uuid::Uuid>,
        current_user_of(sessions.remove(handle), handle) == None::<uuid::Uuid>,
{
}

/// Establishing or destroying one session leaves every other session as it
/// was.
pub proof fn lemma_sessions_are_independent(
    sessions: Map<Seq<char>, uuid::Uuid>,
    handle: Seq<char>,
    other: Seq<char>,
    user_id: uuid::Uuid,
)
    requires
        handle != other,
    ensures
        current_user_of(sessions.insert(handle, user_id), other) == current_user_of(sessions, other),
        current_user_of(sessions.remove(handle), other) == current_user_of(sessions, other),
{
}

impl View for SessionHandle {
    type V = Seq<char>;

    open spec fn view(&self) -> Seq<char> {
        self.text@
    }
}

impl View for SessionStore {
    type V = Map<Seq<char>, uuid::Uuid>;

    open spec fn view(&self) -> Map<Seq<char>, uuid::Uuid> {
        Map::new(
            |handle: Seq<char>| lookup(self.records@, handle) is Some,
            |handle: Seq<char>| lookup(self.records@, handle)->0,
        )
    }
}

/// The records of `records` but those for `handle`, in order.
fn without(records: &Vec<SessionRecord>, handle: &str) -> (kept: Vec<SessionRecord>)
    ensures
        forall|h: Seq<char>|
            #[trigger] lookup(kept@, h) == if h == handle@ {
                None
            } else {
                lookup(records@, h)
            },
{
    let mut kept: Vec<SessionRecord> = Vec::new();
    let mut i: usize = 0;
    while i < records.len()
        invariant
            0 <= i <= records@.len(),
            forall|h: Seq<char>|
                #[trigger] lookup(kept@, h) == if h == handle@ {
                    None
                } else {
                    lookup(records@.take(i as int), h)
                },
        decreases records@.len() - i,
    {
        let ghost before = kept@;
        proof {
            assert(records@.take(i as int + 1).drop_last() =~= records@.take(i as int));
            assert(records@.take(i as int + 1).last() == records@[i as int]);
        }
        if !str_eq(records[i].handle.as_str(), handle) {
            kept.push(
                SessionRecord { handle: records[i].handle.clone(), user_id: records[i].user_id },
            );
            proof {
                assert(kept@.drop_last() =~= before);
                assert forall|h: Seq<char>|
                    #[trigger] lookup(kept@, h) == if h == handle@ {
                        None
                    } else {
                        lookup(records@.take(i as int + 1), h)
                    } by {
                    assert(lookup(before, h) == if h == handle@ {
                        None
                    } else {
                        lookup(records@.take(i as int), h)
                    });
                }
            }
        } else {
            proof {
                assert forall|h: Seq<char>|
                    #[trigger] lookup(kept@, h) == if h == handle@ {
                        None
                    } else {
                        lookup(records@.take(i as int + 1), h)
                    } by {
                    assert(lookup(before, h) == if h == handle@ {
                        None
                    } else {
                        lookup(records@.take(i as int), h)
                    });
                }
            }
        }
        i += 1;
    }
    proof {
        assert(records@.take(records@.len() as int) =~= records@);
    }
    kept
}

impl SessionStore {
    /// An empty store that can be reached.
    pub fn new() -> (store: SessionStore)
        ensures
            store.online,
            store@ == Map::<Seq<char>, uuid::Uuid>::empty(),
    {
        let store = SessionStore { records: Vec::new(), online: true };
        assert(store@ =~= Map::<Seq<char>, uuid::Uuid>::empty());
        store
    }

    /// Takes the store offline or brings it back; what it holds stays.
    pub fn set_online(&mut self, online: bool)
        ensures
            final(self).online == online,
            final(self).records == old(self).records,
            final(self)@ == old(self)@,
    {
        self.online = online;
    }

    /// Asks the store for the session of `handle`.
    pub fn load(&self, handle: &str) -> (reply: StoreReply)
        ensures
            reply == if !self.online {
                StoreReply::Unavailable
            } else if self@.contains_key(handle@) {
                StoreReply::Found(self@[handle@])
            } else {
                StoreReply::Missing
            },
    {
        if !self.online {
            return StoreReply::Unavailable;
        }
        let mut i: usize = self.records.len();
        assert(self.records@.take(i as int) =~= self.records@);
        while i > 0
            invariant
                self.online,
                0 <= i <= self.records@.len(),
                lookup(self.records@, handle@) == lookup(self.records@.take(i as int), handle@),
            decreases i,
        {
            proof {
                assert(self.records@.take(i as int).drop_last() =~= self.records@.take(i as int - 1));
                assert(self.records@.take(i as int).last() == self.records@[i as int - 1]);
            }
            if str_eq(self.records[i - 1].handle.as_str(), handle) {
                return StoreReply::Found(self.records[i - 1].user_id);
            }
            i -= 1;
        }
        StoreReply::Missing
    }

    /// Stores `user_id` under `handle`, in place of what was there. An
    /// unreachable store refuses and keeps what it holds.
    pub fn save(&mut self, handle: &str, user_id: uuid::Uuid) -> (r: Result<(), SessionError>)
        ensures
            final(self).online == old(self).online,
            r.is_ok() == old(self).online,
            final(self)@ == if old(self).online {
                old(self)@.insert(handle@, user_id)
            } else {
                old(self)@
            },
    {
        if !self.online {
            return Err(SessionError::StoreUnavailable);
        }
        let mut kept = without(&self.records, handle);
        let ghost before = kept@;
        kept.push(SessionRecord { handle: handle.to_owned(), user_id });
        proof {
            let pushed = kept@;
            assert(pushed.drop_last() =~= before);
            assert forall|h: Seq<char>|
                #[trigger] lookup(pushed, h) == if h == handle@ {
                    Some(user_id)
                } else {
                    lookup(old(self).records@, h)
                } by {
                assert(lookup(before, h) == if h == handle@ {
                    None
                } else {
                    lookup(old(self).records@, h)
                });
            }
        }
        self.records = kept;
        assert(self@ =~= old(self)@.insert(handle@, user_id));
        Ok(())
    }

    /// Removes the session of `handle`, if there is one. An unreachable
    /// store refuses and keeps what it holds.
    pub fn delete(&mut self, handle: &str) -> (r: Result<(), SessionError>)
        ensures
            final(self).online == old(self).online,
            r.is_ok() == old(self).online,
            final(self)@ == if old(self).online {
                old(self)@.remove(handle@)
            } else {
                old(self)@
            },
    {
        if !self.online {
            return Err(SessionError::StoreUnavailable);
        }
        let kept = without(&self.records, handle);
        self.records = kept;
        assert(self@ =~= old(self)@.remove(handle@));
        Ok(())
    }
}

/// What a store's reply means: a user, no session, or the operational
/// error. Only a store that cannot be reached is an error.
pub fn user_from_reply(reply: StoreReply) -> (r: Result<Option<uuid::Uuid>, SessionError>)
    ensures
        r == reply_meaning(reply),
{
    match reply {
        StoreReply::Found(user_id) => Ok(Some(user_id)),
        StoreReply::Missing => Ok(None),
        StoreReply::Unavailable => Err(SessionError::StoreUnavailable),
    }
}

/// Starts a session for `user_id` under a fresh random handle, which goes
/// to the client as its cookie.
pub fn establish(store: &mut SessionStore, user_id: uuid::Uuid) -> (r: Result<
    SessionHandle,
    SessionError,
>)
    ensures
        final(store).online == old(store).online,
        match r {
            Ok(handle) => {
                &&& old(store).online
                &&& is_token(handle@, HANDLE_LENGTH as nat)
                &&& final(store)@ == old(store)@.insert(handle@, user_id)
                &&& current_user_of(final(store)@, handle@) == Some(user_id)
            },
            Err(e) => !old(store).online && e == SessionError::StoreUnavailable && final(store)@
                == old(store)@,
        },
{
    let text = random_token(HANDLE_LENGTH);
    match store.save(text.as_str(), user_id) {
        Ok(_) => Ok(SessionHandle { text }),
        Err(e) => Err(e),
    }
}

/// Whose session `handle` is. A handle that the store does not know (never
/// issued, expired, destroyed, tampered with) is no session and no error.
pub fn current_user(store: &SessionStore, handle: &SessionHandle) -> (r: Result<
    Option<uuid::Uuid>,
    SessionError,
>)
    ensures
        r == if store.online {
            Ok::<Option<uuid::Uuid>, SessionError>(current_user_of(store@, handle@))
        } else {
            Err::<Option<uuid::Uuid>, SessionError>(SessionError::StoreUnavailable)
        },
{
    user_from_reply(store.load(handle.text.as_str()))
}

/// Ends the session of `handle`: from now on the handle is no session.
pub fn destroy(store: &mut SessionStore, handle: &SessionHandle) -> (r: Result<(), SessionError>)
    ensures
        final(store).online == old(store).online,
        r.is_ok() == old(store).online,
        r matches Err(e) ==> e == SessionError::StoreUnavailable,
        final(store)@ == if old(store).online {
            old(store)@.remove(handle@)
        } else {
            old(store)@
        },
        old(store).online ==> current_user_of(final(store)@, handle@) == None::<uuid::Uuid>,
{
    store.delete(handle.text.as_str())
}

} // verus!
