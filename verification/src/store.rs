//! The session store: the one holder of the current identity.
//!
//! The store keeps the session and the handles of those who asked to be told
//! of changes. It delivers nothing itself: `subscribe` and `reduce` return what
//! is to be delivered, and to whom, in order.

use vstd::prelude::*;
use vstd::string::*;

verus! {

/// The mathematical value of a session snapshot.
pub struct Session {
    pub token: Seq<char>,
    pub user_id: Seq<char>,
}

/// A token is valid when it is neither empty nor the word `error`.
pub open spec fn token_valid(token: Seq<char>) -> bool {
    token.len() > 0 && token != "error"@
}

/// The session before anybody has signed in.
pub open spec fn empty_session() -> Session {
    Session { token: Seq::empty(), user_id: Seq::empty() }
}

/// Whether `token` is neither empty nor the word `error`.
pub fn token_is_valid(token: &String) -> (r: bool)
    ensures
        r == token_valid(token@),
{
    let sentinel = String::from_str("error");
    !token.as_str().is_empty() && !(*token == sentinel)
}

/// A snapshot of the session.
#[derive(Debug, PartialEq, Eq)]
pub struct UserStore {
    pub token: String,
    pub user_id: String,
}

impl View for UserStore {
    type V = Session;

    open spec fn view(&self) -> Session {
        Session { token: self.token@, user_id: self.user_id@ }
    }
}

impl Clone for UserStore {
    fn clone(&self) -> (r: UserStore)
        ensures
            r@ == self@,
    {
        UserStore { token: self.token.clone(), user_id: self.user_id.clone() }
    }
}

impl Default for UserStore {
    fn default() -> (r: UserStore)
        ensures
            r@ == empty_session(),
    {
        UserStore { token: String::new(), user_id: String::new() }
    }
}

impl UserStore {
    /// Whether this snapshot carries a valid token.
    pub fn has_session(&self) -> (r: bool)
        ensures
            r == token_valid(self@.token),
    {
        token_is_valid(&self.token)
    }
}

/// A change to the session.
#[derive(Clone, Debug, PartialEq, Eq)]
pub enum Mutation {
    /// Sign-in completed: the server issued `token` for `user_id`.
    SignedIn { token: String, user_id: String },
    /// Sign-up completed: the server created `user_id`.
    SignedUp { user_id: String },
    /// The user signed out.
    SignedOut,
}

/// The mathematical value of a [`Mutation`].
pub enum MutationView {
    SignedIn { token: Seq<char>, user_id: Seq<char> },
    SignedUp { user_id: Seq<char> },
    SignedOut,
}

impl View for Mutation {
    type V = MutationView;

    open spec fn view(&self) -> MutationView {
        match self {
            Mutation::SignedIn { token, user_id } => MutationView::SignedIn {
                token: token@,
                user_id: user_id@,
            },
            Mutation::SignedUp { user_id } => MutationView::SignedUp { user_id: user_id@ },
            Mutation::SignedOut => MutationView::SignedOut,
        }
    }
}

/// The session that results from applying `m` to `s`.
pub open spec fn mutated(s: Session, m: MutationView) -> Session {
    match m {
        MutationView::SignedIn { token, user_id } => Session { token, user_id },
        MutationView::SignedUp { user_id } => Session { token: s.token, user_id },
        MutationView::SignedOut => empty_session(),
    }
}

/// The mathematical value of a [`SessionStore`].
pub struct StoreView {
    /// The current session.
    pub session: Session,
    /// The handles of the live subscriptions, oldest first.
    pub subscribers: Seq<u64>,
    /// How many handles have been handed out so far.
    pub issued: nat,
}

/// Handles are handed out in increasing order, so the live ones are distinct
/// and each is below the number handed out.
pub open spec fn handles_in_order(subscribers: Seq<u64>, issued: nat) -> bool {
    &&& issued <= u64::MAX
    &&& forall|i: int| 0 <= i < subscribers.len() ==> (#[trigger] subscribers[i]) < issued
    &&& forall|i: int, j: int| 0 <= i < j < subscribers.len() ==> subscribers[i] < subscribers[j]
}

/// What holds of every store.
pub open spec fn store_wf(v: StoreView) -> bool {
    handles_in_order(v.subscribers, v.issued)
}

/// A fresh handle may join the end of the line.
pub proof fn lemma_push_in_order(subscribers: Seq<u64>, issued: nat)
    requires
        handles_in_order(subscribers, issued),
        issued < u64::MAX,
    ensures
        handles_in_order(subscribers.push(issued as u64), issued + 1),
        !subscribers.contains(issued as u64),
{
}

/// Taking the handle at `i` out of the line leaves the line in order and
/// without that handle, and `i` is the only place where it stood.
pub proof fn lemma_remove_in_order(subscribers: Seq<u64>, issued: nat, i: int)
    requires
        handles_in_order(subscribers, issued),
        0 <= i < subscribers.len(),
    ensures
        handles_in_order(subscribers.remove(i), issued),
        !subscribers.remove(i).contains(subscribers[i]),
        subscribers.index_of(subscribers[i]) == i,
{
    let rest = subscribers.remove(i);
    assert forall|k: int| 0 <= k < rest.len() implies rest[k] != subscribers[i] && (
    #[trigger] rest[k]) < issued by {
        if k < i {
            assert(rest[k] == subscribers[k]);
        } else {
            assert(rest[k] == subscribers[k + 1]);
        }
    }
    assert forall|a: int, b: int| 0 <= a < b < rest.len() implies rest[a] < rest[b] by {
        let a0 = if a < i { a } else { a + 1 };
        let b0 = if b < i { b } else { b + 1 };
        assert(rest[a] == subscribers[a0]);
        assert(rest[b] == subscribers[b0]);
    }
    let j = subscribers.index_of(subscribers[i]);
    assert(subscribers.contains(subscribers[i]));
    assert(0 <= j < subscribers.len() && subscribers[j] == subscribers[i]);
    if j < i {
        assert(subscribers[j] < subscribers[i]);
    } else if i < j {
        assert(subscribers[i] < subscribers[j]);
    }
}

/// What `subscribe` hands back: the handle of the new subscription and the
/// snapshot that its listener is to receive at once.
#[derive(Debug, PartialEq, Eq)]
pub struct Subscription {
    pub handle: u64,
    pub snapshot: UserStore,
}

/// What `reduce` hands back: the new snapshot and the subscriptions whose
/// listeners are to receive it, in the order in which they are to be told.
#[derive(Debug, PartialEq, Eq)]
pub struct Broadcast {
    pub snapshot: UserStore,
    pub recipients: Vec<u64>,
}

/// The process-wide holder of the session.
pub struct SessionStore {
    state: UserStore,
    subscribers: Vec<u64>,
    issued: u64,
}

impl View for SessionStore {
    type V = StoreView;

    closed spec fn view(&self) -> StoreView {
        StoreView {
            session: self.state@,
            subscribers: self.subscribers@,
            issued: self.issued as nat,
        }
    }
}

impl SessionStore {
    #[verifier::type_invariant]
    spec fn inv(self) -> bool {
        store_wf(self@)
    }

    /// A store with the empty session and no subscriptions.
    pub fn new() -> (r: SessionStore)
        ensures
            r@.session == empty_session(),
            r@.subscribers.len() == 0,
            r@.issued == 0,
            store_wf(r@),
    {
        SessionStore { state: UserStore::default(), subscribers: Vec::new(), issued: 0 }
    }

    /// The current session.
    pub fn snapshot(&self) -> (r: UserStore)
        ensures
            r@ == self@.session,
            store_wf(self@),
    {
        proof {
            use_type_invariant(self);
        }
        self.state.clone()
    }

    /// How many subscriptions are live.
    pub fn subscriber_count(&self) -> (r: usize)
        ensures
            r == self@.subscribers.len(),
    {
        self.subscribers.len()
    }

    /// Whether `handle` names a live subscription.
    pub fn is_subscribed(&self, handle: u64) -> (r: bool)
        ensures
            r == self@.subscribers.contains(handle),
    {
        let mut i: usize = 0;
        while i < self.subscribers.len()
            invariant
                i <= self.subscribers.len(),
                forall|k: int| 0 <= k < i ==> self.subscribers@[k] != handle,
            decreases self.subscribers.len() - i,
        {
            if self.subscribers[i] == handle {
                return true;
            }
            i += 1;
        }
        false
    }

    /// Registers a listener. The new subscription goes to the end of the
    /// line, and the snapshot handed back is the current session, which the
    /// listener receives at once. `None`, with the store unchanged, only when
    /// all handles have been handed out.
    pub fn subscribe(&mut self) -> (r: Option<Subscription>)
        ensures
            store_wf(final(self)@),
            final(self)@.session == old(self)@.session,
            r is Some <==> old(self)@.issued < u64::MAX,
            r matches Some(s) ==> {
                &&& s.handle == old(self)@.issued
                &&& s.snapshot@ == old(self)@.session
                &&& final(self)@.subscribers == old(self)@.subscribers.push(s.handle)
                &&& final(self)@.issued == old(self)@.issued + 1
                &&& !old(self)@.subscribers.contains(s.handle)
            },
            r is None ==> final(self)@ == old(self)@,
    {
        proof {
            use_type_invariant(&*self);
        }
        if self.issued == u64::MAX {
            return None;
        }
        let handle = self.issued;
        // The line is taken out, extended and put back: the store itself is
        // never seen with a handle that it has not counted.
        let mut line: Vec<u64> = Vec::new();
        std::mem::swap(&mut self.subscribers, &mut line);
        proof {
            lemma_push_in_order(line@, handle as nat);
        }
        line.push(handle);
        self.issued = handle + 1;
        self.subscribers = line;
        Some(Subscription { handle, snapshot: self.state.clone() })
    }

    /// Ends the subscription `handle`. Answers whether it was live; the other
    /// subscriptions keep their order.
    pub fn unsubscribe(&mut self, handle: u64) -> (r: bool)
        ensures
            store_wf(final(self)@),
            final(self)@.session == old(self)@.session,
            final(self)@.issued == old(self)@.issued,
            r == old(self)@.subscribers.contains(handle),
            !final(self)@.subscribers.contains(handle),
            r ==> final(self)@.subscribers == old(self)@.subscribers.remove(
                old(self)@.subscribers.index_of(handle),
            ),
            !r ==> final(self)@.subscribers == old(self)@.subscribers,
    {
        proof {
            use_type_invariant(&*self);
        }
        let mut i: usize = 0;
        while i < self.subscribers.len()
            invariant
                i <= self.subscribers.len(),
                *self == *old(self),
                store_wf(self@),
                forall|k: int| 0 <= k < i ==> self.subscribers@[k] != handle,
            decreases self.subscribers.len() - i,
        {
            if self.subscribers[i] == handle {
                proof {
                    lemma_remove_in_order(self.subscribers@, self.issued as nat, i as int);
                }
                let mut line: Vec<u64> = Vec::new();
                std::mem::swap(&mut self.subscribers, &mut line);
                line.remove(i);
                self.subscribers = line;
                return true;
            }
            i += 1;
        }
        false
    }

    /// Applies `m` to the session. The snapshot handed back is the session
    /// after the change, and every live subscription is to receive it, oldest
    /// first.
    pub fn reduce(&mut self, m: Mutation) -> (r: Broadcast)
        ensures
            store_wf(final(self)@),
            final(self)@.session == mutated(old(self)@.session, m@),
            final(self)@.subscribers == old(self)@.subscribers,
            final(self)@.issued == old(self)@.issued,
            r.snapshot@ == final(self)@.session,
            r.recipients@ == final(self)@.subscribers,
    {
        proof {
            use_type_invariant(&*self);
        }
        match m {
            Mutation::SignedIn { token, user_id } => {
                self.state = UserStore { token, user_id };
            },
            Mutation::SignedUp { user_id } => {
                self.state.user_id = user_id;
            },
            Mutation::SignedOut => {
                self.state = UserStore::default();
            },
        }
        Broadcast { snapshot: self.state.clone(), recipients: self.subscribers.clone() }
    }
}

} // verus!
