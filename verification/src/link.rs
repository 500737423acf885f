//! The link list: shows the user's saved links and lets them add one.
//!
//! The list is fetched whenever a session snapshot with a valid token
//! arrives. A new link is shown only once the server has confirmed it.

use crate::entity::lemma_link_views_push;
use crate::entity::link_ids_distinct;
use crate::entity::link_views;
use crate::entity::text_of;
use crate::entity::LinkEntry;
use crate::entity::LinkEntryView;
use crate::fetch::current;
use crate::fetch::AsyncFetchCoordinator;
use crate::fetch::Outcome;
use crate::store::empty_session;
use crate::store::token_valid;
use crate::store::Session;
use crate::store::UserStore;
use vstd::prelude::*;

verus! {

/// An event for the link list.
#[derive(Debug, PartialEq, Eq)]
pub enum LinkMessage {
    /// The session changed, or the subscription was just made.
    UserState(UserStore),
    /// The list request with the given epoch came back with these links.
    Success(u64, Vec<LinkEntry>),
    /// The user edited the url field.
    InputLink(String),
    /// The user edited the name field.
    InputName(String),
    /// The user asked to add the link in the form.
    Add,
    /// The server created this link.
    SuccessAdded(LinkEntry),
    /// The server could not be asked to create the link, for this reason.
    Error(String),
}

/// The mathematical value of a [`LinkMessage`].
pub enum LinkMessageView {
    UserState(Session),
    Success(nat, Seq<LinkEntryView>),
    InputLink(Seq<char>),
    InputName(Seq<char>),
    Add,
    SuccessAdded(LinkEntryView),
    Error(Seq<char>),
}

impl View for LinkMessage {
    type V = LinkMessageView;

    open spec fn view(&self) -> LinkMessageView {
        match self {
            LinkMessage::UserState(u) => LinkMessageView::UserState(u@),
            LinkMessage::Success(epoch, data) => LinkMessageView::Success(
                *epoch as nat,
                link_views(data@),
            ),
            LinkMessage::InputLink(s) => LinkMessageView::InputLink(s@),
            LinkMessage::InputName(s) => LinkMessageView::InputName(s@),
            LinkMessage::Add => LinkMessageView::Add,
            LinkMessage::SuccessAdded(e) => LinkMessageView::SuccessAdded(e@),
            LinkMessage::Error(s) => LinkMessageView::Error(s@),
        }
    }
}

impl LinkMessage {
    /// The event that reports the end of the list request `epoch`. A failed
    /// request reads as an empty list.
    pub fn from_list_result(epoch: u64, result: Result<Vec<LinkEntry>, String>) -> (m: LinkMessage)
        ensures
            m@ == LinkMessageView::Success(
                epoch as nat,
                match result {
                    Ok(data) => link_views(data@),
                    Err(_) => Seq::empty(),
                },
            ),
    {
        match result {
            Ok(data) => LinkMessage::Success(epoch, data),
            Err(_) => {
                let none: Vec<LinkEntry> = Vec::new();
                assert(link_views(none@) =~= Seq::empty());
                LinkMessage::Success(epoch, none)
            },
        }
    }

    /// The event that reports the end of a request to create a link. A failed
    /// request stays a failure and keeps its reason.
    pub fn from_create_result(result: Result<LinkEntry, String>) -> (m: LinkMessage)
        ensures
            m@ == match result {
                Ok(entry) => LinkMessageView::SuccessAdded(entry@),
                Err(reason) => LinkMessageView::Error(reason@),
            },
    {
        match result {
            Ok(entry) => LinkMessage::SuccessAdded(entry),
            Err(reason) => LinkMessage::Error(reason),
        }
    }
}

/// A request that the link list wants sent.
#[derive(Debug, PartialEq, Eq)]
pub enum LinkEffect {
    /// Fetch the links of the session `token`; answer with
    /// [`LinkMessage::Success`] tagged `epoch`.
    GetLinks { epoch: u64, token: String },
    /// Create a link; answer with [`LinkMessage::SuccessAdded`] or
    /// [`LinkMessage::Error`].
    CreateLink { token: String, name: String, url: String },
}

/// The mathematical value of a [`LinkEffect`].
pub enum LinkEffectView {
    GetLinks { epoch: nat, token: Seq<char> },
    CreateLink { token: Seq<char>, name: Seq<char>, url: Seq<char> },
}

impl View for LinkEffect {
    type V = LinkEffectView;

    open spec fn view(&self) -> LinkEffectView {
        match self {
            LinkEffect::GetLinks { epoch, token } => LinkEffectView::GetLinks {
                epoch: *epoch as nat,
                token: token@,
            },
            LinkEffect::CreateLink { token, name, url } => LinkEffectView::CreateLink {
                token: token@,
                name: name@,
                url: url@,
            },
        }
    }
}

/// The value of an optional request.
pub open spec fn link_effect_of(e: Option<LinkEffect>) -> Option<LinkEffectView> {
    match e {
        Some(e) => Some(e@),
        None => None,
    }
}

/// What `update` answers.
#[derive(Debug, PartialEq, Eq)]
pub struct LinkUpdate {
    /// Whether the list is to be drawn again.
    pub render: bool,
    /// The request to send, if any.
    pub effect: Option<LinkEffect>,
    /// How the event was disposed of.
    pub outcome: Outcome,
}

/// The mathematical value of the link list.
pub struct LinkView {
    /// The latest session snapshot.
    pub session: Session,
    /// The links on show, in server order, confirmed additions last.
    pub links: Seq<LinkEntryView>,
    /// The url field of the form.
    pub link: Seq<char>,
    /// The name field of the form.
    pub name: Seq<char>,
    /// The epoch of the latest list request.
    pub epoch: nat,
    /// Why the latest attempt to add a link failed, if it did.
    pub error: Option<Seq<char>>,
}

/// One step of the link list: the state after the event and the answer.
pub struct LinkStep {
    pub state: LinkView,
    pub render: bool,
    pub effect: Option<LinkEffectView>,
    pub outcome: Outcome,
}

/// The link list before any event.
pub open spec fn link_initial() -> LinkView {
    LinkView {
        session: empty_session(),
        links: Seq::empty(),
        link: Seq::empty(),
        name: Seq::empty(),
        epoch: 0,
        error: None,
    }
}

/// The token by which `m` is gated in state `s`: that of the snapshot which
/// `m` brings, or else that of the snapshot held.
pub open spec fn link_token(s: LinkView, m: LinkMessageView) -> Seq<char> {
    match m {
        LinkMessageView::UserState(u) => u.token,
        _ => s.session.token,
    }
}

/// Whether `m` makes the link list issue a list request in state `s`.
pub open spec fn link_issues(s: LinkView, m: LinkMessageView) -> bool {
    m is UserState && token_valid(link_token(s, m))
}

/// Whether the link list can take `m` in state `s`: a list request can still
/// be counted if `m` calls for one.
pub open spec fn link_accepts(s: LinkView, m: LinkMessageView) -> bool {
    link_issues(s, m) ==> s.epoch < u64::MAX
}

/// The transition function of the link list.
pub open spec fn link_step(s: LinkView, m: LinkMessageView) -> LinkStep {
    match m {
        LinkMessageView::UserState(u) => {
            if token_valid(u.token) {
                LinkStep {
                    state: LinkView { session: u, epoch: s.epoch + 1, ..s },
                    render: true,
                    effect: Some(LinkEffectView::GetLinks { epoch: s.epoch + 1, token: u.token }),
                    outcome: Outcome::Applied,
                }
            } else {
                LinkStep {
                    state: LinkView { session: u, ..s },
                    render: true,
                    effect: None,
                    outcome: Outcome::GatingSkipped,
                }
            }
        },
        LinkMessageView::Success(epoch, data) => {
            if token_valid(s.session.token) && current(s.epoch, epoch) {
                LinkStep {
                    state: LinkView { links: data, ..s },
                    render: true,
                    effect: None,
                    outcome: Outcome::Applied,
                }
            } else {
                LinkStep { state: s, render: false, effect: None, outcome: Outcome::StaleResponse }
            }
        },
        LinkMessageView::InputLink(text) => LinkStep {
            state: LinkView { link: text, ..s },
            render: true,
            effect: None,
            outcome: Outcome::Applied,
        },
        LinkMessageView::InputName(text) => LinkStep {
            state: LinkView { name: text, ..s },
            render: true,
            effect: None,
            outcome: Outcome::Applied,
        },
        LinkMessageView::Add => {
            if token_valid(s.session.token) {
                LinkStep {
                    state: LinkView { error: None, ..s },
                    render: true,
                    effect: Some(
                        LinkEffectView::CreateLink {
                            token: s.session.token,
                            name: s.name,
                            url: s.link,
                        },
                    ),
                    outcome: Outcome::Applied,
                }
            } else {
                LinkStep { state: s, render: false, effect: None, outcome: Outcome::GatingSkipped }
            }
        },
        LinkMessageView::SuccessAdded(entry) => {
            if token_valid(s.session.token) {
                LinkStep {
                    state: LinkView { links: s.links.push(entry), ..s },
                    render: true,
                    effect: None,
                    outcome: Outcome::Applied,
                }
            } else {
                LinkStep { state: s, render: false, effect: None, outcome: Outcome::StaleResponse }
            }
        },
        LinkMessageView::Error(reason) => LinkStep {
            state: LinkView { error: Some(reason), ..s },
            render: true,
            effect: None,
            outcome: Outcome::NetworkFailure,
        },
    }
}

/// The epoch that a step's list request carries, or 0 when the step issued
/// none.
pub open spec fn link_request_epoch(step: LinkStep) -> nat {
    match step.effect {
        Some(LinkEffectView::GetLinks { epoch, .. }) => epoch,
        _ => 0,
    }
}

/// Without a valid token the link list issues no request and shows what it
/// showed, whatever the event.
pub proof fn lemma_link_gated(s: LinkView, m: LinkMessageView)
    requires
        !token_valid(link_token(s, m)),
    ensures
        link_step(s, m).effect is None,
        link_step(s, m).state.links == s.links,
        link_step(s, m).state.epoch == s.epoch,
{
}

/// A response to any list request but the latest changes nothing.
pub proof fn lemma_link_stale_dropped(s: LinkView, epoch: nat, data: Seq<LinkEntryView>)
    requires
        epoch != s.epoch,
    ensures
        link_step(s, LinkMessageView::Success(epoch, data)).state == s,
        link_step(s, LinkMessageView::Success(epoch, data)).outcome == Outcome::StaleResponse,
        link_step(s, LinkMessageView::Success(epoch, data)).effect is None,
{
}

/// Let `a` issue a list request and `b` issue another before the first is
/// answered. Then the answer to the first cannot replace the answer to the
/// second, in whichever order the two arrive.
pub proof fn lemma_link_late_response_cannot_overwrite(
    s: LinkView,
    a: LinkMessageView,
    b: LinkMessageView,
    data_a: Seq<LinkEntryView>,
    data_b: Seq<LinkEntryView>,
)
    requires
        link_issues(s, a),
        link_issues(link_step(s, a).state, b),
    ensures
        ({
            let step_a = link_step(s, a);
            let step_b = link_step(step_a.state, b);
            let epoch_a = link_request_epoch(step_a);
            let epoch_b = link_request_epoch(step_b);
            let answer_a = LinkMessageView::Success(epoch_a, data_a);
            let answer_b = LinkMessageView::Success(epoch_b, data_b);
            let b_then_a = link_step(link_step(step_b.state, answer_b).state, answer_a);
            let a_then_b = link_step(link_step(step_b.state, answer_a).state, answer_b);
            &&& epoch_a < epoch_b
            &&& b_then_a.state.links == data_b
            &&& b_then_a.outcome == Outcome::StaleResponse
            &&& a_then_b.state.links == data_b
            &&& link_step(step_b.state, answer_a).state == step_b.state
        }),
{
}

/// While there is a session, a confirmed addition puts exactly the entry
/// that the server created, with the id that the server gave it, at the end
/// of the list and touches nothing before it.
pub proof fn lemma_link_added(s: LinkView, entry: LinkEntryView)
    requires
        token_valid(s.session.token),
    ensures
        link_step(s, LinkMessageView::SuccessAdded(entry)).state.links == s.links.push(entry),
        link_step(s, LinkMessageView::SuccessAdded(entry)).state.links.len() == s.links.len() + 1,
        link_step(s, LinkMessageView::SuccessAdded(entry)).state.links.last().id == entry.id,
        link_step(s, LinkMessageView::SuccessAdded(entry)).effect is None,
{
}

/// A request to add a link that is sent and answered while the session
/// lasts ends in one of two ways. Confirmed, the list is what it was when
/// the request was sent, with the created entry at its end. Failed, the list
/// is what it was, and the reason is recorded.
pub proof fn lemma_link_add_round_trip(s: LinkView, entry: LinkEntryView, reason: Seq<char>)
    requires
        link_step(s, LinkMessageView::Add).effect is Some,
    ensures
        ({
            let sent = link_step(s, LinkMessageView::Add);
            let confirmed = link_step(sent.state, LinkMessageView::SuccessAdded(entry));
            let failed = link_step(sent.state, LinkMessageView::Error(reason));
            &&& sent.effect == Some(
                LinkEffectView::CreateLink { token: s.session.token, name: s.name, url: s.link },
            )
            &&& sent.state.links == s.links
            &&& confirmed.state.links == s.links.push(entry)
            &&& confirmed.state.error is None
            &&& failed.state.links == s.links
            &&& failed.state.error == Some(reason)
        }),
{
}

/// A list whose ids are distinct keeps them distinct when the server
/// confirms a link under an id that the list does not hold.
pub proof fn lemma_link_added_ids_distinct(s: LinkView, entry: LinkEntryView)
    requires
        link_ids_distinct(s.links),
        forall|i: int| 0 <= i < s.links.len() ==> (#[trigger] s.links[i]).id != entry.id,
    ensures
        link_ids_distinct(link_step(s, LinkMessageView::SuccessAdded(entry)).state.links),
{
}

/// A failed addition leaves the list as it was and records the reason, to be
/// reported.
pub proof fn lemma_link_add_failed(s: LinkView, reason: Seq<char>)
    ensures
        link_step(s, LinkMessageView::Error(reason)).state.links == s.links,
        link_step(s, LinkMessageView::Error(reason)).state.error == Some(reason),
        link_step(s, LinkMessageView::Error(reason)).outcome == Outcome::NetworkFailure,
        link_step(s, LinkMessageView::Error(reason)).outcome.is_reported(),
        link_step(s, LinkMessageView::Error(reason)).render,
{
}

/// Asking to add a link shows nothing new: the list changes only when the
/// server has answered.
pub proof fn lemma_link_add_not_optimistic(s: LinkView)
    ensures
        link_step(s, LinkMessageView::Add).state.links == s.links,
{
}

/// The link list.
pub struct LinkComponent {
    state: UserStore,
    links: Vec<LinkEntry>,
    link: String,
    name: String,
    fetches: AsyncFetchCoordinator,
    error: Option<String>,
}

impl View for LinkComponent {
    type V = LinkView;

    closed spec fn view(&self) -> LinkView {
        LinkView {
            session: self.state@,
            links: link_views(self.links@),
            link: self.link@,
            name: self.name@,
            epoch: self.fetches@,
            error: text_of(self.error),
        }
    }
}

impl LinkComponent {
    /// The link list before any event: no session, nothing on show, an empty
    /// form.
    pub fn create() -> (r: LinkComponent)
        ensures
            r@ == link_initial(),
    {
        let r = LinkComponent {
            state: UserStore::default(),
            links: Vec::new(),
            link: String::new(),
            name: String::new(),
            fetches: AsyncFetchCoordinator::new(),
            error: None,
        };
        assert(link_views(r.links@) =~= Seq::empty());
        r
    }

    /// The latest session snapshot.
    pub fn state(&self) -> (r: &UserStore)
        ensures
            r@ == self@.session,
    {
        &self.state
    }

    /// The links on show.
    pub fn links(&self) -> (r: &Vec<LinkEntry>)
        ensures
            link_views(r@) == self@.links,
    {
        &self.links
    }

    /// The url field of the form.
    pub fn link(&self) -> (r: &String)
        ensures
            r@ == self@.link,
    {
        &self.link
    }

    /// The name field of the form.
    pub fn name(&self) -> (r: &String)
        ensures
            r@ == self@.name,
    {
        &self.name
    }

    /// The epoch of the latest list request.
    pub fn epoch(&self) -> (r: u64)
        ensures
            r == self@.epoch,
    {
        self.fetches.latest()
    }

    /// Why the latest attempt to add a link failed, if it did.
    pub fn error(&self) -> (r: &Option<String>)
        ensures
            text_of(*r) == self@.error,
    {
        &self.error
    }

    /// Whether `update` may be called with `msg`.
    pub fn accepts(&self, msg: &LinkMessage) -> (r: bool)
        ensures
            r == link_accepts(self@, msg@),
    {
        match msg {
            LinkMessage::UserState(u) => !u.has_session() || self.fetches.can_issue(),
            _ => true,
        }
    }

    /// Takes `msg` into the state and answers with what is to be done.
    ///
    /// Without a valid token no request is issued and the links on show stay
    /// as they are. A list response replaces the links only while it is the
    /// response to the latest list request. A confirmed addition goes to the
    /// end of the list; a failed one leaves the list alone and is recorded.
    pub fn update(&mut self, msg: LinkMessage) -> (r: LinkUpdate)
        requires
            link_accepts(old(self)@, msg@),
        ensures
            link_step(old(self)@, msg@) == (LinkStep {
                state: final(self)@,
                render: r.render,
                effect: link_effect_of(r.effect),
                outcome: r.outcome,
            }),
            !token_valid(link_token(old(self)@, msg@)) ==> r.effect is None && final(self)@.links
                == old(self)@.links,
            final(self)@.epoch >= old(self)@.epoch,
    {
        match msg {
            LinkMessage::UserState(state) => {
                self.state = state;
                if !self.state.has_session() {
                    return LinkUpdate {
                        render: true,
                        effect: None,
                        outcome: Outcome::GatingSkipped,
                    };
                }
                let ticket = self.fetches.fetch(self.state.token.clone());
                LinkUpdate {
                    render: true,
                    effect: Some(LinkEffect::GetLinks { epoch: ticket.epoch, token: ticket.token }),
                    outcome: Outcome::Applied,
                }
            },
            LinkMessage::Success(epoch, data) => {
                if self.state.has_session() && self.fetches.is_current(epoch) {
                    self.links = data;
                    LinkUpdate { render: true, effect: None, outcome: Outcome::Applied }
                } else {
                    LinkUpdate { render: false, effect: None, outcome: Outcome::StaleResponse }
                }
            },
            LinkMessage::InputLink(data) => {
                self.link = data;
                LinkUpdate { render: true, effect: None, outcome: Outcome::Applied }
            },
            LinkMessage::InputName(data) => {
                self.name = data;
                LinkUpdate { render: true, effect: None, outcome: Outcome::Applied }
            },
            LinkMessage::Add => {
                if !self.state.has_session() {
                    return LinkUpdate {
                        render: false,
                        effect: None,
                        outcome: Outcome::GatingSkipped,
                    };
                }
                let url = self.link.clone();
                let name = self.name.clone();
                let token = self.state.token.clone();
                self.error = None;
                LinkUpdate {
                    render: true,
                    effect: Some(LinkEffect::CreateLink { token, name, url }),
                    outcome: Outcome::Applied,
                }
            },
            LinkMessage::SuccessAdded(data) => {
                if !self.state.has_session() {
                    return LinkUpdate {
                        render: false,
                        effect: None,
                        outcome: Outcome::StaleResponse,
                    };
                }
                proof {
                    lemma_link_views_push(self.links@, data);
                }
                self.links.push(data);
                LinkUpdate { render: true, effect: None, outcome: Outcome::Applied }
            },
            LinkMessage::Error(data) => {
                self.error = Some(data);
                LinkUpdate { render: true, effect: None, outcome: Outcome::NetworkFailure }
            },
        }
    }
}

} // verus!
