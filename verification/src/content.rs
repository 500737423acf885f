//! The content feed: one page of entries at a time.
//!
//! The page is fetched whenever a session snapshot with a valid token
//! arrives and whenever the user turns the page. Of the responses, only the
//! one to the latest request is shown, cut to the size of the page.

use crate::cursor::aligned;
use crate::cursor::back_window;
use crate::cursor::can_advance;
use crate::cursor::lemma_back_aligned;
use crate::cursor::lemma_next_aligned;
use crate::cursor::lemma_next_on_boundary;
use crate::cursor::next_window;
use crate::cursor::PaginationCursor;
use crate::cursor::Window;
use crate::entity::content_views;
use crate::entity::first_n;
use crate::entity::lemma_content_views_first_n;
use crate::entity::ContentEntry;
use crate::entity::ContentEntryView;
use crate::fetch::current;
use crate::fetch::AsyncFetchCoordinator;
use crate::fetch::Outcome;
use crate::store::empty_session;
use crate::store::token_valid;
use crate::store::Session;
use crate::store::UserStore;
use vstd::prelude::*;

verus! {

/// How many entries a page of the feed shows.
pub const PAGE_SIZE: u32 = 15;

/// An event for the content feed.
#[derive(Debug, PartialEq, Eq)]
pub enum ContentMessage {
    /// The session changed, or the subscription was just made.
    UserState(UserStore),
    /// The page request with the given epoch came back with these entries.
    SuccessContentNormal(u64, Vec<ContentEntry>),
    /// The user asked for the following page.
    Next,
    /// The user asked for the preceding page.
    Back,
}

/// The mathematical value of a [`ContentMessage`].
pub enum ContentMessageView {
    UserState(Session),
    SuccessContentNormal(nat, Seq<ContentEntryView>),
    Next,
    Back,
}

impl View for ContentMessage {
    type V = ContentMessageView;

    open spec fn view(&self) -> ContentMessageView {
        match self {
            ContentMessage::UserState(u) => ContentMessageView::UserState(u@),
            ContentMessage::SuccessContentNormal(epoch, data) => {
                ContentMessageView::SuccessContentNormal(*epoch as nat, content_views(data@))
            },
            ContentMessage::Next => ContentMessageView::Next,
            ContentMessage::Back => ContentMessageView::Back,
        }
    }
}

impl ContentMessage {
    /// The event that reports the end of the page request `epoch`. A failed
    /// request reads as an empty page.
    pub fn from_page_result(epoch: u64, result: Result<Vec<ContentEntry>, String>) -> (m:
        ContentMessage)
        ensures
            m@ == ContentMessageView::SuccessContentNormal(
                epoch as nat,
                match result {
                    Ok(data) => content_views(data@),
                    Err(_) => Seq::empty(),
                },
            ),
    {
        match result {
            Ok(data) => ContentMessage::SuccessContentNormal(epoch, data),
            Err(_) => {
                let none: Vec<ContentEntry> = Vec::new();
                assert(content_views(none@) =~= Seq::empty());
                ContentMessage::SuccessContentNormal(epoch, none)
            },
        }
    }
}

/// An action that the content feed wants performed.
#[derive(Debug, PartialEq, Eq)]
pub enum ContentEffect {
    /// Fetch the window `[start, start + take)` of the feed of the session
    /// `token`; answer with [`ContentMessage::SuccessContentNormal`] tagged
    /// `epoch`.
    GetContent { epoch: u64, token: String, start: u32, take: u32 },
    /// Bring the top of the page into sight.
    ScrollToTop,
}

/// The mathematical value of a [`ContentEffect`].
pub enum ContentEffectView {
    GetContent { epoch: nat, token: Seq<char>, start: nat, take: nat },
    ScrollToTop,
}

impl View for ContentEffect {
    type V = ContentEffectView;

    open spec fn view(&self) -> ContentEffectView {
        match self {
            ContentEffect::GetContent { epoch, token, start, take } => {
                ContentEffectView::GetContent {
                    epoch: *epoch as nat,
                    token: token@,
                    start: *start as nat,
                    take: *take as nat,
                }
            },
            ContentEffect::ScrollToTop => ContentEffectView::ScrollToTop,
        }
    }
}

/// The value of an optional action.
pub open spec fn content_effect_of(e: Option<ContentEffect>) -> Option<ContentEffectView> {
    match e {
        Some(e) => Some(e@),
        None => None,
    }
}

/// What `update` answers.
#[derive(Debug, PartialEq, Eq)]
pub struct ContentUpdate {
    /// Whether the feed is to be drawn again.
    pub render: bool,
    /// The action to perform, if any.
    pub effect: Option<ContentEffect>,
    /// How the event was disposed of.
    pub outcome: Outcome,
}

/// The mathematical value of the content feed.
pub struct ContentView {
    /// The latest session snapshot.
    pub session: Session,
    /// The entries on show, in server order.
    pub content: Seq<ContentEntryView>,
    /// The window that the feed is turned to.
    pub cursor: Window,
    /// The epoch of the latest page request.
    pub epoch: nat,
}

/// One step of the content feed: the state after the event and the answer.
pub struct ContentStep {
    pub state: ContentView,
    pub render: bool,
    pub effect: Option<ContentEffectView>,
    pub outcome: Outcome,
}

/// What holds of the feed in every state: the window is aligned and the
/// entries on show fit in one page.
pub open spec fn content_wf(s: ContentView) -> bool {
    aligned(s.cursor) && s.content.len() <= s.cursor.take
}

/// The feed before any event: no session, nothing on show, the first page.
pub open spec fn content_initial() -> ContentView {
    ContentView {
        session: empty_session(),
        content: Seq::empty(),
        cursor: Window { start: 0, take: PAGE_SIZE as nat },
        epoch: 0,
    }
}

/// The token by which `m` is gated in state `s`: that of the snapshot which
/// `m` brings, or else that of the snapshot held.
pub open spec fn content_token(s: ContentView, m: ContentMessageView) -> Seq<char> {
    match m {
        ContentMessageView::UserState(u) => u.token,
        _ => s.session.token,
    }
}

/// Whether `m` makes the feed issue a page request in state `s`.
pub open spec fn content_issues(s: ContentView, m: ContentMessageView) -> bool {
    !(m is SuccessContentNormal) && token_valid(content_token(s, m))
}

/// Whether the feed can take `m` in state `s`: the window that `m` turns to
/// fits, and a page request can still be counted if `m` calls for one.
pub open spec fn content_accepts(s: ContentView, m: ContentMessageView) -> bool {
    &&& m is Next ==> can_advance(s.cursor)
    &&& content_issues(s, m) ==> s.epoch < u64::MAX
}

/// The state and answer of a step that asks for the page at `cursor` on
/// behalf of `session`, or skips the request when the token is not valid.
pub open spec fn content_request(
    s: ContentView,
    session: Session,
    cursor: Window,
    render: bool,
) -> ContentStep {
    if token_valid(session.token) {
        ContentStep {
            state: ContentView { session, cursor, epoch: s.epoch + 1, ..s },
            render,
            effect: Some(
                ContentEffectView::GetContent {
                    epoch: s.epoch + 1,
                    token: session.token,
                    start: cursor.start,
                    take: cursor.take,
                },
            ),
            outcome: Outcome::Applied,
        }
    } else {
        ContentStep {
            state: ContentView { session, cursor, ..s },
            render,
            effect: None,
            outcome: Outcome::GatingSkipped,
        }
    }
}

/// The transition function of the content feed.
pub open spec fn content_step(s: ContentView, m: ContentMessageView) -> ContentStep {
    match m {
        ContentMessageView::UserState(u) => content_request(s, u, s.cursor, true),
        ContentMessageView::Next => content_request(s, s.session, next_window(s.cursor), false),
        ContentMessageView::Back => content_request(s, s.session, back_window(s.cursor), false),
        ContentMessageView::SuccessContentNormal(epoch, data) => {
            if token_valid(s.session.token) && current(s.epoch, epoch) {
                ContentStep {
                    state: ContentView { content: first_n(data, s.cursor.take), ..s },
                    render: true,
                    effect: Some(ContentEffectView::ScrollToTop),
                    outcome: Outcome::Applied,
                }
            } else {
                ContentStep {
                    state: s,
                    render: false,
                    effect: None,
                    outcome: Outcome::StaleResponse,
                }
            }
        },
    }
}

/// The epoch that a step's page request carries, or 0 when the step issued
/// none.
pub open spec fn content_request_epoch(step: ContentStep) -> nat {
    match step.effect {
        Some(ContentEffectView::GetContent { epoch, .. }) => epoch,
        _ => 0,
    }
}

/// Without a valid token the feed issues no request and shows what it
/// showed, whatever the event.
pub proof fn lemma_content_gated(s: ContentView, m: ContentMessageView)
    requires
        !token_valid(content_token(s, m)),
    ensures
        content_step(s, m).effect is None,
        content_step(s, m).state.content == s.content,
        content_step(s, m).state.epoch == s.epoch,
{
}

/// After every step the window starts on a page boundary, spans what it
/// spanned, and at most one page of entries is on show.
pub proof fn lemma_content_step_page(s: ContentView, m: ContentMessageView)
    requires
        content_wf(s),
    ensures
        content_step(s, m).state.cursor.start % content_step(s, m).state.cursor.take == 0,
        content_step(s, m).state.cursor.take == s.cursor.take,
        content_step(s, m).state.content.len() <= content_step(s, m).state.cursor.take,
{
    match m {
        ContentMessageView::Next => {
            lemma_next_on_boundary(s.cursor);
        },
        ContentMessageView::Back => {
            lemma_back_aligned(s.cursor);
        },
        _ => {},
    }
}

/// Every step that the feed can take leaves it well formed.
pub proof fn lemma_content_step_wf(s: ContentView, m: ContentMessageView)
    requires
        content_wf(s),
        content_accepts(s, m),
    ensures
        content_wf(content_step(s, m).state),
{
    lemma_content_step_page(s, m);
    if m is Next {
        lemma_next_aligned(s.cursor);
    } else if m is Back {
        lemma_back_aligned(s.cursor);
    }
}

/// A response that is applied leaves the first page of what the server
/// sent, in the server's order.
pub proof fn lemma_content_response_applied(s: ContentView, epoch: nat, data: Seq<ContentEntryView>)
    requires
        content_wf(s),
        token_valid(s.session.token),
        current(s.epoch, epoch),
    ensures
        content_step(s, ContentMessageView::SuccessContentNormal(epoch, data)).state.content
            == first_n(data, s.cursor.take),
        content_step(s, ContentMessageView::SuccessContentNormal(epoch, data)).state.content.len()
            <= s.cursor.take,
        content_step(s, ContentMessageView::SuccessContentNormal(epoch, data)).state.cursor
            == s.cursor,
{
}

/// A response to any request but the latest changes nothing.
pub proof fn lemma_content_stale_dropped(s: ContentView, epoch: nat, data: Seq<ContentEntryView>)
    requires
        epoch != s.epoch,
    ensures
        content_step(s, ContentMessageView::SuccessContentNormal(epoch, data)).state == s,
        content_step(s, ContentMessageView::SuccessContentNormal(epoch, data)).outcome
            == Outcome::StaleResponse,
        content_step(s, ContentMessageView::SuccessContentNormal(epoch, data)).effect is None,
{
}

/// Requests are numbered in the order in which they are issued: each step
/// that issues one gives it an epoch above all earlier ones.
pub proof fn lemma_content_epochs_increase(s: ContentView, m: ContentMessageView)
    ensures
        content_step(s, m).state.epoch >= s.epoch,
        content_issues(s, m) ==> {
            &&& content_step(s, m).effect matches Some(ContentEffectView::GetContent { .. })
            &&& content_request_epoch(content_step(s, m)) == s.epoch + 1
            &&& content_step(s, m).state.epoch == s.epoch + 1
        },
{
}

/// Let `a` issue a page request and `b` issue another before the first is
/// answered. Then the answer to the first cannot replace the answer to the
/// second: if the second is answered first, its page stays on show when the
/// answer to the first arrives; if the first is answered first, it is dropped
/// and the second is shown when it arrives.
pub proof fn lemma_content_late_response_cannot_overwrite(
    s: ContentView,
    a: ContentMessageView,
    b: ContentMessageView,
    data_a: Seq<ContentEntryView>,
    data_b: Seq<ContentEntryView>,
)
    requires
        content_issues(s, a),
        content_issues(content_step(s, a).state, b),
    ensures
        ({
            let step_a = content_step(s, a);
            let step_b = content_step(step_a.state, b);
            let epoch_a = content_request_epoch(step_a);
            let epoch_b = content_request_epoch(step_b);
            let answer_a = ContentMessageView::SuccessContentNormal(epoch_a, data_a);
            let answer_b = ContentMessageView::SuccessContentNormal(epoch_b, data_b);
            let b_then_a = content_step(content_step(step_b.state, answer_b).state, answer_a);
            let a_then_b = content_step(content_step(step_b.state, answer_a).state, answer_b);
            &&& epoch_a < epoch_b
            &&& b_then_a.state.content == first_n(data_b, step_b.state.cursor.take)
            &&& b_then_a.outcome == Outcome::StaleResponse
            &&& a_then_b.state.content == first_n(data_b, step_b.state.cursor.take)
            &&& content_step(step_b.state, answer_a).state == step_b.state
        }),
{
}

/// The properties handed to the widget that embeds raw markup.
#[derive(Clone, Debug, PartialEq, Eq)]
pub struct Props {
    pub html: String,
}

/// One row of the feed as it is drawn.
#[derive(Debug, PartialEq, Eq)]
pub struct ContentRow {
    /// The text of the row's link.
    pub title: String,
    /// The target of the row's link.
    pub href: String,
    /// The markup below the link.
    pub body: Props,
}

/// The mathematical value of a [`ContentRow`].
pub struct ContentRowView {
    pub title: Seq<char>,
    pub href: Seq<char>,
    pub html: Seq<char>,
}

impl View for ContentRow {
    type V = ContentRowView;

    open spec fn view(&self) -> ContentRowView {
        ContentRowView { title: self.title@, href: self.href@, html: self.body.html@ }
    }
}

/// The row that shows `e`: an entry without a description gets empty markup.
pub open spec fn row_of(e: ContentEntryView) -> ContentRowView {
    ContentRowView {
        title: e.title,
        href: e.url,
        html: match e.description {
            Some(d) => d,
            None => Seq::empty(),
        },
    }
}

/// The content feed.
pub struct ContentPage {
    state: UserStore,
    content: Vec<ContentEntry>,
    cursor: PaginationCursor,
    fetches: AsyncFetchCoordinator,
}

impl View for ContentPage {
    type V = ContentView;

    closed spec fn view(&self) -> ContentView {
        ContentView {
            session: self.state@,
            content: content_views(self.content@),
            cursor: self.cursor@,
            epoch: self.fetches@,
        }
    }
}

impl ContentPage {
    #[verifier::type_invariant]
    spec fn inv(self) -> bool {
        content_wf(self@)
    }

    /// The feed before any event.
    pub fn create() -> (r: ContentPage)
        ensures
            r@ == content_initial(),
            content_wf(r@),
    {
        let content: Vec<ContentEntry> = Vec::new();
        assert(content_views(content@) =~= Seq::empty());
        ContentPage {
            state: UserStore::default(),
            content,
            cursor: PaginationCursor::first_page(PAGE_SIZE),
            fetches: AsyncFetchCoordinator::new(),
        }
    }

    /// The latest session snapshot.
    pub fn state(&self) -> (r: &UserStore)
        ensures
            r@ == self@.session,
    {
        &self.state
    }

    /// The entries on show: never more than a page.
    pub fn content(&self) -> (r: &Vec<ContentEntry>)
        ensures
            content_views(r@) == self@.content,
            r@.len() <= self@.cursor.take,
    {
        proof {
            use_type_invariant(self);
        }
        &self.content
    }

    /// The window that the feed is turned to.
    pub fn cursor(&self) -> (r: PaginationCursor)
        ensures
            r@ == self@.cursor,
            aligned(r@),
    {
        proof {
            use_type_invariant(self);
        }
        self.cursor
    }

    /// The epoch of the latest page request.
    pub fn epoch(&self) -> (r: u64)
        ensures
            r == self@.epoch,
    {
        self.fetches.latest()
    }

    /// Whether `update` may be called with `msg`.
    pub fn accepts(&self, msg: &ContentMessage) -> (r: bool)
        ensures
            r == content_accepts(self@, msg@),
    {
        match msg {
            ContentMessage::UserState(u) => !u.has_session() || self.fetches.can_issue(),
            ContentMessage::SuccessContentNormal(_, _) => true,
            ContentMessage::Next => self.cursor.has_next() && (!self.state.has_session()
                || self.fetches.can_issue()),
            ContentMessage::Back => !self.state.has_session() || self.fetches.can_issue(),
        }
    }

    /// Counts and describes the request for the page that the feed is turned
    /// to, unless the token held is not valid.
    fn request(&mut self, render: bool) -> (r: ContentUpdate)
        requires
            token_valid(old(self)@.session.token) ==> old(self)@.epoch < u64::MAX,
        ensures
            content_request(old(self)@, old(self)@.session, old(self)@.cursor, render) == (
            ContentStep {
                state: final(self)@,
                render: r.render,
                effect: content_effect_of(r.effect),
                outcome: r.outcome,
            }),
    {
        proof {
            use_type_invariant(&*self);
        }
        if !self.state.has_session() {
            return ContentUpdate { render, effect: None, outcome: Outcome::GatingSkipped };
        }
        let token = self.state.token.clone();
        let start = self.cursor.start();
        let take = self.cursor.take();
        let ticket = self.fetches.fetch(token);
        ContentUpdate {
            render,
            effect: Some(
                ContentEffect::GetContent { epoch: ticket.epoch, token: ticket.token, start, take },
            ),
            outcome: Outcome::Applied,
        }
    }

    /// Takes `msg` into the state and answers with what is to be done.
    ///
    /// Without a valid token no request is issued and the entries on show
    /// stay as they are. Turning the page moves the window by one page, never
    /// below the first. A response is shown only while it is the response to
    /// the latest request, and then at most one page of it.
    pub fn update(&mut self, msg: ContentMessage) -> (r: ContentUpdate)
        requires
            content_accepts(old(self)@, msg@),
        ensures
            content_step(old(self)@, msg@) == (ContentStep {
                state: final(self)@,
                render: r.render,
                effect: content_effect_of(r.effect),
                outcome: r.outcome,
            }),
            !token_valid(content_token(old(self)@, msg@)) ==> r.effect is None && final(self)@.content
                == old(self)@.content,
            content_wf(final(self)@),
            final(self)@.cursor.take == old(self)@.cursor.take,
            final(self)@.epoch >= old(self)@.epoch,
    {
        proof {
            use_type_invariant(&*self);
        }
        match msg {
            ContentMessage::UserState(state) => {
                self.state = state;
                self.request(true)
            },
            ContentMessage::Next => {
                self.cursor = self.cursor.next();
                self.request(false)
            },
            ContentMessage::Back => {
                self.cursor = self.cursor.back();
                self.request(false)
            },
            ContentMessage::SuccessContentNormal(epoch, content) => {
                if !self.state.has_session() || !self.fetches.is_current(epoch) {
                    return ContentUpdate {
                        render: false,
                        effect: None,
                        outcome: Outcome::StaleResponse,
                    };
                }
                let mut page = content;
                let take = self.cursor.take() as usize;
                proof {
                    lemma_content_views_first_n(page@, take as nat);
                }
                if page.len() > take {
                    page.truncate(take);
                }
                self.content = page;
                ContentUpdate {
                    render: true,
                    effect: Some(ContentEffect::ScrollToTop),
                    outcome: Outcome::Applied,
                }
            },
        }
    }

    /// The rows of the feed as they are drawn, one for each entry on show and
    /// in the same order.
    pub fn get_content(&self) -> (rows: Vec<ContentRow>)
        ensures
            rows@.len() == self@.content.len(),
            forall|i: int| 0 <= i < rows@.len() ==> (#[trigger] rows@[i])@ == row_of(self@.content[i]),
    {
        let mut rows: Vec<ContentRow> = Vec::new();
        let mut i: usize = 0;
        while i < self.content.len()
            invariant
                i <= self.content.len(),
                rows@.len() == i,
                forall|k: int|
                    0 <= k < i ==> (#[trigger] rows@[k])@ == row_of(content_views(self.content@)[k]),
            decreases self.content.len() - i,
        {
            let entry = &self.content[i];
            let html = match &entry.description {
                Some(desc) => desc.clone(),
                None => String::new(),
            };
            rows.push(
                ContentRow { title: entry.title.clone(), href: entry.url.clone(), body: Props { html } },
            );
            i += 1;
        }
        rows
    }
}

} // verus!
