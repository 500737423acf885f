//! The sign-up screen: a form that leads to success.
//!
//! The form is checked before anything is sent. A mismatch of the two
//! passwords keeps the screen on the form and marks it invalid; a refusal by
//! the server keeps it on the form and records the reason. Only a created
//! user moves the screen on.

use crate::entity::text_of;
use crate::fetch::Outcome;
use crate::store::empty_session;
use crate::store::Mutation;
use crate::store::MutationView;
use crate::store::Session;
use crate::store::UserStore;
use vstd::prelude::*;

verus! {

/// An event for the sign-up screen.
#[derive(Debug, PartialEq, Eq)]
pub enum SignUpMessage {
    /// The user submitted the form.
    SignUp,
    /// The server created the user with this id.
    Success(String),
    /// The server could not be asked to create the user, for this reason.
    Failure(String),
    /// The user edited the name field.
    InputUsername(String),
    /// The user edited the password field.
    InputPassword(String),
    /// The user edited the field that repeats the password.
    InputPasswordRepeat(String),
    /// The session changed, or the subscription was just made.
    UserState(UserStore),
}

/// The mathematical value of a [`SignUpMessage`].
pub enum SignUpMessageView {
    SignUp,
    Success(Seq<char>),
    Failure(Seq<char>),
    InputUsername(Seq<char>),
    InputPassword(Seq<char>),
    InputPasswordRepeat(Seq<char>),
    UserState(Session),
}

impl View for SignUpMessage {
    type V = SignUpMessageView;

    open spec fn view(&self) -> SignUpMessageView {
        match self {
            SignUpMessage::SignUp => SignUpMessageView::SignUp,
            SignUpMessage::Success(id) => SignUpMessageView::Success(id@),
            SignUpMessage::Failure(reason) => SignUpMessageView::Failure(reason@),
            SignUpMessage::InputUsername(s) => SignUpMessageView::InputUsername(s@),
            SignUpMessage::InputPassword(s) => SignUpMessageView::InputPassword(s@),
            SignUpMessage::InputPasswordRepeat(s) => SignUpMessageView::InputPasswordRepeat(s@),
            SignUpMessage::UserState(u) => SignUpMessageView::UserState(u@),
        }
    }
}

impl SignUpMessage {
    /// The event that reports the end of a sign-up request: the id of the
    /// created user, or the reason why none was created. A failure never
    /// reads as a success.
    pub fn from_result(result: Result<String, String>) -> (m: SignUpMessage)
        ensures
            m@ == match result {
                Ok(user_id) => SignUpMessageView::Success(user_id@),
                Err(reason) => SignUpMessageView::Failure(reason@),
            },
    {
        match result {
            Ok(user_id) => SignUpMessage::Success(user_id),
            Err(reason) => SignUpMessage::Failure(reason),
        }
    }
}

/// Where the sign-up screen stands.
#[derive(Clone, Copy, Debug, PartialEq, Eq, Structural)]
pub enum Stages {
    /// The form is on show.
    Form,
    /// The user was created.
    Success,
}

/// An action that the sign-up screen wants performed.
#[derive(Debug, PartialEq, Eq)]
pub enum SignUpEffect {
    /// Ask the server to create the user; answer with
    /// [`SignUpMessage::Success`] or [`SignUpMessage::Failure`].
    SignUp { username: String, password: String },
    /// Apply this change to the session store.
    Reduce(Mutation),
}

/// The mathematical value of a [`SignUpEffect`].
pub enum SignUpEffectView {
    SignUp { username: Seq<char>, password: Seq<char> },
    Reduce(MutationView),
}

impl View for SignUpEffect {
    type V = SignUpEffectView;

    open spec fn view(&self) -> SignUpEffectView {
        match self {
            SignUpEffect::SignUp { username, password } => SignUpEffectView::SignUp {
                username: username@,
                password: password@,
            },
            SignUpEffect::Reduce(m) => SignUpEffectView::Reduce(m@),
        }
    }
}

/// The value of an optional action.
pub open spec fn sign_up_effect_of(e: Option<SignUpEffect>) -> Option<SignUpEffectView> {
    match e {
        Some(e) => Some(e@),
        None => None,
    }
}

/// What `update` answers.
#[derive(Debug, PartialEq, Eq)]
pub struct SignUpUpdate {
    /// Whether the screen is to be drawn again.
    pub render: bool,
    /// The action to perform, if any.
    pub effect: Option<SignUpEffect>,
    /// How the event was disposed of.
    pub outcome: Outcome,
}

/// The mathematical value of the sign-up screen.
pub struct SignUpView {
    /// The name field of the form.
    pub username: Seq<char>,
    /// The password field of the form.
    pub password: Seq<char>,
    /// The field of the form that repeats the password.
    pub password_repeat: Seq<char>,
    /// The latest session snapshot.
    pub session: Session,
    /// Where the screen stands.
    pub stage: Stages,
    /// Whether the form as last submitted failed its check.
    pub invalid: bool,
    /// Why the latest request failed, if it did.
    pub error: Option<Seq<char>>,
}

/// One step of the sign-up screen: the state after the event and the answer.
pub struct SignUpStep {
    pub state: SignUpView,
    pub render: bool,
    pub effect: Option<SignUpEffectView>,
    pub outcome: Outcome,
}

/// The sign-up screen before any event: an empty form.
pub open spec fn sign_up_initial() -> SignUpView {
    SignUpView {
        username: Seq::empty(),
        password: Seq::empty(),
        password_repeat: Seq::empty(),
        session: empty_session(),
        stage: Stages::Form,
        invalid: false,
        error: None,
    }
}

/// The form passes its check when the two passwords are the same.
pub open spec fn form_valid(s: SignUpView) -> bool {
    s.password == s.password_repeat
}

/// The transition function of the sign-up screen.
pub open spec fn sign_up_step(s: SignUpView, m: SignUpMessageView) -> SignUpStep {
    match m {
        SignUpMessageView::InputUsername(text) => SignUpStep {
            state: SignUpView { username: text, ..s },
            render: true,
            effect: None,
            outcome: Outcome::Applied,
        },
        SignUpMessageView::InputPassword(text) => SignUpStep {
            state: SignUpView { password: text, ..s },
            render: true,
            effect: None,
            outcome: Outcome::Applied,
        },
        SignUpMessageView::InputPasswordRepeat(text) => SignUpStep {
            state: SignUpView { password_repeat: text, ..s },
            render: true,
            effect: None,
            outcome: Outcome::Applied,
        },
        SignUpMessageView::SignUp => {
            if form_valid(s) {
                SignUpStep {
                    state: SignUpView { invalid: false, error: None, ..s },
                    render: s.invalid || s.error is Some,
                    effect: Some(
                        SignUpEffectView::SignUp { username: s.username, password: s.password },
                    ),
                    outcome: Outcome::Applied,
                }
            } else {
                SignUpStep {
                    state: SignUpView { invalid: true, ..s },
                    render: true,
                    effect: None,
                    outcome: Outcome::ValidationFailure,
                }
            }
        },
        SignUpMessageView::Success(user_id) => SignUpStep {
            state: SignUpView { stage: Stages::Success, invalid: false, error: None, ..s },
            render: true,
            effect: Some(SignUpEffectView::Reduce(MutationView::SignedUp { user_id })),
            outcome: Outcome::Applied,
        },
        SignUpMessageView::Failure(reason) => SignUpStep {
            state: SignUpView { error: Some(reason), ..s },
            render: true,
            effect: None,
            outcome: Outcome::NetworkFailure,
        },
        SignUpMessageView::UserState(u) => SignUpStep {
            state: SignUpView { session: u, ..s },
            render: true,
            effect: None,
            outcome: Outcome::Applied,
        },
    }
}

/// A form whose two passwords differ sends nothing, leaves the stage where it
/// was, and shows the form as invalid.
pub proof fn lemma_sign_up_mismatch(s: SignUpView)
    requires
        s.password != s.password_repeat,
    ensures
        sign_up_step(s, SignUpMessageView::SignUp).effect is None,
        sign_up_step(s, SignUpMessageView::SignUp).state.stage == s.stage,
        s.stage == Stages::Form ==> sign_up_step(s, SignUpMessageView::SignUp).state.stage
            == Stages::Form,
        sign_up_step(s, SignUpMessageView::SignUp).state.invalid,
        sign_up_step(s, SignUpMessageView::SignUp).render,
        sign_up_step(s, SignUpMessageView::SignUp).outcome == Outcome::ValidationFailure,
{
}

/// The stage changes on a created user and on nothing else; a refusal keeps
/// the stage and records its reason.
pub proof fn lemma_sign_up_stage(s: SignUpView, m: SignUpMessageView)
    ensures
        sign_up_step(s, m).state.stage != s.stage ==> m is Success && s.stage == Stages::Form,
        m is Success ==> sign_up_step(s, m).state.stage == Stages::Success,
        m matches SignUpMessageView::Failure(reason) ==> sign_up_step(s, m).state.stage == s.stage
            && sign_up_step(s, m).state.error == Some(reason) && sign_up_step(s, m).effect is None,
{
}

/// The sign-up screen.
pub struct SignUpPage {
    username: String,
    password: String,
    password_repeat: String,
    state: UserStore,
    stage: Stages,
    invalid: bool,
    error: Option<String>,
}

impl View for SignUpPage {
    type V = SignUpView;

    closed spec fn view(&self) -> SignUpView {
        SignUpView {
            username: self.username@,
            password: self.password@,
            password_repeat: self.password_repeat@,
            session: self.state@,
            stage: self.stage,
            invalid: self.invalid,
            error: text_of(self.error),
        }
    }
}

impl SignUpPage {
    /// The sign-up screen before any event.
    pub fn create() -> (r: SignUpPage)
        ensures
            r@ == sign_up_initial(),
    {
        SignUpPage {
            username: String::new(),
            password: String::new(),
            password_repeat: String::new(),
            state: UserStore::default(),
            stage: Stages::Form,
            invalid: false,
            error: None,
        }
    }

    /// The name field of the form.
    pub fn username(&self) -> (r: &String)
        ensures
            r@ == self@.username,
    {
        &self.username
    }

    /// The password field of the form.
    pub fn password(&self) -> (r: &String)
        ensures
            r@ == self@.password,
    {
        &self.password
    }

    /// The field of the form that repeats the password.
    pub fn password_repeat(&self) -> (r: &String)
        ensures
            r@ == self@.password_repeat,
    {
        &self.password_repeat
    }

    /// The latest session snapshot.
    pub fn state(&self) -> (r: &UserStore)
        ensures
            r@ == self@.session,
    {
        &self.state
    }

    /// Where the screen stands.
    pub fn stage(&self) -> (r: Stages)
        ensures
            r == self@.stage,
    {
        self.stage
    }

    /// Whether the form as last submitted failed its check.
    pub fn is_invalid(&self) -> (r: bool)
        ensures
            r == self@.invalid,
    {
        self.invalid
    }

    /// Why the latest request failed, if it did.
    pub fn error(&self) -> (r: &Option<String>)
        ensures
            text_of(*r) == self@.error,
    {
        &self.error
    }

    /// Takes `msg` into the state and answers with what is to be done.
    ///
    /// A form whose two passwords differ sends nothing and leaves the stage
    /// as it is. The stage moves to `Success` on a created user and on
    /// nothing else.
    pub fn update(&mut self, msg: SignUpMessage) -> (r: SignUpUpdate)
        ensures
            sign_up_step(old(self)@, msg@) == (SignUpStep {
                state: final(self)@,
                render: r.render,
                effect: sign_up_effect_of(r.effect),
                outcome: r.outcome,
            }),
            msg is SignUp && !form_valid(old(self)@) ==> r.effect is None && final(self)@.stage
                == old(self)@.stage,
            final(self)@.stage != old(self)@.stage ==> msg is Success,
    {
        match msg {
            SignUpMessage::InputUsername(username) => {
                self.username = username;
                SignUpUpdate { render: true, effect: None, outcome: Outcome::Applied }
            },
            SignUpMessage::InputPassword(password) => {
                self.password = password;
                SignUpUpdate { render: true, effect: None, outcome: Outcome::Applied }
            },
            SignUpMessage::InputPasswordRepeat(password) => {
                self.password_repeat = password;
                SignUpUpdate { render: true, effect: None, outcome: Outcome::Applied }
            },
            SignUpMessage::SignUp => {
                if !(self.password == self.password_repeat) {
                    self.invalid = true;
                    return SignUpUpdate {
                        render: true,
                        effect: None,
                        outcome: Outcome::ValidationFailure,
                    };
                }
                let username = self.username.clone();
                let password = self.password.clone();
                let render = self.invalid || self.error.is_some();
                self.invalid = false;
                self.error = None;
                SignUpUpdate {
                    render,
                    effect: Some(SignUpEffect::SignUp { username, password }),
                    outcome: Outcome::Applied,
                }
            },
            SignUpMessage::Success(user_id) => {
                self.stage = Stages::Success;
                self.invalid = false;
                self.error = None;
                SignUpUpdate {
                    render: true,
                    effect: Some(SignUpEffect::Reduce(Mutation::SignedUp { user_id })),
                    outcome: Outcome::Applied,
                }
            },
            SignUpMessage::Failure(reason) => {
                self.error = Some(reason);
                SignUpUpdate { render: true, effect: None, outcome: Outcome::NetworkFailure }
            },
            SignUpMessage::UserState(state) => {
                self.state = state;
                SignUpUpdate { render: true, effect: None, outcome: Outcome::Applied }
            },
        }
    }
}

} // verus!
