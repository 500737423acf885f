use gated_views::fetch::Outcome;
use gated_views::sign_up::SignUpEffect;
use gated_views::sign_up::SignUpMessage;
use gated_views::sign_up::SignUpPage;
use gated_views::sign_up::SignUpUpdate;
use gated_views::sign_up::Stages;
use gated_views::store::Mutation;
use gated_views::store::SessionStore;
use gated_views::store::UserStore;

fn quiet(render: bool, outcome: Outcome) -> SignUpUpdate {
    SignUpUpdate { render, effect: None, outcome }
}

fn filled(username: &str, password: &str, repeat: &str) -> SignUpPage {
    let mut page = SignUpPage::create();
    page.update(SignUpMessage::InputUsername(username.to_string()));
    page.update(SignUpMessage::InputPassword(password.to_string()));
    page.update(SignUpMessage::InputPasswordRepeat(repeat.to_string()));
    page
}

#[test]
fn a_new_sign_up_screen_shows_an_empty_form() {
    let page = SignUpPage::create();
    assert_eq!(page.stage(), Stages::Form);
    assert_eq!(page.username(), "");
    assert_eq!(page.password(), "");
    assert_eq!(page.password_repeat(), "");
    assert!(!page.is_invalid());
    assert_eq!(*page.error(), None);
    assert_eq!(*page.state(), UserStore::default());
}

#[test]
fn the_sign_up_fields_follow_the_input() {
    let mut page = SignUpPage::create();
    assert_eq!(
        page.update(SignUpMessage::InputUsername("ann".to_string())),
        quiet(true, Outcome::Applied)
    );
    assert_eq!(
        page.update(SignUpMessage::InputPassword("s3cret".to_string())),
        quiet(true, Outcome::Applied)
    );
    assert_eq!(
        page.update(SignUpMessage::InputPasswordRepeat("s3cre".to_string())),
        quiet(true, Outcome::Applied)
    );
    assert_eq!(page.username(), "ann");
    assert_eq!(page.password(), "s3cret");
    assert_eq!(page.password_repeat(), "s3cre");
}

#[test]
fn a_password_mismatch_sends_nothing_and_stays_on_the_form() {
    let mut page = filled("ann", "s3cret", "secret");
    let r = page.update(SignUpMessage::SignUp);
    assert_eq!(r, quiet(true, Outcome::ValidationFailure));
    assert!(r.outcome.is_reported());
    assert_eq!(page.stage(), Stages::Form);
    assert!(page.is_invalid());
}

#[test]
fn a_mismatch_can_be_mended() {
    let mut page = filled("ann", "s3cret", "secret");
    page.update(SignUpMessage::SignUp);
    page.update(SignUpMessage::InputPasswordRepeat("s3cret".to_string()));
    assert!(page.is_invalid());
    let r = page.update(SignUpMessage::SignUp);
    assert_eq!(
        r,
        SignUpUpdate {
            render: true,
            effect: Some(SignUpEffect::SignUp {
                username: "ann".to_string(),
                password: "s3cret".to_string(),
            }),
            outcome: Outcome::Applied,
        }
    );
    assert!(!page.is_invalid());
    assert_eq!(page.stage(), Stages::Form);
}

#[test]
fn a_valid_form_is_sent_without_redrawing() {
    let mut page = filled("ann", "s3cret", "s3cret");
    let r = page.update(SignUpMessage::SignUp);
    assert_eq!(
        r,
        SignUpUpdate {
            render: false,
            effect: Some(SignUpEffect::SignUp {
                username: "ann".to_string(),
                password: "s3cret".to_string(),
            }),
            outcome: Outcome::Applied,
        }
    );
    assert_eq!(page.stage(), Stages::Form);
}

#[test]
fn an_empty_form_has_matching_passwords() {
    let mut page = SignUpPage::create();
    let r = page.update(SignUpMessage::SignUp);
    assert_eq!(
        r.effect,
        Some(SignUpEffect::SignUp { username: String::new(), password: String::new() })
    );
}

#[test]
fn a_created_user_moves_the_screen_on_and_is_stored() {
    let mut page = filled("ann", "s3cret", "s3cret");
    page.update(SignUpMessage::SignUp);
    let r = page.update(SignUpMessage::Success("u-42".to_string()));
    assert_eq!(
        r,
        SignUpUpdate {
            render: true,
            effect: Some(SignUpEffect::Reduce(Mutation::SignedUp { user_id: "u-42".to_string() })),
            outcome: Outcome::Applied,
        }
    );
    assert_eq!(page.stage(), Stages::Success);
}

#[test]
fn a_refusal_stays_on_the_form_and_is_recorded() {
    let mut page = filled("ann", "s3cret", "s3cret");
    page.update(SignUpMessage::SignUp);
    let r = page.update(SignUpMessage::Failure("name taken".to_string()));
    assert_eq!(r, quiet(true, Outcome::NetworkFailure));
    assert!(r.outcome.is_reported());
    assert_eq!(page.stage(), Stages::Form);
    assert_eq!(*page.error(), Some("name taken".to_string()));
    let r = page.update(SignUpMessage::SignUp);
    assert!(r.render);
    assert_eq!(*page.error(), None);
}

#[test]
fn a_failure_never_reads_as_a_created_user() {
    assert_eq!(
        SignUpMessage::from_result(Err("error".to_string())),
        SignUpMessage::Failure("error".to_string())
    );
    assert_eq!(
        SignUpMessage::from_result(Ok("u-1".to_string())),
        SignUpMessage::Success("u-1".to_string())
    );
}

#[test]
fn a_user_whose_id_is_the_word_error_is_still_a_created_user() {
    let mut page = SignUpPage::create();
    page.update(SignUpMessage::from_result(Ok("error".to_string())));
    assert_eq!(page.stage(), Stages::Success);
}

#[test]
fn the_sign_up_screen_keeps_the_latest_snapshot() {
    let mut page = SignUpPage::create();
    let snapshot = UserStore { token: "tok".to_string(), user_id: "me".to_string() };
    let r = page.update(SignUpMessage::UserState(snapshot.clone()));
    assert_eq!(r, quiet(true, Outcome::Applied));
    assert_eq!(*page.state(), snapshot);
    assert_eq!(page.stage(), Stages::Form);
}

#[test]
fn the_stored_user_reaches_every_subscriber() {
    let mut store = SessionStore::new();
    let first = store.subscribe().unwrap();
    let second = store.subscribe().unwrap();
    let mut page = SignUpPage::create();
    page.update(SignUpMessage::UserState(first.snapshot));
    let update = page.update(SignUpMessage::Success("u-7".to_string()));
    let sent = match update.effect {
        Some(SignUpEffect::Reduce(mutation)) => store.reduce(mutation),
        other => panic!("unexpected effect {:?}", other),
    };
    assert_eq!(sent.recipients, vec![first.handle, second.handle]);
    assert_eq!(sent.snapshot.user_id, "u-7");
    assert_eq!(sent.snapshot.token, "");
}
