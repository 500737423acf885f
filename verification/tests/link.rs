use gated_views::entity::LinkEntry;
use gated_views::fetch::Outcome;
use gated_views::link::LinkComponent;
use gated_views::link::LinkEffect;
use gated_views::link::LinkMessage;
use gated_views::link::LinkUpdate;
use gated_views::store::UserStore;

fn signed_in(token: &str) -> LinkMessage {
    LinkMessage::UserState(UserStore { token: token.to_string(), user_id: "me".to_string() })
}

fn entry(id: u64, name: &str) -> LinkEntry {
    LinkEntry { id, name: name.to_string(), url: format!("https://example.org/{}", name) }
}

fn quiet(render: bool, outcome: Outcome) -> LinkUpdate {
    LinkUpdate { render, effect: None, outcome }
}

#[test]
fn a_new_link_list_is_empty() {
    let list = LinkComponent::create();
    assert!(list.links().is_empty());
    assert_eq!(list.link(), "");
    assert_eq!(list.name(), "");
    assert_eq!(list.epoch(), 0);
    assert_eq!(*list.error(), None);
    assert_eq!(*list.state(), UserStore::default());
}

#[test]
fn link_list_fetches_when_a_token_arrives() {
    let mut list = LinkComponent::create();
    let r = list.update(signed_in("tok"));
    assert_eq!(
        r,
        LinkUpdate {
            render: true,
            effect: Some(LinkEffect::GetLinks { epoch: 1, token: "tok".to_string() }),
            outcome: Outcome::Applied,
        }
    );
    assert_eq!(list.epoch(), 1);
    assert_eq!(list.state().token, "tok");
}

#[test]
fn link_list_does_not_fetch_without_a_token() {
    let mut list = LinkComponent::create();
    assert_eq!(list.update(signed_in("")), quiet(true, Outcome::GatingSkipped));
    assert_eq!(list.epoch(), 0);
    assert!(list.links().is_empty());
}

#[test]
fn link_list_does_not_fetch_with_the_error_token() {
    let mut list = LinkComponent::create();
    list.update(signed_in("tok"));
    list.update(LinkMessage::Success(1, vec![entry(1, "a")]));
    let r = list.update(signed_in("error"));
    assert_eq!(r, quiet(true, Outcome::GatingSkipped));
    assert_eq!(list.epoch(), 1);
    assert_eq!(*list.links(), vec![entry(1, "a")]);
    assert_eq!(list.state().token, "error");
}

#[test]
fn link_list_shows_the_answer_to_its_latest_request() {
    let mut list = LinkComponent::create();
    list.update(signed_in("tok"));
    let r = list.update(LinkMessage::Success(1, vec![entry(1, "a"), entry(2, "b")]));
    assert_eq!(r, quiet(true, Outcome::Applied));
    assert_eq!(*list.links(), vec![entry(1, "a"), entry(2, "b")]);
}

#[test]
fn link_list_drops_the_answer_to_an_earlier_request() {
    let mut list = LinkComponent::create();
    list.update(signed_in("one"));
    list.update(signed_in("two"));
    assert_eq!(list.epoch(), 2);
    let r = list.update(LinkMessage::Success(2, vec![entry(2, "b")]));
    assert_eq!(r.outcome, Outcome::Applied);
    let r = list.update(LinkMessage::Success(1, vec![entry(1, "a")]));
    assert_eq!(r, quiet(false, Outcome::StaleResponse));
    assert_eq!(*list.links(), vec![entry(2, "b")]);
}

#[test]
fn link_list_drops_an_early_answer_that_arrives_first() {
    let mut list = LinkComponent::create();
    list.update(signed_in("one"));
    list.update(signed_in("two"));
    let r = list.update(LinkMessage::Success(1, vec![entry(1, "a")]));
    assert_eq!(r, quiet(false, Outcome::StaleResponse));
    assert!(list.links().is_empty());
    list.update(LinkMessage::Success(2, vec![entry(2, "b")]));
    assert_eq!(*list.links(), vec![entry(2, "b")]);
}

#[test]
fn link_list_drops_an_answer_that_arrives_after_sign_out() {
    let mut list = LinkComponent::create();
    list.update(signed_in("tok"));
    list.update(signed_in(""));
    let r = list.update(LinkMessage::Success(1, vec![entry(1, "a")]));
    assert_eq!(r, quiet(false, Outcome::StaleResponse));
    assert!(list.links().is_empty());
}

#[test]
fn a_failed_list_request_reads_as_an_empty_list() {
    let m = LinkMessage::from_list_result(3, Err("timed out".to_string()));
    assert_eq!(m, LinkMessage::Success(3, vec![]));
    let m = LinkMessage::from_list_result(4, Ok(vec![entry(1, "a")]));
    assert_eq!(m, LinkMessage::Success(4, vec![entry(1, "a")]));
}

#[test]
fn a_failed_creation_keeps_its_reason() {
    let m = LinkMessage::from_create_result(Err("refused".to_string()));
    assert_eq!(m, LinkMessage::Error("refused".to_string()));
    let m = LinkMessage::from_create_result(Ok(entry(9, "z")));
    assert_eq!(m, LinkMessage::SuccessAdded(entry(9, "z")));
}

#[test]
fn the_form_fields_follow_the_input() {
    let mut list = LinkComponent::create();
    assert_eq!(list.update(LinkMessage::InputName("docs".to_string())), quiet(true, Outcome::Applied));
    assert_eq!(
        list.update(LinkMessage::InputLink("https://docs.rs".to_string())),
        quiet(true, Outcome::Applied)
    );
    assert_eq!(list.name(), "docs");
    assert_eq!(list.link(), "https://docs.rs");
}

#[test]
fn add_sends_the_form_and_shows_nothing_yet() {
    let mut list = LinkComponent::create();
    list.update(signed_in("tok"));
    list.update(LinkMessage::InputName("docs".to_string()));
    list.update(LinkMessage::InputLink("https://docs.rs".to_string()));
    let r = list.update(LinkMessage::Add);
    assert_eq!(
        r,
        LinkUpdate {
            render: true,
            effect: Some(LinkEffect::CreateLink {
                token: "tok".to_string(),
                name: "docs".to_string(),
                url: "https://docs.rs".to_string(),
            }),
            outcome: Outcome::Applied,
        }
    );
    assert!(list.links().is_empty());
    assert_eq!(list.epoch(), 1);
}

#[test]
fn add_sends_nothing_without_a_token() {
    let mut list = LinkComponent::create();
    list.update(LinkMessage::InputName("docs".to_string()));
    assert_eq!(list.update(LinkMessage::Add), quiet(false, Outcome::GatingSkipped));
    list.update(signed_in("error"));
    assert_eq!(list.update(LinkMessage::Add), quiet(false, Outcome::GatingSkipped));
    assert!(list.links().is_empty());
}

#[test]
fn a_confirmed_link_goes_to_the_end_with_the_id_the_server_gave() {
    let mut list = LinkComponent::create();
    list.update(signed_in("tok"));
    list.update(LinkMessage::Success(1, vec![entry(4, "a"), entry(5, "b")]));
    list.update(LinkMessage::Add);
    let r = list.update(LinkMessage::SuccessAdded(entry(77, "c")));
    assert_eq!(r, quiet(true, Outcome::Applied));
    assert_eq!(*list.links(), vec![entry(4, "a"), entry(5, "b"), entry(77, "c")]);
    assert_eq!(list.links().last().unwrap().id, 77);
}

#[test]
fn a_failed_addition_leaves_the_list_and_is_recorded() {
    let mut list = LinkComponent::create();
    list.update(signed_in("tok"));
    list.update(LinkMessage::Success(1, vec![entry(4, "a")]));
    list.update(LinkMessage::Add);
    let r = list.update(LinkMessage::Error("refused".to_string()));
    assert_eq!(r, quiet(true, Outcome::NetworkFailure));
    assert!(r.outcome.is_reported());
    assert_eq!(*list.links(), vec![entry(4, "a")]);
    assert_eq!(*list.error(), Some("refused".to_string()));
}

#[test]
fn a_new_attempt_clears_the_recorded_failure() {
    let mut list = LinkComponent::create();
    list.update(signed_in("tok"));
    list.update(LinkMessage::Error("refused".to_string()));
    list.update(LinkMessage::Add);
    assert_eq!(*list.error(), None);
}

#[test]
fn a_confirmation_after_sign_out_is_dropped() {
    let mut list = LinkComponent::create();
    list.update(signed_in("tok"));
    list.update(LinkMessage::Add);
    list.update(signed_in(""));
    let r = list.update(LinkMessage::SuccessAdded(entry(1, "a")));
    assert_eq!(r, quiet(false, Outcome::StaleResponse));
    assert!(list.links().is_empty());
}

#[test]
fn link_list_accepts_every_event_while_requests_can_be_counted() {
    let list = LinkComponent::create();
    assert!(list.accepts(&signed_in("tok")));
    assert!(list.accepts(&signed_in("")));
    assert!(list.accepts(&LinkMessage::Add));
    assert!(list.accepts(&LinkMessage::Success(0, vec![])));
}
