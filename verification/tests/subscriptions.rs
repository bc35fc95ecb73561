use zero2prod::subscriber::Subscriber;
use zero2prod::subscriptions::{insert_outcome, subscribe, FormData, Status, SubscribeAction};

fn form(name: &str, email: &str) -> FormData {
    FormData::new(email.to_string(), name.to_string())
}

#[test]
fn should_200_for_valid_form() {
    match subscribe(form("le guin", "ursula_le_guin@gmail.com")) {
        SubscribeAction::Insert(s) => {
            assert_eq!(s.email.as_ref(), "ursula_le_guin@gmail.com");
            assert_eq!(s.name.as_ref(), "le guin");
            assert_eq!(insert_outcome(true).code(), 200);
        }
        SubscribeAction::Respond(_) => panic!("a valid form was refused"),
    }
}

#[test]
fn should_400_on_invalid_params() {
    let cases = vec![
        ("le guin", "", "missing the email"),
        ("", "ursula_le_guin@gmail.com", "missing the name"),
        ("", "", "missing both name and email"),
        ("le guin", "what", "invalid email"),
        ("   ", "ursula_le_guin@gmail.com", "invalid name"),
    ];
    for (name, email, error) in cases {
        match subscribe(form(name, email)) {
            SubscribeAction::Respond(status) => {
                assert_eq!(status.code(), 400, "did not fail with 400 Bad Request despite {}", error)
            }
            SubscribeAction::Insert(_) => panic!("accepted despite {}", error),
        }
    }
}

#[test]
fn failed_store_is_a_server_error() {
    assert_eq!(insert_outcome(false), Status::InternalServerError);
    assert_eq!(insert_outcome(false).code(), 500);
    assert_eq!(insert_outcome(true), Status::Success);
}

#[test]
fn form_errors_report_the_address_first() {
    let r = Subscriber::from_form(form("<bad>", "not an address"));
    assert_eq!(r.unwrap_err(), "Invalid email: not an address");
    let r = Subscriber::from_form(form("<bad>", "chris@example.com"));
    assert_eq!(r.unwrap_err(), "Invalid name: <bad>");
}

#[test]
fn form_converts_by_try_from() {
    let s = Subscriber::try_from(form(" Chris ", " chris@example.com ")).unwrap();
    assert_eq!(s.name.as_ref(), "Chris");
    assert_eq!(s.email.as_ref(), "chris@example.com");
}
