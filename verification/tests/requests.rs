use loyalty_api::error::APIError;
use loyalty_api::models::Loyalty;
use loyalty_api::requests::{AddLoyalty, AddLoyaltyResponse, UserSignup};
use loyalty_api::session::User;

fn signup_body(email: &str, name: &str, pass: &str) -> UserSignup {
    UserSignup { email: email.to_owned(), name: name.to_owned(), pass: pass.to_owned() }
}

#[test]
fn a_complete_signup_is_valid() {
    assert_eq!(signup_body("a@x.com", "A", "p").validate(), Ok(()));
    assert_eq!(signup_body("first.last@example.org", "First Last", "secret").validate(), Ok(()));
}

#[test]
fn an_empty_field_is_a_validation_failure() {
    assert_eq!(signup_body("", "A", "p").validate(), Err(APIError::ValidationFailure));
    assert_eq!(signup_body("a@x.com", "", "p").validate(), Err(APIError::ValidationFailure));
    assert_eq!(signup_body("a@x.com", "A", "").validate(), Err(APIError::ValidationFailure));
    assert_eq!(signup_body("", "", "").validate(), Err(APIError::ValidationFailure));
}

#[test]
fn a_malformed_address_is_a_validation_failure() {
    for email in vec!["not-an-email", "a@", "@x.com", "a b@x.com", "a@x..com", "a@@x.com"] {
        assert_eq!(
            signup_body(email, "A", "p").validate(),
            Err(APIError::ValidationFailure),
            "on {:?}",
            email
        );
    }
    assert_eq!(APIError::ValidationFailure.status(), 400);
}

#[test]
fn decide_follows_the_verdict_on_the_address() {
    let body = signup_body("a@x.com", "A", "p");
    assert_eq!(body.decide(true), Ok(()));
    assert_eq!(body.decide(false), Err(APIError::ValidationFailure));
    assert_eq!(signup_body("a@x.com", "", "p").decide(true), Err(APIError::ValidationFailure));
    assert_eq!(signup_body("", "A", "p").decide(true), Err(APIError::ValidationFailure));
    assert_eq!(signup_body("a@x.com", "A", "").decide(true), Err(APIError::ValidationFailure));
}

#[test]
fn the_row_of_a_signup_holds_its_fields() {
    let row = signup_body("a@x.com", "A", "p").new_user();
    assert_eq!(row.email, "a@x.com");
    assert_eq!(row.name, "A");
    assert_eq!(row.pass, "p");
}

#[test]
fn a_new_card_belongs_to_the_principal() {
    let body = AddLoyalty {
        name: String::from("Store"),
        color: Some(String::from("#ff0000")),
        code: String::from("123"),
    };
    let row = body.new_loyalty(User(7));
    assert_eq!(row.user_id, 7);
    assert_eq!(row.name, "Store");
    assert_eq!(row.color, Some(String::from("#ff0000")));
    assert_eq!(row.code, "123");
}

#[test]
fn a_card_is_shown_with_its_id_in_decimal() {
    let card = Loyalty {
        id: 31,
        name: String::from("Store"),
        color: None,
        code: String::from("123"),
        user_id: 7,
    };
    assert_eq!(
        AddLoyaltyResponse::from_loyalty(&card),
        AddLoyaltyResponse {
            id: String::from("31"),
            name: String::from("Store"),
            color: None,
            code: String::from("123"),
        }
    );
}
