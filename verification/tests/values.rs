use ticket_store::{
    SaturatingU16, Status, Ticket, TicketDescription, TicketTitle, DescriptionError, TitleError,
};

#[test]
fn saturating_conversions() {
    let from_u16 = SaturatingU16::from(7u16);
    let from_u8 = SaturatingU16::from(7u8);
    let from_u16_ref = SaturatingU16::from(&7u16);
    let from_u8_ref = SaturatingU16::from(&7u8);
    assert_eq!(from_u16, from_u8);
    assert_eq!(from_u16, from_u16_ref);
    assert_eq!(from_u16, from_u8_ref);
    assert!(from_u16 == 7u16);
}

#[test]
fn saturating_addition_in_range() {
    let a = SaturatingU16::from(10u16);
    let b = SaturatingU16::from(5u16);
    assert!(a + b == 15u16);
    assert!(a + &b == 15u16);
    assert!(a + 5u16 == 15u16);
    assert!(a + &5u16 == 15u16);
}

#[test]
fn saturating_addition_caps_at_max() {
    let a = SaturatingU16::from(u16::MAX);
    let b = SaturatingU16::from(100u16);
    assert!(a + b == u16::MAX);
    assert!(b + u16::MAX == u16::MAX);
}

#[test]
fn saturating_compares_with_u16() {
    let a = SaturatingU16::from(3u16);
    assert!(a == 3u16);
    assert!(!(a == 4u16));
}

fn title(text: &str) -> TicketTitle {
    TicketTitle::new(text.to_string()).unwrap()
}

fn description(text: &str) -> TicketDescription {
    TicketDescription::new(text.to_string()).unwrap()
}

#[test]
fn new_ticket_starts_to_do() {
    let ticket = Ticket::new(title("Buy milk"), description("Two liters"));
    assert_eq!(ticket.title().as_str(), "Buy milk");
    assert_eq!(ticket.description().as_str(), "Two liters");
    assert_eq!(*ticket.status(), Status::ToDo);
    assert!(ticket.is_to_do());
    assert!(!ticket.is_in_progress());
    assert!(!ticket.is_done());
}

#[test]
fn change_status_moves_the_ticket_along() {
    let mut ticket = Ticket::new(title("Buy milk"), description(""));
    ticket.change_status(Status::InProgress);
    assert!(ticket.is_in_progress());
    ticket.change_status(Status::Done);
    assert!(ticket.is_done());
    assert!(!ticket.is_to_do());
}

#[test]
fn change_title_and_description() {
    let mut ticket = Ticket::new(title("Old title"), description("Old text"));
    ticket.change_title(title("New title"));
    ticket.change_description(description("New text"));
    assert_eq!(ticket.title().as_str(), "New title");
    assert_eq!(ticket.description().as_str(), "New text");
    assert_eq!(*ticket.status(), Status::ToDo);
}

#[test]
fn tickets_compare_by_fields() {
    let a = Ticket::new(title("Same"), description("Same"));
    let b = Ticket::new(title("Same"), description("Same"));
    let c = Ticket::new(title("Other"), description("Same"));
    assert_eq!(a, b);
    assert_ne!(a, c);
    assert_eq!(a.clone(), a);
}

#[test]
fn empty_title_is_rejected() {
    assert_eq!(TicketTitle::new(String::new()).unwrap_err(), TitleError::Empty);
}

#[test]
fn overlong_title_is_rejected() {
    let text = "x".repeat(51);
    assert_eq!(TicketTitle::new(text).unwrap_err(), TitleError::TooLong);
    assert!(TicketTitle::new("x".repeat(50)).is_ok());
}

#[test]
fn overlong_description_is_rejected() {
    let text = "x".repeat(501);
    assert_eq!(TicketDescription::new(text).unwrap_err(), DescriptionError::TooLong);
    assert!(TicketDescription::new("x".repeat(500)).is_ok());
    assert!(TicketDescription::new(String::new()).is_ok());
}
