use ticket_store::{Status, TicketDescription, TicketDraft, TicketId, TicketStore, TicketTitle};

fn draft(title: &str, description: &str) -> TicketDraft {
    TicketDraft {
        title: TicketTitle::new(title.to_string()).unwrap(),
        description: TicketDescription::new(description.to_string()).unwrap(),
    }
}

#[test]
fn round_trip() {
    let mut store = TicketStore::new();
    let id = store.add_ticket(draft("Buy milk", "Two liters"));
    let ticket = store.get(id).unwrap();
    assert_eq!(ticket.title().as_str(), "Buy milk");
    assert_eq!(ticket.description().as_str(), "Two liters");
    assert_eq!(*ticket.status(), Status::ToDo);
}

#[test]
fn lookup_miss() {
    let mut store = TicketStore::new();
    assert!(store.get(TicketId { value: 1 }).is_none());
    let id = store.add_ticket(draft("Only ticket", ""));
    assert!(store.get(TicketId { value: 0 }).is_none());
    assert!(store.get(TicketId { value: id.value + 1 }).is_none());
    assert!(store.get(TicketId { value: 42 }).is_none());
}

#[test]
fn identifiers_follow_arrival_order() {
    let mut store = TicketStore::new();
    let first = store.add_ticket(draft("First", ""));
    let second = store.add_ticket(draft("Second", ""));
    let third = store.add_ticket(draft("Third", ""));
    assert_eq!(first, TicketId { value: 1 });
    assert_eq!(second, TicketId { value: 2 });
    assert_eq!(third, TicketId { value: 3 });
}

#[test]
fn nothing_is_lost_or_corrupted() {
    let mut store = TicketStore::new();
    let mut ids = Vec::new();
    for i in 0..25 {
        let title = format!("Ticket {i}");
        let body = format!("Body {i}");
        ids.push(store.add_ticket(draft(&title, &body)));
    }
    assert_eq!(store.len(), 25);
    for (i, id) in ids.iter().enumerate() {
        assert_eq!(id.value, i as u64 + 1);
        let ticket = store.get(*id).unwrap();
        assert_eq!(ticket.title().as_str(), format!("Ticket {i}"));
        assert_eq!(ticket.description().as_str(), format!("Body {i}"));
        assert_eq!(*ticket.status(), Status::ToDo);
    }
}
