use spacetraders::{Cargo, Loan, Ship, Timestamp, User};

fn ship() -> Ship {
    Ship {
        id: "ship-1".to_string(),
        kind: "JW-MK-I".to_string(),
        class: "MK-I".to_string(),
        manufacturer: "Jackshaw".to_string(),
        location: "OE-PM-TR".to_string(),
        x: -20,
        y: 5,
        speed: 1,
        weapons: 5,
        plating: 5,
        max_cargo: 50,
        space_available: 30,
        cargo: vec![Cargo {
            good: "FUEL".to_string(),
            quantity: 20,
            total_volume: 20,
        }],
    }
}

fn loan() -> Loan {
    Loan {
        id: "loan-1".to_string(),
        repayment_amount: 280_000,
        status: "CURRENT".to_string(),
        kind: "STARTUP".to_string(),
        due: Timestamp::new(1_615_000_000, 0).unwrap(),
    }
}

fn user(email: Option<String>, picture: Option<String>) -> User {
    User {
        id: "user-1".to_string(),
        username: "captain".to_string(),
        credits: 200_000,
        ships: vec![ship()],
        loans: vec![loan()],
        created_at: Timestamp::new(1_614_000_000, 123_000_000).unwrap(),
        updated_at: Timestamp::new(1_614_000_500, 0).unwrap(),
        email,
        picture,
    }
}

#[test]
fn ship_holds_what_it_was_given() {
    let s = ship();
    assert_eq!(s.id, "ship-1");
    assert_eq!(s.kind, "JW-MK-I");
    assert_eq!((s.x, s.y), (-20, 5));
    assert_eq!(s.max_cargo - s.space_available, 20);
    assert_eq!(s.cargo.len(), 1);
    assert_eq!(s.cargo[0].good, "FUEL");
    assert_eq!(s.cargo[0].quantity, 20);
    assert_eq!(s.cargo[0].total_volume, 20);
    assert_eq!(s.clone(), s);
}

#[test]
fn loan_holds_what_it_was_given() {
    let l = loan();
    assert_eq!(l.repayment_amount, 280_000);
    assert_eq!(l.status, "CURRENT");
    assert_eq!(l.kind, "STARTUP");
    assert_eq!(l.due.seconds(), 1_615_000_000);
    assert_eq!(l.clone(), l);
}

#[test]
fn user_holds_optional_fields_present_or_absent() {
    let with = user(
        Some("captain@example.com".to_string()),
        Some("https://example.com/me.png".to_string()),
    );
    assert_eq!(with.email.as_deref(), Some("captain@example.com"));
    assert_eq!(with.picture.as_deref(), Some("https://example.com/me.png"));
    let without = user(None, None);
    assert_eq!(without.email, None);
    assert_eq!(without.picture, None);
    assert_ne!(with, without);
    assert_eq!(without.clone(), without);
    assert_eq!(with.ships, vec![ship()]);
    assert_eq!(with.loans, vec![loan()]);
    assert_eq!(with.created_at.nanos(), 123_000_000);
}
