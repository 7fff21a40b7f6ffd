use coat_check::{Closet, Hanger, RetrieveError};

struct MyCoat {
    color: String,
}

struct AnotherCoat {
    size: u32,
}

#[test]
fn store_and_retrieve_string() {
    let mut closet = Closet::new();
    let my_coat = MyCoat {
        color: "red".to_string(),
    };

    let ticket = closet.store_typed(my_coat);
    let my_coat_ref = closet.retrieve_typed(ticket).unwrap();
    assert_eq!(my_coat_ref.color, "red");
}

#[test]
fn store_and_retrieve_custom_coat() {
    let mut closet = Closet::new();
    let another_coat = AnotherCoat { size: 42 };

    let ticket = closet.store_typed(another_coat);
    let another_coat_ref = closet.retrieve_typed(ticket).unwrap();
    assert_eq!(another_coat_ref.size, 42);
}

#[test]
fn store_and_retrieve_untyped() {
    let mut closet = Closet::new();
    let ticket1 = closet.store(42);
    let ticket2 = closet.store("hello".to_string());

    let Ok(item1) = closet.retrieve::<i32>(ticket1) else {
        panic!("expected the stored integer back");
    };
    let Ok(item2) = closet.retrieve::<String>(ticket2) else {
        panic!("expected the stored text back");
    };

    assert_eq!(item1, 42);
    assert_eq!(item2, "hello".to_string());
}

#[test]
fn sequential_stores_give_distinct_identifiers() {
    let mut closet = Closet::new();
    let ticket1 = closet.store_typed(7u64);
    let ticket2 = closet.store_typed(7u64);
    assert_ne!(ticket1.id(), ticket2.id());
}

#[test]
fn second_retrieve_reports_not_found() {
    let mut closet = Closet::new();
    let ticket = closet.store(9u64);
    let copy = ticket;

    let Ok(first) = closet.retrieve::<u64>(ticket) else {
        panic!("expected the stored value back");
    };
    assert_eq!(first, 9u64);

    let second = closet.retrieve::<u64>(copy);
    assert!(matches!(second, Err(RetrieveError::NotFound)));
}

#[test]
fn second_typed_retrieve_reports_not_found() {
    let mut closet = Closet::new();
    let ticket = closet.store_typed("once".to_string());
    let copy = ticket.clone();

    let got = closet.retrieve_typed(ticket);
    assert_eq!(got, Some("once".to_string()));

    let again = closet.retrieve_typed(copy);
    assert_eq!(again, None);
}

#[test]
fn cross_type_mismatch_keeps_the_value() {
    let mut closet = Closet::new();
    let ticket = closet.store("hello".to_string());
    let copy = ticket;

    let wrong = closet.retrieve::<i32>(ticket);
    assert!(matches!(wrong, Err(RetrieveError::TypeMismatch)));

    let Ok(kept) = closet.retrieve::<String>(copy) else {
        panic!("a mismatched request must not consume the value");
    };
    assert_eq!(kept, "hello".to_string());
}

#[test]
fn two_values_retrieved_in_either_order() {
    let mut closet = Closet::new();
    let hello = closet.store("hello".to_string());
    let number = closet.store(42);
    let Ok(text) = closet.retrieve::<String>(hello) else {
        panic!("expected the stored text back");
    };
    let Ok(n) = closet.retrieve::<i32>(number) else {
        panic!("expected the stored integer back");
    };
    assert_eq!(text, "hello".to_string());
    assert_eq!(n, 42);

    let mut closet = Closet::new();
    let hello = closet.store("hello".to_string());
    let number = closet.store(42);
    let Ok(n) = closet.retrieve::<i32>(number) else {
        panic!("expected the stored integer back");
    };
    let Ok(text) = closet.retrieve::<String>(hello) else {
        panic!("expected the stored text back");
    };
    assert_eq!(text, "hello".to_string());
    assert_eq!(n, 42);
}

#[test]
fn foreign_handle_reports_not_found() {
    let mut closet = Closet::new();
    let mut other = Closet::new();
    let foreign = other.store(1u8);

    let got = closet.retrieve::<u8>(foreign);
    assert!(matches!(got, Err(RetrieveError::NotFound)));
}

#[test]
fn erased_typed_handle_keeps_type_discipline() {
    let mut closet = Closet::new();
    let typed = closet.store_typed(42);
    let ticket = typed.into_ticket();
    let copy = ticket;

    let as_text = closet.retrieve::<String>(ticket);
    assert!(matches!(as_text, Err(RetrieveError::TypeMismatch)));

    let Ok(as_number) = closet.retrieve::<i32>(copy) else {
        panic!("expected the stored integer back");
    };
    assert_eq!(as_number, 42);
}

#[test]
fn handle_text_is_canonical_uuid_form() {
    let mut closet = Closet::new();
    let typed = closet.store_typed(3u32);
    let before = typed.text();
    let ticket = typed.into_ticket();
    let after = ticket.text();

    assert_eq!(before, after);
    assert_eq!(after.len(), 36);
    for (i, c) in after.chars().enumerate() {
        if i == 8 || i == 13 || i == 18 || i == 23 {
            assert_eq!(c, '-');
        } else {
            assert!(c.is_ascii_hexdigit() && !c.is_ascii_uppercase());
        }
    }
}

#[test]
fn hanger_downcast_recovers_only_the_stored_type() {
    let hanger = Hanger::new(7u8);
    let wrong = hanger.downcast::<u16>();
    let Err(back) = wrong else {
        panic!("a mismatched downcast must not produce a value");
    };
    let Ok(value) = back.downcast::<u8>() else {
        panic!("a mismatched downcast must hand the slot back unchanged");
    };
    assert_eq!(value, 7u8);
}

#[test]
fn store_hanger_returns_fresh_identifiers() {
    let mut closet = Closet::new();
    let id1 = closet.store_hanger(Hanger::new(1u8));
    let id2 = closet.store_hanger(Hanger::new(2u8));
    assert_ne!(id1, id2);
}

#[test]
fn default_closet_is_empty() {
    let mut closet = Closet::default();
    let ticket = closet.store(5i64);
    let Ok(value) = closet.retrieve::<i64>(ticket) else {
        panic!("expected the stored value back");
    };
    assert_eq!(value, 5i64);
}
