use prostor::leads::Chunk;
use prostor::leads::Email;
use prostor::records::CampaignName;
use prostor::records::WelcomeEmail;

#[test]
fn email_is_trimmed() {
    assert_eq!(Email::from("  someone@example.com \t").0, "someone@example.com");
    assert_eq!(Email::from("someone@example.com").0, "someone@example.com");
    assert_eq!(Email::from("   ").0, "");
}

#[test]
fn chunk_fills_and_clears() {
    let mut chunk = Chunk::new(2);
    assert!(chunk.is_empty());
    assert!(!chunk.is_full());

    chunk.push(Email::from("a@example.com"));
    assert!(!chunk.is_empty());
    assert!(!chunk.is_full());

    chunk.push(Email::from("b@example.com"));
    assert!(chunk.is_full());
    assert_eq!(chunk.emails.len(), 2);
    assert_eq!(chunk.emails[0].0, "a@example.com");
    assert_eq!(chunk.emails[1].0, "b@example.com");

    chunk.clear();
    assert!(chunk.is_empty());
    assert!(!chunk.is_full());
    assert_eq!(chunk.size, 2);
}

#[test]
fn record_types_hold_their_fields() {
    let name = CampaignName("spring launch".to_string());
    assert_eq!(name.0, "spring launch");

    let mail = WelcomeEmail {
        user_id: 42,
        email: "someone@example.com".to_string(),
        name: "Someone".to_string(),
    };
    assert_eq!(mail.user_id, 42);
    assert_eq!(mail.email, "someone@example.com");
    assert_eq!(mail.name, "Someone");
}
