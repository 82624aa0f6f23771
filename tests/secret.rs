use acap_vapix::Secret;

#[test]
fn secret_text_is_redacted() {
    let s = Secret::new("hunter2");
    assert_eq!(s.redacted(), "xxx");
    assert!(!s.redacted().contains("hunter2"));
}

#[test]
fn secret_clone_stays_redacted() {
    let s = Secret::new("p@ss");
    let c = s.clone();
    assert_eq!(c.redacted(), "xxx");
    assert_eq!(c.revealed(), "p@ss");
}

#[test]
fn secret_empty_value_is_redacted() {
    let s = Secret::new("");
    assert_eq!(s.redacted(), "xxx");
    assert_eq!(s.revealed(), "");
}

#[test]
fn secret_revealed_returns_value() {
    assert_eq!(Secret::new("tok").revealed(), "tok");
}
