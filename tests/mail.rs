use lettre::transport::smtp::AsyncSmtpTransport;
use lettre::Tokio1Executor;
use mail_bridge::config::SmtpConfig;
use mail_bridge::mailer::{Mail, MailError, Mailer};
use lettre::address::AddressError;

fn config(from: &str) -> SmtpConfig {
    SmtpConfig {
        from: from.to_string(),
        host: "smtp.example.com".to_string(),
        port: 465,
        username: "user".to_string(),
        password: "SECRET-REDACTED".to_string(),
    }
}

fn mail(to: &str) -> Mail {
    Mail { to: to.to_string(), subject: "Hello".to_string(), body: "Hi there".to_string() }
}

fn relayed() -> Result<lettre::transport::smtp::AsyncSmtpTransportBuilder, lettre::transport::smtp::Error> {
    Ok(AsyncSmtpTransport::<Tokio1Executor>::builder_dangerous("localhost"))
}

#[test]
fn default_config_is_empty() {
    let c = SmtpConfig::default();
    assert!(c.from.is_empty() && c.host.is_empty() && c.username.is_empty());
    assert!(c.password.is_empty());
    assert_eq!(c.port, 0);
}

#[test]
fn valid_addresses_assemble() {
    let r = Mailer::assemble(relayed(), Mailer::draft(config("Me <me@example.com>"), mail("you@example.org")));
    let out = r.unwrap();
    let text = String::from_utf8(out.message.formatted()).unwrap();
    assert!(text.contains("Subject: Hello"));
    assert!(text.contains("you@example.org"));
    assert!(text.contains("Hi there"));
}

#[test]
fn bad_sender_is_an_address_error() {
    let r = Mailer::assemble(relayed(), Mailer::draft(config("not an address"), mail("you@example.org")));
    assert!(matches!(r, Err(MailError::Address(_))));
}

#[test]
fn bad_recipient_is_an_address_error() {
    let r = Mailer::assemble(relayed(), Mailer::draft(config("me@example.com"), mail("nobody")));
    assert!(matches!(r, Err(MailError::Address(_))));
}

#[test]
fn prepare_with_valid_relay_and_addresses() {
    let r = Mailer::prepare(config("me@example.com"), mail("you@example.org"));
    assert!(r.is_ok());
}

#[test]
fn prepare_with_bad_recipient_fails() {
    let r = Mailer::prepare(config("me@example.com"), mail("@@"));
    assert!(matches!(r, Err(MailError::Address(_))));
}

#[test]
fn draft_keeps_every_field() {
    let d = Mailer::draft(config("me@example.com"), mail("you@example.org"));
    assert_eq!(d.host, "smtp.example.com");
    assert_eq!(d.port, 465);
    assert_eq!(d.username, "user");
    assert_eq!(d.password, "SECRET-REDACTED");
    assert_eq!(d.from, "me@example.com");
    assert_eq!(d.to, "you@example.org");
    assert_eq!(d.subject, "Hello");
    assert_eq!(d.body, "Hi there");
}

#[test]
fn message_carries_sender_recipient_subject_and_body() {
    let out = Mailer::assemble(relayed(), Mailer::draft(config("me@example.com"), mail("you@example.org")))
        .unwrap();
    let text = String::from_utf8(out.message.formatted()).unwrap();
    assert!(text.contains("From: me@example.com"));
    assert!(text.contains("To: you@example.org"));
    assert!(text.contains("Content-Type: text/plain"));
}

#[test]
fn address_error_converts() {
    let e: MailError = AddressError::InvalidInput.into();
    assert!(matches!(e, MailError::Address(AddressError::InvalidInput)));
}
