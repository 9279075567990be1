use crate::config::SmtpConfig;
use lettre::address::AddressError;
use lettre::message::header::ContentType;
use lettre::message::Mailbox;
use lettre::transport::smtp::authentication::Credentials;
use lettre::transport::smtp::AsyncSmtpTransportBuilder;
use lettre::{AsyncSmtpTransport, Message, Tokio1Executor};
use vstd::prelude::*;

verus! {

#[verifier::external_type_specification]
#[verifier::external_body]
pub struct ExMailbox(Mailbox);

#[verifier::external_type_specification]
#[verifier::external_body]
pub struct ExMessage(Message);

#[verifier::external_type_specification]
#[verifier::external_body]
pub struct ExAsyncSmtpTransportBuilder(AsyncSmtpTransportBuilder);

#[verifier::external_type_specification]
#[verifier::external_body]
pub struct ExAddressError(AddressError);

#[verifier::external_type_specification]
#[verifier::external_body]
pub struct ExEmailError(lettre::error::Error);

#[verifier::external_type_specification]
#[verifier::external_body]
pub struct ExSmtpError(lettre::transport::smtp::Error);

/// Whether `s` reads as a mailbox (`user@domain` or `Name <user@domain>`).
pub uninterp spec fn is_mailbox(s: Seq<char>) -> bool;

/// Relies on lettre's `FromStr for Mailbox`: `Ok` exactly when the text parses
/// as a mailbox with a valid address, which depends on the text alone.
#[verifier::external_body]
fn parse_mailbox(s: &str) -> (r: Result<Mailbox, AddressError>)
    ensures
        r is Ok == is_mailbox(s@),
{
    s.parse::<Mailbox>()
}

/// Relies on lettre's AsyncSmtpTransport::relay: a builder for an SMTPS relay at
/// `host`. Setting up its TLS parameters may fail, so nothing is promised.
#[verifier::external_body]
fn relay(host: &str) -> (r: Result<AsyncSmtpTransportBuilder, lettre::transport::smtp::Error>) {
    AsyncSmtpTransport::<Tokio1Executor>::relay(host)
}

/// Relies on lettre's AsyncSmtpTransportBuilder::credentials and ::port: the
/// login `draft.username`, `draft.password` (as lettre's Credentials) and the port
/// `draft.port` are set on the builder.
#[verifier::external_body]
fn with_login(b: AsyncSmtpTransportBuilder, draft: &Draft) -> AsyncSmtpTransportBuilder {
    b.credentials(Credentials::new(draft.username.clone(), draft.password.clone())).port(
        draft.port,
    )
}

/// Relies on lettre's MessageBuilder, ending in MessageBuilder::body: a plain
/// text message from `from` to `to` with the subject and body of `draft`.
/// The builder may still refuse it, so nothing is promised.
#[verifier::external_body]
fn plain_text(from: Mailbox, to: Mailbox, draft: &Draft) -> (r: Result<
    Message,
    lettre::error::Error,
>) {
    Message::builder().from(from).to(to).subject(draft.subject.clone()).header(
        ContentType::TEXT_PLAIN,
    ).body(draft.body.clone())
}

/// One message to send.
#[derive(Debug, Clone)]
pub struct Mail {
    pub to: String,
    pub subject: String,
    pub body: String,
}

/// Everything one delivery needs, as plain values: the relay and its login, and
/// the message's ends, subject and body.
#[derive(Debug, Clone)]
pub struct Draft {
    pub host: String,
    pub port: u16,
    pub username: String,
    pub password: String,
    pub from: String,
    pub to: String,
    pub subject: String,
    pub body: String,
}

/// Why a message could not be prepared or sent.
#[derive(Debug)]
pub enum MailError {
    /// The relay could not be set up or the transfer failed.
    Transport(lettre::transport::smtp::Error),
    /// The sender or the recipient is not a mailbox.
    Address(AddressError),
    /// The message could not be built.
    Mail(lettre::error::Error),
}

impl From<lettre::transport::smtp::Error> for MailError {
    fn from(value: lettre::transport::smtp::Error) -> Self {
        MailError::Transport(value)
    }
}

impl vstd::std_specs::convert::FromSpecImpl<lettre::transport::smtp::Error> for MailError {
    open spec fn obeys_from_spec() -> bool {
        true
    }

    open spec fn from_spec(v: lettre::transport::smtp::Error) -> MailError {
        MailError::Transport(v)
    }
}

impl From<AddressError> for MailError {
    fn from(value: AddressError) -> Self {
        MailError::Address(value)
    }
}

impl vstd::std_specs::convert::FromSpecImpl<AddressError> for MailError {
    open spec fn obeys_from_spec() -> bool {
        true
    }

    open spec fn from_spec(v: AddressError) -> MailError {
        MailError::Address(v)
    }
}

impl From<lettre::error::Error> for MailError {
    fn from(value: lettre::error::Error) -> Self {
        MailError::Mail(value)
    }
}

impl vstd::std_specs::convert::FromSpecImpl<lettre::error::Error> for MailError {
    open spec fn obeys_from_spec() -> bool {
        true
    }

    open spec fn from_spec(v: lettre::error::Error) -> MailError {
        MailError::Mail(v)
    }
}

/// A transport, still to be built for an executor, and the message it is to carry.
pub struct Outgoing {
    pub transport: AsyncSmtpTransportBuilder,
    pub message: Message,
}

/// Sends mail through an SMTP relay.
pub struct Mailer;

/// Whether both ends of a message read as mailboxes.
pub open spec fn addresses_valid(from: Seq<char>, to: Seq<char>) -> bool {
    is_mailbox(from) && is_mailbox(to)
}

impl Mailer {
    /// Gathers the settings and the message into one draft, field for field.
    pub fn draft(config: SmtpConfig, mail: Mail) -> (d: Draft)
        ensures
            d.host@ == config.host@,
            d.port == config.port,
            d.username@ == config.username@,
            d.password@ == config.password@,
            d.from@ == config.from@,
            d.to@ == mail.to@,
            d.subject@ == mail.subject@,
            d.body@ == mail.body@,
    {
        let SmtpConfig { from, host, port, username, password } = config;
        let Mail { to, subject, body } = mail;
        Draft { host, port, username, password, from, to, subject, body }
    }

    /// Sets up the relay named by `config.host`, then goes on as [`Mailer::assemble`]
    /// with the draft of `config` and `mail`.
    pub fn prepare(config: SmtpConfig, mail: Mail) -> (r: Result<Outgoing, MailError>)
        ensures
            r is Ok ==> addresses_valid(config.from@, mail.to@),
            r matches Err(MailError::Address(_)) ==> !addresses_valid(config.from@, mail.to@),
            r matches Err(MailError::Mail(_)) ==> addresses_valid(config.from@, mail.to@),
            !addresses_valid(config.from@, mail.to@) ==> r is Err,
    {
        let draft = Mailer::draft(config, mail);
        let relayed = relay(draft.host.as_str());
        Mailer::assemble(relayed, draft)
    }

    /// Given the outcome of setting up the relay for `draft.host`: adds the
    /// login and port of `draft`, reads the sender `draft.from` and then the
    /// recipient `draft.to`, and builds the plain text message.
    /// A failed relay is reported first, then an address that does not parse,
    /// then a message that the builder refuses.
    pub fn assemble(
        relayed: Result<AsyncSmtpTransportBuilder, lettre::transport::smtp::Error>,
        draft: Draft,
    ) -> (r: Result<Outgoing, MailError>)
        ensures
            relayed is Err ==> r matches Err(MailError::Transport(_)),
            relayed is Ok ==> (r matches Err(MailError::Address(_)) <==> !addresses_valid(
                draft.from@,
                draft.to@,
            )),
            relayed is Ok && addresses_valid(draft.from@, draft.to@) ==> (r is Ok || r matches Err(
                MailError::Mail(_),
            )),
            r is Ok ==> addresses_valid(draft.from@, draft.to@),
            r matches Err(MailError::Mail(_)) ==> addresses_valid(draft.from@, draft.to@),
    {
        let builder = match relayed {
            Ok(b) => b,
            Err(e) => return Err(MailError::from(e)),
        };
        let transport = with_login(builder, &draft);
        let sender = match parse_mailbox(draft.from.as_str()) {
            Ok(m) => m,
            Err(e) => return Err(MailError::from(e)),
        };
        let recipient = match parse_mailbox(draft.to.as_str()) {
            Ok(m) => m,
            Err(e) => return Err(MailError::from(e)),
        };
        match plain_text(sender, recipient, &draft) {
            Ok(message) => Ok(Outgoing { transport, message }),
            Err(e) => Err(MailError::from(e)),
        }
    }
}

} // verus!
