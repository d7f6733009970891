//! The activation notice: the message that tells a requester that the trial
//! is active, ready to be handed to the mail relay.

use crate::ident::{uuid_text, Id128};
use crate::upstream::Settings;
use vstd::prelude::*;
use vstd::string::*;

verus! {

/// The relay that takes the notices.
pub const MAIL_RELAY: &'static str = "smtp.gmail.com";

/// The subject of every notice.
pub const MAIL_SUBJECT: &'static str = "FRKN VPN Trial 🚀";

/// The path and query of the page that describes a subscription, up to the
/// identifier.
pub const INFO_PATH: &'static str = "/sub/info?id=";

/// The notice up to the subscription identifier.
pub const MAIL_HEAD: &'static str = "
<!DOCTYPE html>
<html>
<head>
<meta charset=\"UTF-8\">
<title>FRKN VPN Trial</title>
<style>
    body {
        font-family: Arial, sans-serif;
        background-color: #f4f4f4;
        margin: 0;
        padding: 0;
    }
    .container {
        width: 100%;
        max-width: 600px;
        margin: 0 auto;
        background-color: #ffffff;
        padding: 20px;
        border-radius: 12px;
        box-shadow: 0 4px 12px rgba(0,0,0,0.1);
    }
    .header {
        text-align: center;
        margin-bottom: 20px;
    }
    .logo {
        max-width: 150px;
    }
    h1 {
        color: #1d4ed8; /* фирменный синий */
        font-size: 24px;
    }
    p {
        color: #374151;
        font-size: 16px;
        line-height: 1.5;
    }
    .button {
        display: inline-block;
        padding: 12px 24px;
        background-color: #1d4ed8;
        color: #ffffff;
        text-decoration: none;
        border-radius: 8px;
        margin: 20px 0;
        font-weight: bold;
    }
    .footer {
        font-size: 12px;
        color: #9ca3af;
        text-align: center;
        margin-top: 20px;
    }
</style>
</head>
<body>
<div class=\"container\">
    <div class=\"header\">
        
        <h1>Твой триал активирован!</h1>
    </div>
    <p>Привет!</p>
    <p>Твой триал для <strong>FRKN</strong> успешно активирован 🎉</p>
    <p>Информация по подписке:</p>
    <p>
        <strong>ID:</strong> ";

/// The notice between the identifier and the address of the link.
pub const MAIL_LINK_OPEN: &'static str = "<br/>
        <strong>Ссылка:</strong> <a href=\"";

/// The notice between the address of the link and its text.
pub const MAIL_LINK_TEXT: &'static str = "\">";

/// The notice between the link and the address of the button.
pub const MAIL_BUTTON_OPEN: &'static str = "</a>
    </p>
    <a href=\"";

/// The notice after the address of the button.
pub const MAIL_TAIL: &'static str = "\"

   style=\"
       display: inline-block;
       padding: 12px 24px;
       background-color: #1d4ed8;
       color: #ffffff !important;
       text-decoration: none;
       border-radius: 8px;
       font-weight: bold;
   \">
   Перейти к подписке
</a>



    <p>Подписывайся на наш Telegram: <a href=\"https://t.me/frkn_org\">@frkn_org</a></p>
    <div class=\"footer\"> <a href=\"https://t.me/frkn_support\">Поддержка</a></p> <br>
        Vive la résistance!<br/>
        © 2026 FRKN
    </div>
</div>
</body>
</html>
";

/// The address of the page that describes the subscription `id`.
pub open spec fn info_url(host: Seq<char>, id: Seq<char>) -> Seq<char> {
    host + INFO_PATH@ + id
}

/// The sender of the notices, for the relay account `user`.
pub open spec fn sender_mailbox(user: Seq<char>) -> Seq<char> {
    "FRKN <"@ + user + ">"@
}

/// The HTML text of the notice for the subscription `id`.
pub open spec fn mail_body(host: Seq<char>, id: Seq<char>) -> Seq<char> {
    MAIL_HEAD@ + id + MAIL_LINK_OPEN@ + info_url(host, id) + MAIL_LINK_TEXT@ + info_url(host, id)
        + MAIL_BUTTON_OPEN@ + info_url(host, id) + MAIL_TAIL@
}

/// Whether `part` stands somewhere in `whole`.
pub open spec fn occurs_in(part: Seq<char>, whole: Seq<char>) -> bool {
    exists|i: int|
        0 <= i && i + part.len() <= whole.len() && #[trigger] whole.subrange(i, i + part.len())
            == part
}

/// Whether lettre's parser of `Mailbox` accepts `text`.
pub uninterp spec fn mailbox_accepts(text: Seq<char>) -> bool;

/// Calls `str::parse::<lettre::message::Mailbox>`, that is lettre's `FromStr`
/// for `Mailbox`, and tells whether it gave a mailbox. The contract names the
/// result.
#[verifier::external_body]
fn parses_as_mailbox(text: &str) -> (accepted: bool)
    ensures
        accepted == mailbox_accepts(text@),
{
    text.parse::<lettre::message::Mailbox>().is_ok()
}

/// A notice that is ready for the relay: an HTML message without attachments
/// or plain-text alternative, to be submitted over TLS with the account
/// `user`.
#[derive(Debug)]
pub struct OutgoingEmail {
    pub relay: String,
    pub user: String,
    pub password: String,
    pub from: String,
    pub to: String,
    pub subject: String,
    pub html_body: String,
}

/// Why no notice could be made.
#[derive(Clone, Copy, Debug, PartialEq, Eq, Structural)]
pub enum MailError {
    /// The relay account is not configured.
    MissingUser,
    /// The password of the relay account is not configured.
    MissingPassword,
    /// The base address of the provisioning API is not configured.
    MissingHost,
    /// The sender is not a mailbox.
    InvalidSender,
    /// The recipient is not a mailbox.
    InvalidRecipient,
}

/// The notice for `to` about the subscription `id`, or the first thing that
/// stands in its way: a missing account, password or base address, a sender
/// that is no mailbox, a recipient that is none.
pub open spec fn notice_for(
    settings: Settings,
    to: Seq<char>,
    id: Id128,
    sender_ok: bool,
    recipient_ok: bool,
    made: Result<OutgoingEmail, MailError>,
) -> bool {
    match (settings.mail_user, settings.mail_password, settings.host) {
        (None, _, _) => made == Err::<OutgoingEmail, MailError>(MailError::MissingUser),
        (Some(_), None, _) => made == Err::<OutgoingEmail, MailError>(MailError::MissingPassword),
        (Some(_), Some(_), None) => made == Err::<OutgoingEmail, MailError>(MailError::MissingHost),
        (Some(user), Some(password), Some(host)) => if !sender_ok {
            made == Err::<OutgoingEmail, MailError>(MailError::InvalidSender)
        } else if !recipient_ok {
            made == Err::<OutgoingEmail, MailError>(MailError::InvalidRecipient)
        } else {
            match made {
                Ok(mail) => {
                    &&& mail.relay@ == MAIL_RELAY@
                    &&& mail.user@ == user@
                    &&& mail.password@ == password@
                    &&& mail.from@ == sender_mailbox(user@)
                    &&& mail.to@ == to
                    &&& mail.subject@ == MAIL_SUBJECT@
                    &&& mail.html_body@ == mail_body(host@, uuid_text(id.bits))
                },
                Err(_) => false,
            }
        },
    }
}

/// The identifier and the address of its page both stand in the notice.
pub proof fn lemma_body_mentions(host: Seq<char>, id: Seq<char>)
    ensures
        occurs_in(id, mail_body(host, id)),
        occurs_in(info_url(host, id), mail_body(host, id)),
{
    let body = mail_body(host, id);
    let url = info_url(host, id);
    let at_id = MAIL_HEAD@.len() as int;
    assert(body.subrange(at_id, at_id + id.len()) =~= id);
    let at_url = at_id + id.len() + MAIL_LINK_OPEN@.len();
    assert(body.subrange(at_url, at_url + url.len()) =~= url);
}

/// The HTML text of the notice for the subscription `id`: it shows the
/// identifier and links to the page that describes the subscription.
pub fn render_body(host: &str, id: &str) -> (body: String)
    ensures
        body@ == mail_body(host@, id@),
        occurs_in(id@, body@),
        occurs_in(info_url(host@, id@), body@),
{
    let mut url = host.to_string();
    url.append(INFO_PATH);
    url.append(id);
    let mut body = MAIL_HEAD.to_string();
    body.append(id);
    body.append(MAIL_LINK_OPEN);
    body.append(url.as_str());
    body.append(MAIL_LINK_TEXT);
    body.append(url.as_str());
    body.append(MAIL_BUTTON_OPEN);
    body.append(url.as_str());
    body.append(MAIL_TAIL);
    proof {
        lemma_body_mentions(host@, id@);
    }
    body
}

/// The sender of the notices, for the relay account `user`.
pub fn sender_of(user: &str) -> (from: String)
    ensures
        from@ == sender_mailbox(user@),
{
    let mut from = "FRKN <".to_string();
    from.append(user);
    from.append(">");
    from
}

/// Makes the notice for `to` about the subscription `sub_id`, given whether
/// the sender and the recipient are mailboxes.
pub fn compose_email(
    settings: &Settings,
    to: &str,
    sub_id: &Id128,
    sender_ok: bool,
    recipient_ok: bool,
) -> (made: Result<OutgoingEmail, MailError>)
    ensures
        notice_for(*settings, to@, *sub_id, sender_ok, recipient_ok, made),
{
    let user = match &settings.mail_user {
        Some(user) => user,
        None => {
            return Err(MailError::MissingUser);
        },
    };
    let password = match &settings.mail_password {
        Some(password) => password,
        None => {
            return Err(MailError::MissingPassword);
        },
    };
    let host = match &settings.host {
        Some(host) => host,
        None => {
            return Err(MailError::MissingHost);
        },
    };
    if !sender_ok {
        return Err(MailError::InvalidSender);
    }
    if !recipient_ok {
        return Err(MailError::InvalidRecipient);
    }
    let id = sub_id.to_text();
    Ok(
        OutgoingEmail {
            relay: MAIL_RELAY.to_string(),
            user: user.clone(),
            password: password.clone(),
            from: sender_of(user.as_str()),
            to: to.to_string(),
            subject: MAIL_SUBJECT.to_string(),
            html_body: render_body(host.as_str(), id.as_str()),
        },
    )
}

/// Makes the notice for `to` about the subscription `sub_id`. The sender and
/// the recipient must be mailboxes in the eyes of the mail library.
pub fn send_email(settings: &Settings, to: &str, sub_id: &Id128) -> (made: Result<
    OutgoingEmail,
    MailError,
>)
    ensures
        match settings.mail_user {
            Some(user) => notice_for(
                *settings,
                to@,
                *sub_id,
                mailbox_accepts(sender_mailbox(user@)),
                mailbox_accepts(to@),
                made,
            ),
            None => made == Err::<OutgoingEmail, MailError>(MailError::MissingUser),
        },
{
    match &settings.mail_user {
        Some(user) => {
            let from = sender_of(user.as_str());
            let sender_ok = parses_as_mailbox(from.as_str());
            let recipient_ok = parses_as_mailbox(to);
            compose_email(settings, to, sub_id, sender_ok, recipient_ok)
        },
        None => Err(MailError::MissingUser),
    }
}

} // verus!
