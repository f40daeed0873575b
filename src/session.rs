//! The per-connection protocol state machine.
//!
//! The connection driver reads lines, hands each parsed line to
//! [`SmtpServer::begin`], and carries out the [`Step`] it returns: it sends a
//! reply, consults a policy hook and reports its verdict to
//! [`SmtpServer::complete`], or reads a message body.
use vstd::prelude::*;
use crate::command::{Command, CommandModel, ParseError, error_text, parsed_view};
use crate::reject::RejectError;
use crate::reply::Reply;

verus! {

/// An open mail transaction: the sender and the recipients accepted so far.
#[derive(Debug)]
pub struct Transaction {
    pub sender: String,
    pub recipients: Vec<String>,
}

pub ghost struct TransactionModel {
    pub sender: Seq<char>,
    pub recipients: Seq<Seq<char>>,
}

impl View for Transaction {
    type V = TransactionModel;

    open spec fn view(&self) -> TransactionModel {
        TransactionModel {
            sender: self.sender@,
            recipients: self.recipients@.map_values(|r: String| r@),
        }
    }
}

/// The policy hooks consulted during a session.
#[derive(PartialEq, Eq, Structural, Clone, Copy, Debug)]
pub enum Hook {
    Ehlo,
    MailFrom,
    RcptTo,
    MessageReceived,
}

pub open spec fn hook_name(h: Hook) -> Seq<char> {
    match h {
        Hook::Ehlo => "smtp_server_ehlo"@,
        Hook::MailFrom => "smtp_server_mail_from"@,
        Hook::RcptTo => "smtp_server_mail_rcpt_to"@,
        Hook::MessageReceived => "smtp_server_message_received"@,
    }
}

impl Hook {
    /// The name under which the policy defines this hook.
    pub fn name(&self) -> (r: &'static str)
        ensures
            r@ == hook_name(*self),
    {
        match self {
            Hook::Ehlo => "smtp_server_ehlo",
            Hook::MailFrom => "smtp_server_mail_from",
            Hook::RcptTo => "smtp_server_mail_rcpt_to",
            Hook::MessageReceived => "smtp_server_message_received",
        }
    }
}

/// What the driver does next.
#[derive(Debug, PartialEq, Eq)]
pub enum Step {
    /// Send the reply and read the next command.
    Reply(Reply),
    /// Send the reply and end the session.
    Close(Reply),
    /// Run the hook on the argument, then report the verdict to `complete`.
    Consult(Hook, String),
    /// Send the reply, read the body, then take the transaction.
    ReadBody(Reply),
}

pub ghost enum StepModel {
    Reply(u16, Seq<char>),
    Close(u16, Seq<char>),
    Consult(Hook, Seq<char>),
    ReadBody(u16, Seq<char>),
}

impl View for Step {
    type V = StepModel;

    open spec fn view(&self) -> StepModel {
        match self {
            Step::Reply(r) => StepModel::Reply(r.code, r.text@),
            Step::Close(r) => StepModel::Close(r.code, r.text@),
            Step::Consult(h, a) => StepModel::Consult(*h, a@),
            Step::ReadBody(r) => StepModel::ReadBody(r.code, r.text@),
        }
    }
}

/// The state of one connection.
pub struct SmtpServer {
    hostname: String,
    said_hello: Option<String>,
    state: Option<Transaction>,
}

pub ghost struct ServerModel {
    pub hostname: Seq<char>,
    pub hello: Option<Seq<char>>,
    pub txn: Option<TransactionModel>,
}

impl View for SmtpServer {
    type V = ServerModel;

    closed spec fn view(&self) -> ServerModel {
        ServerModel {
            hostname: self.hostname@,
            hello: match self.said_hello {
                Some(h) => Some(h@),
                None => None,
            },
            txn: match self.state {
                Some(t) => Some(t@),
                None => None,
            },
        }
    }
}

pub open spec fn no_mail_text() -> Seq<char> {
    "5.5.0 MAIL FROM must be issued first"@
}

pub open spec fn mail_twice_text() -> Seq<char> {
    "5.5.0 MAIL FROM already issued; you must RSET first"@
}

pub open spec fn no_rcpt_text() -> Seq<char> {
    "5.5.0 RCPT TO must be issued first"@
}

/// What the server does with one parsed line before any policy is consulted,
/// and its state afterwards.
pub open spec fn begin_spec(s: ServerModel, p: Result<CommandModel, ParseError>) -> (
    StepModel,
    ServerModel,
) {
    match p {
        Err(e) => (
            StepModel::Reply(501, "Syntax error in command or arguments: "@ + error_text(e)),
            s,
        ),
        Ok(c) => match c {
            CommandModel::Quit => (StepModel::Close(221, "So long, and thanks for all the fish!"@), s),
            CommandModel::Ehlo(d) => (StepModel::Consult(Hook::Ehlo, d), s),
            CommandModel::Helo(d) => (StepModel::Consult(Hook::Ehlo, d), s),
            CommandModel::MailFrom { address, parameters } => if s.txn.is_some() {
                (StepModel::Reply(503, mail_twice_text()), s)
            } else {
                (StepModel::Consult(Hook::MailFrom, address), s)
            },
            CommandModel::RcptTo { address, parameters } => if s.txn.is_none() {
                (StepModel::Reply(503, no_mail_text()), s)
            } else {
                (StepModel::Consult(Hook::RcptTo, address), s)
            },
            CommandModel::Data => if s.txn.is_none() {
                (StepModel::Reply(503, no_mail_text()), s)
            } else if s.txn.unwrap().recipients.len() == 0 {
                (StepModel::Reply(503, no_rcpt_text()), s)
            } else {
                (StepModel::ReadBody(354, "Send body; end with CRLF.CRLF"@), s)
            },
            CommandModel::Rset => (
                StepModel::Reply(250, "Reset state"@),
                ServerModel { txn: None, ..s },
            ),
            CommandModel::Noop => (StepModel::Reply(250, "the goggles do nothing"@), s),
            CommandModel::Unknown(_) => (
                StepModel::Reply(502, "5.5.1 Command unimplemented"@),
                s,
            ),
        },
    }
}

/// The commands that consult a policy hook before they take effect.
pub open spec fn is_consulted(c: CommandModel) -> bool {
    match c {
        CommandModel::Ehlo(_) | CommandModel::Helo(_) | CommandModel::MailFrom { .. }
        | CommandModel::RcptTo { .. } => true,
        _ => false,
    }
}

pub open spec fn rejection_of(v: Result<(), RejectError>) -> Option<(u16, Seq<char>)> {
    match v {
        Ok(_) => None,
        Err(r) => Some(r@),
    }
}

/// The reply and the new state once the hook of a consulted command has given
/// its verdict (`Some` when it rejected). Ordering is checked again, so a
/// verdict can never open a second transaction or add a recipient to none.
pub open spec fn complete_spec(
    s: ServerModel,
    c: CommandModel,
    rejection: Option<(u16, Seq<char>)>,
) -> ((u16, Seq<char>), ServerModel) {
    match c {
        CommandModel::MailFrom { address, parameters } => if s.txn.is_some() {
            ((503, mail_twice_text()), s)
        } else if rejection.is_some() {
            (rejection.unwrap(), s)
        } else {
            (
                (250, "OK <"@ + address + ">"@),
                ServerModel {
                    txn: Some(TransactionModel { sender: address, recipients: seq![] }),
                    ..s
                },
            )
        },
        CommandModel::RcptTo { address, parameters } => if s.txn.is_none() {
            ((503, no_mail_text()), s)
        } else if rejection.is_some() {
            (rejection.unwrap(), s)
        } else {
            (
                (250, "OK <"@ + address + ">"@),
                ServerModel {
                    txn: Some(
                        TransactionModel {
                            recipients: s.txn.unwrap().recipients.push(address),
                            ..s.txn.unwrap()
                        },
                    ),
                    ..s
                },
            )
        },
        CommandModel::Ehlo(d) => if rejection.is_some() {
            (rejection.unwrap(), s)
        } else {
            (
                (250, s.hostname + " Aloha "@ + d + "\nPIPELINING\nENHANCEDSTATUSCODES"@),
                ServerModel { hello: Some(d), ..s },
            )
        },
        CommandModel::Helo(d) => if rejection.is_some() {
            (rejection.unwrap(), s)
        } else {
            ((250, "Hello "@ + d + "!"@), ServerModel { hello: Some(d), ..s })
        },
        _ => ((502, "5.5.1 Command unimplemented"@), s),
    }
}

/// `RCPT TO` without an open transaction is refused with `503`, before and
/// after the policy's verdict, and opens no transaction.
pub proof fn lemma_rcpt_needs_transaction(
    s: ServerModel,
    address: Seq<char>,
    parameters: Seq<char>,
    rejection: Option<(u16, Seq<char>)>,
)
    requires
        s.txn.is_none(),
    ensures
        begin_spec(s, Ok(CommandModel::RcptTo { address, parameters })) == (
            StepModel::Reply(503, no_mail_text()),
            s,
        ),
        complete_spec(s, CommandModel::RcptTo { address, parameters }, rejection).0.0 == 503,
        complete_spec(s, CommandModel::RcptTo { address, parameters }, rejection).1 == s,
{
}

/// A second `MAIL FROM` while a transaction is open is refused with `503`,
/// before and after the policy's verdict, and leaves the transaction as it was.
pub proof fn lemma_mail_while_open(
    s: ServerModel,
    address: Seq<char>,
    parameters: Seq<char>,
    rejection: Option<(u16, Seq<char>)>,
)
    requires
        s.txn.is_some(),
    ensures
        begin_spec(s, Ok(CommandModel::MailFrom { address, parameters })) == (
            StepModel::Reply(503, mail_twice_text()),
            s,
        ),
        complete_spec(s, CommandModel::MailFrom { address, parameters }, rejection).0.0 == 503,
        complete_spec(s, CommandModel::MailFrom { address, parameters }, rejection).1 == s,
{
}

/// `DATA` without a recipient is refused with `503`: no body is read and the
/// state is kept.
pub proof fn lemma_data_needs_recipient(s: ServerModel)
    requires
        s.txn.is_none() || s.txn.unwrap().recipients.len() == 0,
    ensures
        begin_spec(s, Ok(CommandModel::Data)).0 matches StepModel::Reply(code, _) && code == 503,
        begin_spec(s, Ok(CommandModel::Data)).1 == s,
{
}

/// A body line with one leading `.` removed.
pub open spec fn unstuff(line: Seq<char>) -> Seq<char> {
    if line.len() > 0 && line[0] == '.' {
        line.subrange(1, line.len() as int)
    } else {
        line
    }
}

/// The line that ends a message body.
pub open spec fn end_of_data() -> Seq<char> {
    ".\r\n"@
}

fn text(s: &str) -> (r: String)
    ensures
        r@ == s@,
{
    String::from_str(s)
}

fn concat2(a: &str, b: &str) -> (r: String)
    ensures
        r@ == a@ + b@,
{
    let mut r = String::from_str(a);
    r.append(b);
    r
}

fn concat3(a: &str, b: &str, c: &str) -> (r: String)
    ensures
        r@ == a@ + b@ + c@,
{
    let mut r = String::from_str(a);
    r.append(b);
    r.append(c);
    r
}

/// Adds one line of a message body, as read with its line terminator.
/// Returns `true`, leaving the body as it was, when the line ends the body.
pub fn append_body_line(body: &mut String, line: &str) -> (ended: bool)
    ensures
        ended == (line@ == end_of_data()),
        ended ==> final(body)@ == old(body)@,
        !ended ==> final(body)@ == old(body)@ + unstuff(line@),
{
    let n = line.unicode_len();
    proof {
        reveal_strlit(".\r\n");
    }
    if n == 3 && line.get_char(0) == '.' && line.get_char(1) == '\r' && line.get_char(2) == '\n' {
        assert(line@ =~= end_of_data());
        return true;
    }
    if n > 0 && line.get_char(0) == '.' {
        body.append(line.substring_char(1, n));
    } else {
        body.append(line);
    }
    false
}

/// The reply sent when the session ends on an unexpected failure.
pub fn failure_reply() -> (r: Reply)
    ensures
        r@ == (421u16, "4.3.0 technical difficulties"@),
{
    Reply { code: 421, text: text("4.3.0 technical difficulties") }
}

impl SmtpServer {
    pub fn new(hostname: String) -> (r: SmtpServer)
        ensures
            r@ == (ServerModel { hostname: hostname@, hello: None, txn: None }),
    {
        SmtpServer { hostname, said_hello: None, state: None }
    }

    /// The domain that the peer last greeted with.
    pub fn said_hello(&self) -> (r: &Option<String>)
        ensures
            match *r {
                Some(h) => self@.hello == Some(h@),
                None => self@.hello.is_none(),
            },
    {
        &self.said_hello
    }

    /// The open transaction, if any.
    pub fn transaction(&self) -> (r: &Option<Transaction>)
        ensures
            match *r {
                Some(t) => self@.txn == Some(t@),
                None => self@.txn.is_none(),
            },
    {
        &self.state
    }

    /// The first reply of a session: a banner, or, while the spool is still
    /// being enumerated at startup, a refusal that ends the session.
    pub fn greeting(&self, spool_started: bool) -> (r: Step)
        ensures
            !spool_started ==> r@ == StepModel::Close(
                421,
                self@.hostname + " 4.3.2 Hold on just a moment!"@,
            ),
            spool_started ==> r@ == StepModel::Reply(
                220,
                self@.hostname + " KumoMTA\nW00t!\nYeah!"@,
            ),
    {
        if !spool_started {
            Step::Close(
                Reply {
                    code: 421,
                    text: concat2(self.hostname.as_str(), " 4.3.2 Hold on just a moment!"),
                },
            )
        } else {
            Step::Reply(
                Reply { code: 220, text: concat2(self.hostname.as_str(), " KumoMTA\nW00t!\nYeah!") },
            )
        }
    }

    /// Decides what to do with one parsed line.
    pub fn begin(&mut self, parsed: &Result<Command, ParseError>) -> (r: Step)
        ensures
            (r@, final(self)@) == begin_spec(old(self)@, parsed_view(*parsed)),
    {
        match parsed {
            Err(e) => {
                let msg = e.message();
                Step::Reply(
                    Reply { code: 501, text: concat2("Syntax error in command or arguments: ", msg.as_str()) },
                )
            },
            Ok(Command::Quit) => Step::Close(
                Reply { code: 221, text: text("So long, and thanks for all the fish!") },
            ),
            Ok(Command::Ehlo(d)) => Step::Consult(Hook::Ehlo, d.clone()),
            Ok(Command::Helo(d)) => Step::Consult(Hook::Ehlo, d.clone()),
            Ok(Command::MailFrom { address, parameters: _ }) => {
                if self.state.is_some() {
                    Step::Reply(
                        Reply { code: 503, text: text("5.5.0 MAIL FROM already issued; you must RSET first") },
                    )
                } else {
                    Step::Consult(Hook::MailFrom, address.clone())
                }
            },
            Ok(Command::RcptTo { address, parameters: _ }) => {
                if self.state.is_none() {
                    Step::Reply(Reply { code: 503, text: text("5.5.0 MAIL FROM must be issued first") })
                } else {
                    Step::Consult(Hook::RcptTo, address.clone())
                }
            },
            Ok(Command::Data) => {
                match &self.state {
                    None => Step::Reply(
                        Reply { code: 503, text: text("5.5.0 MAIL FROM must be issued first") },
                    ),
                    Some(t) => {
                        if t.recipients.len() == 0 {
                            Step::Reply(
                                Reply { code: 503, text: text("5.5.0 RCPT TO must be issued first") },
                            )
                        } else {
                            Step::ReadBody(
                                Reply { code: 354, text: text("Send body; end with CRLF.CRLF") },
                            )
                        }
                    },
                }
            },
            Ok(Command::Rset) => {
                self.state = None;
                Step::Reply(Reply { code: 250, text: text("Reset state") })
            },
            Ok(Command::Noop) => Step::Reply(Reply { code: 250, text: text("the goggles do nothing") }),
            Ok(Command::Unknown(_)) => Step::Reply(
                Reply { code: 502, text: text("5.5.1 Command unimplemented") },
            ),
        }
    }

    /// Applies a consulted command once its hook has given `verdict`.
    pub fn complete(&mut self, cmd: &Command, verdict: &Result<(), RejectError>) -> (r: Reply)
        ensures
            (r@, final(self)@) == complete_spec(old(self)@, cmd@, rejection_of(*verdict)),
    {
        match cmd {
            Command::MailFrom { address, parameters: _ } => {
                if self.state.is_some() {
                    return Reply { code: 503, text: text("5.5.0 MAIL FROM already issued; you must RSET first") };
                }
                if let Err(rej) = verdict {
                    let rej = rej.clone();
                    return Reply { code: rej.code, text: rej.message };
                }
                self.state = Some(Transaction { sender: address.clone(), recipients: Vec::new() });
                proof {
                    assert(self@.txn.unwrap().recipients =~= Seq::<Seq<char>>::empty());
                }
                Reply { code: 250, text: concat3("OK <", address.as_str(), ">") }
            },
            Command::RcptTo { address, parameters: _ } => {
                if self.state.is_none() {
                    return Reply { code: 503, text: text("5.5.0 MAIL FROM must be issued first") };
                }
                if let Err(rej) = verdict {
                    let rej = rej.clone();
                    return Reply { code: rej.code, text: rej.message };
                }
                let mut t = self.state.take().unwrap();
                let ghost before = t@;
                t.recipients.push(address.clone());
                proof {
                    assert(t@.recipients =~= before.recipients.push(address@));
                }
                self.state = Some(t);
                Reply { code: 250, text: concat3("OK <", address.as_str(), ">") }
            },
            Command::Ehlo(d) => {
                if let Err(rej) = verdict {
                    let rej = rej.clone();
                    return Reply { code: rej.code, text: rej.message };
                }
                let mut msg = concat3(self.hostname.as_str(), " Aloha ", d.as_str());
                msg.append("\nPIPELINING\nENHANCEDSTATUSCODES");
                self.said_hello = Some(d.clone());
                Reply { code: 250, text: msg }
            },
            Command::Helo(d) => {
                if let Err(rej) = verdict {
                    let rej = rej.clone();
                    return Reply { code: rej.code, text: rej.message };
                }
                self.said_hello = Some(d.clone());
                Reply { code: 250, text: concat3("Hello ", d.as_str(), "!") }
            },
            _ => Reply { code: 502, text: text("5.5.1 Command unimplemented") },
        }
    }

    /// Closes the open transaction for delivery of its body; the connection is
    /// ready for a new transaction afterwards.
    pub fn take_transaction(&mut self) -> (r: Option<Transaction>)
        ensures
            final(self)@ == (ServerModel { txn: None, ..old(self)@ }),
            match r {
                Some(t) => old(self)@.txn == Some(t@),
                None => old(self)@.txn.is_none(),
            },
    {
        self.state.take()
    }
}

} // verus!
