use kumod::command::{Command, ParseError};
use kumod::fanout::{domain_part, plan_fan_out, resolve_queue, Candidate, Delivery, FanOutError, QueueMeta};
use kumod::reject::{policy_verdict, PolicyError};
use kumod::reply::{decimal_text, split_lines, Reply};
use kumod::session::{append_body_line, failure_reply, Hook, SmtpServer, Step};
use kumod::RejectError;

fn reply(code: u16, text: &str) -> Reply {
    Reply::new(code, text.to_string())
}

fn rej(code: u16, text: &str) -> RejectError {
    RejectError { code, message: text.to_string() }
}

fn run_consulted(server: &mut SmtpServer, line: &str, verdict: Result<(), RejectError>) -> Reply {
    let parsed = Command::parse(line);
    let step = server.begin(&parsed);
    assert!(matches!(step, Step::Consult(_, _)), "{line}: {step:?}");
    server.complete(parsed.as_ref().unwrap(), &verdict)
}

#[test]
fn parse_verbs_ignore_case() {
    for l in ["quit", "QUIT", "Quit"] {
        assert_eq!(Command::parse(l), Ok(Command::Quit));
    }
    for l in ["data", "DATA", "DaTa"] {
        assert_eq!(Command::parse(l), Ok(Command::Data));
    }
    assert_eq!(Command::parse("rset"), Ok(Command::Rset));
    assert_eq!(Command::parse("NoOp"), Ok(Command::Noop));
    assert_eq!(Command::parse("ehlo Example.COM"), Ok(Command::Ehlo("Example.COM".to_string())));
    assert_eq!(Command::parse("HeLo x"), Ok(Command::Helo("x".to_string())));
    let expected = Command::MailFrom { address: "a@b".to_string(), parameters: String::new() };
    assert_eq!(Command::parse("mail from:<a@b>"), Ok(expected.clone()));
    assert_eq!(Command::parse("MAIL FROM:<a@b>"), Ok(expected));
    let expected = Command::RcptTo { address: "c@d".to_string(), parameters: String::new() };
    assert_eq!(Command::parse("Rcpt To:<c@d>"), Ok(expected));
}

#[test]
fn parse_null_sender_and_null_recipient() {
    assert_eq!(
        Command::parse("MAIL FROM:<>"),
        Ok(Command::MailFrom { address: String::new(), parameters: String::new() })
    );
    let err = Command::parse("RCPT TO:<>").unwrap_err();
    assert_eq!(err, ParseError::NullRecipient);
    assert_eq!(err.message(), "Null sender not permitted as a recipient");
}

#[test]
fn parse_unknown_verbs_is_not_an_error() {
    for l in ["VRFY bob", "HELP", "", "quit now", "EHLO", "MAIL TO:<a>"] {
        assert_eq!(Command::parse(l), Ok(Command::Unknown(l.to_string())));
    }
}

#[test]
fn parse_path_brackets_and_parameters() {
    assert_eq!(Command::parse("MAIL FROM:a@b"), Err(ParseError::MissingOpenBracket));
    assert_eq!(Command::parse("MAIL FROM:"), Err(ParseError::MissingOpenBracket));
    assert_eq!(Command::parse("RCPT TO:<c@d"), Err(ParseError::MissingCloseBracket));
    assert_eq!(
        Command::parse("MAIL FROM:<a@b> SIZE=10"),
        Ok(Command::MailFrom { address: "a@b".to_string(), parameters: " SIZE=10".to_string() })
    );
    assert_eq!(ParseError::MissingOpenBracket.message(), "Expected '<' to begin the path");
    assert_eq!(ParseError::MissingCloseBracket.message(), "Expected '>' to end the path");
}

#[test]
fn syntax_error_reply() {
    let mut s = SmtpServer::new("mx".to_string());
    let step = s.begin(&Command::parse("RCPT TO:<>"));
    assert_eq!(
        step,
        Step::Reply(reply(501, "Syntax error in command or arguments: Null sender not permitted as a recipient"))
    );
    let step = s.begin(&Command::parse("VRFY x"));
    assert_eq!(step, Step::Reply(reply(502, "5.5.1 Command unimplemented")));
    assert_eq!(s.begin(&Command::parse("NOOP")), Step::Reply(reply(250, "the goggles do nothing")));
}

#[test]
fn rcpt_before_mail_is_refused() {
    let mut s = SmtpServer::new("mx".to_string());
    let step = s.begin(&Command::parse("RCPT TO:<c@d>"));
    assert_eq!(step, Step::Reply(reply(503, "5.5.0 MAIL FROM must be issued first")));
    assert!(s.transaction().is_none());
    let cmd = Command::parse("RCPT TO:<c@d>").unwrap();
    let r = s.complete(&cmd, &Ok(()));
    assert_eq!(r.code, 503);
    assert!(s.transaction().is_none());
}

#[test]
fn second_mail_from_is_refused() {
    let mut s = SmtpServer::new("mx".to_string());
    assert_eq!(run_consulted(&mut s, "MAIL FROM:<a@b>", Ok(())), reply(250, "OK <a@b>"));
    assert_eq!(run_consulted(&mut s, "RCPT TO:<c@d>", Ok(())), reply(250, "OK <c@d>"));
    let step = s.begin(&Command::parse("MAIL FROM:<x@y>"));
    assert_eq!(step, Step::Reply(reply(503, "5.5.0 MAIL FROM already issued; you must RSET first")));
    let t = s.transaction().as_ref().unwrap();
    assert_eq!(t.sender, "a@b");
    assert_eq!(t.recipients, vec!["c@d".to_string()]);
    let r = s.complete(&Command::parse("MAIL FROM:<x@y>").unwrap(), &Ok(()));
    assert_eq!(r.code, 503);
    assert_eq!(s.transaction().as_ref().unwrap().sender, "a@b");
}

#[test]
fn data_without_recipients_is_refused() {
    let mut s = SmtpServer::new("mx".to_string());
    assert_eq!(
        s.begin(&Command::parse("DATA")),
        Step::Reply(reply(503, "5.5.0 MAIL FROM must be issued first"))
    );
    run_consulted(&mut s, "MAIL FROM:<a@b>", Ok(()));
    assert_eq!(
        s.begin(&Command::parse("DATA")),
        Step::Reply(reply(503, "5.5.0 RCPT TO must be issued first"))
    );
    assert!(s.transaction().is_some());
}

#[test]
fn rset_discards_transaction() {
    let mut s = SmtpServer::new("mx".to_string());
    run_consulted(&mut s, "MAIL FROM:<a@b>", Ok(()));
    assert_eq!(s.begin(&Command::parse("RSET")), Step::Reply(reply(250, "Reset state")));
    assert!(s.transaction().is_none());
    assert_eq!(run_consulted(&mut s, "MAIL FROM:<>", Ok(())), reply(250, "OK <>"));
}

#[test]
fn policy_rejections_keep_state() {
    let mut s = SmtpServer::new("mx".to_string());
    let r = run_consulted(&mut s, "EHLO bad", Err(rej(550, "go away")));
    assert_eq!(r, reply(550, "go away"));
    assert!(s.said_hello().is_none());
    let r = run_consulted(&mut s, "HELO good", Ok(()));
    assert_eq!(r, reply(250, "Hello good!"));
    assert_eq!(s.said_hello().as_deref(), Some("good"));
    let r = run_consulted(&mut s, "MAIL FROM:<a@b>", Err(rej(451, "later")));
    assert_eq!(r, reply(451, "later"));
    assert!(s.transaction().is_none());
    run_consulted(&mut s, "MAIL FROM:<a@b>", Ok(()));
    let r = run_consulted(&mut s, "RCPT TO:<c@d>", Err(rej(550, "no such user")));
    assert_eq!(r.code, 550);
    assert!(s.transaction().as_ref().unwrap().recipients.is_empty());
}

#[test]
fn body_dot_unstuffing() {
    let mut body = String::new();
    assert!(!append_body_line(&mut body, "..hello\r\n"));
    assert_eq!(body, ".hello\r\n");
    assert!(!append_body_line(&mut body, "plain\r\n"));
    assert!(!append_body_line(&mut body, ".\n"));
    assert_eq!(body, ".hello\r\nplain\r\n\n");
    assert!(append_body_line(&mut body, ".\r\n"));
    assert_eq!(body, ".hello\r\nplain\r\n\n");
}

fn candidate(id: &str, recipient: &str, verdict: Result<(), RejectError>, queue: QueueMeta) -> Candidate {
    Candidate { id: id.to_string(), recipient: recipient.to_string(), verdict, queue }
}

#[test]
fn fan_out_rejected_recipient_is_excluded() {
    let cands = vec![
        candidate("idA", "a@x.com", Err(rej(550, "no")), QueueMeta::Absent),
        candidate("idB", "b@y.com", Ok(()), QueueMeta::Absent),
    ];
    let plan = plan_fan_out(&cands).unwrap();
    assert_eq!(plan.ids, vec!["idB".to_string()]);
    assert_eq!(plan.rejections, vec![reply(550, "no")]);
    assert_eq!(plan.deliveries, vec![Delivery { index: 1, queue: "y.com".to_string() }]);
    assert_eq!(plan.reply(), reply(250, "OK ids=idB"));
}

#[test]
fn queue_name_resolution() {
    assert_eq!(resolve_queue(&QueueMeta::Text("bounces".to_string()), "u@example.com"), Some("bounces".to_string()));
    assert_eq!(resolve_queue(&QueueMeta::Absent, "u@example.com"), Some("example.com".to_string()));
    assert_eq!(resolve_queue(&QueueMeta::NotText, "u@example.com"), None);
    assert_eq!(domain_part("a@b@c.org"), "c.org");
    assert_eq!(domain_part("postmaster"), "");
    let cands = vec![
        candidate("1", "u@example.com", Ok(()), QueueMeta::Text("null".to_string())),
        candidate("2", "v@example.com", Ok(()), QueueMeta::Text("bounces".to_string())),
        candidate("3", "w@example.com", Ok(()), QueueMeta::Absent),
    ];
    let plan = plan_fan_out(&cands).unwrap();
    assert_eq!(plan.ids, vec!["1".to_string(), "2".to_string(), "3".to_string()]);
    assert_eq!(
        plan.deliveries,
        vec![
            Delivery { index: 1, queue: "bounces".to_string() },
            Delivery { index: 2, queue: "example.com".to_string() },
        ]
    );
    assert_eq!(plan.reply(), reply(250, "OK ids=1 2 3"));
    let bad = vec![
        candidate("1", "u@example.com", Ok(()), QueueMeta::Absent),
        candidate("2", "v@example.com", Ok(()), QueueMeta::NotText),
    ];
    assert_eq!(plan_fan_out(&bad).unwrap_err(), FanOutError::QueueNotText(1));
}

#[test]
fn end_to_end_session() {
    let mut s = SmtpServer::new("mx.local".to_string());
    let greeting = s.greeting(true);
    assert_eq!(greeting, Step::Reply(reply(220, "mx.local KumoMTA\nW00t!\nYeah!")));
    let ehlo = Command::parse("EHLO a");
    assert_eq!(s.begin(&ehlo), Step::Consult(Hook::Ehlo, "a".to_string()));
    let r = s.complete(ehlo.as_ref().unwrap(), &Ok(()));
    assert_eq!(r.to_wire(), "250-mx.local Aloha a\r\n250-PIPELINING\r\n250 ENHANCEDSTATUSCODES\r\n");
    let r = run_consulted(&mut s, "MAIL FROM:<a@b>", Ok(()));
    assert!(r.to_wire().starts_with("250 OK "));
    let r = run_consulted(&mut s, "RCPT TO:<c@d>", Ok(()));
    assert!(r.to_wire().starts_with("250 OK "));
    let step = s.begin(&Command::parse("DATA"));
    assert_eq!(step, Step::ReadBody(reply(354, "Send body; end with CRLF.CRLF")));
    let mut body = String::new();
    assert!(!append_body_line(&mut body, "hello\r\n"));
    assert!(append_body_line(&mut body, ".\r\n"));
    assert_eq!(body, "hello\r\n");
    let t = s.take_transaction().unwrap();
    assert!(s.transaction().is_none());
    let cands: Vec<Candidate> = t
        .recipients
        .iter()
        .map(|r| candidate("m1", r, Ok(()), QueueMeta::Absent))
        .collect();
    let plan = plan_fan_out(&cands).unwrap();
    assert_eq!(plan.deliveries, vec![Delivery { index: 0, queue: "d".to_string() }]);
    assert_eq!(plan.reply().to_wire(), "250 OK ids=m1\r\n");
    let step = s.begin(&Command::parse("QUIT"));
    assert_eq!(step, Step::Close(reply(221, "So long, and thanks for all the fish!")));
}

#[test]
fn greeting_before_spool_is_ready() {
    let s = SmtpServer::new("mx".to_string());
    assert_eq!(s.greeting(false), Step::Close(reply(421, "mx 4.3.2 Hold on just a moment!")));
    assert_eq!(failure_reply().to_wire(), "421 4.3.0 technical difficulties\r\n");
}

#[test]
fn nested_reject_is_recovered() {
    let signal = rej(550, "5.7.1 rejected by policy");
    let nested = PolicyError::EngineCallback(Box::new(PolicyError::EngineExternal(Box::new(
        PolicyError::Wrapped("host".to_string(), Box::new(PolicyError::Reject(signal.clone()))),
    ))));
    assert_eq!(RejectError::from_anyhow(&nested), Some(signal.clone()));
    assert_eq!(RejectError::from_lua(&nested), Some(signal.clone()));
    let plain = PolicyError::Wrapped("a".to_string(), Box::new(PolicyError::Other("b".to_string())));
    assert_eq!(RejectError::from_anyhow(&plain), None);
    let engine = PolicyError::EngineCallback(Box::new(PolicyError::EngineOther("runtime".to_string())));
    assert_eq!(RejectError::from_std_error(&engine), None);
    // A callback layer only unwraps engine errors.
    let odd = PolicyError::EngineCallback(Box::new(PolicyError::Reject(signal.clone())));
    assert_eq!(RejectError::from_lua(&odd), None);
}

#[test]
fn policy_verdicts() {
    assert_eq!(policy_verdict(Ok(())).unwrap(), Ok(()));
    let signal = rej(421, "slow down");
    let e = PolicyError::Wrapped("x".to_string(), Box::new(PolicyError::Reject(signal.clone())));
    assert_eq!(policy_verdict(Err(e)).unwrap(), Err(signal));
    assert!(policy_verdict(Err(PolicyError::Other("boom".to_string()))).is_err());
    assert_eq!(Hook::Ehlo.name(), "smtp_server_ehlo");
    assert_eq!(Hook::MailFrom.name(), "smtp_server_mail_from");
    assert_eq!(Hook::RcptTo.name(), "smtp_server_mail_rcpt_to");
    assert_eq!(Hook::MessageReceived.name(), "smtp_server_message_received");
}

#[test]
fn reply_wire_format() {
    assert_eq!(reply(250, "one").to_wire(), "250 one\r\n");
    assert_eq!(reply(220, "a\r\nb\n").to_wire(), "220-a\r\n220 b\r\n");
    assert_eq!(reply(250, "").to_wire(), "");
    assert_eq!(reply(7, "x").to_wire(), "7 x\r\n");
    assert_eq!(decimal_text(0), "0");
    assert_eq!(decimal_text(65535), "65535");
    assert_eq!(split_lines("a\n\nb"), vec!["a".to_string(), String::new(), "b".to_string()]);
}
