//! Parsing of one protocol command line into a [`Command`].
use vstd::prelude::*;
use vstd::string::*;

verus! {

/// One parsed command line.
#[derive(Debug, Clone, PartialEq, Eq)]
pub enum Command {
    Ehlo(String),
    Helo(String),
    MailFrom { address: String, parameters: String },
    RcptTo { address: String, parameters: String },
    Data,
    Rset,
    Noop,
    Quit,
    /// A line whose verb is not one this server implements; holds the line.
    Unknown(String),
}

/// The mathematical value of a [`Command`].
pub ghost enum CommandModel {
    Ehlo(Seq<char>),
    Helo(Seq<char>),
    MailFrom { address: Seq<char>, parameters: Seq<char> },
    RcptTo { address: Seq<char>, parameters: Seq<char> },
    Data,
    Rset,
    Noop,
    Quit,
    Unknown(Seq<char>),
}

impl View for Command {
    type V = CommandModel;

    open spec fn view(&self) -> CommandModel {
        match self {
            Command::Ehlo(d) => CommandModel::Ehlo(d@),
            Command::Helo(d) => CommandModel::Helo(d@),
            Command::MailFrom { address, parameters } => CommandModel::MailFrom {
                address: address@,
                parameters: parameters@,
            },
            Command::RcptTo { address, parameters } => CommandModel::RcptTo {
                address: address@,
                parameters: parameters@,
            },
            Command::Data => CommandModel::Data,
            Command::Rset => CommandModel::Rset,
            Command::Noop => CommandModel::Noop,
            Command::Quit => CommandModel::Quit,
            Command::Unknown(l) => CommandModel::Unknown(l@),
        }
    }
}

/// Why a command line could not be parsed.
#[derive(PartialEq, Eq, Structural, Clone, Copy, Debug)]
pub enum ParseError {
    /// The path argument does not begin with `<`.
    MissingOpenBracket,
    /// The path argument has no closing `>`.
    MissingCloseBracket,
    /// `RCPT TO:<>`: the empty path names no recipient.
    NullRecipient,
}

pub open spec fn null_recipient_text() -> Seq<char> {
    "Null sender not permitted as a recipient"@
}

/// The reason text of each parse error.
pub open spec fn error_text(e: ParseError) -> Seq<char> {
    match e {
        ParseError::MissingOpenBracket => "Expected '<' to begin the path"@,
        ParseError::MissingCloseBracket => "Expected '>' to end the path"@,
        ParseError::NullRecipient => null_recipient_text(),
    }
}

impl ParseError {
    /// The human-readable reason.
    pub fn message(&self) -> (r: String)
        ensures
            r@ == error_text(*self),
    {
        match self {
            ParseError::MissingOpenBracket => {
                String::from_str("Expected '<' to begin the path")
            },
            ParseError::MissingCloseBracket => {
                String::from_str("Expected '>' to end the path")
            },
            ParseError::NullRecipient => {
                String::from_str("Null sender not permitted as a recipient")
            },
        }
    }
}

/// ASCII case folding of one character, as a code point.
pub open spec fn fold_char(c: char) -> u32 {
    if 65 <= (c as u32) && (c as u32) <= 90 {
        ((c as u32) + 32) as u32
    } else {
        c as u32
    }
}

/// `s` spells the lower-case `verb`, ignoring ASCII case.
pub open spec fn folds_to(s: Seq<char>, verb: Seq<char>) -> bool {
    &&& s.len() == verb.len()
    &&& forall|i: int| 0 <= i < s.len() ==> fold_char(#[trigger] s[i]) == (verb[i] as u32)
}

/// `line` begins with `verb`, ignoring ASCII case.
pub open spec fn has_verb(line: Seq<char>, verb: Seq<char>) -> bool {
    line.len() >= verb.len() && folds_to(line.subrange(0, verb.len() as int), verb)
}

pub open spec fn quit_verb() -> Seq<char> {
    seq!['q', 'u', 'i', 't']
}

pub open spec fn data_verb() -> Seq<char> {
    seq!['d', 'a', 't', 'a']
}

pub open spec fn rset_verb() -> Seq<char> {
    seq!['r', 's', 'e', 't']
}

pub open spec fn noop_verb() -> Seq<char> {
    seq!['n', 'o', 'o', 'p']
}

pub open spec fn ehlo_verb() -> Seq<char> {
    seq!['e', 'h', 'l', 'o', ' ']
}

pub open spec fn helo_verb() -> Seq<char> {
    seq!['h', 'e', 'l', 'o', ' ']
}

pub open spec fn mail_verb() -> Seq<char> {
    seq!['m', 'a', 'i', 'l', ' ', 'f', 'r', 'o', 'm', ':']
}

pub open spec fn rcpt_verb() -> Seq<char> {
    seq!['r', 'c', 'p', 't', ' ', 't', 'o', ':']
}

/// Index of the first `c` in `s` at or after `from`, or `s.len()` when there is none.
pub open spec fn first_index(s: Seq<char>, c: char, from: int) -> int
    decreases s.len() - from,
{
    if from < 0 || from >= s.len() {
        s.len() as int
    } else if s[from] == c {
        from
    } else {
        first_index(s, c, from + 1)
    }
}

/// A path argument `<address>parameters`: the address between the brackets and
/// the text after the closing bracket.
pub open spec fn path_spec(arg: Seq<char>) -> Result<(Seq<char>, Seq<char>), ParseError> {
    if arg.len() == 0 || arg[0] != '<' {
        Err(ParseError::MissingOpenBracket)
    } else {
        let j = first_index(arg, '>', 1);
        if j >= arg.len() {
            Err(ParseError::MissingCloseBracket)
        } else {
            Ok((arg.subrange(1, j), arg.subrange(j + 1, arg.len() as int)))
        }
    }
}

/// The recognised verb that `line` starts with, by its length.
pub open spec fn verb_len(line: Seq<char>) -> Option<int> {
    if folds_to(line, quit_verb()) || folds_to(line, data_verb()) || folds_to(line, rset_verb())
        || folds_to(line, noop_verb()) {
        Some(4)
    } else if has_verb(line, ehlo_verb()) || has_verb(line, helo_verb()) {
        Some(5)
    } else if has_verb(line, mail_verb()) {
        Some(10)
    } else if has_verb(line, rcpt_verb()) {
        Some(8)
    } else {
        None
    }
}

/// What one line parses to.
pub open spec fn parse_spec(line: Seq<char>) -> Result<CommandModel, ParseError> {
    let rest = |k: int| line.subrange(k, line.len() as int);
    if folds_to(line, quit_verb()) {
        Ok(CommandModel::Quit)
    } else if folds_to(line, data_verb()) {
        Ok(CommandModel::Data)
    } else if folds_to(line, rset_verb()) {
        Ok(CommandModel::Rset)
    } else if folds_to(line, noop_verb()) {
        Ok(CommandModel::Noop)
    } else if has_verb(line, ehlo_verb()) {
        Ok(CommandModel::Ehlo(rest(5)))
    } else if has_verb(line, helo_verb()) {
        Ok(CommandModel::Helo(rest(5)))
    } else if has_verb(line, mail_verb()) {
        match path_spec(rest(10)) {
            Ok((a, p)) => Ok(CommandModel::MailFrom { address: a, parameters: p }),
            Err(e) => Err(e),
        }
    } else if has_verb(line, rcpt_verb()) {
        match path_spec(rest(8)) {
            Ok((a, p)) => if a.len() == 0 {
                Err(ParseError::NullRecipient)
            } else {
                Ok(CommandModel::RcptTo { address: a, parameters: p })
            },
            Err(e) => Err(e),
        }
    } else {
        Ok(CommandModel::Unknown(line))
    }
}

proof fn lemma_same_fold_same_verbs(l1: Seq<char>, l2: Seq<char>, v: Seq<char>)
    requires
        l1.len() == l2.len(),
        forall|i: int| 0 <= i < l1.len() ==> fold_char(l1[i]) == fold_char(l2[i]),
    ensures
        folds_to(l1, v) == folds_to(l2, v),
        has_verb(l1, v) == has_verb(l2, v),
{
    if l1.len() >= v.len() {
        let head1 = l1.subrange(0, v.len() as int);
        let head2 = l2.subrange(0, v.len() as int);
        assert forall|i: int| 0 <= i < head1.len() implies fold_char(head1[i]) == fold_char(head2[i]) by {
            assert(head1[i] == l1[i] && head2[i] == l2[i]);
        }
    }
}

/// Parsing ignores the case of a recognised verb: two lines that differ only in
/// the ASCII case of the verb they start with parse to the same command.
pub proof fn lemma_verb_case_insensitive(l1: Seq<char>, l2: Seq<char>, k: int)
    requires
        verb_len(l1) == Some(k),
        l1.len() == l2.len(),
        forall|i: int| 0 <= i < k ==> fold_char(#[trigger] l1[i]) == fold_char(l2[i]),
        forall|i: int| k <= i < l1.len() ==> #[trigger] l1[i] == l2[i],
    ensures
        parse_spec(l1) == parse_spec(l2),
{
    assert forall|i: int| 0 <= i < l1.len() implies fold_char(l1[i]) == fold_char(l2[i]) by {
        if i >= k {
            assert(l1[i] == l2[i]);
        }
    }
    lemma_same_fold_same_verbs(l1, l2, quit_verb());
    lemma_same_fold_same_verbs(l1, l2, data_verb());
    lemma_same_fold_same_verbs(l1, l2, rset_verb());
    lemma_same_fold_same_verbs(l1, l2, noop_verb());
    lemma_same_fold_same_verbs(l1, l2, ehlo_verb());
    lemma_same_fold_same_verbs(l1, l2, helo_verb());
    lemma_same_fold_same_verbs(l1, l2, mail_verb());
    lemma_same_fold_same_verbs(l1, l2, rcpt_verb());
    assert(l1.subrange(k, l1.len() as int) =~= l2.subrange(k, l2.len() as int));
}

/// A line that starts with no recognised verb is never a parse error: it parses
/// to `Unknown` holding the line.
pub proof fn lemma_unknown_verb_parses(line: Seq<char>)
    requires
        verb_len(line).is_none(),
    ensures
        parse_spec(line) == Ok::<CommandModel, ParseError>(CommandModel::Unknown(line)),
{
}

pub open spec fn parsed_view(r: Result<Command, ParseError>) -> Result<CommandModel, ParseError> {
    match r {
        Ok(c) => Ok(c@),
        Err(e) => Err(e),
    }
}

fn fold(c: char) -> (r: u32)
    ensures
        r == fold_char(c),
{
    let u = c as u32;
    if 65 <= u && u <= 90 {
        u + 32
    } else {
        u
    }
}

/// Whether `line` begins with `verb`, ignoring ASCII case.
fn starts_with_verb(line: &str, verb: &str) -> (r: bool)
    ensures
        r == has_verb(line@, verb@),
{
    let n = line.unicode_len();
    let m = verb.unicode_len();
    if n < m {
        return false;
    }
    let mut i: usize = 0;
    while i < m
        invariant
            i <= m,
            m <= n,
            n == line@.len(),
            m == verb@.len(),
            forall|k: int| 0 <= k < i ==> fold_char(#[trigger] line@[k]) == (verb@[k] as u32),
        decreases m - i,
    {
        let c = line.get_char(i);
        let v = verb.get_char(i);
        if fold(c) != v as u32 {
            assert(line@.subrange(0, m as int)[i as int] == c);
            return false;
        }
        i += 1;
    }
    assert forall|k: int| 0 <= k < m implies fold_char(#[trigger] line@.subrange(0, m as int)[k])
        == (verb@[k] as u32) by {
        assert(line@.subrange(0, m as int)[k] == line@[k]);
    }
    true
}

/// Whether the whole of `line` is `verb`, ignoring ASCII case.
fn is_verb(line: &str, verb: &str) -> (r: bool)
    ensures
        r == folds_to(line@, verb@),
{
    if line.unicode_len() != verb.unicode_len() {
        return false;
    }
    let r = starts_with_verb(line, verb);
    assert(line@.subrange(0, line@.len() as int) =~= line@);
    r
}

/// Splits a path argument `<address>parameters`.
fn parse_path(arg: &str) -> (r: Result<(String, String), ParseError>)
    ensures
        match r {
            Ok((a, p)) => path_spec(arg@) == Ok::<(Seq<char>, Seq<char>), ParseError>((a@, p@)),
            Err(e) => path_spec(arg@) == Err::<(Seq<char>, Seq<char>), ParseError>(e),
        },
{
    let n = arg.unicode_len();
    if n == 0 || arg.get_char(0) != '<' {
        return Err(ParseError::MissingOpenBracket);
    }
    let mut j: usize = 1;
    while j < n && arg.get_char(j) != '>'
        invariant
            1 <= j <= n,
            n == arg@.len(),
            first_index(arg@, '>', 1) == first_index(arg@, '>', j as int),
        decreases n - j,
    {
        j += 1;
    }
    if j >= n {
        return Err(ParseError::MissingCloseBracket);
    }
    let address = arg.substring_char(1, j).to_string();
    let parameters = arg.substring_char(j + 1, n).to_string();
    Ok((address, parameters))
}

impl Command {
    /// Parses one line, its line terminator already removed.
    pub fn parse(line: &str) -> (r: Result<Command, ParseError>)
        ensures
            parsed_view(r) == parse_spec(line@),
    {
        let n = line.unicode_len();
        proof {
            reveal_strlit("quit");
            reveal_strlit("data");
            reveal_strlit("rset");
            reveal_strlit("noop");
            reveal_strlit("ehlo ");
            reveal_strlit("helo ");
            reveal_strlit("mail from:");
            reveal_strlit("rcpt to:");
            assert("quit"@ =~= quit_verb());
            assert("data"@ =~= data_verb());
            assert("rset"@ =~= rset_verb());
            assert("noop"@ =~= noop_verb());
            assert("ehlo "@ =~= ehlo_verb());
            assert("helo "@ =~= helo_verb());
            assert("mail from:"@ =~= mail_verb());
            assert("rcpt to:"@ =~= rcpt_verb());
        }
        if is_verb(line, "quit") {
            Ok(Command::Quit)
        } else if is_verb(line, "data") {
            Ok(Command::Data)
        } else if is_verb(line, "rset") {
            Ok(Command::Rset)
        } else if is_verb(line, "noop") {
            Ok(Command::Noop)
        } else if starts_with_verb(line, "ehlo ") {
            Ok(Command::Ehlo(line.substring_char(5, n).to_string()))
        } else if starts_with_verb(line, "helo ") {
            Ok(Command::Helo(line.substring_char(5, n).to_string()))
        } else if starts_with_verb(line, "mail from:") {
            match parse_path(line.substring_char(10, n)) {
                Ok((address, parameters)) => Ok(Command::MailFrom { address, parameters }),
                Err(e) => Err(e),
            }
        } else if starts_with_verb(line, "rcpt to:") {
            match parse_path(line.substring_char(8, n)) {
                Ok((address, parameters)) => {
                    if address.as_str().unicode_len() == 0 {
                        Err(ParseError::NullRecipient)
                    } else {
                        Ok(Command::RcptTo { address, parameters })
                    }
                },
                Err(e) => Err(e),
            }
        } else {
            Ok(Command::Unknown(line.to_string()))
        }
    }
}

} // verus!
