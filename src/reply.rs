//! Replies and their text on the wire.
use vstd::prelude::*;
use vstd::string::*;

verus! {

/// One reply: a status code and a message of one or more lines.
#[derive(Debug, Clone, PartialEq, Eq)]
pub struct Reply {
    pub code: u16,
    pub text: String,
}

impl View for Reply {
    type V = (u16, Seq<char>);

    open spec fn view(&self) -> (u16, Seq<char>) {
        (self.code, self.text@)
    }
}

pub open spec fn strip_cr(l: Seq<char>) -> Seq<char> {
    if l.len() > 0 && l.last() == '\r' {
        l.drop_last()
    } else {
        l
    }
}

/// The lines of `s` from the one that starts at `start`, scanning from `i`: lines
/// end at `\n`, lose one trailing `\r`, and a final `\n` opens no empty line.
pub open spec fn lines_acc(s: Seq<char>, start: int, i: int) -> Seq<Seq<char>>
    decreases s.len() - i,
{
    if i >= s.len() {
        if 0 <= start < s.len() {
            seq![strip_cr(s.subrange(start, s.len() as int))]
        } else {
            seq![]
        }
    } else if s[i] == '\n' {
        seq![strip_cr(s.subrange(start, i))] + lines_acc(s, i + 1, i + 1)
    } else {
        lines_acc(s, start, i + 1)
    }
}

pub open spec fn lines_of(s: Seq<char>) -> Seq<Seq<char>> {
    lines_acc(s, 0, 0)
}

pub open spec fn digit_char(d: int) -> char {
    if d == 0 { '0' }
    else if d == 1 { '1' }
    else if d == 2 { '2' }
    else if d == 3 { '3' }
    else if d == 4 { '4' }
    else if d == 5 { '5' }
    else if d == 6 { '6' }
    else if d == 7 { '7' }
    else if d == 8 { '8' }
    else { '9' }
}

/// Decimal digits of `n`, without leading zeros.
pub open spec fn decimal(n: nat) -> Seq<char>
    decreases n,
{
    if n < 10 {
        seq![digit_char(n as int)]
    } else {
        decimal(n / 10) + seq![digit_char(n as int % 10)]
    }
}

pub open spec fn crlf() -> Seq<char> {
    seq!['\r', '\n']
}

/// Each line prefixed by the code; `-` after the code on all but the last line,
/// a space on the last.
pub open spec fn render(code: Seq<char>, lines: Seq<Seq<char>>) -> Seq<char>
    decreases lines.len(),
{
    if lines.len() == 0 {
        seq![]
    } else if lines.len() == 1 {
        code + seq![' '] + lines[0] + crlf()
    } else {
        code + seq!['-'] + lines[0] + crlf() + render(code, lines.skip(1))
    }
}

/// The bytes on the wire for a reply with `code` and `text`, as characters.
pub open spec fn wire_text(code: u16, text: Seq<char>) -> Seq<char> {
    render(decimal(code as nat), lines_of(text))
}

pub open spec fn views_of(v: Seq<String>) -> Seq<Seq<char>> {
    v.map_values(|x: String| x@)
}

fn digit(d: u16) -> (r: &'static str)
    requires
        d < 10,
    ensures
        r@ == seq![digit_char(d as int)],
{
    proof {
        reveal_strlit("0");
        reveal_strlit("1");
        reveal_strlit("2");
        reveal_strlit("3");
        reveal_strlit("4");
        reveal_strlit("5");
        reveal_strlit("6");
        reveal_strlit("7");
        reveal_strlit("8");
        reveal_strlit("9");
    }
    let r = if d == 0 { "0" }
    else if d == 1 { "1" }
    else if d == 2 { "2" }
    else if d == 3 { "3" }
    else if d == 4 { "4" }
    else if d == 5 { "5" }
    else if d == 6 { "6" }
    else if d == 7 { "7" }
    else if d == 8 { "8" }
    else { "9" };
    assert(r@ =~= seq![digit_char(d as int)]);
    r
}

/// `n` in decimal.
pub fn decimal_text(n: u16) -> (r: String)
    ensures
        r@ == decimal(n as nat),
    decreases n,
{
    if n < 10 {
        String::from_str(digit(n))
    } else {
        let mut s = decimal_text(n / 10);
        s.append(digit(n % 10));
        s
    }
}

/// Splits `s` into lines as [`lines_of`] describes.
pub fn split_lines(s: &str) -> (r: Vec<String>)
    ensures
        views_of(r@) == lines_of(s@),
{
    let n = s.unicode_len();
    let mut out: Vec<String> = Vec::new();
    let mut start: usize = 0;
    let mut i: usize = 0;
    while i < n
        invariant
            start <= i <= n,
            n == s@.len(),
            views_of(out@) + lines_acc(s@, start as int, i as int) == lines_of(s@),
        decreases n - i,
    {
        if s.get_char(i) == '\n' {
            let line = line_between(s, start, i);
            proof {
                assert(views_of(out@.push(line)) =~= views_of(out@).push(line@));
                assert(views_of(out@) + lines_acc(s@, start as int, i as int) =~= views_of(
                    out@.push(line),
                ) + lines_acc(s@, i + 1, i + 1));
            }
            out.push(line);
            start = i + 1;
        }
        i += 1;
    }
    if start < n {
        let line = line_between(s, start, n);
        proof {
            assert(views_of(out@.push(line)) =~= views_of(out@).push(line@));
            assert(views_of(out@) + lines_acc(s@, start as int, n as int) =~= views_of(
                out@.push(line),
            ));
        }
        out.push(line);
    } else {
        assert(views_of(out@) + lines_acc(s@, start as int, n as int) =~= views_of(out@));
    }
    out
}

fn line_between(s: &str, from: usize, to: usize) -> (r: String)
    requires
        from <= to <= s@.len(),
    ensures
        r@ == strip_cr(s@.subrange(from as int, to as int)),
{
    if to > from && s.get_char(to - 1) == '\r' {
        let r = s.substring_char(from, to - 1).to_string();
        assert(r@ =~= s@.subrange(from as int, to as int).drop_last());
        r
    } else {
        s.substring_char(from, to).to_string()
    }
}

/// The text of `lines` prefixed by `code`, as [`render`] describes.
pub fn render_lines(code: &str, lines: &Vec<String>) -> (r: String)
    ensures
        r@ == render(code@, views_of(lines@)),
{
    proof {
        reveal_strlit(" ");
        reveal_strlit("-");
        reveal_strlit("\r\n");
        assert(" "@ =~= seq![' ']);
        assert("-"@ =~= seq!['-']);
        assert("\r\n"@ =~= crlf());
    }
    let mut out = String::new();
    let mut i: usize = 0;
    let ghost all = views_of(lines@);
    assert(all.skip(0) =~= all);
    while i < lines.len()
        invariant
            i <= lines@.len(),
            all == views_of(lines@),
            all.len() == lines@.len(),
            " "@ == seq![' '],
            "-"@ == seq!['-'],
            "\r\n"@ == crlf(),
            out@ + render(code@, all.skip(i as int)) == render(code@, all),
        decreases lines.len() - i,
    {
        let ghost rest = all.skip(i as int);
        let ghost before = out@;
        assert(rest[0] == lines@[i as int]@);
        out.append(code);
        if i + 1 == lines.len() {
            out.append(" ");
            out.append(lines[i].as_str());
            out.append("\r\n");
            assert(rest.len() == 1);
            assert(render(code@, rest) == code@ + seq![' '] + rest[0] + crlf());
            assert(out@ =~= before + render(code@, rest));
            assert(all.skip(i + 1).len() == 0);
            assert(out@ + render(code@, all.skip(i + 1)) =~= render(code@, all));
        } else {
            out.append("-");
            out.append(lines[i].as_str());
            out.append("\r\n");
            assert(rest.skip(1) =~= all.skip(i + 1));
            assert(render(code@, rest) == code@ + seq!['-'] + rest[0] + crlf() + render(
                code@,
                rest.skip(1),
            ));
            assert(out@ + render(code@, all.skip(i + 1)) =~= before + render(code@, rest));
            assert(out@ + render(code@, all.skip(i + 1)) =~= render(code@, all));
        }
        i += 1;
    }
    assert(all.skip(i as int).len() == 0);
    assert(out@ =~= render(code@, all));
    out
}

impl Reply {
    pub fn new(code: u16, text: String) -> (r: Reply)
        ensures
            r.code == code,
            r.text@ == text@,
    {
        Reply { code, text }
    }

    /// The reply as sent: one `\r\n`-terminated line per line of its text.
    pub fn to_wire(&self) -> (r: String)
        ensures
            r@ == wire_text(self.code, self.text@),
    {
        let code = decimal_text(self.code);
        let lines = split_lines(self.text.as_str());
        render_lines(code.as_str(), &lines)
    }
}

} // verus!
