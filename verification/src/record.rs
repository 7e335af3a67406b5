//! Structured status records and their line format.
//!
//! A record is a flat `{log_type, message, data}` triple. It is written
//! to standard output as a single JSON object, followed by the `:log:`
//! delimiter and a blank line, and flushed at once so an external
//! supervisor observes progress in real time. The JSON rendering,
//! including string escaping, is verified here against a character-level
//! specification.

use std::io::Write;
use vstd::prelude::*;
use vstd::string::StrSliceExecFns;
use vstd::string::StringExecFns;

verus! {

/// One status record. `data` carries a pre-serialized payload where one
/// exists and is the empty string otherwise.
pub struct LogRecord {
    pub log_type: String,
    pub message: String,
    pub data: String,
}

/// The mathematical shadow of a record: its three fields as character
/// sequences.
pub ghost struct RecModel {
    pub tag: Seq<char>,
    pub msg: Seq<char>,
    pub data: Seq<char>,
}

impl View for LogRecord {
    type V = RecModel;

    open spec fn view(&self) -> RecModel {
        RecModel { tag: self.log_type@, msg: self.message@, data: self.data@ }
    }
}

/// The models of a sequence of records.
pub open spec fn models(records: Seq<LogRecord>) -> Seq<RecModel> {
    records.map_values(|r: LogRecord| r@)
}

/// The hexadecimal digit for a value below sixteen, lower case.
pub open spec fn hex_digit(d: nat) -> char {
    if d == 0 { '0' } else if d == 1 { '1' } else if d == 2 { '2' } else if d == 3 { '3' }
    else if d == 4 { '4' } else if d == 5 { '5' } else if d == 6 { '6' } else if d == 7 { '7' }
    else if d == 8 { '8' } else if d == 9 { '9' } else if d == 10 { 'a' } else if d == 11 { 'b' }
    else if d == 12 { 'c' } else if d == 13 { 'd' } else if d == 14 { 'e' } else { 'f' }
}

/// How one character stands inside a JSON string literal: quote and
/// backslash escaped, the named control characters by their short
/// escapes, every other control character as a four-digit escape, and
/// everything else as itself.
pub open spec fn escaped_char(c: char) -> Seq<char> {
    if c == '"' { seq!['\\', '"'] }
    else if c == '\\' { seq!['\\', '\\'] }
    else if c == '\u{8}' { seq!['\\', 'b'] }
    else if c == '\t' { seq!['\\', 't'] }
    else if c == '\n' { seq!['\\', 'n'] }
    else if c == '\u{c}' { seq!['\\', 'f'] }
    else if c == '\r' { seq!['\\', 'r'] }
    else if (c as u32) < 32 {
        seq!['\\', 'u', '0', '0', hex_digit(((c as u32) / 16) as nat), hex_digit(((c as u32) % 16) as nat)]
    } else {
        seq![c]
    }
}

/// A whole character sequence escaped for a JSON string literal.
pub open spec fn escaped(s: Seq<char>) -> Seq<char>
    decreases s.len(),
{
    if s.len() == 0 {
        Seq::empty()
    } else {
        escaped(s.drop_last()) + escaped_char(s.last())
    }
}

/// The single-line JSON rendering of a record, fields in fixed order.
pub open spec fn record_json(t: Seq<char>, m: Seq<char>, d: Seq<char>) -> Seq<char> {
    "{\"log_type\":\""@ + escaped(t) + "\",\"message\":\""@ + escaped(m) + "\",\"data\":\""@
        + escaped(d) + "\"}"@
}

/// The full emitted text of a record: the JSON object, the delimiter
/// marker, and the blank line that ends the entry.
pub open spec fn log_line(t: Seq<char>, m: Seq<char>, d: Seq<char>) -> Seq<char> {
    record_json(t, m, d) + ":log:\n\n"@
}

fn hex_digit_char(d: u32) -> (r: char)
    requires
        d < 16,
    ensures
        r == hex_digit(d as nat),
{
    if d == 0 { '0' } else if d == 1 { '1' } else if d == 2 { '2' } else if d == 3 { '3' }
    else if d == 4 { '4' } else if d == 5 { '5' } else if d == 6 { '6' } else if d == 7 { '7' }
    else if d == 8 { '8' } else if d == 9 { '9' } else if d == 10 { 'a' } else if d == 11 { 'b' }
    else if d == 12 { 'c' } else if d == 13 { 'd' } else if d == 14 { 'e' } else { 'f' }
}

fn push_escaped(out: &mut Vec<char>, c: char)
    ensures
        final(out)@ == old(out)@ + escaped_char(c),
{
    if c == '"' {
        out.push('\\');
        out.push('"');
        assert(out@ =~= old(out)@ + escaped_char(c));
    } else if c == '\\' {
        out.push('\\');
        out.push('\\');
        assert(out@ =~= old(out)@ + escaped_char(c));
    } else if c == '\u{8}' {
        out.push('\\');
        out.push('b');
        assert(out@ =~= old(out)@ + escaped_char(c));
    } else if c == '\t' {
        out.push('\\');
        out.push('t');
        assert(out@ =~= old(out)@ + escaped_char(c));
    } else if c == '\n' {
        out.push('\\');
        out.push('n');
        assert(out@ =~= old(out)@ + escaped_char(c));
    } else if c == '\u{c}' {
        out.push('\\');
        out.push('f');
        assert(out@ =~= old(out)@ + escaped_char(c));
    } else if c == '\r' {
        out.push('\\');
        out.push('r');
        assert(out@ =~= old(out)@ + escaped_char(c));
    } else if (c as u32) < 32 {
        let code: u32 = c as u32;
        out.push('\\');
        out.push('u');
        out.push('0');
        out.push('0');
        out.push(hex_digit_char(code / 16));
        out.push(hex_digit_char(code % 16));
        assert(out@ =~= old(out)@ + escaped_char(c));
    } else {
        out.push(c);
        assert(out@ =~= old(out)@ + escaped_char(c));
    }
}

/// Relies on `String::from_iter` over characters: the built string's
/// characters are exactly the given ones, in order.
#[verifier::external_body]
pub(crate) fn chars_to_string(v: &Vec<char>) -> (r: String)
    ensures
        r@ == v@,
{
    v.iter().collect()
}

/// Escape a text for inclusion in a JSON string literal.
pub fn escape_json(s: &str) -> (r: String)
    ensures
        r@ == escaped(s@),
{
    let n = s.unicode_len();
    let mut out: Vec<char> = Vec::new();
    let mut i: usize = 0;
    while i < n
        invariant
            n == s@.len(),
            i <= n,
            out@ == escaped(s@.subrange(0, i as int)),
        decreases n - i,
    {
        let c = s.get_char(i);
        push_escaped(&mut out, c);
        proof {
            let pre = s@.subrange(0, i as int);
            let ext = s@.subrange(0, i + 1 as int);
            assert(ext.drop_last() =~= pre);
            assert(ext.last() == c);
        }
        i = i + 1;
    }
    proof {
        assert(s@.subrange(0, n as int) =~= s@);
    }
    chars_to_string(&out)
}

/// Render a record as its single-line JSON object.
pub fn render_log_record(rec: &LogRecord) -> (r: String)
    ensures
        r@ == record_json(rec.log_type@, rec.message@, rec.data@),
{
    let mut out = String::from_str("{\"log_type\":\"");
    let e_tag = escape_json(rec.log_type.as_str());
    out.append(e_tag.as_str());
    out.append("\",\"message\":\"");
    let e_msg = escape_json(rec.message.as_str());
    out.append(e_msg.as_str());
    out.append("\",\"data\":\"");
    let e_data = escape_json(rec.data.as_str());
    out.append(e_data.as_str());
    out.append("\"}");
    proof {
        assert(out@ =~= record_json(rec.log_type@, rec.message@, rec.data@));
    }
    out
}

/// Render the full emitted text of a record: JSON object, delimiter,
/// blank line.
pub fn render_log_line(rec: &LogRecord) -> (r: String)
    ensures
        r@ == log_line(rec.log_type@, rec.message@, rec.data@),
{
    let mut out = render_log_record(rec);
    out.append(":log:\n\n");
    out
}

/// Relies on `std::io::Stdout::write_fmt` (through the `write!` macro):
/// writes exactly the given text to standard output. A failure of the
/// output channel aborts the process, since the channel is the only
/// observability path and there is no fallback.
#[verifier::external_body]
fn stdout_write(s: &str) {
    let mut out = std::io::stdout();
    let r = write!(out, "{}", s);
    r.expect("status output channel is broken");
}

/// Relies on `std::io::Stdout::flush`: forces the text out before the
/// pipeline proceeds, so record order matches step order even if the
/// process later stalls.
#[verifier::external_body]
fn stdout_flush() {
    let r = std::io::Write::flush(&mut std::io::stdout());
    r.expect("status output channel is broken");
}

impl LogRecord {
    /// Write this record to standard output in the line format and
    /// flush at once.
    pub fn emit(&self) {
        let line = render_log_line(self);
        stdout_write(line.as_str());
        stdout_flush();
    }
}

/// Build a record, with `data` defaulted to the empty string where
/// absent, and emit it.
pub fn log_remote_data(log_type: String, msg: &str, data: Option<String>) {
    let rec = LogRecord {
        log_type,
        message: String::from_str(msg),
        data: match data {
            Some(d) => d,
            None => String::new(),
        },
    };
    rec.emit();
}

/// Emit a record that carries no payload.
pub fn log_remote(log_type: String, msg: &str) {
    log_remote_data(log_type, msg, None);
}

} // verus!
