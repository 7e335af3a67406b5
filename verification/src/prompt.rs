//! Prompt assembly: the data-section builder with its fallback-empty
//! rule, the final prompt concatenation, and the fetch announcement
//! text, all specified to the character.

use vstd::prelude::*;
use vstd::string::StrSliceExecFns;
use vstd::string::StringExecFns;
use crate::config::AgentConfig;
use crate::record::chars_to_string;

verus! {

/// What the pipeline reads of a fetched payload. The payload itself is
/// an arbitrary structured document; the pipeline only tells null and
/// empty collections from the rest, and otherwise works with the
/// payload's pretty-printed serialization, carried here as plain text
/// (`pretty` is `None` where serialization failed).
pub enum Payload {
    Null,
    EmptyMapping,
    EmptySequence,
    Content { pretty: Option<String> },
}

/// The fallback-empty rule: a payload that is null, an empty mapping or
/// an empty sequence yields no data section body.
pub open spec fn payload_is_empty(p: Payload) -> bool {
    p is Null || p is EmptyMapping || p is EmptySequence
}

/// The start date shown in the data header: the configured start
/// timestamp, or a fixed placeholder where none was given.
pub open spec fn start_date_text(start: Option<Seq<char>>) -> Seq<char> {
    match start {
        Some(s) => s,
        None => "Unknown Start Date"@,
    }
}

/// The header every data section opens with.
pub open spec fn data_header(start: Option<Seq<char>>) -> Seq<char> {
    "# Data to analyze:\n## Time Frame:\nStart_Date: "@ + start_date_text(start) + "\n## Data:"@
}

/// The body text of a non-empty payload: its pretty-printed
/// serialization, or a fixed marker where serialization failed.
pub open spec fn rendered_content(p: Payload) -> Seq<char> {
    match p {
        Payload::Content { pretty } => match pretty {
            Some(t) => t@,
            None => "Invalid Data"@,
        },
        _ => Seq::empty(),
    }
}

/// The whole data section: header plus either the no-data line or the
/// payload in a fenced block.
pub open spec fn data_prompt(start: Option<Seq<char>>, p: Payload) -> Seq<char> {
    if payload_is_empty(p) {
        data_header(start) + "\nNo data available"@
    } else {
        data_header(start) + "\n```json\n"@ + rendered_content(p) + "\n```"@
    }
}

/// The configured start timestamp, read through the sliding range.
pub open spec fn start_opt(c: AgentConfig) -> Option<Seq<char>> {
    match c.data.time_range.sliding {
        Some(s) => match s.start_backtest {
            Some(b) => Some(b@),
            None => None,
        },
        None => None,
    }
}

/// The final prompt: character identity first, task instruction second,
/// grounding data last, each part ended by one newline before the next.
pub open spec fn full_prompt(character: Seq<char>, task: Seq<char>, data_section: Seq<char>) -> Seq<char> {
    character + seq!['\n'] + task + seq!['\n'] + data_section
}

/// Every payload that falls under the fallback-empty rule yields the
/// same data section — the header plus the no-data line — whichever of
/// the three empty forms it is.
pub proof fn lemma_empty_payloads_alike(start: Option<Seq<char>>, p1: Payload, p2: Payload)
    requires
        payload_is_empty(p1),
        payload_is_empty(p2),
    ensures
        data_prompt(start, p1) == data_header(start) + "\nNo data available"@,
        data_prompt(start, p1) == data_prompt(start, p2),
{
}

/// A non-empty payload's data section carries the payload's rendering
/// verbatim, between a fixed fence opening and closing.
pub proof fn lemma_content_fenced(start: Option<Seq<char>>, pretty: String)
    ensures
        data_prompt(start, Payload::Content { pretty: Some(pretty) }) == data_header(start)
            + "\n```json\n"@ + pretty@ + "\n```"@,
{
}

/// The final prompt always opens with the character text, one newline,
/// the task text and one newline, whatever the data section holds; the
/// data section fills the rest.
pub proof fn lemma_prompt_layout(c: Seq<char>, t: Seq<char>, d: Seq<char>)
    ensures
        full_prompt(c, t, d).len() == c.len() + 1 + t.len() + 1 + d.len(),
        full_prompt(c, t, d).subrange(0, c.len() as int) == c,
        full_prompt(c, t, d)[c.len() as int] == '\n',
        full_prompt(c, t, d).subrange((c.len() + 1) as int, (c.len() + 1 + t.len()) as int) == t,
        full_prompt(c, t, d)[(c.len() + 1 + t.len()) as int] == '\n',
        full_prompt(c, t, d).subrange(
            (c.len() + 2 + t.len()) as int,
            full_prompt(c, t, d).len() as int,
        ) == d,
{
    let p = full_prompt(c, t, d);
    assert(p.subrange(0, c.len() as int) =~= c);
    assert(p.subrange((c.len() + 1) as int, (c.len() + 1 + t.len()) as int) =~= t);
    assert(p.subrange((c.len() + 2 + t.len()) as int, p.len() as int) =~= d);
}

/// Build the data section for a payload, under the configured start
/// timestamp: the header, then the no-data line for an empty payload,
/// else the payload's rendering in a fenced block.
pub fn build_data_prompt(config: &AgentConfig, payload: &Payload) -> (r: String)
    ensures
        r@ == data_prompt(start_opt(*config), *payload),
{
    let mut out = String::from_str("# Data to analyze:\n## Time Frame:\nStart_Date: ");
    match &config.data.time_range.sliding {
        Some(s) => match &s.start_backtest {
            Some(b) => out.append(b.as_str()),
            None => out.append("Unknown Start Date"),
        },
        None => out.append("Unknown Start Date"),
    }
    out.append("\n## Data:");
    match payload {
        Payload::Null | Payload::EmptyMapping | Payload::EmptySequence => {
            out.append("\nNo data available");
        },
        Payload::Content { pretty } => {
            out.append("\n```json\n");
            match pretty {
                Some(t) => out.append(t.as_str()),
                None => out.append("Invalid Data"),
            }
            out.append("\n```");
        },
    }
    proof {
        assert(out@ =~= data_prompt(start_opt(*config), *payload));
    }
    out
}

/// Build the final prompt from the configured character and task and a
/// data section (possibly the empty string, where no fetch was planned).
pub fn build_prompt(config: &AgentConfig, data_section: &str) -> (r: String)
    ensures
        r@ == full_prompt(config.info.character@, config.info.task@, data_section@),
{
    let mut out = config.info.character.clone();
    out.append("\n");
    out.append(config.info.task.as_str());
    out.append("\n");
    out.append(data_section);
    proof {
        reveal_strlit("\n");
        assert(out@ =~= full_prompt(config.info.character@, config.info.task@, data_section@));
    }
    out
}

/// The decimal digit for a value below ten.
pub open spec fn dec_digit(d: nat) -> char {
    if d == 0 { '0' } else if d == 1 { '1' } else if d == 2 { '2' } else if d == 3 { '3' }
    else if d == 4 { '4' } else if d == 5 { '5' } else if d == 6 { '6' } else if d == 7 { '7' }
    else if d == 8 { '8' } else { '9' }
}

/// The decimal rendering of a number, most significant digit first, no
/// leading zeros (zero itself rendered as one digit).
pub open spec fn dec_str(n: nat) -> Seq<char>
    decreases n,
{
    if n < 10 {
        seq![dec_digit(n)]
    } else {
        dec_str(n / 10) + seq![dec_digit(n % 10)]
    }
}

fn dec_digit_char(d: u32) -> (r: char)
    requires
        d < 10,
    ensures
        r == dec_digit(d as nat),
{
    if d == 0 { '0' } else if d == 1 { '1' } else if d == 2 { '2' } else if d == 3 { '3' }
    else if d == 4 { '4' } else if d == 5 { '5' } else if d == 6 { '6' } else if d == 7 { '7' }
    else if d == 8 { '8' } else { '9' }
}

fn push_dec(out: &mut Vec<char>, n: u32)
    ensures
        final(out)@ == old(out)@ + dec_str(n as nat),
    decreases n,
{
    if n < 10 {
        out.push(dec_digit_char(n));
        assert(out@ =~= old(out)@ + dec_str(n as nat));
    } else {
        push_dec(out, n / 10);
        out.push(dec_digit_char(n % 10));
        assert(out@ =~= old(out)@ + dec_str(n as nat));
    }
}

/// Render a number in decimal.
pub fn u32_to_string(n: u32) -> (r: String)
    ensures
        r@ == dec_str(n as nat),
{
    let mut digits: Vec<char> = Vec::new();
    push_dec(&mut digits, n);
    chars_to_string(&digits)
}

/// The part of a sequence before the first occurrence of a character
/// (the whole sequence where the character does not occur).
pub open spec fn prefix_to(s: Seq<char>, c: char) -> Seq<char>
    decreases s.len(),
{
    if s.len() == 0 {
        s
    } else if s[0] == c {
        Seq::empty()
    } else {
        seq![s[0]] + prefix_to(s.drop_first(), c)
    }
}

/// The part of a sequence after the first occurrence of a character
/// (meaningful only where the character occurs).
pub open spec fn suffix_from(s: Seq<char>, c: char) -> Seq<char>
    decreases s.len(),
{
    if s.len() == 0 {
        s
    } else if s[0] == c {
        s.drop_first()
    } else {
        suffix_from(s.drop_first(), c)
    }
}

/// Where the first occurrence of a character sits at index `i`, the
/// prefix before it and the suffix after it are the plain subranges.
pub proof fn lemma_split_at(s: Seq<char>, c: char, i: int)
    requires
        0 <= i <= s.len(),
        forall|j: int| 0 <= j < i ==> s[j] != c,
        i < s.len() ==> s[i] == c,
    ensures
        prefix_to(s, c) =~= s.subrange(0, i),
        i < s.len() ==> suffix_from(s, c) =~= s.subrange(i + 1, s.len() as int),
    decreases i,
{
    if s.len() == 0 {
    } else if i == 0 {
        if i < s.len() {
            assert(s[0] == c);
            assert(suffix_from(s, c) =~= s.subrange(1, s.len() as int));
        }
    } else {
        assert(s[0] != c);
        let t = s.drop_first();
        assert(forall|j: int| 0 <= j < i - 1 ==> t[j] == s[j + 1] && t[j] != c);
        lemma_split_at(t, c, i - 1);
        assert(prefix_to(s, c) =~= s.subrange(0, i));
        if i < s.len() {
            assert(suffix_from(s, c) == suffix_from(t, c));
            assert(suffix_from(s, c) =~= s.subrange(i + 1, s.len() as int));
        }
    }
}

/// The date part of a start timestamp: the text before the first `T`
/// (the whole text where there is none).
pub open spec fn backtest_date(s: Seq<char>) -> Seq<char> {
    prefix_to(s, 'T')
}

/// The time part of a start timestamp: the text between the first `T`
/// and the next `.`, or a fixed placeholder where there is no `T`.
pub open spec fn backtest_time(s: Seq<char>) -> Seq<char> {
    if s.contains('T') {
        prefix_to(suffix_from(s, 'T'), '.')
    } else {
        "Unknown Time"@
    }
}

/// The announcement logged before a fetch is issued.
pub open spec fn announcement(start: Seq<char>, minutes: u32) -> Seq<char> {
    "Fetching data for "@ + backtest_date(start) + seq![' '] + backtest_time(start) + " on "@
        + dec_str(minutes as nat) + " minute interval"@
}

fn find_first(s: &str, c: char) -> (r: Option<usize>)
    ensures
        r matches Some(i) ==> i < s@.len() && s@[i as int] == c && (forall|j: int|
            0 <= j < i ==> s@[j] != c),
        r is None ==> forall|j: int| 0 <= j < s@.len() ==> s@[j] != c,
{
    let n = s.unicode_len();
    let mut i: usize = 0;
    while i < n
        invariant
            n == s@.len(),
            i <= n,
            forall|j: int| 0 <= j < i ==> s@[j] != c,
        decreases n - i,
    {
        if s.get_char(i) == c {
            return Some(i);
        }
        i = i + 1;
    }
    None
}

/// Build the fetch announcement: the date and time parts of the start
/// timestamp and the window length in minutes, in a fixed sentence.
pub fn fetch_announcement(start_backtest: &str, minutes: u32) -> (r: String)
    ensures
        r@ == announcement(start_backtest@, minutes),
{
    let n = start_backtest.unicode_len();
    let mut out = String::from_str("Fetching data for ");
    match find_first(start_backtest, 'T') {
        Some(i) => {
            proof {
                lemma_split_at(start_backtest@, 'T', i as int);
                assert(start_backtest@.contains('T')) by {
                    assert(start_backtest@[i as int] == 'T');
                }
            }
            let date = start_backtest.substring_char(0, i);
            out.append(date);
            out.append(" ");
            let rest = start_backtest.substring_char(i + 1, n);
            let time_end = match find_first(rest, '.') {
                Some(k) => {
                    proof {
                        lemma_split_at(rest@, '.', k as int);
                    }
                    k
                },
                None => {
                    proof {
                        lemma_split_at(rest@, '.', rest@.len() as int);
                        assert(rest@.subrange(0, rest@.len() as int) =~= rest@);
                    }
                    rest.unicode_len()
                },
            };
            let time = rest.substring_char(0, time_end);
            out.append(time);
        },
        None => {
            proof {
                lemma_split_at(start_backtest@, 'T', start_backtest@.len() as int);
                assert(start_backtest@.subrange(0, start_backtest@.len() as int)
                    =~= start_backtest@);
                assert(!start_backtest@.contains('T'));
            }
            let date = start_backtest.substring_char(0, n);
            out.append(date);
            out.append(" ");
            out.append("Unknown Time");
        },
    }
    out.append(" on ");
    let m = u32_to_string(minutes);
    out.append(m.as_str());
    out.append(" minute interval");
    proof {
        reveal_strlit(" ");
        assert(out@ =~= announcement(start_backtest@, minutes));
    }
    out
}

} // verus!
