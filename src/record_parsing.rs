use chrono::Datelike;
use regex::Regex;
use vstd::prelude::*;

use crate::record_handling::{below_max, count, AggregateELBRecord, Day, ELBRecordAggregation, KeyView};

verus! {

/// The system name of a record whose request URL names none.
pub const UNDEFINED_SYSTEM: &'static str = "UNDEFINED_SYSTEM";

/// Whether `c` matches the character at position `i` of `system=`, ignoring case the way
/// Unicode simple case folding does (`s` also matches U+017F, LATIN SMALL LETTER LONG S).
pub open spec fn matches_key_char(c: char, i: int) -> bool {
    if i == 0 || i == 2 {
        c == 's' || c == 'S' || c == '\u{17f}'
    } else if i == 1 {
        c == 'y' || c == 'Y'
    } else if i == 3 {
        c == 't' || c == 'T'
    } else if i == 4 {
        c == 'e' || c == 'E'
    } else if i == 5 {
        c == 'm' || c == 'M'
    } else {
        c == '='
    }
}

/// Whether `system=`, in any case, starts at position `i` of `s`.
pub open spec fn system_key_at(s: Seq<char>, i: int) -> bool {
    &&& 0 <= i
    &&& i + 7 <= s.len()
    &&& forall|j: int| 0 <= j < 7 ==> #[trigger] matches_key_char(s[i + j], j)
}

/// The first position at or after `j` that holds `&`, or the length of `s` if none does.
pub open spec fn value_end(s: Seq<char>, j: int) -> int
    decreases s.len() - j,
{
    if j >= s.len() {
        s.len() as int
    } else if s[j] == '&' {
        j
    } else {
        value_end(s, j + 1)
    }
}

/// The value of the leftmost `system=` at or after position `i`: the text after it up to the
/// next `&` or the end.
pub open spec fn system_param_from(s: Seq<char>, i: int) -> Option<Seq<char>>
    decreases s.len() - i,
{
    if i < 0 || i + 7 > s.len() {
        None
    } else if system_key_at(s, i) {
        Some(s.subrange(i + 7, value_end(s, i + 7)))
    } else {
        system_param_from(s, i + 1)
    }
}

/// The system parameter of a request URL: what the first group of `(?i)system=([^&]*)` captures
/// in the leftmost match, if there is a match.
pub open spec fn system_param(url: Seq<char>) -> Option<Seq<char>> {
    system_param_from(url, 0)
}

/// The system name that a request URL yields as part of an aggregation key.
pub open spec fn system_or_default(url: Seq<char>) -> Seq<char> {
    match system_param(url) {
        Some(v) => v,
        None => UNDEFINED_SYSTEM@,
    }
}

pub open spec fn opt_chars(o: Option<String>) -> Option<Seq<char>> {
    match o {
        Some(s) => Some(s@),
        None => None,
    }
}

#[verifier::external_type_specification]
#[verifier::external_body]
pub struct ExRegex(Regex);

/// The compiled pattern `(?i)system=([^&]*)`. Its only constructor is `new`, so every value
/// holds that pattern.
pub struct SystemNameMatcher {
    regex: Regex,
}

impl SystemNameMatcher {
    /// Relies on regex::Regex::new: the pattern is valid, so compiling it succeeds.
    #[verifier::external_body]
    pub(crate) fn new() -> (r: SystemNameMatcher) {
        SystemNameMatcher { regex: Regex::new(r"(?i)system=([^&]*)").unwrap() }
    }

    /// Relies on regex::Regex::captures: it returns the leftmost-first match of the pattern,
    /// whose first group is the longest run of characters other than `&` after the key.
    #[verifier::external_body]
    fn captures(&self, url: &str) -> (r: Option<String>)
        ensures
            opt_chars(r) == system_param(url@),
    {
        self.regex.captures(url).and_then(|c| c.get(1)).map(|m| m.as_str().to_string())
    }
}

/// The system name in a request URL, if the URL has a `system=` parameter in any case.
pub fn parse_system_name(src_str: &str) -> (r: Option<String>)
    ensures
        opt_chars(r) == system_param(src_str@),
{
    SystemNameMatcher::new().captures(src_str)
}

/// Whether `c` is white space as Rust's `char::is_whitespace` has it (Unicode `White_Space`).
pub open spec fn is_white_space(c: char) -> bool {
    let u = c as u32;
    ||| 9 <= u <= 13
    ||| u == 32
    ||| u == 0x85
    ||| u == 0xa0
    ||| u == 0x1680
    ||| 0x2000 <= u <= 0x200a
    ||| u == 0x2028
    ||| u == 0x2029
    ||| u == 0x202f
    ||| u == 0x205f
    ||| u == 0x3000
}

pub open spec fn starts_with_white_space(line: Seq<char>) -> bool {
    line.len() > 0 && is_white_space(line[0])
}

fn first_char_is_white_space(line: &str) -> (r: bool)
    ensures
        r == starts_with_white_space(line@),
{
    if line.unicode_len() == 0 {
        return false;
    }
    let u = line.get_char(0) as u32;
    (9 <= u && u <= 13) || u == 32 || u == 0x85 || u == 0xa0 || u == 0x1680 || (0x2000 <= u && u
        <= 0x200a) || u == 0x2028 || u == 0x2029 || u == 0x202f || u == 0x205f || u == 0x3000
}

/// The fields of a log record that aggregation reads.
pub struct ParsedRecord {
    pub day: Day,
    pub client_address: u32,
    pub request_url: String,
}

impl View for ParsedRecord {
    type V = (Day, u32, Seq<char>);

    open spec fn view(&self) -> (Day, u32, Seq<char>) {
        (self.day, self.client_address, self.request_url@)
    }
}

pub open spec fn opt_record(o: Option<ParsedRecord>) -> Option<(Day, u32, Seq<char>)> {
    match o {
        Some(p) => Some(p@),
        None => None,
    }
}

/// What the log-record parser makes of a line: the UTC day of its timestamp, the client's IPv4
/// address and the request URL, or nothing where the line is not a record.
pub uninterp spec fn elb_record_fields(line: Seq<char>) -> Option<(Day, u32, Seq<char>)>;

/// Relies on elp::parse_record: whether a line parses, and the fields it yields, depend on the
/// line alone; chrono's `Datelike` accessors give the UTC calendar date of the timestamp. The parser takes field offsets from the line with leading white space trimmed
/// and applies them to the untrimmed line, so lines that start with white space are left out.
#[verifier::external_body]
fn parse_record_fields(line: &str) -> (r: Option<ParsedRecord>)
    requires
        !starts_with_white_space(line@),
    ensures
        opt_record(r) == elb_record_fields(line@),
{
    match elp::parse_record(line) {
        Ok(rec) => Some(ParsedRecord {
            day: Day { year: rec.timestamp.year(), month: rec.timestamp.month(), day: rec.timestamp.day() },
            client_address: u32::from(*rec.client_address.ip()),
            request_url: rec.request_url.to_string(),
        }),
        Err(_) => None,
    }
}

/// The parsed fields of a line, or nothing where the line is not a record. A line that starts
/// with white space is not a record.
pub open spec fn line_fields(line: Seq<char>) -> Option<(Day, u32, Seq<char>)> {
    if starts_with_white_space(line) {
        None
    } else {
        elb_record_fields(line)
    }
}

/// The aggregation key of a record with the given fields.
pub open spec fn record_key(fields: (Day, u32, Seq<char>)) -> KeyView {
    (fields.0, fields.1, system_or_default(fields.2))
}

/// The aggregation key of a line, or nothing where the line is not a record.
pub open spec fn line_key(line: Seq<char>) -> Option<KeyView> {
    match line_fields(line) {
        Some(f) => Some(record_key(f)),
        None => None,
    }
}

/// Keys that agree on day, client address and system name are equal, whatever else the
/// records they come from hold.
pub proof fn lemma_key_depends_on_triple(a: (Day, u32, Seq<char>), b: (Day, u32, Seq<char>))
    requires
        a.0 == b.0,
        a.1 == b.1,
        system_or_default(a.2) == system_or_default(b.2),
    ensures
        record_key(a) == record_key(b),
{
}

/// Parses a line into its fields; a line that starts with white space is not a record.
pub fn parse_line(line: &str) -> (r: Option<ParsedRecord>)
    ensures
        opt_record(r) == line_fields(line@),
{
    if first_char_is_white_space(line) {
        None
    } else {
        parse_record_fields(line)
    }
}

/// The aggregation key of a parsed record.
pub(crate) fn derive_key(matcher: &SystemNameMatcher, record: ParsedRecord) -> (r: AggregateELBRecord)
    ensures
        r@ == record_key(record@),
{
    let system_name = match matcher.captures(record.request_url.as_str()) {
        Some(name) => name,
        None => UNDEFINED_SYSTEM.to_string(),
    };
    proof {
        reveal_strlit("UNDEFINED_SYSTEM");
    }
    AggregateELBRecord::new(record.day, record.client_address, system_name)
}

/// Counts the key of `line` in `dst_agg` where the line is a record; returns whether it was.
pub(crate) fn aggregate_line(matcher: &SystemNameMatcher, line: &str, dst_agg: &mut ELBRecordAggregation) -> (r: bool)
    requires
        below_max(old(dst_agg)@),
    ensures
        r == line_key(line@) is Some,
        match line_key(line@) {
            Some(k) => final(dst_agg)@ == old(dst_agg)@.insert(k, count(old(dst_agg)@, k) + 1),
            None => final(dst_agg)@ == old(dst_agg)@,
        },
{
    match parse_line(line) {
        Some(record) => {
            let key = derive_key(matcher, record);
            dst_agg.add(key);
            true
        },
        None => false,
    }
}

/// Counts the key of `possible_record` in `dst_agg` where the line is a record; returns whether
/// it was.
pub fn try_parse_record(possible_record: &str, dst_agg: &mut ELBRecordAggregation) -> (r: bool)
    requires
        below_max(old(dst_agg)@),
    ensures
        r == line_key(possible_record@) is Some,
        match line_key(possible_record@) {
            Some(k) => final(dst_agg)@ == old(dst_agg)@.insert(k, count(old(dst_agg)@, k) + 1),
            None => final(dst_agg)@ == old(dst_agg)@,
        },
{
    let matcher = SystemNameMatcher::new();
    aggregate_line(&matcher, possible_record, dst_agg)
}

} // verus!
