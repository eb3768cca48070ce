//! Message search criteria and how they are rendered as IMAP `SEARCH` keys and
//! Gmail API queries.
use vstd::prelude::*;
use crate::calendar::{date_format, date_parse, format_date, parse_date};
use crate::patterns::{regex_matches, CompiledRegex};
use crate::text::{
    char_is_ws, chars_of, is_ws, parse_unsigned, parse_unsigned_chars, push_char,
    string_from_range, trim, trim_bounds,
};

verus! {

/// Every search condition type (RFC 3501 search keys, plus the Gmail query).
#[derive(Clone, Copy, Debug, PartialEq, Eq, Structural)]
pub enum Conditions {
    All,
    Answered,
    Bcc,
    Before,
    Body,
    Cc,
    Deleted,
    Draft,
    Flagged,
    From,
    GmailSeacrch,
    Header,
    Keyword,
    Larger,
    New,
    Old,
    On,
    Recent,
    Seen,
    SentBefore,
    SentOn,
    SentSince,
    Since,
    Smaller,
    Subject,
    Text,
    To,
    Uid,
    Unanswered,
    Undeleted,
    Undraft,
    Unflagged,
    Unkeyword,
    Unseen,
}

#[derive(Clone, Copy, Debug, PartialEq, Eq, Structural)]
pub enum Operator {
    And,
    Or,
    Not,
}

/// One search condition: the field or attribute, and the value when it takes one.
#[derive(Clone, Debug, PartialEq, Eq)]
pub struct Condition {
    pub condition: Conditions,
    pub value: Option<String>,
}

/// Conditions combined by a logical operator.
#[derive(Debug, PartialEq, Eq)]
pub struct Logic {
    pub operator: Operator,
    pub children: Vec<MessageSearch>,
}

/// A search expression: a condition or a logical combination of expressions.
#[derive(Debug, PartialEq, Eq)]
pub enum MessageSearch {
    Condition(Condition),
    Logic(Logic),
}

/// Why a search expression cannot be turned into a query; every one of them is
/// an invalid-parameter error.
#[derive(Clone, Copy, Debug, PartialEq, Eq, Structural)]
pub enum SearchError {
    ValueRequired,
    DateRequired,
    InvalidDate,
    NumberRequired,
    InvalidNumber,
    InvalidHeaderFormat,
    UidRequired,
    InvalidUidFormat,
    InvalidUidRangeFormat,
    InvalidUidRangeStart,
    InvalidUidRangeEnd,
    UidRangeReversed,
    InvalidUidValue,
    GmailOnlyCondition,
    OrNeedsTwoConditions,
    NotNeedsOneCondition,
    InvalidGmailSearch,
}

// ---------------------------------------------------------------------------
// Specification
// ---------------------------------------------------------------------------
pub open spec fn opt_view(v: Option<String>) -> Option<Seq<char>> {
    match v {
        Some(s) => Some(s@),
        None => None,
    }
}

/// `s` with every `\q` replaced by `q`, left to right (`str::replace`).
pub open spec fn unescape(s: Seq<char>, q: char) -> Seq<char>
    decreases s.len(),
{
    if s.len() < 2 {
        s
    } else if s[0] == '\\' && s[1] == q {
        seq![q] + unescape(s.skip(2), q)
    } else {
        seq![s[0]] + unescape(s.skip(1), q)
    }
}

pub open spec fn is_quote_pair(t: Seq<char>) -> bool {
    t.len() >= 1 && ((t[0] == '"' && t.last() == '"') || (t[0] == '\'' && t.last() == '\''))
}

/// A value whose trimmed form is a lone quote character cannot be quoted: the
/// value quoting slices it with a start past its end.
pub open spec fn quotable(v: Seq<char>) -> bool {
    !(trim(v).len() == 1 && (trim(v)[0] == '"' || trim(v)[0] == '\''))
}

/// The value trimmed, stripped of one pair of enclosing quotes, unescaped, and
/// put between double quotes.
pub open spec fn quoted(v: Seq<char>) -> Seq<char> {
    let t = trim(v);
    let inner = if is_quote_pair(t) {
        t.subrange(1, t.len() - 1)
    } else {
        t
    };
    seq!['"'] + unescape(unescape(inner, '"'), '\'') + seq!['"']
}

pub open spec fn quote_spec(v: Option<Seq<char>>) -> Result<Seq<char>, SearchError> {
    match v {
        None => Err(SearchError::ValueRequired),
        Some(s) => Ok(quoted(s)),
    }
}

pub open spec fn number_spec(v: Option<Seq<char>>) -> Result<Seq<char>, SearchError> {
    match v {
        None => Err(SearchError::NumberRequired),
        Some(s) => if parse_unsigned(s, u64::MAX as nat) is Some {
            Ok(s)
        } else {
            Err(SearchError::InvalidNumber)
        },
    }
}

pub open spec fn date_spec(v: Option<Seq<char>>) -> Result<Seq<char>, SearchError> {
    match v {
        None => Err(SearchError::DateRequired),
        Some(s) => match date_parse(s, "%Y-%m-%d"@) {
            None => Err(SearchError::InvalidDate),
            Some(ymd) => match date_format(ymd.0, ymd.1, ymd.2, "%d-%b-%Y"@) {
                Some(f) => Ok(f),
                None => Err(SearchError::InvalidDate),
            },
        },
    }
}

/// `str::split_whitespace`: the maximal runs of non-whitespace characters of
/// `s`, after the run `cur` already begun.
pub open spec fn words_from(s: Seq<char>, cur: Seq<char>) -> Seq<Seq<char>>
    decreases s.len(),
{
    if s.len() == 0 {
        if cur.len() > 0 {
            seq![cur]
        } else {
            seq![]
        }
    } else if is_ws(s[0]) {
        (if cur.len() > 0 {
            seq![cur]
        } else {
            seq![]
        }) + words_from(s.drop_first(), seq![])
    } else {
        words_from(s.drop_first(), cur.push(s[0]))
    }
}

pub open spec fn words(s: Seq<char>) -> Seq<Seq<char>> {
    words_from(s, seq![])
}

pub open spec fn count_char(s: Seq<char>, c: char) -> nat
    decreases s.len(),
{
    if s.len() == 0 {
        0
    } else {
        count_char(s.drop_last(), c) + if s.last() == c {
            1nat
        } else {
            0nat
        }
    }
}

/// The position of the first `c` in `s`, or `s.len()` when there is none.
pub open spec fn first_index(s: Seq<char>, c: char) -> nat
    decreases s.len(),
{
    if s.len() == 0 {
        0
    } else if s[0] == c {
        0
    } else {
        1 + first_index(s.drop_first(), c)
    }
}

pub open spec fn parse_u64_spec(s: Seq<char>) -> Option<nat> {
    parse_unsigned(s, u64::MAX as nat)
}

/// One whitespace-separated piece of a UID set: a number or `start:end`.
pub open spec fn uid_part_spec(w: Seq<char>) -> Result<(), SearchError> {
    if count_char(w, ':') > 0 {
        if count_char(w, ':') != 1 {
            Err(SearchError::InvalidUidRangeFormat)
        } else {
            let k = first_index(w, ':') as int;
            match parse_u64_spec(w.take(k)) {
                None => Err(SearchError::InvalidUidRangeStart),
                Some(a) => match parse_u64_spec(w.skip(k + 1)) {
                    None => Err(SearchError::InvalidUidRangeEnd),
                    Some(b) => if a > b {
                        Err(SearchError::UidRangeReversed)
                    } else {
                        Ok(())
                    },
                },
            }
        }
    } else if parse_u64_spec(w) is Some {
        Ok(())
    } else {
        Err(SearchError::InvalidUidValue)
    }
}

pub open spec fn uid_parts_spec(ws: Seq<Seq<char>>) -> Result<(), SearchError>
    decreases ws.len(),
{
    if ws.len() == 0 {
        Ok(())
    } else {
        match uid_part_spec(ws[0]) {
            Err(e) => Err(e),
            Ok(_) => uid_parts_spec(ws.drop_first()),
        }
    }
}

/// The pattern that a UID set must match as a whole.
pub open spec fn uid_pattern() -> Seq<char> {
    "^(\\d+|\\d+:\\d+)(\\s+\\d+|\\s+\\d+:\\d+)*$"@
}

pub open spec fn uid_spec(s: Seq<char>) -> Result<(), SearchError> {
    if !regex_matches(uid_pattern(), s) {
        Err(SearchError::InvalidUidFormat)
    } else {
        uid_parts_spec(words(s))
    }
}

/// `s` up to its first space, and the rest after that space, when it has one
/// (`splitn(2, ' ')`).
pub open spec fn split_first_space(s: Seq<char>) -> Option<(Seq<char>, Seq<char>)> {
    let k = first_index(s, ' ') as int;
    if k < s.len() {
        Some((s.take(k), s.skip(k + 1)))
    } else {
        None
    }
}

pub open spec fn prefixed(
    keyword: Seq<char>,
    r: Result<Seq<char>, SearchError>,
) -> Result<Seq<char>, SearchError> {
    match r {
        Ok(v) => Ok(keyword + v),
        Err(e) => Err(e),
    }
}

/// The IMAP search key for a single condition.
pub open spec fn condition_spec(c: Conditions, v: Option<Seq<char>>) -> Result<
    Seq<char>,
    SearchError,
> {
    match c {
        Conditions::All => Ok("ALL"@),
        Conditions::Answered => Ok("ANSWERED"@),
        Conditions::Bcc => prefixed("BCC "@, quote_spec(v)),
        Conditions::Before => prefixed("BEFORE "@, date_spec(v)),
        Conditions::Body => prefixed("BODY "@, quote_spec(v)),
        Conditions::Cc => prefixed("CC "@, quote_spec(v)),
        Conditions::Deleted => Ok("DELETED"@),
        Conditions::Draft => Ok("DRAFT"@),
        Conditions::Flagged => Ok("FLAGGED"@),
        Conditions::From => prefixed("FROM "@, quote_spec(v)),
        Conditions::Header => {
            let s = match v {
                Some(s) => s,
                None => Seq::empty(),
            };
            match split_first_space(s) {
                Some(parts) => Ok("HEADER "@ + quoted(parts.0) + " "@ + quoted(parts.1)),
                None => Err(SearchError::InvalidHeaderFormat),
            }
        },
        Conditions::Keyword => prefixed("KEYWORD "@, quote_spec(v)),
        Conditions::Larger => prefixed("LARGER "@, number_spec(v)),
        Conditions::New => Ok("NEW"@),
        Conditions::Old => Ok("OLD"@),
        Conditions::On => prefixed("ON "@, date_spec(v)),
        Conditions::Recent => Ok("RECENT"@),
        Conditions::Seen => Ok("SEEN"@),
        Conditions::SentBefore => prefixed("SENTBEFORE "@, date_spec(v)),
        Conditions::SentOn => prefixed("SENTON "@, date_spec(v)),
        Conditions::SentSince => prefixed("SENTSINCE "@, date_spec(v)),
        Conditions::Since => prefixed("SINCE "@, date_spec(v)),
        Conditions::Smaller => prefixed("SMALLER "@, number_spec(v)),
        Conditions::Subject => prefixed("SUBJECT "@, quote_spec(v)),
        Conditions::Text => prefixed("TEXT "@, quote_spec(v)),
        Conditions::To => prefixed("TO "@, quote_spec(v)),
        Conditions::Uid => match v {
            None => Err(SearchError::UidRequired),
            Some(s) => match uid_spec(s) {
                Err(e) => Err(e),
                Ok(_) => Ok("UID "@ + s),
            },
        },
        Conditions::Unanswered => Ok("UNANSWERED"@),
        Conditions::Undeleted => Ok("UNDELETED"@),
        Conditions::Undraft => Ok("UNDRAFT"@),
        Conditions::Unflagged => Ok("UNFLAGGED"@),
        Conditions::Unkeyword => prefixed("UNKEYWORD "@, quote_spec(v)),
        Conditions::Unseen => Ok("UNSEEN"@),
        Conditions::GmailSeacrch => Err(SearchError::GmailOnlyCondition),
    }
}

/// Whether building the key for this condition stays clear of the one input
/// on which quoting a value fails by a panic.
pub open spec fn condition_quotable(c: Conditions, v: Option<Seq<char>>) -> bool {
    match c {
        Conditions::Bcc | Conditions::Body | Conditions::Cc | Conditions::From
        | Conditions::Keyword | Conditions::Subject | Conditions::Text | Conditions::To
        | Conditions::Unkeyword => match v {
            Some(s) => quotable(s),
            None => true,
        },
        Conditions::Header => {
            let s = match v {
                Some(s) => s,
                None => Seq::empty(),
            };
            match split_first_space(s) {
                Some(parts) => quotable(parts.0) && quotable(parts.1),
                None => true,
            }
        },
        _ => true,
    }
}

pub open spec fn parens(s: Seq<char>) -> Seq<char> {
    "("@ + s + ")"@
}

/// Items joined by single spaces.
pub open spec fn join_spaces(items: Seq<Seq<char>>) -> Seq<char>
    decreases items.len(),
{
    if items.len() == 0 {
        Seq::empty()
    } else if items.len() == 1 {
        items[0]
    } else {
        join_spaces(items.drop_last()) + " "@ + items.last()
    }
}

/// The right-nested chain of binary `OR` keys over `items` (at least two).
pub open spec fn or_body(items: Seq<Seq<char>>) -> Seq<char>
    decreases items.len(), 0nat,
{
    if items.len() <= 1 {
        if items.len() == 1 {
            items[0]
        } else {
            Seq::empty()
        }
    } else {
        "OR "@ + items[0] + " "@ + or_inner(items.drop_first())
    }
}

pub open spec fn or_inner(items: Seq<Seq<char>>) -> Seq<char>
    decreases items.len(), 1nat,
{
    if items.len() <= 1 {
        if items.len() == 1 {
            items[0]
        } else {
            Seq::empty()
        }
    } else {
        parens(or_body(items))
    }
}

/// The IMAP search keys of the children, in order; the first failing child
/// decides the error.
pub open spec fn keys_in_order(children: Seq<MessageSearch>) -> Result<Seq<Seq<char>>, SearchError>
    decreases children,
{
    if children.len() == 0 {
        Ok(Seq::empty())
    } else {
        match keys_in_order(children.drop_last()) {
            Err(e) => Err(e),
            Ok(ks) => match imap_key(children.last(), false) {
                Err(e) => Err(e),
                Ok(k) => Ok(ks.push(k)),
            },
        }
    }
}

/// The IMAP search keys of the children, evaluated from the last child to the
/// first; the last failing child decides the error.
pub open spec fn keys_from_back(children: Seq<MessageSearch>) -> Result<Seq<Seq<char>>, SearchError>
    decreases children,
{
    if children.len() == 0 {
        Ok(Seq::empty())
    } else {
        match keys_from_back(children.drop_first()) {
            Err(e) => Err(e),
            Ok(ks) => match imap_key(children[0], false) {
                Err(e) => Err(e),
                Ok(k) => Ok(seq![k] + ks),
            },
        }
    }
}

pub open spec fn wrap_unless_top(s: Seq<char>, top: bool) -> Seq<char> {
    if top {
        s
    } else {
        parens(s)
    }
}

/// The IMAP `SEARCH` key for a search expression; `top` tells whether it is the
/// whole criterion (no enclosing parentheses) or a nested one.
pub open spec fn imap_key(s: MessageSearch, top: bool) -> Result<Seq<char>, SearchError>
    decreases s,
{
    match s {
        MessageSearch::Condition(c) => condition_spec(c.condition, opt_view(c.value)),
        MessageSearch::Logic(l) => match l.operator {
            Operator::And => match keys_in_order(l.children@) {
                Err(e) => Err(e),
                Ok(ks) => Ok(wrap_unless_top(join_spaces(ks), top)),
            },
            Operator::Or => if l.children@.len() < 2 {
                Err(SearchError::OrNeedsTwoConditions)
            } else {
                match keys_from_back(l.children@) {
                    Err(e) => Err(e),
                    Ok(ks) => Ok(wrap_unless_top(or_body(ks), top)),
                }
            },
            Operator::Not => if l.children@.len() != 1 {
                Err(SearchError::NotNeedsOneCondition)
            } else {
                match imap_key(l.children@[0], false) {
                    Err(e) => Err(e),
                    Ok(k) => Ok(wrap_unless_top("NOT "@ + k, top)),
                }
            },
        },
    }
}

/// Every condition in the expression can be quoted without a panic.
/// A date between double quotes.
pub open spec fn quoted_date_spec(v: Option<Seq<char>>) -> Result<Seq<char>, SearchError> {
    match date_spec(v) {
        Ok(d) => Ok("\""@ + d + "\""@),
        Err(e) => Err(e),
    }
}

/// The criterion of a condition that makes up the whole search: as within a
/// larger expression, except that its date is quoted.
pub open spec fn standalone_spec(c: Conditions, v: Option<Seq<char>>) -> Result<Seq<char>, SearchError> {
    match c {
        Conditions::Before => prefixed("BEFORE "@, quoted_date_spec(v)),
        Conditions::On => prefixed("ON "@, quoted_date_spec(v)),
        Conditions::SentBefore => prefixed("SENTBEFORE "@, quoted_date_spec(v)),
        Conditions::SentOn => prefixed("SENTON "@, quoted_date_spec(v)),
        Conditions::SentSince => prefixed("SENTSINCE "@, quoted_date_spec(v)),
        Conditions::Since => prefixed("SINCE "@, quoted_date_spec(v)),
        _ => condition_spec(c, v),
    }
}

/// The IMAP `SEARCH` criterion of a whole search expression.
pub open spec fn imap_command(s: MessageSearch, top: bool) -> Result<Seq<char>, SearchError> {
    match s {
        MessageSearch::Condition(c) => standalone_spec(c.condition, opt_view(c.value)),
        MessageSearch::Logic(_) => imap_key(s, top),
    }
}

/// Building the criterion never reaches a value that cannot be quoted. The
/// children of an `AND` are built first to last and those of an `OR` last to
/// first, each only while the ones built before it succeeded; an `OR` with
/// fewer than two children or a `NOT` without exactly one builds none.
pub open spec fn search_safe(s: MessageSearch) -> bool
    decreases s,
{
    match s {
        MessageSearch::Condition(c) => condition_quotable(c.condition, opt_view(c.value)),
        MessageSearch::Logic(l) => match l.operator {
            Operator::And => safe_in_order(l.children@),
            Operator::Or => l.children@.len() < 2 || safe_from_back(l.children@),
            Operator::Not => l.children@.len() != 1 || search_safe(l.children@[0]),
        },
    }
}

/// Children built first to last never reach a value that cannot be quoted.
pub open spec fn safe_in_order(children: Seq<MessageSearch>) -> bool
    decreases children,
{
    if children.len() == 0 {
        true
    } else {
        &&& safe_in_order(children.drop_last())
        &&& keys_in_order(children.drop_last()) is Ok ==> search_safe(children.last())
    }
}

/// Children built last to first never reach a value that cannot be quoted.
pub open spec fn safe_from_back(children: Seq<MessageSearch>) -> bool
    decreases children,
{
    if children.len() == 0 {
        true
    } else {
        &&& safe_from_back(children.drop_first())
        &&& keys_from_back(children.drop_first()) is Ok ==> search_safe(children[0])
    }
}

/// The Gmail API query of an expression: only a `GmailSeacrch` condition that
/// carries its query has one.
pub open spec fn gmail_query_spec(s: MessageSearch) -> Result<Seq<char>, SearchError> {
    match s {
        MessageSearch::Condition(c) => if c.condition == Conditions::GmailSeacrch {
            match c.value {
                Some(v) => Ok(v@),
                None => Err(SearchError::InvalidGmailSearch),
            }
        } else {
            Err(SearchError::InvalidGmailSearch)
        },
        MessageSearch::Logic(_) => Err(SearchError::InvalidGmailSearch),
    }
}

// ---------------------------------------------------------------------------
// Implementation
// ---------------------------------------------------------------------------
pub open spec fn res_view(r: Result<String, SearchError>) -> Result<Seq<char>, SearchError> {
    match r {
        Ok(s) => Ok(s@),
        Err(e) => Err(e),
    }
}

pub open spec fn strings_view(v: Seq<String>) -> Seq<Seq<char>> {
    v.map_values(|s: String| s@)
}

pub open spec fn char_vecs_view(v: Seq<Vec<char>>) -> Seq<Seq<char>> {
    v.map_values(|w: Vec<char>| w@)
}

fn sub_vec(v: &Vec<char>, from: usize, to: usize) -> (r: Vec<char>)
    requires
        from <= to <= v@.len(),
    ensures
        r@ == v@.subrange(from as int, to as int),
{
    let mut r: Vec<char> = Vec::new();
    let mut i = from;
    while i < to
        invariant
            from <= i <= to <= v@.len(),
            r@ == v@.subrange(from as int, i as int),
        decreases to - i,
    {
        r.push(v[i]);
        i = i + 1;
        assert(r@ =~= v@.subrange(from as int, i as int));
    }
    r
}

/// Replaces every `\q` in `s` by `q`.
fn unescape_vec(s: &Vec<char>, q: char) -> (r: Vec<char>)
    ensures
        r@ == unescape(s@, q),
{
    let n = s.len();
    let mut out: Vec<char> = Vec::new();
    let mut i: usize = 0;
    assert(s@.skip(0) =~= s@);
    while i < n
        invariant
            i <= n == s@.len(),
            unescape(s@, q) == out@ + unescape(s@.skip(i as int), q),
        decreases n - i,
    {
        let ghost t = s@.skip(i as int);
        let ghost before = out@;
        if i + 1 < n && s[i] == '\\' && s[i + 1] == q {
            proof {
                assert(t.skip(2) =~= s@.skip(i + 2));
            }
            out.push(q);
            i = i + 2;
            assert(before + (seq![q] + unescape(s@.skip(i as int), q)) =~= out@ + unescape(
                s@.skip(i as int),
                q,
            ));
        } else {
            let c = s[i];
            proof {
                if t.len() >= 2 {
                    assert(t.skip(1) =~= s@.skip(i + 1));
                } else {
                    assert(t =~= seq![c]);
                    assert(s@.skip(i + 1) =~= Seq::<char>::empty());
                    assert(unescape(s@.skip(i + 1), q) =~= Seq::<char>::empty());
                }
                assert(unescape(t, q) == seq![c] + unescape(s@.skip(i + 1), q));
            }
            out.push(c);
            i = i + 1;
            assert(before + (seq![c] + unescape(s@.skip(i as int), q)) =~= out@ + unescape(
                s@.skip(i as int),
                q,
            ));
        }
    }
    assert(s@.skip(n as int) =~= Seq::<char>::empty());
    assert(out@ + Seq::<char>::empty() =~= out@);
    out
}

/// Quotes a value for an IMAP search key.
fn quote_chars(v: &Vec<char>) -> (r: String)
    requires
        quotable(v@),
    ensures
        r@ == quoted(v@),
{
    let (a, b) = trim_bounds(v);
    let ghost t = trim(v@);
    let inner = if b - a >= 1 && ((v[a] == '"' && v[b - 1] == '"') || (v[a] == '\'' && v[b - 1]
        == '\'')) {
        assert(is_quote_pair(t));
        sub_vec(v, a + 1, b - 1)
    } else {
        assert(!is_quote_pair(t));
        sub_vec(v, a, b)
    };
    assert(inner@ == (if is_quote_pair(t) {
        t.subrange(1, t.len() - 1)
    } else {
        t
    }));
    let u1 = unescape_vec(&inner, '"');
    let u2 = unescape_vec(&u1, '\'');
    let mut r = String::new();
    push_char(&mut r, '"');
    let body = string_from_range(&u2, 0, u2.len());
    assert(u2@.subrange(0, u2@.len() as int) =~= u2@);
    r.append(body.as_str());
    push_char(&mut r, '"');
    assert(r@ =~= quoted(v@));
    r
}

fn quote_value(value: Option<&str>) -> (r: Result<String, SearchError>)
    requires
        value matches Some(s) ==> quotable(s@),
    ensures
        res_view(r) == quote_spec(
            match value {
                Some(s) => Some(s@),
                None => None,
            },
        ),
{
    match value {
        None => Err(SearchError::ValueRequired),
        Some(s) => {
            let v = chars_of(s);
            Ok(quote_chars(&v))
        },
    }
}

fn validate_number(value: Option<&str>) -> (r: Result<String, SearchError>)
    ensures
        res_view(r) == number_spec(
            match value {
                Some(s) => Some(s@),
                None => None,
            },
        ),
{
    match value {
        None => Err(SearchError::NumberRequired),
        Some(s) => {
            let v = chars_of(s);
            match parse_unsigned_chars(&v, u64::MAX) {
                Some(_) => Ok(s.to_owned()),
                None => Err(SearchError::InvalidNumber),
            }
        },
    }
}

fn format_date_value(value: Option<&str>) -> (r: Result<String, SearchError>)
    ensures
        res_view(r) == date_spec(
            match value {
                Some(s) => Some(s@),
                None => None,
            },
        ),
{
    match value {
        None => Err(SearchError::DateRequired),
        Some(s) => match parse_date(s, "%Y-%m-%d") {
            None => Err(SearchError::InvalidDate),
            Some((y, m, d)) => match format_date(y, m, d, "%d-%b-%Y") {
                Some(f) => Ok(f),
                None => Err(SearchError::InvalidDate),
            },
        },
    }
}

/// `str::split_whitespace` on a character vector.
fn split_whitespace(v: &Vec<char>) -> (r: Vec<Vec<char>>)
    ensures
        char_vecs_view(r@) == words(v@),
{
    let n = v.len();
    let mut done: Vec<Vec<char>> = Vec::new();
    let mut cur: Vec<char> = Vec::new();
    let mut i: usize = 0;
    assert(v@.skip(0) =~= v@);
    assert(char_vecs_view(done@) =~= Seq::<Seq<char>>::empty());
    while i < n
        invariant
            i <= n == v@.len(),
            words(v@) == char_vecs_view(done@) + words_from(v@.skip(i as int), cur@),
        decreases n - i,
    {
        let ghost t = v@.skip(i as int);
        let ghost old_done = char_vecs_view(done@);
        let ghost old_cur = cur@;
        assert(t.drop_first() =~= v@.skip(i + 1));
        assert(t[0] == v@[i as int]);
        if char_is_ws(v[i]) {
            assert(words_from(t, old_cur) == (if old_cur.len() > 0 {
                seq![old_cur]
            } else {
                Seq::<Seq<char>>::empty()
            }) + words_from(v@.skip(i + 1), Seq::<char>::empty()));
            if cur.len() > 0 {
                let w = cur;
                done.push(w);
                cur = Vec::new();
                assert(char_vecs_view(done@) =~= old_done + seq![old_cur]);
                assert(cur@ =~= Seq::<char>::empty());
                assert(old_done + (seq![old_cur] + words_from(v@.skip(i + 1), cur@)) =~= (old_done
                    + seq![old_cur]) + words_from(v@.skip(i + 1), cur@));
            } else {
                assert(old_cur =~= Seq::<char>::empty());
                assert(Seq::<Seq<char>>::empty() + words_from(v@.skip(i + 1), old_cur) =~= words_from(
                    v@.skip(i + 1),
                    old_cur,
                ));
            }
        } else {
            assert(words_from(t, old_cur) == words_from(v@.skip(i + 1), old_cur.push(v@[i as int])));
            cur.push(v[i]);
        }
        i = i + 1;
    }
    assert(v@.skip(n as int) =~= Seq::<char>::empty());
    if cur.len() > 0 {
        let ghost old_done = char_vecs_view(done@);
        let ghost old_cur = cur@;
        done.push(cur);
        assert(char_vecs_view(done@) =~= old_done + seq![old_cur]);
    } else {
        assert(char_vecs_view(done@) + Seq::<Seq<char>>::empty() =~= char_vecs_view(done@));
    }
    done
}

fn count_of_char(v: &Vec<char>, c: char) -> (r: usize)
    ensures
        r == count_char(v@, c),
{
    let mut k: usize = 0;
    let mut i: usize = 0;
    while i < v.len()
        invariant
            i <= v@.len(),
            k == count_char(v@.take(i as int), c),
            k <= i,
        decreases v.len() - i,
    {
        assert(v@.take(i + 1).drop_last() =~= v@.take(i as int));
        if v[i] == c {
            k = k + 1;
        }
        i = i + 1;
    }
    assert(v@.take(v@.len() as int) =~= v@);
    k
}

fn index_of_char(v: &Vec<char>, c: char) -> (r: usize)
    ensures
        r == first_index(v@, c),
        r <= v@.len(),
        r < v@.len() ==> v@[r as int] == c,
        forall|j: int| 0 <= j < r ==> v@[j] != c,
{
    let mut i: usize = 0;
    assert(v@.skip(0) =~= v@);
    while i < v.len() && v[i] != c
        invariant
            i <= v@.len(),
            first_index(v@, c) == i + first_index(v@.skip(i as int), c),
            forall|j: int| 0 <= j < i ==> v@[j] != c,
        decreases v.len() - i,
    {
        assert(v@.skip(i as int).drop_first() =~= v@.skip(i + 1));
        i = i + 1;
    }
    i
}

fn check_uid_part(w: &Vec<char>) -> (r: Result<(), SearchError>)
    ensures
        r == uid_part_spec(w@),
{
    let colons = count_of_char(w, ':');
    if colons > 0 {
        if colons != 1 {
            return Err(SearchError::InvalidUidRangeFormat);
        }
        let k = index_of_char(w, ':');
        if k == w.len() {
            proof {
                lemma_count_absent(w@, ':');
            }
            return Err(SearchError::InvalidUidRangeFormat);
        }
        let a = sub_vec(w, 0, k);
        let b = sub_vec(w, k + 1, w.len());
        assert(a@ =~= w@.take(k as int));
        assert(b@ =~= w@.skip(k + 1));
        match parse_unsigned_chars(&a, u64::MAX) {
            None => Err(SearchError::InvalidUidRangeStart),
            Some(x) => match parse_unsigned_chars(&b, u64::MAX) {
                None => Err(SearchError::InvalidUidRangeEnd),
                Some(y) => if x > y {
                    Err(SearchError::UidRangeReversed)
                } else {
                    Ok(())
                },
            },
        }
    } else {
        match parse_unsigned_chars(w, u64::MAX) {
            Some(_) => Ok(()),
            None => Err(SearchError::InvalidUidValue),
        }
    }
}

fn validate_uid(uid_value: &str) -> (r: Result<(), SearchError>)
    ensures
        r == uid_spec(uid_value@),
{
    let re = CompiledRegex::new("^(\\d+|\\d+:\\d+)(\\s+\\d+|\\s+\\d+:\\d+)*$").unwrap();
    if !re.is_match(uid_value) {
        return Err(SearchError::InvalidUidFormat);
    }
    let v = chars_of(uid_value);
    let parts = split_whitespace(&v);
    let mut i: usize = 0;
    assert(char_vecs_view(parts@).skip(0) =~= char_vecs_view(parts@));
    while i < parts.len()
        invariant
            i <= parts@.len(),
            char_vecs_view(parts@) == words(uid_value@),
            uid_spec(uid_value@) == uid_parts_spec(char_vecs_view(parts@).skip(i as int)),
        decreases parts.len() - i,
    {
        let ghost ws = char_vecs_view(parts@).skip(i as int);
        assert(ws[0] == parts@[i as int]@);
        assert(ws.drop_first() =~= char_vecs_view(parts@).skip(i + 1));
        match check_uid_part(&parts[i]) {
            Err(e) => return Err(e),
            Ok(()) => {},
        }
        i = i + 1;
    }
    Ok(())
}

fn with_prefix(keyword: &str, r: Result<String, SearchError>) -> (out: Result<String, SearchError>)
    ensures
        res_view(out) == prefixed(keyword@, res_view(r)),
{
    match r {
        Ok(v) => {
            let mut s = keyword.to_owned();
            s.append(v.as_str());
            Ok(s)
        },
        Err(e) => Err(e),
    }
}

fn literal(s: &str) -> (r: Result<String, SearchError>)
    ensures
        res_view(r) == Ok::<Seq<char>, SearchError>(s@),
{
    Ok(s.to_owned())
}

fn header_key(value: Option<&str>) -> (r: Result<String, SearchError>)
    requires
        condition_quotable(
            Conditions::Header,
            match value {
                Some(s) => Some(s@),
                None => None,
            },
        ),
    ensures
        res_view(r) == condition_spec(
            Conditions::Header,
            match value {
                Some(s) => Some(s@),
                None => None,
            },
        ),
{
    let v = match value {
        Some(s) => chars_of(s),
        None => Vec::new(),
    };
    let k = index_of_char(&v, ' ');
    if k < v.len() {
        let name = sub_vec(&v, 0, k);
        let rest = sub_vec(&v, k + 1, v.len());
        assert(name@ =~= v@.take(k as int));
        assert(rest@ =~= v@.skip(k + 1));
        let qn = quote_chars(&name);
        let qr = quote_chars(&rest);
        let mut s = "HEADER ".to_owned();
        s.append(qn.as_str());
        s.append(" ");
        s.append(qr.as_str());
        Ok(s)
    } else {
        Err(SearchError::InvalidHeaderFormat)
    }
}

fn condition_key(c: &Condition) -> (r: Result<String, SearchError>)
    requires
        condition_quotable(c.condition, opt_view(c.value)),
    ensures
        res_view(r) == condition_spec(c.condition, opt_view(c.value)),
{
    let value: Option<&str> = match &c.value {
        Some(s) => Some(s.as_str()),
        None => None,
    };
    assert(opt_view(c.value) == match value {
        Some(s) => Some(s@),
        None => None,
    });
    match c.condition {
        Conditions::All => literal("ALL"),
        Conditions::Answered => literal("ANSWERED"),
        Conditions::Bcc => with_prefix("BCC ", quote_value(value)),
        Conditions::Before => with_prefix("BEFORE ", format_date_value(value)),
        Conditions::Body => with_prefix("BODY ", quote_value(value)),
        Conditions::Cc => with_prefix("CC ", quote_value(value)),
        Conditions::Deleted => literal("DELETED"),
        Conditions::Draft => literal("DRAFT"),
        Conditions::Flagged => literal("FLAGGED"),
        Conditions::From => with_prefix("FROM ", quote_value(value)),
        Conditions::Header => header_key(value),
        Conditions::Keyword => with_prefix("KEYWORD ", quote_value(value)),
        Conditions::Larger => with_prefix("LARGER ", validate_number(value)),
        Conditions::New => literal("NEW"),
        Conditions::Old => literal("OLD"),
        Conditions::On => with_prefix("ON ", format_date_value(value)),
        Conditions::Recent => literal("RECENT"),
        Conditions::Seen => literal("SEEN"),
        Conditions::SentBefore => with_prefix("SENTBEFORE ", format_date_value(value)),
        Conditions::SentOn => with_prefix("SENTON ", format_date_value(value)),
        Conditions::SentSince => with_prefix("SENTSINCE ", format_date_value(value)),
        Conditions::Since => with_prefix("SINCE ", format_date_value(value)),
        Conditions::Smaller => with_prefix("SMALLER ", validate_number(value)),
        Conditions::Subject => with_prefix("SUBJECT ", quote_value(value)),
        Conditions::Text => with_prefix("TEXT ", quote_value(value)),
        Conditions::To => with_prefix("TO ", quote_value(value)),
        Conditions::Uid => match value {
            None => Err(SearchError::UidRequired),
            Some(s) => match validate_uid(s) {
                Err(e) => Err(e),
                Ok(()) => {
                    let mut out = "UID ".to_owned();
                    out.append(s);
                    Ok(out)
                },
            },
        },
        Conditions::Unanswered => literal("UNANSWERED"),
        Conditions::Undeleted => literal("UNDELETED"),
        Conditions::Undraft => literal("UNDRAFT"),
        Conditions::Unflagged => literal("UNFLAGGED"),
        Conditions::Unkeyword => with_prefix("UNKEYWORD ", quote_value(value)),
        Conditions::Unseen => literal("UNSEEN"),
        Conditions::GmailSeacrch => Err(SearchError::GmailOnlyCondition),
    }
}

fn join_with_spaces(parts: &Vec<String>) -> (r: String)
    ensures
        r@ == join_spaces(strings_view(parts@)),
{
    let mut r = String::new();
    let mut i: usize = 0;
    while i < parts.len()
        invariant
            i <= parts@.len(),
            r@ == join_spaces(strings_view(parts@.take(i as int))),
        decreases parts.len() - i,
    {
        let ghost prev = strings_view(parts@.take(i as int));
        let ghost next = strings_view(parts@.take(i + 1));
        assert(next.drop_last() =~= prev);
        assert(next.last() == parts@[i as int]@);
        if i > 0 {
            r.append(" ");
        } else {
            assert(prev =~= Seq::<Seq<char>>::empty());
        }
        r.append(parts[i].as_str());
        i = i + 1;
    }
    assert(parts@.take(parts@.len() as int) =~= parts@);
    r
}

fn parenthesized(s: String) -> (r: String)
    ensures
        r@ == parens(s@),
{
    let mut r = "(".to_owned();
    r.append(s.as_str());
    r.append(")");
    r
}

pub proof fn lemma_count_absent(s: Seq<char>, c: char)
    requires
        forall|j: int| 0 <= j < s.len() ==> s[j] != c,
    ensures
        count_char(s, c) == 0,
    decreases s.len(),
{
    if s.len() > 0 {
        lemma_count_absent(s.drop_last(), c);
    }
}

pub proof fn lemma_keys_in_order_err(cs: Seq<MessageSearch>, k: int)
    requires
        0 <= k <= cs.len(),
        keys_in_order(cs.take(k)) is Err,
    ensures
        keys_in_order(cs) == keys_in_order(cs.take(k)),
    decreases cs.len(),
{
    if k == cs.len() {
        assert(cs.take(k) =~= cs);
    } else {
        assert(cs.drop_last().take(k) =~= cs.take(k));
        lemma_keys_in_order_err(cs.drop_last(), k);
    }
}

pub proof fn lemma_keys_from_back_err(cs: Seq<MessageSearch>, k: int)
    requires
        0 <= k <= cs.len(),
        keys_from_back(cs.skip(k)) is Err,
    ensures
        keys_from_back(cs) == keys_from_back(cs.skip(k)),
    decreases k,
{
    if k == 0 {
        assert(cs.skip(0) =~= cs);
    } else {
        assert(cs.drop_first().skip(k - 1) =~= cs.skip(k));
        lemma_keys_from_back_err(cs.drop_first(), k - 1);
    }
}

proof fn lemma_safe_in_order(cs: Seq<MessageSearch>, i: int)
    requires
        safe_in_order(cs),
        0 <= i < cs.len(),
        keys_in_order(cs.take(i)) is Ok,
    ensures
        search_safe(cs[i]),
    decreases cs.len(),
{
    if i == cs.len() - 1 {
        assert(cs.drop_last() =~= cs.take(i));
    } else {
        assert(cs.drop_last().take(i) =~= cs.take(i));
        lemma_safe_in_order(cs.drop_last(), i);
    }
}

/// Once building the first `k` children fails, the rest are never built.
proof fn lemma_safe_prefix_err(cs: Seq<MessageSearch>, k: int)
    requires
        0 <= k <= cs.len(),
        safe_in_order(cs.take(k)),
        keys_in_order(cs.take(k)) is Err,
    ensures
        safe_in_order(cs),
    decreases cs.len(),
{
    if k == cs.len() {
        assert(cs.take(k) =~= cs);
    } else {
        assert(cs.drop_last().take(k) =~= cs.take(k));
        lemma_safe_prefix_err(cs.drop_last(), k);
        lemma_keys_in_order_err(cs.drop_last(), k);
    }
}

/// Once building the children from `k` on fails, the earlier ones are never
/// built.
proof fn lemma_safe_suffix_err(cs: Seq<MessageSearch>, k: int)
    requires
        0 <= k <= cs.len(),
        safe_from_back(cs.skip(k)),
        keys_from_back(cs.skip(k)) is Err,
    ensures
        safe_from_back(cs),
    decreases k,
{
    if k > 0 {
        assert(cs.drop_first().skip(k - 1) =~= cs.skip(k));
        lemma_safe_suffix_err(cs.drop_first(), k - 1);
        lemma_keys_from_back_err(cs.drop_first(), k - 1);
    } else {
        assert(cs.skip(0) =~= cs);
    }
}

proof fn lemma_safe_from_back(cs: Seq<MessageSearch>, j: int)
    requires
        safe_from_back(cs),
        0 <= j < cs.len(),
        keys_from_back(cs.skip(j + 1)) is Ok,
    ensures
        search_safe(cs[j]),
    decreases j,
{
    if j == 0 {
        assert(cs.drop_first() =~= cs.skip(1));
    } else {
        assert(cs.drop_first().skip(j) =~= cs.skip(j + 1));
        lemma_safe_from_back(cs.drop_first(), j - 1);
    }
}

fn quoted_date(value: Option<&str>) -> (r: Result<String, SearchError>)
    ensures
        res_view(r) == quoted_date_spec(
            match value {
                Some(s) => Some(s@),
                None => None,
            },
        ),
{
    match format_date_value(value) {
        Ok(d) => {
            let mut q = "\"".to_owned();
            q.append(d.as_str());
            q.append("\"");
            Ok(q)
        },
        Err(e) => Err(e),
    }
}

fn standalone_key(c: &Condition) -> (r: Result<String, SearchError>)
    requires
        condition_quotable(c.condition, opt_view(c.value)),
    ensures
        res_view(r) == standalone_spec(c.condition, opt_view(c.value)),
{
    let v = match &c.value {
        Some(s) => Some(s.as_str()),
        None => None,
    };
    match c.condition {
        Conditions::Before => with_prefix("BEFORE ", quoted_date(v)),
        Conditions::On => with_prefix("ON ", quoted_date(v)),
        Conditions::SentBefore => with_prefix("SENTBEFORE ", quoted_date(v)),
        Conditions::SentOn => with_prefix("SENTON ", quoted_date(v)),
        Conditions::SentSince => with_prefix("SENTSINCE ", quoted_date(v)),
        Conditions::Since => with_prefix("SINCE ", quoted_date(v)),
        _ => condition_key(c),
    }
}

fn quotable_chars(v: &Vec<char>) -> (r: bool)
    ensures
        r == quotable(v@),
{
    let (a, b) = trim_bounds(v);
    if b - a == 1 {
        assert(trim(v@)[0] == v@[a as int]);
        !(v[a] == '"' || v[a] == '\'')
    } else {
        true
    }
}

fn condition_is_quotable(c: &Condition) -> (r: bool)
    ensures
        r == condition_quotable(c.condition, opt_view(c.value)),
{
    match c.condition {
        Conditions::Bcc | Conditions::Body | Conditions::Cc | Conditions::From
        | Conditions::Keyword | Conditions::Subject | Conditions::Text | Conditions::To
        | Conditions::Unkeyword => match &c.value {
            Some(s) => quotable_chars(&chars_of(s.as_str())),
            None => true,
        },
        Conditions::Header => {
            let v = match &c.value {
                Some(s) => chars_of(s.as_str()),
                None => Vec::new(),
            };
            let k = index_of_char(&v, ' ');
            if k < v.len() {
                let name = sub_vec(&v, 0, k);
                let rest = sub_vec(&v, k + 1, v.len());
                assert(name@ =~= v@.take(k as int));
                assert(rest@ =~= v@.skip(k + 1));
                quotable_chars(&name) && quotable_chars(&rest)
            } else {
                true
            }
        },
        _ => true,
    }
}

/// The search key that RFC 3501 gives each condition; the Gmail-only
/// condition has none.
pub open spec fn rfc3501_key(c: Conditions) -> Seq<char> {
    match c {
        Conditions::All => "ALL"@,
        Conditions::Answered => "ANSWERED"@,
        Conditions::Bcc => "BCC"@,
        Conditions::Before => "BEFORE"@,
        Conditions::Body => "BODY"@,
        Conditions::Cc => "CC"@,
        Conditions::Deleted => "DELETED"@,
        Conditions::Draft => "DRAFT"@,
        Conditions::Flagged => "FLAGGED"@,
        Conditions::From => "FROM"@,
        Conditions::Header => "HEADER"@,
        Conditions::Keyword => "KEYWORD"@,
        Conditions::Larger => "LARGER"@,
        Conditions::New => "NEW"@,
        Conditions::Old => "OLD"@,
        Conditions::On => "ON"@,
        Conditions::Recent => "RECENT"@,
        Conditions::Seen => "SEEN"@,
        Conditions::SentBefore => "SENTBEFORE"@,
        Conditions::SentOn => "SENTON"@,
        Conditions::SentSince => "SENTSINCE"@,
        Conditions::Since => "SINCE"@,
        Conditions::Smaller => "SMALLER"@,
        Conditions::Subject => "SUBJECT"@,
        Conditions::Text => "TEXT"@,
        Conditions::To => "TO"@,
        Conditions::Uid => "UID"@,
        Conditions::Unanswered => "UNANSWERED"@,
        Conditions::Undeleted => "UNDELETED"@,
        Conditions::Undraft => "UNDRAFT"@,
        Conditions::Unflagged => "UNFLAGGED"@,
        Conditions::Unkeyword => "UNKEYWORD"@,
        Conditions::Unseen => "UNSEEN"@,
        Conditions::GmailSeacrch => ""@,
    }
}

/// `k` is the key `kw` alone, or `kw` followed by a space and its arguments.
pub open spec fn starts_with_key(k: Seq<char>, kw: Seq<char>) -> bool {
    &&& kw.len() <= k.len()
    &&& k.subrange(0, kw.len() as int) == kw
    &&& (k.len() == kw.len() || k[kw.len() as int] == ' ')
}

/// The conditions whose value is quoted.
pub open spec fn takes_quoted_value(c: Conditions) -> bool {
    c == Conditions::Bcc || c == Conditions::Body || c == Conditions::Cc || c == Conditions::From || c == Conditions::Keyword || c == Conditions::Subject || c == Conditions::Text || c == Conditions::To || c == Conditions::Unkeyword
}

proof fn lemma_key_then_arguments(kw: Seq<char>, rest: Seq<char>)
    ensures
        starts_with_key(kw + " "@ + rest, kw),
{
    reveal_strlit(" ");
    assert((kw + " "@ + rest).subrange(0, kw.len() as int) =~= kw);
    assert((kw + " "@ + rest)[kw.len() as int] == " "@[0]);
}

/// The key of a condition-spelling search names the condition: the criterion
/// it gives, alone or nested, is the condition's RFC 3501 keyword, alone or
/// followed by a space and its arguments. A `TO` condition is never rendered
/// as `CC`, nor any condition as another's keyword.
pub proof fn lemma_condition_keyword(c: Condition, top: bool)
    requires
        c.condition != Conditions::GmailSeacrch,
    ensures
        imap_key(MessageSearch::Condition(c), top) matches Ok(k) ==> starts_with_key(
            k,
            rfc3501_key(c.condition),
        ),
        imap_command(MessageSearch::Condition(c), top) matches Ok(k) ==> starts_with_key(
            k,
            rfc3501_key(c.condition),
        ),
{
    let kw = rfc3501_key(c.condition);
    let v = opt_view(c.value);
    reveal_strlit(" ");
    match c.condition {
        Conditions::All => {
            assert(kw.subrange(0, kw.len() as int) =~= kw);
        },
        Conditions::Answered => {
            assert(kw.subrange(0, kw.len() as int) =~= kw);
        },
        Conditions::Bcc => {
            reveal_strlit("BCC ");
            reveal_strlit("BCC");
            assert("BCC "@ =~= "BCC"@ + " "@);
            lemma_prefixed_key("BCC "@, kw, quote_spec(v));
        },
        Conditions::Before => {
            reveal_strlit("BEFORE ");
            reveal_strlit("BEFORE");
            assert("BEFORE "@ =~= "BEFORE"@ + " "@);
            lemma_prefixed_key("BEFORE "@, kw, date_spec(v));
            lemma_prefixed_key("BEFORE "@, kw, quoted_date_spec(v));
        },
        Conditions::Body => {
            reveal_strlit("BODY ");
            reveal_strlit("BODY");
            assert("BODY "@ =~= "BODY"@ + " "@);
            lemma_prefixed_key("BODY "@, kw, quote_spec(v));
        },
        Conditions::Cc => {
            reveal_strlit("CC ");
            reveal_strlit("CC");
            assert("CC "@ =~= "CC"@ + " "@);
            lemma_prefixed_key("CC "@, kw, quote_spec(v));
        },
        Conditions::Deleted => {
            assert(kw.subrange(0, kw.len() as int) =~= kw);
        },
        Conditions::Draft => {
            assert(kw.subrange(0, kw.len() as int) =~= kw);
        },
        Conditions::Flagged => {
            assert(kw.subrange(0, kw.len() as int) =~= kw);
        },
        Conditions::From => {
            reveal_strlit("FROM ");
            reveal_strlit("FROM");
            assert("FROM "@ =~= "FROM"@ + " "@);
            lemma_prefixed_key("FROM "@, kw, quote_spec(v));
        },
        Conditions::Header => {
            reveal_strlit("HEADER ");
            reveal_strlit("HEADER");
            assert("HEADER "@ =~= "HEADER"@ + " "@);
            let s = match v {
                Some(s) => s,
                None => Seq::empty(),
            };
            match split_first_space(s) {
                Some(parts) => {
                    let rest = quoted(parts.0) + " "@ + quoted(parts.1);
                    assert("HEADER "@ + quoted(parts.0) + " "@ + quoted(parts.1) =~= kw + " "@ + rest);
                    lemma_key_then_arguments(kw, rest);
                },
                None => {},
            }
        },
        Conditions::Keyword => {
            reveal_strlit("KEYWORD ");
            reveal_strlit("KEYWORD");
            assert("KEYWORD "@ =~= "KEYWORD"@ + " "@);
            lemma_prefixed_key("KEYWORD "@, kw, quote_spec(v));
        },
        Conditions::Larger => {
            reveal_strlit("LARGER ");
            reveal_strlit("LARGER");
            assert("LARGER "@ =~= "LARGER"@ + " "@);
            lemma_prefixed_key("LARGER "@, kw, number_spec(v));
        },
        Conditions::New => {
            assert(kw.subrange(0, kw.len() as int) =~= kw);
        },
        Conditions::Old => {
            assert(kw.subrange(0, kw.len() as int) =~= kw);
        },
        Conditions::On => {
            reveal_strlit("ON ");
            reveal_strlit("ON");
            assert("ON "@ =~= "ON"@ + " "@);
            lemma_prefixed_key("ON "@, kw, date_spec(v));
            lemma_prefixed_key("ON "@, kw, quoted_date_spec(v));
        },
        Conditions::Recent => {
            assert(kw.subrange(0, kw.len() as int) =~= kw);
        },
        Conditions::Seen => {
            assert(kw.subrange(0, kw.len() as int) =~= kw);
        },
        Conditions::SentBefore => {
            reveal_strlit("SENTBEFORE ");
            reveal_strlit("SENTBEFORE");
            assert("SENTBEFORE "@ =~= "SENTBEFORE"@ + " "@);
            lemma_prefixed_key("SENTBEFORE "@, kw, date_spec(v));
            lemma_prefixed_key("SENTBEFORE "@, kw, quoted_date_spec(v));
        },
        Conditions::SentOn => {
            reveal_strlit("SENTON ");
            reveal_strlit("SENTON");
            assert("SENTON "@ =~= "SENTON"@ + " "@);
            lemma_prefixed_key("SENTON "@, kw, date_spec(v));
            lemma_prefixed_key("SENTON "@, kw, quoted_date_spec(v));
        },
        Conditions::SentSince => {
            reveal_strlit("SENTSINCE ");
            reveal_strlit("SENTSINCE");
            assert("SENTSINCE "@ =~= "SENTSINCE"@ + " "@);
            lemma_prefixed_key("SENTSINCE "@, kw, date_spec(v));
            lemma_prefixed_key("SENTSINCE "@, kw, quoted_date_spec(v));
        },
        Conditions::Since => {
            reveal_strlit("SINCE ");
            reveal_strlit("SINCE");
            assert("SINCE "@ =~= "SINCE"@ + " "@);
            lemma_prefixed_key("SINCE "@, kw, date_spec(v));
            lemma_prefixed_key("SINCE "@, kw, quoted_date_spec(v));
        },
        Conditions::Smaller => {
            reveal_strlit("SMALLER ");
            reveal_strlit("SMALLER");
            assert("SMALLER "@ =~= "SMALLER"@ + " "@);
            lemma_prefixed_key("SMALLER "@, kw, number_spec(v));
        },
        Conditions::Subject => {
            reveal_strlit("SUBJECT ");
            reveal_strlit("SUBJECT");
            assert("SUBJECT "@ =~= "SUBJECT"@ + " "@);
            lemma_prefixed_key("SUBJECT "@, kw, quote_spec(v));
        },
        Conditions::Text => {
            reveal_strlit("TEXT ");
            reveal_strlit("TEXT");
            assert("TEXT "@ =~= "TEXT"@ + " "@);
            lemma_prefixed_key("TEXT "@, kw, quote_spec(v));
        },
        Conditions::To => {
            reveal_strlit("TO ");
            reveal_strlit("TO");
            assert("TO "@ =~= "TO"@ + " "@);
            lemma_prefixed_key("TO "@, kw, quote_spec(v));
        },
        Conditions::Uid => {
            reveal_strlit("UID ");
            reveal_strlit("UID");
            assert("UID "@ =~= "UID"@ + " "@);
            match v {
                Some(s) => lemma_key_then_arguments(kw, s),
                None => {},
            }
        },
        Conditions::Unanswered => {
            assert(kw.subrange(0, kw.len() as int) =~= kw);
        },
        Conditions::Undeleted => {
            assert(kw.subrange(0, kw.len() as int) =~= kw);
        },
        Conditions::Undraft => {
            assert(kw.subrange(0, kw.len() as int) =~= kw);
        },
        Conditions::Unflagged => {
            assert(kw.subrange(0, kw.len() as int) =~= kw);
        },
        Conditions::Unkeyword => {
            reveal_strlit("UNKEYWORD ");
            reveal_strlit("UNKEYWORD");
            assert("UNKEYWORD "@ =~= "UNKEYWORD"@ + " "@);
            lemma_prefixed_key("UNKEYWORD "@, kw, quote_spec(v));
        },
        Conditions::Unseen => {
            assert(kw.subrange(0, kw.len() as int) =~= kw);
        },
        Conditions::GmailSeacrch => {},
    }
}

/// The length and first three characters of each keyword (a space where a
/// keyword is shorter).
spec fn keyword_signature(c: Conditions) -> (int, char, char, char) {
    match c {
        Conditions::All => (3, 'A', 'L', 'L'),
        Conditions::Answered => (8, 'A', 'N', 'S'),
        Conditions::Bcc => (3, 'B', 'C', 'C'),
        Conditions::Before => (6, 'B', 'E', 'F'),
        Conditions::Body => (4, 'B', 'O', 'D'),
        Conditions::Cc => (2, 'C', 'C', ' '),
        Conditions::Deleted => (7, 'D', 'E', 'L'),
        Conditions::Draft => (5, 'D', 'R', 'A'),
        Conditions::Flagged => (7, 'F', 'L', 'A'),
        Conditions::From => (4, 'F', 'R', 'O'),
        Conditions::Header => (6, 'H', 'E', 'A'),
        Conditions::Keyword => (7, 'K', 'E', 'Y'),
        Conditions::Larger => (6, 'L', 'A', 'R'),
        Conditions::New => (3, 'N', 'E', 'W'),
        Conditions::Old => (3, 'O', 'L', 'D'),
        Conditions::On => (2, 'O', 'N', ' '),
        Conditions::Recent => (6, 'R', 'E', 'C'),
        Conditions::Seen => (4, 'S', 'E', 'E'),
        Conditions::SentBefore => (10, 'S', 'E', 'N'),
        Conditions::SentOn => (6, 'S', 'E', 'N'),
        Conditions::SentSince => (9, 'S', 'E', 'N'),
        Conditions::Since => (5, 'S', 'I', 'N'),
        Conditions::Smaller => (7, 'S', 'M', 'A'),
        Conditions::Subject => (7, 'S', 'U', 'B'),
        Conditions::Text => (4, 'T', 'E', 'X'),
        Conditions::To => (2, 'T', 'O', ' '),
        Conditions::Uid => (3, 'U', 'I', 'D'),
        Conditions::Unanswered => (10, 'U', 'N', 'A'),
        Conditions::Undeleted => (9, 'U', 'N', 'D'),
        Conditions::Undraft => (7, 'U', 'N', 'D'),
        Conditions::Unflagged => (9, 'U', 'N', 'F'),
        Conditions::Unkeyword => (9, 'U', 'N', 'K'),
        Conditions::Unseen => (6, 'U', 'N', 'S'),
        Conditions::GmailSeacrch => (0, ' ', ' ', ' '),
    }
}

proof fn lemma_keyword_signature(c: Conditions)
    requires
        c != Conditions::GmailSeacrch,
    ensures
        rfc3501_key(c).len() == keyword_signature(c).0,
        rfc3501_key(c)[0] == keyword_signature(c).1,
        rfc3501_key(c)[1] == keyword_signature(c).2,
        rfc3501_key(c).len() > 2 ==> rfc3501_key(c)[2] == keyword_signature(c).3,
        rfc3501_key(c).len() <= 2 ==> keyword_signature(c).3 == ' ',
        rfc3501_key(c).len() >= 2,
{
    match c {
        Conditions::All => reveal_strlit("ALL"),
        Conditions::Answered => reveal_strlit("ANSWERED"),
        Conditions::Bcc => reveal_strlit("BCC"),
        Conditions::Before => reveal_strlit("BEFORE"),
        Conditions::Body => reveal_strlit("BODY"),
        Conditions::Cc => reveal_strlit("CC"),
        Conditions::Deleted => reveal_strlit("DELETED"),
        Conditions::Draft => reveal_strlit("DRAFT"),
        Conditions::Flagged => reveal_strlit("FLAGGED"),
        Conditions::From => reveal_strlit("FROM"),
        Conditions::Header => reveal_strlit("HEADER"),
        Conditions::Keyword => reveal_strlit("KEYWORD"),
        Conditions::Larger => reveal_strlit("LARGER"),
        Conditions::New => reveal_strlit("NEW"),
        Conditions::Old => reveal_strlit("OLD"),
        Conditions::On => reveal_strlit("ON"),
        Conditions::Recent => reveal_strlit("RECENT"),
        Conditions::Seen => reveal_strlit("SEEN"),
        Conditions::SentBefore => reveal_strlit("SENTBEFORE"),
        Conditions::SentOn => reveal_strlit("SENTON"),
        Conditions::SentSince => reveal_strlit("SENTSINCE"),
        Conditions::Since => reveal_strlit("SINCE"),
        Conditions::Smaller => reveal_strlit("SMALLER"),
        Conditions::Subject => reveal_strlit("SUBJECT"),
        Conditions::Text => reveal_strlit("TEXT"),
        Conditions::To => reveal_strlit("TO"),
        Conditions::Uid => reveal_strlit("UID"),
        Conditions::Unanswered => reveal_strlit("UNANSWERED"),
        Conditions::Undeleted => reveal_strlit("UNDELETED"),
        Conditions::Undraft => reveal_strlit("UNDRAFT"),
        Conditions::Unflagged => reveal_strlit("UNFLAGGED"),
        Conditions::Unkeyword => reveal_strlit("UNKEYWORD"),
        Conditions::Unseen => reveal_strlit("UNSEEN"),
        Conditions::GmailSeacrch => {},
    }
}

/// Distinct conditions have distinct keywords, so the keyword that a criterion
/// starts with tells which condition it renders.
#[verifier::rlimit(100)]
#[verifier::spinoff_prover]
pub proof fn lemma_keywords_distinct(c1: Conditions, c2: Conditions)
    requires
        c1 != c2,
        c1 != Conditions::GmailSeacrch,
        c2 != Conditions::GmailSeacrch,
    ensures
        rfc3501_key(c1) != rfc3501_key(c2),
{
    lemma_keyword_signature(c1);
    lemma_keyword_signature(c2);
    if rfc3501_key(c1) == rfc3501_key(c2) {
        assert(keyword_signature(c1) == keyword_signature(c2));
    }
}

/// How conditions combine: two criteria under `AND` are joined by a space,
/// under `OR` they follow the keyword `OR` in their order, and `NOT` precedes
/// its one criterion; a nested combination is parenthesized, the whole search
/// is not.
pub proof fn lemma_logic_rendering(a: MessageSearch, b: MessageSearch, ka: Seq<char>, kb: Seq<char>, top: bool)
    requires
        imap_key(a, false) == Ok::<Seq<char>, SearchError>(ka),
        imap_key(b, false) == Ok::<Seq<char>, SearchError>(kb),
    ensures
        forall|l: Logic|
            l.operator == Operator::And && l.children@ == seq![a, b] ==> #[trigger] imap_key(
                MessageSearch::Logic(l),
                top,
            ) == Ok::<Seq<char>, SearchError>(
                if top {
                    ka + " "@ + kb
                } else {
                    "("@ + ka + " "@ + kb + ")"@
                },
            ),
        forall|l: Logic|
            l.operator == Operator::Or && l.children@ == seq![a, b] ==> #[trigger] imap_key(
                MessageSearch::Logic(l),
                top,
            ) == Ok::<Seq<char>, SearchError>(
                if top {
                    "OR "@ + ka + " "@ + kb
                } else {
                    "("@ + "OR "@ + ka + " "@ + kb + ")"@
                },
            ),
        forall|l: Logic|
            l.operator == Operator::Not && l.children@ == seq![a] ==> #[trigger] imap_key(
                MessageSearch::Logic(l),
                top,
            ) == Ok::<Seq<char>, SearchError>(
                if top {
                    "NOT "@ + ka
                } else {
                    "("@ + "NOT "@ + ka + ")"@
                },
            ),
{
    let two = seq![a, b];
    assert(two.drop_last() =~= seq![a]);
    assert(seq![a].drop_last() =~= Seq::<MessageSearch>::empty());
    assert(keys_in_order(Seq::<MessageSearch>::empty()) == Ok::<Seq<Seq<char>>, SearchError>(
        Seq::empty(),
    ));
    assert(seq![a].last() == a);
    assert(keys_in_order(seq![a]) == Ok::<Seq<Seq<char>>, SearchError>(seq![ka])) by {
        assert(Seq::<Seq<char>>::empty().push(ka) =~= seq![ka]);
    }
    assert(two.last() == b);
    assert(keys_in_order(two) == Ok::<Seq<Seq<char>>, SearchError>(seq![ka, kb])) by {
        assert(seq![ka].push(kb) =~= seq![ka, kb]);
    }
    assert(seq![ka, kb].drop_last() =~= seq![ka]);
    assert(seq![ka][0] == ka);
    assert(join_spaces(seq![ka]) == ka);
    assert(seq![ka, kb].last() == kb);
    assert(join_spaces(seq![ka, kb]) == ka + " "@ + kb);
    assert(two.drop_first() =~= seq![b]);
    assert(seq![b].drop_first() =~= Seq::<MessageSearch>::empty());
    assert(keys_from_back(Seq::<MessageSearch>::empty()) == Ok::<Seq<Seq<char>>, SearchError>(
        Seq::empty(),
    ));
    assert(seq![b][0] == b);
    assert(two[0] == a);
    assert(keys_from_back(seq![b]) == Ok::<Seq<Seq<char>>, SearchError>(seq![kb])) by {
        assert(seq![kb] + Seq::<Seq<char>>::empty() =~= seq![kb]);
    }
    assert(keys_from_back(two) == Ok::<Seq<Seq<char>>, SearchError>(seq![ka, kb])) by {
        assert(seq![ka] + seq![kb] =~= seq![ka, kb]);
    }
    assert(seq![ka, kb].drop_first() =~= seq![kb]);
    assert(or_inner(seq![kb]) == kb);
    assert(or_body(seq![ka, kb]) == "OR "@ + ka + " "@ + kb);
    assert forall|l: Logic|
        l.operator == Operator::And && l.children@ == seq![a, b] implies #[trigger] imap_key(
            MessageSearch::Logic(l),
            top,
        ) == Ok::<Seq<char>, SearchError>(
            if top {
                ka + " "@ + kb
            } else {
                "("@ + ka + " "@ + kb + ")"@
            },
        ) by {
        assert(l.children@ == two);
        assert(keys_in_order(l.children@) == Ok::<Seq<Seq<char>>, SearchError>(seq![ka, kb]));
        reveal_strlit("(");
        reveal_strlit(")");
        assert(parens(ka + " "@ + kb) =~= "("@ + ka + " "@ + kb + ")"@);
    }
    assert forall|l: Logic|
        l.operator == Operator::Or && l.children@ == seq![a, b] implies #[trigger] imap_key(
            MessageSearch::Logic(l),
            top,
        ) == Ok::<Seq<char>, SearchError>(
            if top {
                "OR "@ + ka + " "@ + kb
            } else {
                "("@ + "OR "@ + ka + " "@ + kb + ")"@
            },
        ) by {
        assert(l.children@ == two);
        assert(l.children@.len() == 2);
        assert(keys_from_back(l.children@) == Ok::<Seq<Seq<char>>, SearchError>(seq![ka, kb]));
        assert(parens("OR "@ + ka + " "@ + kb) =~= "("@ + "OR "@ + ka + " "@ + kb + ")"@);
    }
    assert forall|l: Logic|
        l.operator == Operator::Not && l.children@ == seq![a] implies #[trigger] imap_key(
            MessageSearch::Logic(l),
            top,
        ) == Ok::<Seq<char>, SearchError>(
            if top {
                "NOT "@ + ka
            } else {
                "("@ + "NOT "@ + ka + ")"@
            },
        ) by {
        assert(l.children@.len() == 1);
        assert(l.children@[0] == a);
        assert(parens("NOT "@ + ka) =~= "("@ + "NOT "@ + ka + ")"@);
    }
}

proof fn lemma_prefixed_key(kwsp: Seq<char>, kw: Seq<char>, r: Result<Seq<char>, SearchError>)
    requires
        kwsp == kw + " "@,
    ensures
        prefixed(kwsp, r) matches Ok(k) ==> starts_with_key(k, kw),
{
    if let Ok(x) = r {
        lemma_key_then_arguments(kw, x);
    }
}

/// A condition on an address or text field renders as its keyword, a space
/// and the quoted value: `TO "bob@example.com"` for a `To` condition on
/// `bob@example.com`, whether it is the whole search or nested.
pub proof fn lemma_quoted_condition(c: Condition, top: bool)
    requires
        takes_quoted_value(c.condition),
        c.value is Some,
    ensures
        imap_key(MessageSearch::Condition(c), top) == Ok::<Seq<char>, SearchError>(
            rfc3501_key(c.condition) + " "@ + quoted(c.value->0@),
        ),
        imap_command(MessageSearch::Condition(c), top) == Ok::<Seq<char>, SearchError>(
            rfc3501_key(c.condition) + " "@ + quoted(c.value->0@),
        ),
{
    reveal_strlit(" ");
    match c.condition {
        Conditions::All => {},
        Conditions::Answered => {},
        Conditions::Bcc => {
            reveal_strlit("BCC ");
            reveal_strlit("BCC");
            assert("BCC "@ =~= "BCC"@ + " "@);
        },
        Conditions::Before => {
            reveal_strlit("BEFORE ");
            reveal_strlit("BEFORE");
            assert("BEFORE "@ =~= "BEFORE"@ + " "@);
        },
        Conditions::Body => {
            reveal_strlit("BODY ");
            reveal_strlit("BODY");
            assert("BODY "@ =~= "BODY"@ + " "@);
        },
        Conditions::Cc => {
            reveal_strlit("CC ");
            reveal_strlit("CC");
            assert("CC "@ =~= "CC"@ + " "@);
        },
        Conditions::Deleted => {},
        Conditions::Draft => {},
        Conditions::Flagged => {},
        Conditions::From => {
            reveal_strlit("FROM ");
            reveal_strlit("FROM");
            assert("FROM "@ =~= "FROM"@ + " "@);
        },
        Conditions::Header => {
            reveal_strlit("HEADER ");
            reveal_strlit("HEADER");
            assert("HEADER "@ =~= "HEADER"@ + " "@);
        },
        Conditions::Keyword => {
            reveal_strlit("KEYWORD ");
            reveal_strlit("KEYWORD");
            assert("KEYWORD "@ =~= "KEYWORD"@ + " "@);
        },
        Conditions::Larger => {
            reveal_strlit("LARGER ");
            reveal_strlit("LARGER");
            assert("LARGER "@ =~= "LARGER"@ + " "@);
        },
        Conditions::New => {},
        Conditions::Old => {},
        Conditions::On => {
            reveal_strlit("ON ");
            reveal_strlit("ON");
            assert("ON "@ =~= "ON"@ + " "@);
        },
        Conditions::Recent => {},
        Conditions::Seen => {},
        Conditions::SentBefore => {
            reveal_strlit("SENTBEFORE ");
            reveal_strlit("SENTBEFORE");
            assert("SENTBEFORE "@ =~= "SENTBEFORE"@ + " "@);
        },
        Conditions::SentOn => {
            reveal_strlit("SENTON ");
            reveal_strlit("SENTON");
            assert("SENTON "@ =~= "SENTON"@ + " "@);
        },
        Conditions::SentSince => {
            reveal_strlit("SENTSINCE ");
            reveal_strlit("SENTSINCE");
            assert("SENTSINCE "@ =~= "SENTSINCE"@ + " "@);
        },
        Conditions::Since => {
            reveal_strlit("SINCE ");
            reveal_strlit("SINCE");
            assert("SINCE "@ =~= "SINCE"@ + " "@);
        },
        Conditions::Smaller => {
            reveal_strlit("SMALLER ");
            reveal_strlit("SMALLER");
            assert("SMALLER "@ =~= "SMALLER"@ + " "@);
        },
        Conditions::Subject => {
            reveal_strlit("SUBJECT ");
            reveal_strlit("SUBJECT");
            assert("SUBJECT "@ =~= "SUBJECT"@ + " "@);
        },
        Conditions::Text => {
            reveal_strlit("TEXT ");
            reveal_strlit("TEXT");
            assert("TEXT "@ =~= "TEXT"@ + " "@);
        },
        Conditions::To => {
            reveal_strlit("TO ");
            reveal_strlit("TO");
            assert("TO "@ =~= "TO"@ + " "@);
        },
        Conditions::Uid => {
            reveal_strlit("UID ");
            reveal_strlit("UID");
            assert("UID "@ =~= "UID"@ + " "@);
        },
        Conditions::Unanswered => {},
        Conditions::Undeleted => {},
        Conditions::Undraft => {},
        Conditions::Unflagged => {},
        Conditions::Unkeyword => {
            reveal_strlit("UNKEYWORD ");
            reveal_strlit("UNKEYWORD");
            assert("UNKEYWORD "@ =~= "UNKEYWORD"@ + " "@);
        },
        Conditions::Unseen => {},
        Conditions::GmailSeacrch => {},
    }
}

impl MessageSearch {
    /// Whether building the criterion of this expression stays clear of values
    /// that cannot be quoted (a lone quotation mark, after trimming), following
    /// the order in which the children are built and stopping where building
    /// fails.
    #[verifier::loop_isolation(false)]
    pub fn is_quotable(&self) -> (r: bool)
        ensures
            r == search_safe(*self),
        decreases self,
    {
        match self {
            MessageSearch::Condition(c) => condition_is_quotable(c),
            MessageSearch::Logic(l) => match l.operator {
                Operator::And => {
                    let mut i: usize = 0;
                    assert(l.children@.take(0) =~= Seq::<MessageSearch>::empty());
                    while i < l.children.len()
                        invariant
                            i <= l.children@.len(),
                            safe_in_order(l.children@.take(i as int)),
                            keys_in_order(l.children@.take(i as int)) is Ok,
                        decreases l.children.len() - i,
                    {
                        let ghost prefix = l.children@.take(i + 1);
                        assert(prefix.drop_last() =~= l.children@.take(i as int));
                        assert(prefix.last() == l.children@[i as int]);
                        assert(decreases_to!(*self => l.children@[i as int]));
                        if !l.children[i].is_quotable() {
                            proof {
                                if safe_in_order(l.children@) {
                                    lemma_safe_in_order(l.children@, i as int);
                                }
                            }
                            return false;
                        }
                        if l.children[i].render(false).is_err() {
                            proof {
                                lemma_safe_prefix_err(l.children@, i + 1);
                            }
                            return true;
                        }
                        i = i + 1;
                    }
                    assert(l.children@.take(l.children@.len() as int) =~= l.children@);
                    true
                },
                Operator::Or => {
                    let n = l.children.len();
                    if n < 2 {
                        return true;
                    }
                    let mut j: usize = n;
                    assert(l.children@.skip(n as int) =~= Seq::<MessageSearch>::empty());
                    while j > 0
                        invariant
                            n == l.children@.len(),
                            j <= n,
                            safe_from_back(l.children@.skip(j as int)),
                            keys_from_back(l.children@.skip(j as int)) is Ok,
                        decreases j,
                    {
                        let ghost suffix = l.children@.skip(j - 1);
                        assert(suffix.drop_first() =~= l.children@.skip(j as int));
                        assert(suffix[0] == l.children@[j - 1]);
                        assert(decreases_to!(*self => l.children@[j - 1]));
                        if !l.children[j - 1].is_quotable() {
                            proof {
                                if safe_from_back(l.children@) {
                                    lemma_safe_from_back(l.children@, j - 1);
                                }
                            }
                            return false;
                        }
                        if l.children[j - 1].render(false).is_err() {
                            proof {
                                lemma_safe_suffix_err(l.children@, j - 1);
                            }
                            return true;
                        }
                        j = j - 1;
                    }
                    assert(l.children@.skip(0) =~= l.children@);
                    true
                },
                Operator::Not => {
                    if l.children.len() != 1 {
                        return true;
                    }
                    assert(decreases_to!(*self => l.children@[0]));
                    l.children[0].is_quotable()
                },
            },
        }
    }

    /// The IMAP `SEARCH` criterion for this expression. A condition that makes
    /// up the whole search quotes its date (`SINCE "15-Jan-2023"`); within a
    /// larger expression dates stand bare (`SINCE 01-Jan-2023`). A top-level
    /// criterion is not parenthesized; nested `AND`, `OR` and `NOT` groups are.
    pub fn to_imap_command(&self, top_level: bool) -> (r: Result<String, SearchError>)
        requires
            search_safe(*self),
        ensures
            res_view(r) == imap_command(*self, top_level),
    {
        match self {
            MessageSearch::Condition(c) => standalone_key(c),
            MessageSearch::Logic(_) => self.render(top_level),
        }
    }

    /// The criterion of this expression inside a larger one (dates unquoted).
    /// A top-level criterion is not parenthesized; nested `AND`, `OR` and `NOT`
    /// groups are.
    #[verifier::loop_isolation(false)]
    #[verifier::spinoff_prover]
    fn render(&self, top_level: bool) -> (r: Result<String, SearchError>)
        requires
            search_safe(*self),
        ensures
            res_view(r) == imap_key(*self, top_level),
        decreases self,
    {
        match self {
            MessageSearch::Condition(c) => condition_key(c),
            MessageSearch::Logic(l) => match l.operator {
                Operator::And => {
                    let mut parts: Vec<String> = Vec::new();
                    let mut i: usize = 0;
                    assert(l.children@.take(0) =~= Seq::<MessageSearch>::empty());
                    assert(strings_view(parts@) =~= Seq::<Seq<char>>::empty());
                    while i < l.children.len()
                        invariant
                            i <= l.children@.len(),
                            safe_in_order(l.children@),
                            keys_in_order(l.children@.take(i as int)) == Ok::<
                                Seq<Seq<char>>,
                                SearchError,
                            >(strings_view(parts@)),
                        decreases l.children.len() - i,
                    {
                        let ghost prefix = l.children@.take(i + 1);
                        assert(prefix.drop_last() =~= l.children@.take(i as int));
                        assert(prefix.last() == l.children@[i as int]);
                        proof {
                            lemma_safe_in_order(l.children@, i as int);
                        }
                        let ghost old_parts = strings_view(parts@);
                        assert(decreases_to!(*self => l.children@[i as int]));
                        match l.children[i].render(false) {
                            Err(e) => {
                                proof {
                                    assert(keys_in_order(prefix) == Err::<
                                        Seq<Seq<char>>,
                                        SearchError,
                                    >(e));
                                    lemma_keys_in_order_err(l.children@, i + 1);
                                }
                                return Err(e);
                            },
                            Ok(k) => {
                                parts.push(k);
                                assert(strings_view(parts@) =~= old_parts.push(k@));
                            },
                        }
                        i = i + 1;
                    }
                    assert(l.children@.take(l.children@.len() as int) =~= l.children@);
                    let joined = join_with_spaces(&parts);
                    if top_level {
                        Ok(joined)
                    } else {
                        Ok(parenthesized(joined))
                    }
                },
                Operator::Or => {
                    let n = l.children.len();
                    if n < 2 {
                        return Err(SearchError::OrNeedsTwoConditions);
                    }
                    proof {
                        assert(l.children@.skip(n - 1).drop_first() =~= l.children@.skip(n as int));
                        assert(l.children@.skip(n as int) =~= Seq::<MessageSearch>::empty());
                        assert(l.children@.skip(n - 1)[0] == l.children@[n - 1]);
                        assert(keys_from_back(l.children@.skip(n as int)) == Ok::<
                            Seq<Seq<char>>,
                            SearchError,
                        >(Seq::empty()));
                        assert(n - 1 + 1 == n);
                        lemma_safe_from_back(l.children@, n - 1);
                    }
                    assert(decreases_to!(*self => l.children@[n - 1]));
                    let last = match l.children[n - 1].render(false) {
                        Err(e) => {
                            proof {
                                assert(keys_from_back(l.children@.skip(n - 1)) == Err::<
                                    Seq<Seq<char>>,
                                    SearchError,
                                >(e));
                                lemma_keys_from_back_err(l.children@, n - 1);
                            }
                            return Err(e);
                        },
                        Ok(k) => k,
                    };
                    let ghost mut ks: Seq<Seq<char>> = seq![last@];
                    assert(seq![last@] + Seq::<Seq<char>>::empty() =~= seq![last@]);
                    assert(keys_from_back(l.children@.skip(n - 1)) == Ok::<
                        Seq<Seq<char>>,
                        SearchError,
                    >(ks));
                    let mut command = last;
                    let mut j: usize = n - 1;
                    while j > 0
                        invariant
                            n == l.children@.len(),
                            n >= 2,
                            j <= n - 1,
                            safe_from_back(l.children@),
                            keys_from_back(l.children@.skip(j as int)) == Ok::<
                                Seq<Seq<char>>,
                                SearchError,
                            >(ks),
                            ks.len() == n - j,
                            command@ == (if j > 0 {
                                or_inner(ks)
                            } else {
                                or_body(ks)
                            }),
                        decreases j,
                    {
                        proof {
                            lemma_safe_from_back(l.children@, j - 1);
                            assert(l.children@.skip(j - 1).drop_first() =~= l.children@.skip(
                                j as int,
                            ));
                            assert(l.children@.skip(j - 1)[0] == l.children@[j - 1]);
                        }
                        assert(decreases_to!(*self => l.children@[j - 1]));
                        let c = match l.children[j - 1].render(false) {
                            Err(e) => {
                                proof {
                                    assert(keys_from_back(l.children@.skip(j - 1)) == Err::<
                                        Seq<Seq<char>>,
                                        SearchError,
                                    >(e));
                                    lemma_keys_from_back_err(l.children@, j - 1);
                                }
                                return Err(e);
                            },
                            Ok(k) => k,
                        };
                        let ghost new_ks = seq![c@] + ks;
                        assert(new_ks.drop_first() =~= ks);
                        let mut body = "OR ".to_owned();
                        body.append(c.as_str());
                        body.append(" ");
                        body.append(command.as_str());
                        assert(body@ == or_body(new_ks));
                        proof {
                            ks = new_ks;
                        }
                        if j - 1 > 0 {
                            command = parenthesized(body);
                        } else {
                            command = body;
                        }
                        j = j - 1;
                    }
                    assert(l.children@.skip(0) =~= l.children@);
                    if top_level {
                        Ok(command)
                    } else {
                        Ok(parenthesized(command))
                    }
                },
                Operator::Not => {
                    if l.children.len() != 1 {
                        return Err(SearchError::NotNeedsOneCondition);
                    }
                    assert(decreases_to!(*self => l.children@[0]));
                    match l.children[0].render(false) {
                        Err(e) => Err(e),
                        Ok(inner) => {
                            let mut cmd = "NOT ".to_owned();
                            cmd.append(inner.as_str());
                            if top_level {
                                Ok(cmd)
                            } else {
                                Ok(parenthesized(cmd))
                            }
                        },
                    }
                },
            },
        }
    }

    /// The Gmail API query carried by a `GmailSeacrch` condition.
    pub fn to_gmail_api_search_command(&self) -> (r: Result<String, SearchError>)
        ensures
            res_view(r) == gmail_query_spec(*self),
    {
        match self {
            MessageSearch::Condition(c) => match c.condition {
                Conditions::GmailSeacrch => match &c.value {
                    Some(v) => Ok(v.clone()),
                    None => Err(SearchError::InvalidGmailSearch),
                },
                _ => Err(SearchError::InvalidGmailSearch),
            },
            MessageSearch::Logic(_) => Err(SearchError::InvalidGmailSearch),
        }
    }
}

} // verus!
