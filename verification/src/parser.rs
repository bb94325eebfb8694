//! Turning a run-folder name into a timestamp.
//!
//! A run folder is named after the moment of its run, as year, month, day, hour,
//! minute and second, and may carry a literal prefix in front of that. A name that
//! does not read as such a moment has no timestamp; that is an answer, not a failure.

use crate::timestamp::Timestamp;
use chrono::{Datelike, Timelike};
use vstd::prelude::*;
use vstd::string::StrSliceExecFns;

verus! {

/// The literal that may stand in front of the timestamp in a run-folder name.
pub open spec fn prefix_text() -> Seq<char> {
    "generated_"@
}

/// The layout of the timestamp in a run-folder name, in strftime notation.
pub open spec fn layout_text() -> Seq<char> {
    "%Y-%m-%d_%H-%M-%S"@
}

/// The literal that may stand in front of the timestamp in a run-folder name.
pub fn run_folder_prefix() -> (prefix: &'static str)
    ensures
        prefix@ == prefix_text(),
{
    "generated_"
}

/// The layout of the timestamp in a run-folder name, in strftime notation.
pub fn run_folder_layout() -> (layout: &'static str)
    ensures
        layout@ == layout_text(),
{
    "%Y-%m-%d_%H-%M-%S"
}

/// `text` without its leading occurrences of `prefix`: the prefix is taken off as
/// long as it is present, and a text that does not start with it is left as it is.
/// An empty prefix takes nothing off.
pub open spec fn without_leading(text: Seq<char>, prefix: Seq<char>) -> Seq<char>
    decreases text.len(),
{
    if prefix.len() > 0 && prefix.is_prefix_of(text) {
        without_leading(text.skip(prefix.len() as int), prefix)
    } else {
        text
    }
}

/// What chrono reads out of `text` under the strftime layout `layout`, or `None`
/// where it rejects the text.
pub uninterp spec fn parsed_datetime(text: Seq<char>, layout: Seq<char>) -> Option<Timestamp>;

/// The timestamp of a run-folder name: the reading of the name, its leading prefixes
/// taken off, under the run-folder layout.
pub open spec fn parse_outcome(name: Seq<char>) -> Option<Timestamp> {
    parsed_datetime(without_leading(name, prefix_text()), layout_text())
}

/// Calls `chrono::NaiveDateTime::parse_from_str` and hands the date and time out field
/// by field, through the accessors of `chrono::Datelike` and `chrono::Timelike`.
///
/// Trusted, not proved: that the result depends on the two texts alone, and that the
/// accessors stay within the ranges their documentation gives (month 1 to 12, day 1
/// to 31, hour 0 to 23, minute and second 0 to 59, nanosecond below 2_000_000_000).
#[verifier::external_body]
fn parse_datetime(text: &str, layout: &str) -> (parsed: Option<Timestamp>)
    ensures
        parsed == parsed_datetime(text@, layout@),
        parsed matches Some(t) ==> t.in_range(),
{
    match chrono::NaiveDateTime::parse_from_str(text, layout) {
        Ok(moment) => Some(
            Timestamp {
                year: moment.year(),
                month: moment.month(),
                day: moment.day(),
                hour: moment.hour(),
                minute: moment.minute(),
                second: moment.second(),
                nanosecond: moment.nanosecond(),
            },
        ),
        Err(_) => None,
    }
}

/// Tells whether `prefix` stands in `text` at position `start`, counted in characters.
fn occurs_at(text: &str, start: usize, prefix: &str, text_len: usize, prefix_len: usize) -> (found:
    bool)
    requires
        text_len == text@.len(),
        prefix_len == prefix@.len(),
        start + prefix_len <= text_len,
    ensures
        found == prefix@.is_prefix_of(text@.skip(start as int)),
{
    let mut i: usize = 0;
    while i < prefix_len
        invariant
            i <= prefix_len,
            text_len == text@.len(),
            prefix_len == prefix@.len(),
            start + prefix_len <= text_len,
            forall|k: int| 0 <= k < i ==> text@[start + k] == prefix@[k],
        decreases prefix_len - i,
    {
        if text.get_char(start + i) != prefix.get_char(i) {
            assert(text@.skip(start as int)[i as int] != prefix@[i as int]);
            return false;
        }
        i += 1;
    }
    assert(prefix@ =~= text@.skip(start as int).subrange(0, prefix@.len() as int));
    true
}

/// Takes the leading occurrences of `prefix` off `name`.
pub fn trim_prefix<'a>(name: &'a str, prefix: &str) -> (rest: &'a str)
    ensures
        rest@ == without_leading(name@, prefix@),
{
    let name_len = name.unicode_len();
    let prefix_len = prefix.unicode_len();
    if prefix_len == 0 {
        return name;
    }
    let mut start: usize = 0;
    assert(name@.skip(0) =~= name@);
    while name_len - start >= prefix_len && occurs_at(name, start, prefix, name_len, prefix_len)
        invariant
            start <= name_len,
            name_len == name@.len(),
            prefix_len == prefix@.len(),
            prefix_len > 0,
            without_leading(name@.skip(start as int), prefix@) == without_leading(
                name@,
                prefix@,
            ),
        decreases name_len - start,
    {
        assert(name@.skip(start as int).skip(prefix_len as int) =~= name@.skip(
            start + prefix_len,
        ));
        start += prefix_len;
    }
    assert(name@.skip(start as int) =~= name@.subrange(start as int, name_len as int));
    name.substring_char(start, name_len)
}

/// Reads the timestamp of a run-folder name. Every name is accepted: one that does not
/// read as a timestamp gives `None`.
pub fn parse(name: &str) -> (stamp: Option<Timestamp>)
    ensures
        stamp == parse_outcome(name@),
        stamp matches Some(t) ==> t.in_range(),
{
    let rest = trim_prefix(name, run_folder_prefix());
    parse_datetime(rest, run_folder_layout())
}

/// Two readings of one name agree: whatever `parse` returns for a name, it returns
/// the same for that name again.
pub proof fn parse_is_deterministic(
    name: Seq<char>,
    first: Option<Timestamp>,
    second: Option<Timestamp>,
)
    requires
        first == parse_outcome(name),
        second == parse_outcome(name),
    ensures
        first == second,
{
}

/// A name that does not start with the prefix is read as it stands.
pub proof fn parse_without_prefix(name: Seq<char>)
    requires
        !prefix_text().is_prefix_of(name),
    ensures
        parse_outcome(name) == parsed_datetime(name, layout_text()),
{
}

/// A name and the same name behind one more prefix have the same timestamp.
pub proof fn parse_ignores_prefix(name: Seq<char>)
    ensures
        parse_outcome(prefix_text() + name) == parse_outcome(name),
{
    reveal_strlit("generated_");
    let whole = prefix_text() + name;
    assert(prefix_text().is_prefix_of(whole)) by {
        assert(whole.subrange(0, prefix_text().len() as int) =~= prefix_text());
    }
    assert(whole.skip(prefix_text().len() as int) =~= name);
}

} // verus!
