//! Checking and trimming the line that a line-reading call hands back.

use vstd::prelude::*;

use crate::error::PasswordError;
use crate::secret::SafeString;

verus! {

/// Terminates every line.
pub const LINE_FEED: char = '\n';

/// Precedes the line feed in a Windows line ending.
pub const CARRIAGE_RETURN: char = '\r';

/// The terminal's line-kill character (Ctrl-U).
pub const LINE_KILL: char = '\u{15}';

/// `s` is terminated by a line feed.
pub open spec fn ends_with_line_feed(s: Seq<char>) -> bool {
    s.len() > 0 && s.last() == LINE_FEED
}

/// A terminated line without its ending: the final line feed goes, and so
/// does a carriage return right before it.
pub open spec fn strip_line_ending(s: Seq<char>) -> Seq<char> {
    let body = s.drop_last();
    if body.len() > 0 && body.last() == CARRIAGE_RETURN {
        body.drop_last()
    } else {
        body
    }
}

/// What is left of `s` once a line-kill character has erased everything
/// typed before it: the text after the last line-kill, or all of `s` if it
/// holds none.
pub open spec fn after_line_kill(s: Seq<char>) -> Seq<char>
    decreases s.len(),
{
    if s.len() == 0 {
        s
    } else if s.last() == LINE_KILL {
        Seq::empty()
    } else {
        after_line_kill(s.drop_last()).push(s.last())
    }
}

/// Relies on `String::pop`: it removes and returns the last character, and
/// returns `None` on an empty string.
pub assume_specification[ String::pop ](s: &mut String) -> (r: Option<char>)
    ensures
        old(s)@.len() == 0 ==> r is None && final(s)@ == old(s)@,
        old(s)@.len() > 0 ==> r == Some(old(s)@.last()) && final(s)@ == old(s)@.drop_last(),
;

/// Relies on `str::ends_with` with a `char` pattern: true exactly when the
/// last character of `s` is `c`.
#[verifier::external_body]
fn ends_with_char(s: &str, c: char) -> (r: bool)
    ensures
        r == (s@.len() > 0 && s@.last() == c),
{
    s.ends_with(c)
}

/// Relies on `str::rsplit_once` with a `char` pattern: it splits `s` at the
/// last occurrence of `c` into the text before and the text after it, and
/// returns `None` when `c` does not occur.
#[verifier::external_body]
fn split_at_last<'a>(s: &'a str, c: char) -> (r: Option<(&'a str, &'a str)>)
    ensures
        match r {
            Some((before, after)) => s@ == before@ + seq![c] + after@ && !after@.contains(c),
            None => !s@.contains(c),
        },
{
    s.rsplit_once(c)
}

/// Checks that `line` ends with a line feed and removes the line ending.
///
/// A line that is not terminated means that the input ended in the middle of
/// it; it is refused rather than returned short of its last character.
pub fn fix_new_line(line: String) -> (r: Result<String, PasswordError>)
    ensures
        ends_with_line_feed(line@) ==> r is Ok && r->Ok_0@ == strip_line_ending(line@),
        !ends_with_line_feed(line@) ==> r matches Err(PasswordError::UnexpectedEndOfInput),
{
    let mut line = line;
    if !ends_with_char(line.as_str(), LINE_FEED) {
        // What was typed is still secret: it is wiped as it goes.
        let _unterminated = SafeString::from_string(line);
        return Err(PasswordError::UnexpectedEndOfInput);
    }
    line.pop();
    if ends_with_char(line.as_str(), CARRIAGE_RETURN) {
        line.pop();
    }
    Ok(line)
}

/// Without a line-kill character, nothing is erased.
proof fn lemma_no_line_kill(s: Seq<char>)
    requires
        !s.contains(LINE_KILL),
    ensures
        after_line_kill(s) == s,
    decreases s.len(),
{
    if s.len() > 0 {
        assert(!s.drop_last().contains(LINE_KILL)) by {
            if s.drop_last().contains(LINE_KILL) {
                let i = choose|i: int| 0 <= i < s.drop_last().len() && s.drop_last()[i] == LINE_KILL;
                assert(s[i] == LINE_KILL);
            }
        }
        lemma_no_line_kill(s.drop_last());
        assert(s.last() != LINE_KILL) by {
            assert(s[s.len() - 1] == s.last());
        }
        assert(s.drop_last().push(s.last()) =~= s);
    }
}

/// A line-kill character erases everything before it, itself included.
proof fn lemma_last_line_kill(before: Seq<char>, after: Seq<char>)
    requires
        !after.contains(LINE_KILL),
    ensures
        after_line_kill(before + seq![LINE_KILL] + after) == after,
    decreases after.len(),
{
    let s = before + seq![LINE_KILL] + after;
    if after.len() == 0 {
        assert(s.last() == LINE_KILL);
    } else {
        assert(after.last() != LINE_KILL) by {
            assert(after[after.len() - 1] == after.last());
        }
        assert(!after.drop_last().contains(LINE_KILL)) by {
            if after.drop_last().contains(LINE_KILL) {
                let i = choose|i: int| 0 <= i < after.drop_last().len() && after.drop_last()[i] == LINE_KILL;
                assert(after[i] == LINE_KILL);
            }
        }
        lemma_last_line_kill(before, after.drop_last());
        assert(s.drop_last() =~= before + seq![LINE_KILL] + after.drop_last());
        assert(s.last() == after.last());
        assert(after.drop_last().push(after.last()) =~= after);
    }
}

/// Checks and trims `line` as [`fix_new_line`] does, then lets the last
/// line-kill character (Ctrl-U) erase everything typed before it.
///
/// Terminals normally apply the line-kill key themselves; this is for input
/// that reaches the reader unedited and asks for that editing explicitly.
/// The whole line, erased part included, is wiped once the result is taken.
pub fn fix_line_issues(line: String) -> (r: Result<String, PasswordError>)
    ensures
        ends_with_line_feed(line@) ==> r is Ok && r->Ok_0@ == after_line_kill(strip_line_ending(line@)),
        !ends_with_line_feed(line@) ==> r matches Err(PasswordError::UnexpectedEndOfInput),
{
    let line = match fix_new_line(line) {
        Ok(line) => SafeString::from_string(line),
        Err(e) => return Err(e),
    };
    match split_at_last(line.as_str(), LINE_KILL) {
        Some((before, after)) => {
            proof {
                lemma_last_line_kill(before@, after@);
            }
            Ok(after.to_owned())
        },
        None => {
            proof {
                lemma_no_line_kill(line@);
            }
            Ok(line.into_inner())
        },
    }
}

} // verus!
