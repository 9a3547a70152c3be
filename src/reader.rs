//! Reading one secret line from a buffered source, and writing a prompt.

use vstd::prelude::*;

use crate::error::PasswordError;
use crate::line::{ends_with_line_feed, fix_new_line, strip_line_ending, LINE_FEED};
use crate::secret::SafeString;

verus! {

/// `line` is at most one line: a line feed may only be its last character.
pub open spec fn is_single_line(line: Seq<char>) -> bool {
    forall|i: int| 0 <= i < line.len() - 1 ==> line[i] != LINE_FEED
}

/// What one read of a line ends in, once the raw line is checked and trimmed:
/// the line without its ending when it was terminated, and
/// [`PasswordError::UnexpectedEndOfInput`] when the input ended first.
pub open spec fn line_outcome(line: Seq<char>, r: Result<String, PasswordError>) -> bool {
    if ends_with_line_feed(line) {
        r is Ok && r->Ok_0@ == strip_line_ending(line)
    } else {
        r matches Err(PasswordError::UnexpectedEndOfInput)
    }
}

/// What reading a line ends in: the read's own error is passed on, and a line
/// that was read ends as [`line_outcome`] says.
pub open spec fn read_outcome(
    read: Result<SafeString, std::io::Error>,
    r: Result<String, PasswordError>,
) -> bool {
    match read {
        Ok(line) => line_outcome(line@, r),
        Err(e) => r == Err::<String, PasswordError>(PasswordError::Io(e)),
    }
}

/// A line that was read and trimmed holds no line feed: what one read
/// returns never reaches into the line after it.
pub proof fn lemma_one_line_per_read(line: Seq<char>)
    requires
        is_single_line(line),
        ends_with_line_feed(line),
    ensures
        !strip_line_ending(line).contains(LINE_FEED),
{
    let s = strip_line_ending(line);
    assert forall|i: int| 0 <= i < s.len() implies s[i] != LINE_FEED by {
        assert(s[i] == line[i]);
    }
}

/// Relies on `BufRead::read_line`: it appends to `buf` the bytes up to and
/// including the next line feed, or up to the end of the input, and fails
/// if they are not UTF-8.
#[verifier::external_body]
fn read_line_into<R: std::io::BufRead>(reader: &mut R, buf: &mut String) -> (r: Result<
    usize,
    std::io::Error,
>)
    ensures
        r is Ok ==> old(buf)@.is_prefix_of(final(buf)@) && is_single_line(
            final(buf)@.subrange(old(buf)@.len() as int, final(buf)@.len() as int),
        ),
{
    reader.read_line(buf)
}

/// Relies on `Write::write_all`: it writes all of `bytes` or fails.
#[verifier::external_body]
fn write_all_to<W: std::io::Write>(stream: &mut W, bytes: &[u8]) -> (r: Result<(), std::io::Error>) {
    stream.write_all(bytes)
}

/// Relies on `Write::flush`: it sends on what the stream has buffered.
#[verifier::external_body]
fn flush_stream<W: std::io::Write>(stream: &mut W) -> (r: Result<(), std::io::Error>) {
    stream.flush()
}

/// Reads one line from `reader` into a secret buffer, line ending included.
///
/// Should the read fail, the bytes read so far are wiped with the buffer.
pub fn read_secret_line<R: std::io::BufRead>(reader: &mut R) -> (r: Result<SafeString, std::io::Error>)
    ensures
        r is Ok ==> is_single_line(r->Ok_0@),
{
    let mut password = SafeString::new();
    match read_line_into(reader, password.as_mut_string()) {
        Ok(_) => {
            assert(password@ =~= password@.subrange(0, password@.len() as int));
            Ok(password)
        },
        Err(e) => Err(e),
    }
}

/// Turns the result of reading a line into the password: the read's error
/// is passed on, and a line that was read is checked and trimmed by
/// [`fix_new_line`].
pub fn password_from_line(read: Result<SafeString, std::io::Error>) -> (r: Result<
    String,
    PasswordError,
>)
    ensures
        read_outcome(read, r),
{
    match read {
        Ok(line) => fix_new_line(line.into_inner()),
        Err(e) => Err(PasswordError::Io(e)),
    }
}

/// Reads a password from `reader`: one line, without its line ending.
///
/// No terminal mode is touched; this reads from whatever source it is given,
/// which is what makes reading testable without a terminal.
pub fn read_password_from_bufread<R: std::io::BufRead>(reader: &mut R) -> (r: Result<
    String,
    PasswordError,
>)
    ensures
        r is Ok ==> exists|line: Seq<char>|
            #![trigger strip_line_ending(line)]
            is_single_line(line) && ends_with_line_feed(line) && r->Ok_0@ == strip_line_ending(
                line,
            ),
        r is Ok ==> !r->Ok_0@.contains(LINE_FEED),
{
    let read = read_secret_line(reader);
    let ghost line = if read is Ok {
        read->Ok_0@
    } else {
        Seq::empty()
    };
    let r = password_from_line(read);
    proof {
        if r is Ok {
            lemma_one_line_per_read(line);
        }
    }
    r
}

/// Writes `prompt` to `stream` and flushes it.
pub fn print_writer<W: std::io::Write>(stream: &mut W, prompt: &str) -> (r: Result<(), std::io::Error>) {
    match write_all_to(stream, prompt.as_bytes()) {
        Ok(()) => flush_stream(stream),
        Err(e) => Err(e),
    }
}

/// Writes `prompt` to `writer`, then reads a password from `reader`.
///
/// If the prompt cannot be written, nothing is read.
pub fn prompt_password_from_bufread<R: std::io::BufRead, W: std::io::Write>(
    reader: &mut R,
    writer: &mut W,
    prompt: &str,
) -> (r: Result<String, PasswordError>)
    ensures
        r is Ok ==> exists|line: Seq<char>|
            #![trigger strip_line_ending(line)]
            is_single_line(line) && ends_with_line_feed(line) && r->Ok_0@ == strip_line_ending(
                line,
            ),
        r is Ok ==> !r->Ok_0@.contains(LINE_FEED),
{
    match print_writer(writer, prompt) {
        Ok(()) => read_password_from_bufread(reader),
        Err(e) => Err(PasswordError::Io(e)),
    }
}

} // verus!
