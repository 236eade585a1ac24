//! The line reader: takes one line off a `Source`, strips its terminator,
//! and reports an explicit error when the stream is already exhausted.

use vstd::prelude::*;
use crate::stream::Source;

verus! {

/// The error a read reports when the stream has no further line to deliver.
#[derive(Clone, Copy, Debug, PartialEq, Eq, Structural)]
pub enum InputError {
    EndOfInput,
}

/// How many characters stand before the first `'\n'` of `r` (all of `r`
/// when it holds none).
pub open spec fn line_break(r: Seq<char>) -> nat
    decreases r.len(),
{
    if r.len() == 0 {
        0
    } else if r[0] == '\n' {
        0
    } else {
        1 + line_break(r.drop_first())
    }
}

/// Whether `r` starts with a `'\n'`-terminated line.
pub open spec fn has_terminator(r: Seq<char>) -> bool {
    line_break(r) < r.len()
}

/// How many characters one read consumes from `r`: the first line and, when
/// present, its `'\n'` terminator.
pub open spec fn consumed_len(r: Seq<char>) -> nat {
    if has_terminator(r) {
        line_break(r) + 1
    } else {
        line_break(r)
    }
}

/// The first line of `r` with its terminator stripped: everything before the
/// first `'\n'`, less one trailing `'\r'` — whether that `'\r'` stood before
/// the `'\n'` or at the stream's very end.
pub open spec fn line_text(r: Seq<char>) -> Seq<char> {
    let raw = r.take(line_break(r) as int);
    if raw.len() > 0 && raw.last() == '\r' {
        raw.drop_last()
    } else {
        raw
    }
}

/// What one read of a stream whose unread text is `r` returns.
pub open spec fn read_result(r: Seq<char>) -> Result<Seq<char>, InputError> {
    if r.len() == 0 {
        Err(InputError::EndOfInput)
    } else {
        Ok(line_text(r))
    }
}

/// What one read of a stream whose unread text is `r` leaves unread.
pub open spec fn read_rest(r: Seq<char>) -> Seq<char> {
    r.skip(consumed_len(r) as int)
}

/// `line_break` is the position of the first `'\n'`, and never exceeds the
/// length of the text.
pub proof fn lemma_line_break(r: Seq<char>)
    ensures
        line_break(r) <= r.len(),
        forall|i: int| 0 <= i < line_break(r) ==> r[i] != '\n',
        line_break(r) < r.len() ==> r[line_break(r) as int] == '\n',
    decreases r.len(),
{
    if r.len() == 0 {
    } else if r[0] == '\n' {
    } else {
        lemma_line_break(r.drop_first());
        assert forall|i: int| 0 <= i < line_break(r) implies r[i] != '\n' by {
            if i > 0 {
                assert(r.drop_first()[i - 1] != '\n');
            }
        }
    }
}

/// A position with no `'\n'` before it and a `'\n'` (or the stream's end) at
/// it is where the first line breaks.
pub proof fn lemma_line_break_at(r: Seq<char>, k: nat)
    requires
        k <= r.len(),
        forall|i: int| 0 <= i < k ==> r[i] != '\n',
        k < r.len() ==> r[k as int] == '\n',
    ensures
        line_break(r) == k,
    decreases r.len(),
{
    if r.len() == 0 {
    } else if r[0] == '\n' {
    } else {
        assert(k > 0);
        assert forall|i: int| 0 <= i < k - 1 implies r.drop_first()[i] != '\n' by {
            assert(r[i + 1] != '\n');
        }
        lemma_line_break_at(r.drop_first(), (k - 1) as nat);
    }
}

/// One read consumes at least one character of a non-empty stream, and never
/// more than the stream holds.
pub proof fn lemma_consumed_len(r: Seq<char>)
    ensures
        consumed_len(r) <= r.len(),
        r.len() > 0 ==> consumed_len(r) >= 1,
{
    lemma_line_break(r);
}

/// A line terminated by `'\n'` or by `"\r\n"`, and a non-empty final line
/// left unterminated at the stream's end, all come back with exactly the
/// terminator stripped, and reading stops right past the terminator.
///
/// Two clauses leave out a line whose own text ends in `'\r'`: followed by
/// `'\n'` it is indistinguishable from a `"\r\n"` terminator, and standing
/// last in the stream it is indistinguishable from a terminator's remnant,
/// so in both positions that `'\r'` is stripped as a terminator.
pub proof fn lemma_read_line_strips_terminator(content: Seq<char>, rest: Seq<char>)
    requires
        forall|i: int| 0 <= i < content.len() ==> content[i] != '\n',
    ensures
        content.len() == 0 || content.last() != '\r' ==> read_result(content + seq!['\n'] + rest)
            == Ok::<Seq<char>, InputError>(content) && read_rest(content + seq!['\n'] + rest)
            == rest,
        read_result(content + seq!['\r', '\n'] + rest) == Ok::<Seq<char>, InputError>(content),
        read_rest(content + seq!['\r', '\n'] + rest) == rest,
        content.len() > 0 && content.last() != '\r' ==> read_result(content) == Ok::<
            Seq<char>,
            InputError,
        >(content) && read_rest(content) == Seq::<char>::empty(),
{
    let n = content.len();
    let r1 = content + seq!['\n'] + rest;
    assert forall|i: int| 0 <= i < n implies r1[i] != '\n' by {
        assert(r1[i] == content[i]);
    }
    assert(r1[n as int] == '\n');
    lemma_line_break_at(r1, n);
    assert(has_terminator(r1));
    assert(r1.take(n as int) =~= content);
    if n == 0 || content.last() != '\r' {
        assert(line_text(r1) == content);
        assert(read_rest(r1) =~= rest);
    }
    let r2 = content + seq!['\r', '\n'] + rest;
    assert forall|i: int| 0 <= i <= n implies r2[i] != '\n' by {
        if i < n {
            assert(r2[i] == content[i]);
        } else {
            assert(r2[i] == '\r');
        }
    }
    assert(r2[n as int + 1] == '\n');
    lemma_line_break_at(r2, n + 1);
    assert(has_terminator(r2));
    assert(r2.take(n as int + 1) =~= content + seq!['\r']);
    assert(line_text(r2) =~= content);
    assert(read_rest(r2) =~= rest);
    if n > 0 && content.last() != '\r' {
        lemma_line_break_at(content, n);
        assert(!has_terminator(content));
        assert(content.take(n as int) =~= content);
        assert(line_text(content) == content);
        assert(read_rest(content) =~= Seq::<char>::empty());
    }
}

/// Appends `c` to `s`.
///
/// Relies on `String::push`, which appends the given `char` to the end of
/// the `String`.
#[verifier::external_body]
fn push_char(s: &mut String, c: char)
    ensures
        final(s)@ == old(s)@ + seq![c],
{
    s.push(c);
}

/// Copies a vector of characters into a fresh string.
fn chars_to_string(chars: &Vec<char>) -> (s: String)
    ensures
        s@ == chars@,
{
    let mut s = String::new();
    let mut i: usize = 0;
    while i < chars.len()
        invariant
            i <= chars.len(),
            s@ == chars@.take(i as int),
        decreases chars.len() - i,
    {
        push_char(&mut s, chars[i]);
        proof {
            assert(s@ =~= chars@.take(i + 1));
        }
        i = i + 1;
    }
    proof {
        assert(s@ =~= chars@);
    }
    s
}

/// Reads the next line from `src`, stripping a trailing `'\n'`, `"\r\n"`,
/// or lone `'\r'`, and reports `EndOfInput` when the stream is already
/// exhausted.
///
/// A final line that lacks a terminator is still returned successfully.
pub fn read_line_expect(src: &mut Source) -> (r: Result<String, InputError>)
    requires
        old(src).wf(),
    ensures
        final(src).wf(),
        r is Ok <==> old(src).remaining().len() > 0,
        r is Ok ==> r->Ok_0@ == line_text(old(src).remaining()) && final(src).remaining()
            == read_rest(old(src).remaining()),
        r is Err ==> r->Err_0 == InputError::EndOfInput && final(src).remaining() == old(
            src,
        ).remaining(),
{
    let ghost rem = src.remaining();
    let n = src.remaining_len();
    if n == 0 {
        return Err(InputError::EndOfInput);
    }
    let mut chars: Vec<char> = Vec::new();
    let mut i: usize = 0;
    while i < n && src.peek_at(i) != '\n'
        invariant
            src.wf(),
            src.remaining() == rem,
            n == rem.len(),
            i <= n,
            forall|j: int| 0 <= j < i ==> rem[j] != '\n',
            chars@ == rem.take(i as int),
        decreases n - i,
    {
        chars.push(src.peek_at(i));
        proof {
            assert(chars@ =~= rem.take(i + 1));
        }
        i = i + 1;
    }
    proof {
        lemma_line_break_at(rem, i as nat);
    }
    let has_term = i < n;
    if chars.len() > 0 && chars[chars.len() - 1] == '\r' {
        chars.pop();
        proof {
            assert(chars@ =~= line_text(rem));
        }
    }
    proof {
        assert(chars@ =~= line_text(rem));
    }
    let consumed = if has_term {
        i + 1
    } else {
        i
    };
    src.advance(consumed);
    Ok(chars_to_string(&chars))
}

} // verus!
