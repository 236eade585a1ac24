//! The prompter and the confirmer: write a prompt, read an answer, and for
//! the confirmer repeat until the answer table yields a definitive yes or no.

use vstd::prelude::*;
use crate::classify::answer_of_with;
use crate::classify::answer_with;
use crate::classify::base_options;
use crate::classify::Answer;
use crate::classify::AnswerOptions;
use crate::reader::consumed_len;
use crate::reader::lemma_consumed_len;
use crate::reader::line_text;
use crate::reader::read_line_expect;
use crate::reader::read_rest;
use crate::reader::InputError;
use crate::stream::Sink;
use crate::stream::Source;

verus! {

/// Writes `prompt` to `dst`, flushes it, then reads the next line from
/// `src` as `read_line_expect` does.
pub fn input_fmt(src: &mut Source, dst: &mut Sink, prompt: &str) -> (r: Result<String, InputError>)
    requires
        old(src).wf(),
    ensures
        final(src).wf(),
        final(dst).written() == old(dst).written() + prompt@,
        r is Ok <==> old(src).remaining().len() > 0,
        r is Ok ==> r->Ok_0@ == line_text(old(src).remaining()) && final(src).remaining()
            == read_rest(old(src).remaining()),
        r is Err ==> r->Err_0 == InputError::EndOfInput && final(src).remaining() == old(
            src,
        ).remaining(),
{
    dst.write_str(prompt);
    dst.flush();
    read_line_expect(src)
}

/// What the confirmation loop returns when the unread input is `r`: the
/// boolean for the first definitively classified line, or `EndOfInput` when
/// the stream runs out first.
pub open spec fn confirm_result(r: Seq<char>, opts: AnswerOptions) -> Result<bool, InputError>
    decreases r.len(),
    via confirm_result_decreases
{
    if r.len() == 0 {
        Err(InputError::EndOfInput)
    } else {
        match answer_of_with(line_text(r), opts) {
            Answer::Affirmative => Ok(true),
            Answer::Negative => Ok(false),
            Answer::Unrecognized => confirm_result(read_rest(r), opts),
        }
    }
}

#[via_fn]
proof fn confirm_result_decreases(r: Seq<char>, opts: AnswerOptions) {
    lemma_consumed_len(r);
}

/// How many times the confirmation loop writes the prompt when the unread
/// input is `r`: once per read, the failing final read included.
pub open spec fn confirm_writes(r: Seq<char>, opts: AnswerOptions) -> nat
    decreases r.len(),
    via confirm_writes_decreases
{
    if r.len() == 0 {
        1
    } else {
        match answer_of_with(line_text(r), opts) {
            Answer::Affirmative => 1,
            Answer::Negative => 1,
            Answer::Unrecognized => 1 + confirm_writes(read_rest(r), opts),
        }
    }
}

#[via_fn]
proof fn confirm_writes_decreases(r: Seq<char>, opts: AnswerOptions) {
    lemma_consumed_len(r);
}

/// How many characters the confirmation loop consumes when the unread input
/// is `r`.
pub open spec fn confirm_used(r: Seq<char>, opts: AnswerOptions) -> nat
    decreases r.len(),
    via confirm_used_decreases
{
    if r.len() == 0 {
        0
    } else {
        match answer_of_with(line_text(r), opts) {
            Answer::Affirmative => consumed_len(r),
            Answer::Negative => consumed_len(r),
            Answer::Unrecognized => consumed_len(r) + confirm_used(read_rest(r), opts),
        }
    }
}

#[via_fn]
proof fn confirm_used_decreases(r: Seq<char>, opts: AnswerOptions) {
    lemma_consumed_len(r);
}

/// `p` written out `n` times in a row.
pub open spec fn repeated(p: Seq<char>, n: nat) -> Seq<char>
    decreases n,
{
    if n == 0 {
        Seq::empty()
    } else {
        repeated(p, (n - 1) as nat) + p
    }
}

/// The confirmation loop never answers with an error other than running out
/// of input: however many unrecognized lines precede it, the loop re-prompts
/// through them and the only error it can surface is `EndOfInput`.
pub proof fn lemma_confirm_only_eof(r: Seq<char>, opts: AnswerOptions)
    ensures
        confirm_result(r, opts) is Err ==> confirm_result(r, opts)->Err_0
            == InputError::EndOfInput,
    decreases r.len(),
{
    if r.len() > 0 {
        lemma_consumed_len(r);
        match answer_of_with(line_text(r), opts) {
            Answer::Unrecognized => {
                lemma_confirm_only_eof(read_rest(r), opts);
            },
            _ => {},
        }
    }
}

/// Prompts on `dst` and reads from `src`, over and over, until a line
/// classifies as affirmative (`true`) or negative (`false`) under the
/// selected vocabularies; unrecognized lines only cause a re-prompt, and a
/// stream that runs out first surfaces `EndOfInput`.
pub fn confirm_with(src: &mut Source, dst: &mut Sink, prompt: &str, opts: AnswerOptions) -> (r:
    Result<bool, InputError>)
    requires
        old(src).wf(),
    ensures
        final(src).wf(),
        r == confirm_result(old(src).remaining(), opts),
        final(dst).written() == old(dst).written() + repeated(
            prompt@,
            confirm_writes(old(src).remaining(), opts),
        ),
        final(src).remaining() == old(src).remaining().skip(
            confirm_used(old(src).remaining(), opts) as int,
        ),
{
    let ghost r0 = old(src).remaining();
    let ghost w0 = old(dst).written();
    let ghost mut k: nat = 0;
    let ghost mut c: nat = 0;
    loop
        invariant
            r0 == old(src).remaining(),
            w0 == old(dst).written(),
            src.wf(),
            c <= r0.len(),
            src.remaining() == r0.skip(c as int),
            dst.written() == w0 + repeated(prompt@, k),
            confirm_result(r0, opts) == confirm_result(src.remaining(), opts),
            confirm_writes(r0, opts) == k + confirm_writes(src.remaining(), opts),
            confirm_used(r0, opts) == c + confirm_used(src.remaining(), opts),
        decreases r0.len() - c,
    {
        let ghost cur = src.remaining();
        let res = input_fmt(src, dst, prompt);
        proof {
            k = k + 1;
            assert(dst.written() =~= w0 + repeated(prompt@, k));
        }
        match res {
            Err(e) => {
                proof {
                    assert(confirm_writes(cur, opts) == 1);
                    assert(confirm_used(cur, opts) == 0);
                }
                return Err(e);
            },
            Ok(line) => {
                proof {
                    lemma_consumed_len(cur);
                    c = c + consumed_len(cur);
                    assert(src.remaining() =~= r0.skip(c as int));
                }
                match answer_with(line.as_str(), opts) {
                    Answer::Affirmative => {
                        proof {
                            assert(confirm_result(cur, opts) == Ok::<bool, InputError>(true));
                            assert(confirm_writes(cur, opts) == 1);
                            assert(confirm_used(cur, opts) == consumed_len(cur));
                        }
                        return Ok(true);
                    },
                    Answer::Negative => {
                        proof {
                            assert(confirm_result(cur, opts) == Ok::<bool, InputError>(false));
                            assert(confirm_writes(cur, opts) == 1);
                            assert(confirm_used(cur, opts) == consumed_len(cur));
                        }
                        return Ok(false);
                    },
                    Answer::Unrecognized => {
                        proof {
                            assert(confirm_result(cur, opts) == confirm_result(read_rest(cur), opts));
                            assert(confirm_writes(cur, opts) == 1 + confirm_writes(read_rest(cur), opts));
                            assert(confirm_used(cur, opts) == consumed_len(cur) + confirm_used(
                                read_rest(cur),
                                opts,
                            ));
                        }
                    },
                }
            },
        }
    }
}

/// `confirm_with` under the base answer table: prompts and reads until a
/// plain `y`/`yes` or `n`/`no` is given.
pub fn confirm(src: &mut Source, dst: &mut Sink, prompt: &str) -> (r: Result<bool, InputError>)
    requires
        old(src).wf(),
    ensures
        final(src).wf(),
        r == confirm_result(old(src).remaining(), base_options()),
        final(dst).written() == old(dst).written() + repeated(
            prompt@,
            confirm_writes(old(src).remaining(), base_options()),
        ),
        final(src).remaining() == old(src).remaining().skip(
            confirm_used(old(src).remaining(), base_options()) as int,
        ),
{
    confirm_with(src, dst, prompt, AnswerOptions::base())
}

} // verus!
