//! Commands whose output is kept as help text: the words of a command line,
//! the text in the bytes that a command printed, and the help text made of
//! several outputs.

pub mod errors;

use crate::command::errors::GetCommandStringError;
use crate::text::{append_chars, chars_of, is_blank, string_of, string_of_range};
use std::string::FromUtf8Error;
use vstd::prelude::*;
use vstd::utf8::{decode_utf8, valid_utf8};

verus! {

/// `String::from_utf8` succeeds on exactly the byte sequences that are valid
/// UTF-8, and the string it gives then holds the characters they encode.
pub assume_specification[ String::from_utf8 ](vec: Vec<u8>) -> (text: Result<String, FromUtf8Error>)
    ensures
        text.is_ok() == valid_utf8(vec@),
        text matches Ok(s) ==> s@ == decode_utf8(vec@),
;

/// The words of a text: its longest runs of characters that are not
/// whitespace, in order.
pub open spec fn words(s: Seq<char>) -> Seq<Seq<char>>
    decreases s.len(),
{
    if s.len() == 0 {
        Seq::<Seq<char>>::empty()
    } else {
        let before = words(s.drop_last());
        if is_blank(s.last()) {
            before
        } else if s.len() >= 2 && !is_blank(s[s.len() - 2]) {
            before.drop_last().push(before.last().push(s.last()))
        } else {
            before.push(seq![s.last()])
        }
    }
}

/// The help text made of the outputs of several commands: every output that
/// was had, in order, each followed by a line break.
pub open spec fn gathered(outputs: Seq<Option<Seq<char>>>) -> Seq<char>
    decreases outputs.len(),
{
    if outputs.len() == 0 {
        Seq::<char>::empty()
    } else {
        let before = gathered(outputs.drop_last());
        match outputs.last() {
            Some(output) => before + output + seq!['\n'],
            None => before,
        }
    }
}

/// The outputs as plain values.
pub open spec fn output_views(outputs: Seq<Option<String>>) -> Seq<Option<Seq<char>>> {
    outputs.map_values(
        |output: Option<String>|
            match output {
                Some(text) => Some(text@),
                None => None,
            },
    )
}

/// The words of a command line. The first is the program to run, the others
/// are its arguments; a blank line has no words.
pub fn command_words(command: &str) -> (parts: Vec<String>)
    ensures
        parts.deep_view() == words(command@),
{
    let buffer = chars_of(command);
    let mut parts: Vec<String> = Vec::new();
    let mut in_word = false;
    let mut start: usize = 0;
    let mut i: usize = 0;
    while i < buffer.len()
        invariant
            i <= buffer.len(),
            buffer@ == command@,
            in_word ==> start < i && !is_blank(buffer@[i - 1]) && words(buffer@.take(i as int))
                == parts.deep_view().push(buffer@.subrange(start as int, i as int)),
            !in_word ==> (i == 0 || is_blank(buffer@[i - 1])) && words(buffer@.take(i as int))
                == parts.deep_view(),
        decreases buffer.len() - i,
    {
        assert(buffer@.take(i as int + 1).drop_last() == buffer@.take(i as int));
        if buffer[i].is_whitespace() {
            if in_word {
                let word = string_of_range(&buffer, start, i);
                parts.push(word);
                in_word = false;
            }
        } else {
            if in_word {
                assert(buffer@.subrange(start as int, i as int).push(buffer@[i as int])
                    == buffer@.subrange(start as int, i as int + 1));
            } else {
                start = i;
                in_word = true;
                assert(buffer@.subrange(i as int, i as int + 1) == seq![buffer@[i as int]]);
            }
        }
        i += 1;
    }
    assert(buffer@.take(buffer.len() as int) == buffer@);
    if in_word {
        let word = string_of_range(&buffer, start, buffer.len());
        parts.push(word);
    }
    parts
}

/// The text in the bytes that a command printed, or the error that tells why
/// they are not UTF-8.
pub fn text_of_output(stdout: Vec<u8>) -> (text: Result<String, GetCommandStringError>)
    ensures
        match text {
            Ok(s) => valid_utf8(stdout@) && s@ == decode_utf8(stdout@),
            Err(error) => !valid_utf8(stdout@) && error is FromUtf8Error,
        },
{
    match String::from_utf8(stdout) {
        Ok(s) => Ok(s),
        Err(err) => Err(GetCommandStringError::from(err)),
    }
}

/// The help text made of the outputs of several commands. `None` stands for a
/// command whose output could not be had; it adds nothing.
pub fn gather_outputs(outputs: &Vec<Option<String>>) -> (texts: String)
    ensures
        texts@ == gathered(output_views(outputs@)),
{
    let ghost all = output_views(outputs@);
    let mut texts: Vec<char> = Vec::new();
    let mut i: usize = 0;
    proof {
        reveal_strlit("\n");
    }
    while i < outputs.len()
        invariant
            i <= outputs.len(),
            all == output_views(outputs@),
            "\n"@ == seq!['\n'],
            texts@ == gathered(all.take(i as int)),
        decreases outputs.len() - i,
    {
        assert(all.take(i as int + 1).drop_last() == all.take(i as int));
        match &outputs[i] {
            Some(output) => {
                append_chars(&mut texts, output.as_str());
                append_chars(&mut texts, "\n");
            },
            None => {},
        }
        i += 1;
    }
    assert(all.take(outputs.len() as int) == all);
    string_of(&texts)
}

} // verus!
