//! A question that takes one of a fixed set of answers: the text of the
//! question, and the reading of what the user types.

use crate::text::{append_chars, chars_of, join_with, string_of, trim, trimmed};
use vstd::prelude::*;

verus! {

/// What `str::to_lowercase` makes of a text.
pub uninterp spec fn lowercased(text: Seq<char>) -> Seq<char>;

/// Lowers `text` with `str::to_lowercase`. The result depends on the text
/// alone; the contract gives it a name and claims nothing else of it.
#[verifier::external_body]
fn lowercase(text: &str) -> (lower: String)
    ensures
        lower@ == lowercased(text@),
{
    text.to_lowercase()
}

/// The choices that a question shows: all but the empty ones.
pub open spec fn offered(choices: Seq<Seq<char>>) -> Seq<Seq<char>> {
    choices.filter(|choice: Seq<char>| choice.len() > 0)
}

/// The question as it is shown: the text, and in brackets the offered
/// choices with '/' between them.
pub open spec fn question(text: Seq<char>, choices: Seq<Seq<char>>) -> Seq<char> {
    text + seq![' ', '['] + join_with(offered(choices), seq!['/']) + seq![']']
}

/// What is shown after an input that is none of the choices: all the choices,
/// the empty ones too, with '/' between them.
pub open spec fn reminder(choices: Seq<Seq<char>>) -> Seq<char> {
    "Invalid input, please enter any of the following ["@ + join_with(choices, seq!['/'])
        + seq![']']
}

/// What is compared with the choices: the input trimmed and lowered.
pub open spec fn normalized(input: Seq<char>) -> Seq<char> {
    lowercased(trimmed(input))
}

/// `input` is one of `texts`.
pub open spec fn is_among(texts: Seq<Seq<char>>, input: Seq<char>) -> bool {
    exists|i: int| 0 <= i < texts.len() && texts[i] == input
}

/// `input` is one of the choices, each lowered.
pub open spec fn is_answer(choices: Seq<Seq<char>>, input: Seq<char>) -> bool {
    is_among(choices.map_values(|choice: Seq<char>| lowercased(choice)), input)
}

/// The choices with '/' between them, the empty ones left out where
/// `skip_empty` is set.
fn choice_list(choices: &Vec<&str>, skip_empty: bool) -> (list: Vec<char>)
    ensures
        list@ == join_with(
            if skip_empty {
                offered(choices.deep_view())
            } else {
                choices.deep_view()
            },
            seq!['/'],
        ),
{
    let ghost all = choices.deep_view();
    let ghost keep = |choice: Seq<char>| choice.len() > 0;
    let ghost mut shown: Seq<Seq<char>> = Seq::empty();
    let mut list: Vec<char> = Vec::new();
    let mut first = true;
    let mut i: usize = 0;
    proof {
        reveal_strlit("/");
        reveal_with_fuel(Seq::filter, 2);
    }
    while i < choices.len()
        invariant
            i <= choices.len(),
            all == choices.deep_view(),
            keep == |choice: Seq<char>| choice.len() > 0,
            "/"@ == seq!['/'],
            shown == if skip_empty {
                all.take(i as int).filter(keep)
            } else {
                all.take(i as int)
            },
            first == (shown.len() == 0),
            list@ == join_with(shown, seq!['/']),
        decreases choices.len() - i,
    {
        let choice: &str = choices[i];
        let ghost longer = all.take(i as int + 1);
        proof {
            reveal_with_fuel(Seq::filter, 2);
            assert(longer.drop_last() == all.take(i as int));
        }
        if !skip_empty || !choice.is_empty() {
            if !first {
                append_chars(&mut list, "/");
            }
            append_chars(&mut list, choice);
            proof {
                let ghost grown = shown.push(choice@);
                assert(grown.drop_last() == shown);
                shown = grown;
            }
            first = false;
        }
        i += 1;
    }
    assert(all.take(choices.len() as int) == all);
    list
}

/// The question as it is shown.
pub fn question_text(text: &str, choices: &Vec<&str>) -> (shown: String)
    ensures
        shown@ == question(text@, choices.deep_view()),
{
    proof {
        reveal_strlit(" [");
        reveal_strlit("]");
    }
    let mut shown = chars_of(text);
    append_chars(&mut shown, " [");
    let mut list = choice_list(choices, true);
    shown.append(&mut list);
    append_chars(&mut shown, "]");
    string_of(&shown)
}

/// What is shown after an input that is none of the choices.
pub fn reminder_text(choices: &Vec<&str>) -> (shown: String)
    ensures
        shown@ == reminder(choices.deep_view()),
{
    proof {
        reveal_strlit("]");
    }
    let mut shown = chars_of("Invalid input, please enter any of the following [");
    let mut list = choice_list(choices, false);
    shown.append(&mut list);
    append_chars(&mut shown, "]");
    string_of(&shown)
}

/// The input as it is compared with the choices: trimmed and lowered.
pub fn normalize(input: &str) -> (plain: String)
    ensures
        plain@ == normalized(input@),
{
    let cut = trim(input);
    lowercase(cut.as_str())
}

/// Whether `input` is one of `texts`.
pub fn find_among(texts: &Vec<String>, input: &str) -> (found: bool)
    ensures
        found == is_among(texts.deep_view(), input@),
{
    let wanted = input.to_owned();
    let mut i: usize = 0;
    while i < texts.len()
        invariant
            i <= texts.len(),
            wanted@ == input@,
            forall|j: int| 0 <= j < i ==> texts.deep_view()[j] != input@,
        decreases texts.len() - i,
    {
        if texts[i] == wanted {
            assert(texts.deep_view()[i as int] == input@);
            return true;
        }
        i += 1;
    }
    false
}

/// Whether `input` is one of the choices, each lowered.
pub fn matches_choice(choices: &Vec<&str>, input: &str) -> (found: bool)
    ensures
        found == is_answer(choices.deep_view(), input@),
{
    let mut lowered: Vec<String> = Vec::new();
    let mut i: usize = 0;
    while i < choices.len()
        invariant
            i <= choices.len(),
            lowered.deep_view() == choices.deep_view().take(i as int).map_values(
                |choice: Seq<char>| lowercased(choice),
            ),
        decreases choices.len() - i,
    {
        let choice: &str = choices[i];
        let ghost before = lowered.deep_view();
        let lower = lowercase(choice);
        lowered.push(lower);
        assert(lowered.deep_view() == before.push(lower@));
        i += 1;
    }
    assert(choices.deep_view().take(choices.len() as int) == choices.deep_view());
    find_among(&lowered, input)
}

/// Takes one more typed line. The line is added to what is pending, the whole
/// is trimmed and lowered and becomes the new pending input, and the result
/// tells whether that input is an answer. An input that is no answer stays
/// pending, so the next line is read as its continuation.
pub fn take_line(choices: &Vec<&str>, pending: &mut String, line: &str) -> (answered: bool)
    ensures
        final(pending)@ == normalized(old(pending)@ + line@),
        answered == is_answer(choices.deep_view(), final(pending)@),
{
    let mut typed = chars_of(pending.as_str());
    append_chars(&mut typed, line);
    let whole = string_of(&typed);
    *pending = normalize(whole.as_str());
    matches_choice(choices, pending.as_str())
}

} // verus!
