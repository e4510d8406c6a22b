//! How a selection list is drawn: the indicator in front of each entry and the
//! two styles that tell the selected entry from the others.

use vstd::prelude::*;

verus! {

/// Styled text of the `colored` crate. The library hands such values on and
/// never looks inside them.
#[verifier::external_type_specification]
#[verifier::external_body]
pub struct ExColoredString(colored::ColoredString);

/// The indicator in front of a list entry.
#[derive(Clone, Copy, Debug, PartialEq, Eq, Structural)]
pub enum ListIndicator {
    NoIndent,
    Indent,
    Bullet,
    Arrow,
}

impl ListIndicator {
    /// The indicator's text.
    pub open spec fn text(self) -> Seq<char> {
        match self {
            ListIndicator::NoIndent => ""@,
            ListIndicator::Indent => "  "@,
            ListIndicator::Bullet => "•"@,
            ListIndicator::Arrow => "→"@,
        }
    }

    /// The indicator's text.
    pub fn as_str(&self) -> (text: &'static str)
        ensures
            text@ == self.text(),
    {
        match self {
            ListIndicator::NoIndent => "",
            ListIndicator::Indent => "  ",
            ListIndicator::Bullet => "•",
            ListIndicator::Arrow => "→",
        }
    }
}

/// The style of a list: an indicator, and the functions that style it for the
/// selected entry and for the others.
pub struct ListSettings<S, U> {
    pub list_indicator: ListIndicator,
    pub selected_color: S,
    pub unselected_color: U,
}

impl<S: Fn(&str) -> colored::ColoredString, U: Fn(&str) -> colored::ColoredString> ListSettings<
    S,
    U,
> {
    /// Both style functions accept the indicator's text.
    pub open spec fn can_style(&self) -> bool {
        forall|text: &str|
            text@ == self.list_indicator.text() ==> call_requires(self.selected_color, (text,))
                && call_requires(self.unselected_color, (text,))
    }

    /// A list style.
    pub fn new(list_indicator: ListIndicator, selected_color: S, unselected_color: U) -> (settings:
        Self)
        ensures
            settings.list_indicator == list_indicator,
            settings.selected_color == selected_color,
            settings.unselected_color == unselected_color,
    {
        ListSettings { list_indicator, selected_color, unselected_color }
    }

    /// The indicator as it is drawn in front of an entry: styled by
    /// `selected_color` for the selected entry, by `unselected_color` for any
    /// other.
    pub fn styled_indicator(&self, selected: bool) -> (styled: colored::ColoredString)
        requires
            self.can_style(),
        ensures
            exists|text: &str|
                text@ == self.list_indicator.text() && if selected {
                    call_ensures(self.selected_color, (text,), styled)
                } else {
                    call_ensures(self.unselected_color, (text,), styled)
                },
    {
        let indicator = self.list_indicator.as_str();
        if selected {
            (self.selected_color)(indicator)
        } else {
            (self.unselected_color)(indicator)
        }
    }
}

/// What `colored::Colorize::yellow` makes of a text.
pub uninterp spec fn yellow_of(text: Seq<char>) -> colored::ColoredString;

/// What `colored::Colorize::blue` makes of a text.
pub uninterp spec fn blue_of(text: Seq<char>) -> colored::ColoredString;

/// Styles `text` with `colored::Colorize::yellow`: the text itself with
/// yellow as its colour, whatever the terminal. The styled text is handed on
/// unread; the contract gives it a name and claims nothing else of it.
#[verifier::external_body]
fn yellow(text: &str) -> (styled: colored::ColoredString)
    ensures
        styled == yellow_of(text@),
{
    colored::Colorize::yellow(text)
}

/// Styles `text` with `colored::Colorize::blue`: the text itself with blue
/// as its colour, whatever the terminal. The styled text is handed on unread;
/// the contract gives it a name and claims nothing else of it.
#[verifier::external_body]
fn blue(text: &str) -> (styled: colored::ColoredString)
    ensures
        styled == blue_of(text@),
{
    colored::Colorize::blue(text)
}

/// The style of the lists of programs: a bullet in front of each entry,
/// yellow on the selected entry and blue on the others.
pub fn program_list_style() -> (settings: ListSettings<
    impl Fn(&str) -> colored::ColoredString,
    impl Fn(&str) -> colored::ColoredString,
>)
    ensures
        settings.list_indicator == ListIndicator::Bullet,
        settings.can_style(),
        forall|text: &str, styled: colored::ColoredString|
            call_ensures(settings.selected_color, (text,), styled) ==> styled == yellow_of(text@),
        forall|text: &str, styled: colored::ColoredString|
            call_ensures(settings.unselected_color, (text,), styled) ==> styled == blue_of(
                text@,
            ),
{
    ListSettings::new(ListIndicator::Bullet, yellow, blue)
}

} // verus!
