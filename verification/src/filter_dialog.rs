//! The chat dialog that edits a user's filters: what the bot answers, which
//! filters remain, and how the user's typed answers are read.

use vstd::prelude::*;
use crate::filter::{filter_type, Filter, StreckenInfoFilter};
use crate::text::{
    chars_of, concat, equals_text, join, join_strings, push_char, remove_text, without_text,
};

verus! {

/// The answer listing a user's filters, given each filter's description.
pub open spec fn filters_overview_text(descriptions: Seq<Seq<char>>) -> Seq<char> {
    if descriptions.len() == 0 {
        "Du hast bisher keine Filter konfiguriert."@
    } else {
        "Du hast folgende Filter konfiguriert:\n"@ + join(
            Seq::new(descriptions.len(), |i: int| "- "@ + descriptions[i]),
            "\n"@,
        )
    }
}

/// The answer listing a user's filters; `descriptions[i]` describes filter `i`.
pub fn filters_overview(descriptions: &Vec<String>) -> (s: String)
    ensures
        s@ == filters_overview_text(descriptions.deep_view()),
{
    if descriptions.len() == 0 {
        return "Du hast bisher keine Filter konfiguriert.".to_string();
    }
    let ghost d = descriptions.deep_view();
    let ghost target = Seq::new(d.len(), |i: int| "- "@ + d[i]);
    let mut lines: Vec<String> = Vec::new();
    let mut i: usize = 0;
    while i < descriptions.len()
        invariant
            d == descriptions.deep_view(),
            target == Seq::new(d.len(), |i: int| "- "@ + d[i]),
            i <= descriptions@.len(),
            lines.deep_view() == target.take(i as int),
        decreases descriptions@.len() - i,
    {
        let line = concat("- ", descriptions[i].as_str());
        let ghost old_lines = lines.deep_view();
        lines.push(line);
        assert(lines.deep_view() == old_lines.push(target[i as int]));
        i = i + 1;
        assert(lines.deep_view() == target.take(i as int));
    }
    assert(target.take(target.len() as int) == target);
    let mut s = "Du hast folgende Filter konfiguriert:\n".to_string();
    let joined = join_strings(&lines, "\n");
    s.append(joined.as_str());
    s
}

/// The German name of a user filter's kind.
pub open spec fn user_filter_type(f: Filter) -> Seq<char> {
    match f {
        Filter::StreckenInfo(g) => filter_type(g),
    }
}

/// `filters` without those of the kind named `filter_type`.
pub open spec fn filters_without_type(filters: Seq<Filter>, kind_name: Seq<char>) -> Seq<Filter>
    decreases filters.len(),
{
    if filters.len() == 0 {
        filters
    } else if user_filter_type(filters.last()) == kind_name {
        filters_without_type(filters.drop_last(), kind_name)
    } else {
        filters_without_type(filters.drop_last(), kind_name).push(filters.last())
    }
}

/// Removes every filter of the kind named `filter_type`.
pub fn remove_filters_of_type(filters: Vec<Filter>, kind_name: &str) -> (r: Vec<Filter>)
    ensures
        r@ == filters_without_type(filters@, kind_name@),
{
    let mut r: Vec<Filter> = Vec::new();
    let n = filters.len();
    let mut i: usize = 0;
    while i < n
        invariant
            n == filters@.len(),
            i <= n,
            r@ == filters_without_type(filters@.take(i as int), kind_name@),
        decreases n - i,
    {
        let f = filters[i];
        assert(filters@.take(i + 1).drop_last() == filters@.take(i as int));
        let ty = f.get_type();
        if ty.to_string() != kind_name.to_string() {
            r.push(f);
        }
        i = i + 1;
    }
    assert(filters@.take(n as int) == filters@);
    r
}

/// The question about how filters combine, with the current setting.
pub open spec fn behaviour_question_text(one_filter_enough: bool) -> Seq<char> {
    "Soll ich dir eine Störung nur dann schicken, wenn ALLE oder mindestens EIN Filter erfüllt ist?\nAktuell ist eingestellt: "@
        + if one_filter_enough {
        "Einer"@
    } else {
        "Alle"@
    }
}

/// The question about how filters combine, with the current setting.
pub fn behaviour_question(one_filter_enough: bool) -> (s: String)
    ensures
        s@ == behaviour_question_text(one_filter_enough),
{
    let mut s = "Soll ich dir eine Störung nur dann schicken, wenn ALLE oder mindestens EIN Filter erfüllt ist?\nAktuell ist eingestellt: ".to_string();
    if one_filter_enough {
        s.append("Einer");
    } else {
        s.append("Alle");
    }
    s
}

/// The value of a decimal digit character.
pub open spec fn digit_value(c: char) -> int {
    (c as u32) - 48
}

/// `c` is an ASCII decimal digit.
pub open spec fn is_digit(c: char) -> bool {
    48 <= (c as u32) <= 57
}

/// The number written by the digits `ds`.
pub open spec fn digits_value(ds: Seq<char>) -> int
    decreases ds.len(),
{
    if ds.len() == 0 {
        0
    } else {
        digits_value(ds.drop_last()) * 10 + digit_value(ds.last())
    }
}

/// `s` without a leading `+`.
pub open spec fn unsigned_digits(s: Seq<char>) -> Seq<char> {
    if s.len() > 0 && s[0] == '+' {
        s.drop_first()
    } else {
        s
    }
}

/// What `u16`'s `from_str` reads: an optional `+`, then at least one ASCII
/// digit and nothing else, of a value that fits 16 bits.
pub open spec fn parse_u16_text(s: Seq<char>) -> Option<u16> {
    let ds = unsigned_digits(s);
    if ds.len() > 0 && (forall|i: int| 0 <= i < ds.len() ==> #[trigger] is_digit(ds[i]))
        && digits_value(ds) <= 65535 {
        Some(digits_value(ds) as u16)
    } else {
        None
    }
}

proof fn lemma_digits_value_nonneg(ds: Seq<char>)
    requires
        forall|i: int| 0 <= i < ds.len() ==> #[trigger] is_digit(ds[i]),
    ensures
        digits_value(ds) >= 0,
    decreases ds.len(),
{
    if ds.len() > 0 {
        assert(is_digit(ds[ds.len() - 1]));
        assert forall|i: int| 0 <= i < ds.drop_last().len() implies #[trigger] is_digit(
            ds.drop_last()[i],
        ) by {
            assert(ds.drop_last()[i] == ds[i]);
        }
        lemma_digits_value_nonneg(ds.drop_last());
    }
}

proof fn lemma_digits_value_grows(ds: Seq<char>, j: int)
    requires
        0 <= j <= ds.len(),
        forall|i: int| 0 <= i < ds.len() ==> #[trigger] is_digit(ds[i]),
    ensures
        digits_value(ds.take(j)) <= digits_value(ds),
    decreases ds.len() - j,
{
    if j < ds.len() {
        lemma_digits_value_grows(ds, j + 1);
        assert(ds.take(j + 1).drop_last() == ds.take(j));
        assert(ds.take(j + 1).last() == ds[j]);
        assert(is_digit(ds[j]));
        assert forall|i: int| 0 <= i < ds.take(j).len() implies #[trigger] is_digit(ds.take(j)[i]) by {
            assert(ds.take(j)[i] == ds[i]);
        }
        lemma_digits_value_nonneg(ds.take(j));
    } else {
        assert(ds.take(j) == ds);
    }
}

/// Reads a radius typed by the user, as `u16`'s `from_str` does.
pub fn parse_range(content: &str) -> (r: Option<u16>)
    ensures
        r == parse_u16_text(content@),
{
    let chars = chars_of(content);
    let ghost s = content@;
    let start: usize = if chars.len() > 0 && chars[0] == '+' {
        1
    } else {
        0
    };
    let ghost ds = s.skip(start as int);
    assert(start == 1 ==> ds == s.drop_first());
    assert(start == 0 ==> ds == s);
    if chars.len() == start {
        return None;
    }
    let mut value: u32 = 0;
    let mut i: usize = start;
    while i < chars.len()
        invariant
            chars@ == s,
            s == content@,
            ds == s.skip(start as int),
            ds == unsigned_digits(s),
            start <= i <= chars@.len(),
            forall|k: int| 0 <= k < i - start ==> #[trigger] is_digit(ds[k]),
            value == digits_value(ds.take(i - start)),
            value <= 65535,
        decreases chars@.len() - i,
    {
        let c = chars[i];
        let n = c as u32;
        assert(ds[i - start] == c);
        if n < 48 || n > 57 {
            assert(!is_digit(ds[i - start]));
            assert(!(forall|k: int| 0 <= k < ds.len() ==> #[trigger] is_digit(ds[k])));
            return None;
        }
        assert(ds.take(i + 1 - start).drop_last() == ds.take(i - start));
        let next = value * 10 + (n - 48);
        if next > 65535 {
            proof {
                assert(digits_value(ds.take(i + 1 - start)) == next);
                if forall|k: int| 0 <= k < ds.len() ==> #[trigger] is_digit(ds[k]) {
                    lemma_digits_value_grows(ds, i + 1 - start);
                }
            }
            return None;
        }
        value = next;
        i = i + 1;
    }
    assert(ds.take(i - start) == ds);
    Some(value as u16)
}

/// `c` in ASCII upper case (other characters unchanged).
pub open spec fn ascii_upper(c: char) -> char {
    if 97 <= (c as u32) <= 122 {
        (((c as u32) - 32) as u8) as char
    } else {
        c
    }
}

/// The railway district letter typed by the user: the answer must be one
/// byte long and its letter (in upper case) one of `available`; the letter
/// is kept as typed.
pub open spec fn railway_letter_of(content: Seq<char>, available: Seq<char>) -> Option<char> {
    if vstd::utf8::encode_utf8(content).len() > 1 || content.len() == 0 || !available.contains(
        ascii_upper(content[0]),
    ) {
        None
    } else {
        Some(content[0])
    }
}

/// Reads a railway district letter typed by the user.
pub fn railway_letter(content: &str, available: &[char]) -> (r: Option<char>)
    ensures
        r == railway_letter_of(content@, available@),
{
    let bytes = content.as_bytes().len();
    let chars = chars_of(content);
    if bytes > 1 || chars.len() == 0 {
        return None;
    }
    let c = chars[0];
    let n = c as u32;
    let upper = if 97 <= n && n <= 122 {
        ((n - 32) as u8) as char
    } else {
        c
    };
    assert(upper == ascii_upper(c));
    assert(bytes == vstd::utf8::encode_utf8(content@).len());
    let mut i: usize = 0;
    while i < available.len()
        invariant
            i <= available@.len(),
            upper == ascii_upper(c),
            chars@ == content@,
            chars@.len() > 0,
            c == chars@[0],
            vstd::utf8::encode_utf8(content@).len() <= 1,
            forall|k: int| 0 <= k < i ==> available@[k] != upper,
        decreases available@.len() - i,
    {
        if available[i] == upper {
            assert(available@.contains(upper)) by {
                assert(available@[i as int] == upper);
            }
            return Some(c);
        }
        i = i + 1;
    }
    None
}

/// The answer to a wrong district letter, listing the available ones.
pub open spec fn railway_hint_text(available: Seq<char>) -> Seq<char> {
    "Bitte schicke mir den ersten Buchstaben einer Bahndirektion. Zur Verfügung stehen: "@ + join(
        Seq::new(available.len(), |i: int| seq![available[i]]),
        ", "@,
    )
}

/// The answer to a wrong district letter.
pub fn railway_hint(available: &[char]) -> (s: String)
    ensures
        s@ == railway_hint_text(available@),
{
    let ghost target = Seq::new(available@.len(), |i: int| seq![available@[i]]);
    let mut letters: Vec<String> = Vec::new();
    let mut i: usize = 0;
    while i < available.len()
        invariant
            target == Seq::new(available@.len(), |i: int| seq![available@[i]]),
            i <= available@.len(),
            letters.deep_view() == target.take(i as int),
        decreases available@.len() - i,
    {
        let mut l = String::new();
        push_char(&mut l, available[i]);
        let ghost old_letters = letters.deep_view();
        letters.push(l);
        assert(letters.deep_view() == old_letters.push(target[i as int]));
        i = i + 1;
        assert(letters.deep_view() == target.take(i as int));
    }
    assert(target.take(target.len() as int) == target);
    let mut s = "Bitte schicke mir den ersten Buchstaben einer Bahndirektion. Zur Verfügung stehen: ".to_string();
    let joined = join_strings(&letters, ", ");
    s.append(joined.as_str());
    s
}

/// Data of the button that lists the filters.
pub const SHOW_FILTER: &'static str = "show_filter";
/// Data of the button that adds a filter.
pub const ADD_FILTER: &'static str = "add_filter";
/// Data of the button that removes a filter.
pub const REMOVE_FILTER: &'static str = "remove_filter";
/// Start of the data of a button that removes the filters of one kind; the
/// kind's name follows.
pub const REMOVE_FILTER_PREFIX: &'static str = "remove_filter_";
/// Data of the button that asks how filters combine.
pub const CHANGE_FILTER_BEHAVIOUR: &'static str = "change_filter_behaviour";
/// Data of the button that requires all filters to match.
pub const CHANGE_FILTER_BEHAVIOUR_ALL: &'static str = "change_filter_behaviour_all";
/// Data of the button that lets one matching filter suffice.
pub const CHANGE_FILTER_BEHAVIOUR_ONE: &'static str = "change_filter_behaviour_one";
/// Data of the button that starts a location filter.
pub const LOCATION: &'static str = "location";
/// Data of the button that adds the "only cancellations" filter.
pub const ONLY_CANCELLATIONS: &'static str = "only_cancellations";
/// Data of the button that starts a railway district filter.
pub const RAILWAY_MANAGEMENT: &'static str = "railway_management";

/// The first letters of the RIL100 codes, one for each railway district.
pub const AVAILABLE_RIL100_RAILWAY_MANAGEMENTS: [char; 15] = [
    'A', 'B', 'D', 'E', 'F', 'H', 'K', 'L', 'M', 'N', 'R', 'S', 'T', 'U', 'W',
];

/// What a button of the filter dialog asks for.
pub enum CallbackAction {
    ShowFilters,
    ChooseFilterKind,
    ChooseFilterToRemove,
    ChooseBehaviour,
    SetBehaviour { one_filter_enough: bool },
    ExpectLocation,
    AddOnlyCancellations,
    ExpectRailwayManagement,
    /// Remove the filters of the kind with this name.
    RemoveFiltersOfType(String),
    /// Data that no button sends.
    Invalid,
}

/// Mathematical view of a [`CallbackAction`].
pub enum CallbackActionView {
    ShowFilters,
    ChooseFilterKind,
    ChooseFilterToRemove,
    ChooseBehaviour,
    SetBehaviour { one_filter_enough: bool },
    ExpectLocation,
    AddOnlyCancellations,
    ExpectRailwayManagement,
    RemoveFiltersOfType(Seq<char>),
    Invalid,
}

impl View for CallbackAction {
    type V = CallbackActionView;

    open spec fn view(&self) -> CallbackActionView {
        match self {
            CallbackAction::ShowFilters => CallbackActionView::ShowFilters,
            CallbackAction::ChooseFilterKind => CallbackActionView::ChooseFilterKind,
            CallbackAction::ChooseFilterToRemove => CallbackActionView::ChooseFilterToRemove,
            CallbackAction::ChooseBehaviour => CallbackActionView::ChooseBehaviour,
            CallbackAction::SetBehaviour { one_filter_enough } => CallbackActionView::SetBehaviour {
                one_filter_enough: *one_filter_enough,
            },
            CallbackAction::ExpectLocation => CallbackActionView::ExpectLocation,
            CallbackAction::AddOnlyCancellations => CallbackActionView::AddOnlyCancellations,
            CallbackAction::ExpectRailwayManagement => CallbackActionView::ExpectRailwayManagement,
            CallbackAction::RemoveFiltersOfType(t) => CallbackActionView::RemoveFiltersOfType(t@),
            CallbackAction::Invalid => CallbackActionView::Invalid,
        }
    }
}

/// The action for a button's data: the fixed buttons by their data, then a
/// removal by its prefix (the kind's name is the data with every occurrence of
/// the prefix taken out); anything else is invalid.
pub open spec fn callback_action_of(data: Seq<char>) -> CallbackActionView {
    if data == SHOW_FILTER@ {
        CallbackActionView::ShowFilters
    } else if data == ADD_FILTER@ {
        CallbackActionView::ChooseFilterKind
    } else if data == REMOVE_FILTER@ {
        CallbackActionView::ChooseFilterToRemove
    } else if data == CHANGE_FILTER_BEHAVIOUR@ {
        CallbackActionView::ChooseBehaviour
    } else if data == CHANGE_FILTER_BEHAVIOUR_ALL@ {
        CallbackActionView::SetBehaviour { one_filter_enough: false }
    } else if data == CHANGE_FILTER_BEHAVIOUR_ONE@ {
        CallbackActionView::SetBehaviour { one_filter_enough: true }
    } else if data == LOCATION@ {
        CallbackActionView::ExpectLocation
    } else if data == ONLY_CANCELLATIONS@ {
        CallbackActionView::AddOnlyCancellations
    } else if data == RAILWAY_MANAGEMENT@ {
        CallbackActionView::ExpectRailwayManagement
    } else if REMOVE_FILTER_PREFIX@.is_prefix_of(data) {
        CallbackActionView::RemoveFiltersOfType(without_text(data, REMOVE_FILTER_PREFIX@))
    } else {
        CallbackActionView::Invalid
    }
}

/// Whether `prefix` starts `s`.
fn starts_with_text(s: &Vec<char>, prefix: &Vec<char>) -> (b: bool)
    ensures
        b == prefix@.is_prefix_of(s@),
{
    if prefix.len() > s.len() {
        return false;
    }
    let mut j: usize = 0;
    while j < prefix.len()
        invariant
            prefix@.len() <= s@.len(),
            j <= prefix@.len(),
            forall|q: int| 0 <= q < j ==> s@[q] == prefix@[q],
        decreases prefix@.len() - j,
    {
        if s[j] != prefix[j] {
            assert(s@.take(prefix@.len() as int)[j as int] != prefix@[j as int]);
            return false;
        }
        j = j + 1;
    }
    assert(s@.take(prefix@.len() as int) =~= prefix@);
    true
}

/// What the button with the data `data` asks for.
pub fn callback_action(data: &str) -> (a: CallbackAction)
    ensures
        a@ == callback_action_of(data@),
{
    let d = data.to_string();
    if equals_text(&d, SHOW_FILTER) {
        CallbackAction::ShowFilters
    } else if equals_text(&d, ADD_FILTER) {
        CallbackAction::ChooseFilterKind
    } else if equals_text(&d, REMOVE_FILTER) {
        CallbackAction::ChooseFilterToRemove
    } else if equals_text(&d, CHANGE_FILTER_BEHAVIOUR) {
        CallbackAction::ChooseBehaviour
    } else if equals_text(&d, CHANGE_FILTER_BEHAVIOUR_ALL) {
        CallbackAction::SetBehaviour { one_filter_enough: false }
    } else if equals_text(&d, CHANGE_FILTER_BEHAVIOUR_ONE) {
        CallbackAction::SetBehaviour { one_filter_enough: true }
    } else if equals_text(&d, LOCATION) {
        CallbackAction::ExpectLocation
    } else if equals_text(&d, ONLY_CANCELLATIONS) {
        CallbackAction::AddOnlyCancellations
    } else if equals_text(&d, RAILWAY_MANAGEMENT) {
        CallbackAction::ExpectRailwayManagement
    } else if starts_with_text(&chars_of(data), &chars_of(REMOVE_FILTER_PREFIX)) {
        CallbackAction::RemoveFiltersOfType(remove_text(data, REMOVE_FILTER_PREFIX))
    } else {
        CallbackAction::Invalid
    }
}

/// What the bot waits for from a user in the filter dialog; coordinates are
/// the bits of their `f64` values.
#[derive(Clone, Copy, Debug)]
pub enum Expecting {
    /// A location to filter around.
    Location,
    /// The radius around this location.
    LocationRange { lon_bits: u64, lat_bits: u64 },
    /// The letter of a railway district.
    RailwayManagement,
}

/// A message the user sends while the dialog waits.
pub enum DialogInput {
    /// A shared location.
    Location { lon_bits: u64, lat_bits: u64 },
    /// A text message.
    Text(String),
    /// Anything else.
    Other,
}

/// Mathematical view of a [`DialogInput`].
pub enum DialogInputView {
    Location { lon_bits: u64, lat_bits: u64 },
    Text(Seq<char>),
    Other,
}

impl View for DialogInput {
    type V = DialogInputView;

    open spec fn view(&self) -> DialogInputView {
        match self {
            DialogInput::Location { lon_bits, lat_bits } => DialogInputView::Location {
                lon_bits: *lon_bits,
                lat_bits: *lat_bits,
            },
            DialogInput::Text(t) => DialogInputView::Text(t@),
            DialogInput::Other => DialogInputView::Other,
        }
    }
}

/// The outcome of a message in the filter dialog: what the bot waits for
/// next, the filter to add, and the answer.
pub struct DialogStep {
    pub expecting: Option<Expecting>,
    pub new_filter: Option<Filter>,
    pub reply: Option<String>,
}

/// The question for the radius of a location filter.
pub open spec fn range_question() -> Seq<char> {
    "In welchem Radius (in Kilometern) soll eine Störung um den Standort liegen?"@
}

/// The answer to a created filter.
pub open spec fn filter_created() -> Seq<char> {
    "Der Filter wurde erfolgreich erstellt."@
}

/// The answer to a radius that is no number.
pub open spec fn range_not_a_number() -> Seq<char> {
    "Der Radius sollte schon eine Zahl sein."@
}

/// The filter dialog: a location is answered by the question for the radius;
/// a radius (a `u16`) or a known district letter creates the filter and ends
/// the dialog; a wrong radius or letter is answered and the bot keeps
/// waiting; any other message, or a message while nothing is awaited, changes
/// nothing and gets no answer.
pub open spec fn dialog_step_of(
    expecting: Option<Expecting>,
    input: DialogInputView,
    available: Seq<char>,
) -> (Option<Expecting>, Option<Filter>, Option<Seq<char>>) {
    match expecting {
        None => (None, None, None),
        Some(Expecting::Location) => match input {
            DialogInputView::Location { lon_bits, lat_bits } => (
                Some(Expecting::LocationRange { lon_bits, lat_bits }),
                None,
                Some(range_question()),
            ),
            _ => (expecting, None, None),
        },
        Some(Expecting::LocationRange { lon_bits, lat_bits }) => match input {
            DialogInputView::Text(t) => match parse_u16_text(t) {
                Some(range) => (
                    None,
                    Some(
                        Filter::StreckenInfo(
                            StreckenInfoFilter::Location { x_bits: lon_bits, y_bits: lat_bits, range },
                        ),
                    ),
                    Some(filter_created()),
                ),
                None => (expecting, None, Some(range_not_a_number())),
            },
            _ => (expecting, None, None),
        },
        Some(Expecting::RailwayManagement) => match input {
            DialogInputView::Text(t) => match railway_letter_of(t, available) {
                Some(letter) => (
                    None,
                    Some(Filter::StreckenInfo(StreckenInfoFilter::RailwayManagement { letter })),
                    Some(filter_created()),
                ),
                None => (expecting, None, Some(railway_hint_text(available))),
            },
            _ => (expecting, None, None),
        },
    }
}

/// Takes one message of the filter dialog; `available` are the known railway
/// district letters.
pub fn dialog_step(expecting: Option<Expecting>, input: DialogInput, available: &[char]) -> (step:
    DialogStep)
    ensures
        (step.expecting, step.new_filter, step.reply.deep_view()) == dialog_step_of(
            expecting,
            input@,
            available@,
        ),
{
    let unchanged = DialogStep { expecting, new_filter: None, reply: None };
    match expecting {
        None => unchanged,
        Some(Expecting::Location) => match input {
            DialogInput::Location { lon_bits, lat_bits } => DialogStep {
                expecting: Some(Expecting::LocationRange { lon_bits, lat_bits }),
                new_filter: None,
                reply: Some(
                    "In welchem Radius (in Kilometern) soll eine Störung um den Standort liegen?".to_string(),
                ),
            },
            _ => unchanged,
        },
        Some(Expecting::LocationRange { lon_bits, lat_bits }) => match input {
            DialogInput::Text(t) => match parse_range(t.as_str()) {
                Some(range) => DialogStep {
                    expecting: None,
                    new_filter: Some(
                        Filter::StreckenInfo(
                            StreckenInfoFilter::Location { x_bits: lon_bits, y_bits: lat_bits, range },
                        ),
                    ),
                    reply: Some("Der Filter wurde erfolgreich erstellt.".to_string()),
                },
                None => DialogStep {
                    expecting,
                    new_filter: None,
                    reply: Some("Der Radius sollte schon eine Zahl sein.".to_string()),
                },
            },
            _ => unchanged,
        },
        Some(Expecting::RailwayManagement) => match input {
            DialogInput::Text(t) => match railway_letter(t.as_str(), available) {
                Some(letter) => DialogStep {
                    expecting: None,
                    new_filter: Some(
                        Filter::StreckenInfo(StreckenInfoFilter::RailwayManagement { letter }),
                    ),
                    reply: Some("Der Filter wurde erfolgreich erstellt.".to_string()),
                },
                None => DialogStep {
                    expecting,
                    new_filter: None,
                    reply: Some(railway_hint(available)),
                },
            },
            _ => unchanged,
        },
    }
}

/// The data of the button that removes the filters of `filter`'s kind.
pub fn remove_button_data(filter: &Filter) -> (s: String)
    ensures
        s@ == REMOVE_FILTER_PREFIX@ + user_filter_type(*filter),
{
    concat(REMOVE_FILTER_PREFIX, filter.get_type())
}

} // verus!
