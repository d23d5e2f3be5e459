//! The enumerations that the wire carries as a number: each documented code
//! stands for one variant, and no other code is accepted.

use vstd::prelude::*;

use crate::decode::{integer, integer_of, Decode};
use crate::error::{DecodeError, DecodeErrorView, Fault};
use crate::json::{Json, JsonValue};

verus! {

/// An enumeration with a numeric wire code for each variant.
pub trait Coded: Sized {
    /// The wire code of a variant.
    spec fn code(self) -> int;

    /// The variant that a wire code stands for, if the code is documented.
    spec fn from_code(code: int) -> Option<Self>;

    /// The variant that a wire code stands for, if the code is documented.
    fn of_code(code: u8) -> (r: Option<Self>)
        ensures
            r == Self::from_code(code as int),
    ;

    /// The code of every variant stands for that variant.
    proof fn lemma_code_round_trip(self)
        ensures
            Self::from_code(self.code()) == Some(self),
    ;

    /// A code stands for at most the variant that has it, and every
    /// documented code fits in a byte.
    proof fn lemma_documented_code(code: int)
        ensures
            Self::from_code(code) matches Some(variant) ==> variant.code() == code && 0 <= code
                <= 255,
    ;
}

/// What a value decodes to as a coded enumeration: the variant of the integer
/// it holds, and a failure for an integer that is no documented code.
pub open spec fn coded_of<E: Coded>(v: JsonValue) -> Result<E, DecodeErrorView> {
    match integer_of(v) {
        Ok(code) => match E::from_code(code) {
            Some(variant) => Ok(variant),
            None => Err(DecodeErrorView::here(Fault::UnknownCode)),
        },
        Err(e) => Err(e),
    }
}

/// Decodes a coded enumeration.
pub fn coded<E: Coded>(j: &Json) -> (r: Result<E, DecodeError>)
    ensures
        match r {
            Ok(variant) => coded_of::<E>(j.deep_view()) == Ok::<E, DecodeErrorView>(variant),
            Err(e) => coded_of::<E>(j.deep_view()) == Err::<E, DecodeErrorView>(e.deep_view()),
        },
{
    let code = integer(j)?;
    proof {
        E::lemma_documented_code(code as int);
    }
    if 0 <= code && code <= 255 {
        match E::of_code(code as u8) {
            Some(variant) => Ok(variant),
            None => Err(DecodeError::here(Fault::UnknownCode)),
        }
    } else {
        Err(DecodeError::here(Fault::UnknownCode))
    }
}

/// Every variant is decoded from the number that is its code.
pub proof fn lemma_code_decodes<E: Coded>(variant: E, v: JsonValue)
    requires
        integer_of(v) == Ok::<int, DecodeErrorView>(variant.code()),
    ensures
        coded_of::<E>(v) == Ok::<E, DecodeErrorView>(variant),
{
    variant.lemma_code_round_trip();
}

/// An integer that is the code of no variant is rejected as an unknown code.
pub proof fn lemma_unknown_code_fails<E: Coded>(v: JsonValue)
    requires
        integer_of(v) matches Ok(code) && forall|variant: E| variant.code() != code,
    ensures
        coded_of::<E>(v) == Err::<E, DecodeErrorView>(DecodeErrorView::here(Fault::UnknownCode)),
{
    E::lemma_documented_code(integer_of(v)->Ok_0);
}

/// The colour of a project, a label or a filter, from the fixed palette.
#[derive(Clone, Copy, Debug, PartialEq, Eq, Structural)]
pub enum Color {
    Crimson,
    Red,
    Orange,
    Yellow,
    Olive,
    LightGreen,
    DarkGreen,
    SeaGreen,
    SteelBlue,
    SkyBlue,
    BabyBlue,
    Blue,
    RoyalPurple,
    Violet,
    Pink,
    Mulberry,
    Salmon,
    Gray,
    LightGray,
    Tan,
}

impl DeepView for Color {
    type V = Color;

    open spec fn deep_view(&self) -> Color {
        *self
    }
}

impl Coded for Color {
    open spec fn code(self) -> int {
        match self {
            Color::Crimson => 30,
            Color::Red => 31,
            Color::Orange => 32,
            Color::Yellow => 33,
            Color::Olive => 34,
            Color::LightGreen => 35,
            Color::DarkGreen => 36,
            Color::SeaGreen => 37,
            Color::SteelBlue => 38,
            Color::SkyBlue => 39,
            Color::BabyBlue => 40,
            Color::Blue => 41,
            Color::RoyalPurple => 42,
            Color::Violet => 43,
            Color::Pink => 44,
            Color::Mulberry => 45,
            Color::Salmon => 46,
            Color::Gray => 47,
            Color::LightGray => 48,
            Color::Tan => 49,
        }
    }

    open spec fn from_code(code: int) -> Option<Color> {
        if code == 30 {
            Some(Color::Crimson)
        } else if code == 31 {
            Some(Color::Red)
        } else if code == 32 {
            Some(Color::Orange)
        } else if code == 33 {
            Some(Color::Yellow)
        } else if code == 34 {
            Some(Color::Olive)
        } else if code == 35 {
            Some(Color::LightGreen)
        } else if code == 36 {
            Some(Color::DarkGreen)
        } else if code == 37 {
            Some(Color::SeaGreen)
        } else if code == 38 {
            Some(Color::SteelBlue)
        } else if code == 39 {
            Some(Color::SkyBlue)
        } else if code == 40 {
            Some(Color::BabyBlue)
        } else if code == 41 {
            Some(Color::Blue)
        } else if code == 42 {
            Some(Color::RoyalPurple)
        } else if code == 43 {
            Some(Color::Violet)
        } else if code == 44 {
            Some(Color::Pink)
        } else if code == 45 {
            Some(Color::Mulberry)
        } else if code == 46 {
            Some(Color::Salmon)
        } else if code == 47 {
            Some(Color::Gray)
        } else if code == 48 {
            Some(Color::LightGray)
        } else if code == 49 {
            Some(Color::Tan)
        } else {
            None
        }
    }

    fn of_code(code: u8) -> (r: Option<Color>) {
        match code {
            30 => Some(Color::Crimson),
            31 => Some(Color::Red),
            32 => Some(Color::Orange),
            33 => Some(Color::Yellow),
            34 => Some(Color::Olive),
            35 => Some(Color::LightGreen),
            36 => Some(Color::DarkGreen),
            37 => Some(Color::SeaGreen),
            38 => Some(Color::SteelBlue),
            39 => Some(Color::SkyBlue),
            40 => Some(Color::BabyBlue),
            41 => Some(Color::Blue),
            42 => Some(Color::RoyalPurple),
            43 => Some(Color::Violet),
            44 => Some(Color::Pink),
            45 => Some(Color::Mulberry),
            46 => Some(Color::Salmon),
            47 => Some(Color::Gray),
            48 => Some(Color::LightGray),
            49 => Some(Color::Tan),
            _ => None,
        }
    }

    proof fn lemma_code_round_trip(self) {
    }

    proof fn lemma_documented_code(code: int) {
    }
}

impl Decode for Color {
    open spec fn decoded(v: JsonValue) -> Result<Color, DecodeErrorView> {
        coded_of::<Color>(v)
    }

    fn decode(j: &Json) -> (r: Result<Color, DecodeError>) {
        coded::<Color>(j)
    }
}

/// The priority of an item; `Natural` is the lowest.
#[derive(Clone, Copy, Debug, PartialEq, Eq, Structural)]
pub enum Priority {
    Natural,
    High,
    Urgent,
    VeryUrgent,
}

impl DeepView for Priority {
    type V = Priority;

    open spec fn deep_view(&self) -> Priority {
        *self
    }
}

impl Coded for Priority {
    open spec fn code(self) -> int {
        match self {
            Priority::Natural => 1,
            Priority::High => 2,
            Priority::Urgent => 3,
            Priority::VeryUrgent => 4,
        }
    }

    open spec fn from_code(code: int) -> Option<Priority> {
        if code == 1 {
            Some(Priority::Natural)
        } else if code == 2 {
            Some(Priority::High)
        } else if code == 3 {
            Some(Priority::Urgent)
        } else if code == 4 {
            Some(Priority::VeryUrgent)
        } else {
            None
        }
    }

    fn of_code(code: u8) -> (r: Option<Priority>) {
        match code {
            1 => Some(Priority::Natural),
            2 => Some(Priority::High),
            3 => Some(Priority::Urgent),
            4 => Some(Priority::VeryUrgent),
            _ => None,
        }
    }

    proof fn lemma_code_round_trip(self) {
    }

    proof fn lemma_documented_code(code: int) {
    }
}

impl Decode for Priority {
    open spec fn decoded(v: JsonValue) -> Result<Priority, DecodeErrorView> {
        coded_of::<Priority>(v)
    }

    fn decode(j: &Json) -> (r: Result<Priority, DecodeError>) {
        coded::<Priority>(j)
    }
}

/// A truth value that the wire carries as the integer 0 or 1.
#[derive(Clone, Copy, Debug, PartialEq, Eq, Structural)]
pub enum Flag {
    False,
    True,
}

impl DeepView for Flag {
    type V = Flag;

    open spec fn deep_view(&self) -> Flag {
        *self
    }
}

impl Coded for Flag {
    open spec fn code(self) -> int {
        match self {
            Flag::False => 0,
            Flag::True => 1,
        }
    }

    open spec fn from_code(code: int) -> Option<Flag> {
        if code == 0 {
            Some(Flag::False)
        } else if code == 1 {
            Some(Flag::True)
        } else {
            None
        }
    }

    fn of_code(code: u8) -> (r: Option<Flag>) {
        match code {
            0 => Some(Flag::False),
            1 => Some(Flag::True),
            _ => None,
        }
    }

    proof fn lemma_code_round_trip(self) {
    }

    proof fn lemma_documented_code(code: int) {
    }
}

impl Decode for Flag {
    open spec fn decoded(v: JsonValue) -> Result<Flag, DecodeErrorView> {
        coded_of::<Flag>(v)
    }

    fn decode(j: &Json) -> (r: Result<Flag, DecodeError>) {
        coded::<Flag>(j)
    }
}

/// A day of the week.
#[derive(Clone, Copy, Debug, PartialEq, Eq, Structural)]
pub enum Day {
    Monday,
    Tuesday,
    Wednesday,
    Thursday,
    Friday,
    Saturday,
    Sunday,
}

impl DeepView for Day {
    type V = Day;

    open spec fn deep_view(&self) -> Day {
        *self
    }
}

impl Coded for Day {
    open spec fn code(self) -> int {
        match self {
            Day::Monday => 1,
            Day::Tuesday => 2,
            Day::Wednesday => 3,
            Day::Thursday => 4,
            Day::Friday => 5,
            Day::Saturday => 6,
            Day::Sunday => 7,
        }
    }

    open spec fn from_code(code: int) -> Option<Day> {
        if code == 1 {
            Some(Day::Monday)
        } else if code == 2 {
            Some(Day::Tuesday)
        } else if code == 3 {
            Some(Day::Wednesday)
        } else if code == 4 {
            Some(Day::Thursday)
        } else if code == 5 {
            Some(Day::Friday)
        } else if code == 6 {
            Some(Day::Saturday)
        } else if code == 7 {
            Some(Day::Sunday)
        } else {
            None
        }
    }

    fn of_code(code: u8) -> (r: Option<Day>) {
        match code {
            1 => Some(Day::Monday),
            2 => Some(Day::Tuesday),
            3 => Some(Day::Wednesday),
            4 => Some(Day::Thursday),
            5 => Some(Day::Friday),
            6 => Some(Day::Saturday),
            7 => Some(Day::Sunday),
            _ => None,
        }
    }

    proof fn lemma_code_round_trip(self) {
    }

    proof fn lemma_documented_code(code: int) {
    }
}

impl Decode for Day {
    open spec fn decoded(v: JsonValue) -> Result<Day, DecodeErrorView> {
        coded_of::<Day>(v)
    }

    fn decode(j: &Json) -> (r: Result<Day, DecodeError>) {
        coded::<Day>(j)
    }
}

/// The colour theme of the user interface.
#[derive(Clone, Copy, Debug, PartialEq, Eq, Structural)]
pub enum Theme {
    Theme0,
    Theme1,
    Theme2,
    Theme3,
    Theme4,
    Theme5,
    Theme6,
    Theme7,
    Theme8,
    Theme9,
    Theme10,
}

impl DeepView for Theme {
    type V = Theme;

    open spec fn deep_view(&self) -> Theme {
        *self
    }
}

impl Coded for Theme {
    open spec fn code(self) -> int {
        match self {
            Theme::Theme0 => 0,
            Theme::Theme1 => 1,
            Theme::Theme2 => 2,
            Theme::Theme3 => 3,
            Theme::Theme4 => 4,
            Theme::Theme5 => 5,
            Theme::Theme6 => 6,
            Theme::Theme7 => 7,
            Theme::Theme8 => 8,
            Theme::Theme9 => 9,
            Theme::Theme10 => 10,
        }
    }

    open spec fn from_code(code: int) -> Option<Theme> {
        if code == 0 {
            Some(Theme::Theme0)
        } else if code == 1 {
            Some(Theme::Theme1)
        } else if code == 2 {
            Some(Theme::Theme2)
        } else if code == 3 {
            Some(Theme::Theme3)
        } else if code == 4 {
            Some(Theme::Theme4)
        } else if code == 5 {
            Some(Theme::Theme5)
        } else if code == 6 {
            Some(Theme::Theme6)
        } else if code == 7 {
            Some(Theme::Theme7)
        } else if code == 8 {
            Some(Theme::Theme8)
        } else if code == 9 {
            Some(Theme::Theme9)
        } else if code == 10 {
            Some(Theme::Theme10)
        } else {
            None
        }
    }

    fn of_code(code: u8) -> (r: Option<Theme>) {
        match code {
            0 => Some(Theme::Theme0),
            1 => Some(Theme::Theme1),
            2 => Some(Theme::Theme2),
            3 => Some(Theme::Theme3),
            4 => Some(Theme::Theme4),
            5 => Some(Theme::Theme5),
            6 => Some(Theme::Theme6),
            7 => Some(Theme::Theme7),
            8 => Some(Theme::Theme8),
            9 => Some(Theme::Theme9),
            10 => Some(Theme::Theme10),
            _ => None,
        }
    }

    proof fn lemma_code_round_trip(self) {
    }

    proof fn lemma_documented_code(code: int) {
    }
}

impl Decode for Theme {
    open spec fn decoded(v: JsonValue) -> Result<Theme, DecodeErrorView> {
        coded_of::<Theme>(v)
    }

    fn decode(j: &Json) -> (r: Result<Theme, DecodeError>) {
        coded::<Theme>(j)
    }
}

/// How the time of day is shown.
#[derive(Clone, Copy, Debug, PartialEq, Eq, Structural)]
pub enum TimeFormat {
    TwentyFour,
    Twelve,
}

impl DeepView for TimeFormat {
    type V = TimeFormat;

    open spec fn deep_view(&self) -> TimeFormat {
        *self
    }
}

impl Coded for TimeFormat {
    open spec fn code(self) -> int {
        match self {
            TimeFormat::TwentyFour => 0,
            TimeFormat::Twelve => 1,
        }
    }

    open spec fn from_code(code: int) -> Option<TimeFormat> {
        if code == 0 {
            Some(TimeFormat::TwentyFour)
        } else if code == 1 {
            Some(TimeFormat::Twelve)
        } else {
            None
        }
    }

    fn of_code(code: u8) -> (r: Option<TimeFormat>) {
        match code {
            0 => Some(TimeFormat::TwentyFour),
            1 => Some(TimeFormat::Twelve),
            _ => None,
        }
    }

    proof fn lemma_code_round_trip(self) {
    }

    proof fn lemma_documented_code(code: int) {
    }
}

impl Decode for TimeFormat {
    open spec fn decoded(v: JsonValue) -> Result<TimeFormat, DecodeErrorView> {
        coded_of::<TimeFormat>(v)
    }

    fn decode(j: &Json) -> (r: Result<TimeFormat, DecodeError>) {
        coded::<TimeFormat>(j)
    }
}

/// The order in which dated entries are listed.
#[derive(Clone, Copy, Debug, PartialEq, Eq, Structural)]
pub enum SortOrder {
    OldestDatesFirst,
    OldestDatesLast,
}

impl DeepView for SortOrder {
    type V = SortOrder;

    open spec fn deep_view(&self) -> SortOrder {
        *self
    }
}

impl Coded for SortOrder {
    open spec fn code(self) -> int {
        match self {
            SortOrder::OldestDatesFirst => 0,
            SortOrder::OldestDatesLast => 1,
        }
    }

    open spec fn from_code(code: int) -> Option<SortOrder> {
        if code == 0 {
            Some(SortOrder::OldestDatesFirst)
        } else if code == 1 {
            Some(SortOrder::OldestDatesLast)
        } else {
            None
        }
    }

    fn of_code(code: u8) -> (r: Option<SortOrder>) {
        match code {
            0 => Some(SortOrder::OldestDatesFirst),
            1 => Some(SortOrder::OldestDatesLast),
            _ => None,
        }
    }

    proof fn lemma_code_round_trip(self) {
    }

    proof fn lemma_documented_code(code: int) {
    }
}

impl Decode for SortOrder {
    open spec fn decoded(v: JsonValue) -> Result<SortOrder, DecodeErrorView> {
        coded_of::<SortOrder>(v)
    }

    fn decode(j: &Json) -> (r: Result<SortOrder, DecodeError>) {
        coded::<SortOrder>(j)
    }
}

/// How a date is shown: day first or month first.
#[derive(Clone, Copy, Debug, PartialEq, Eq, Structural)]
pub enum DateFormat {
    DayMonth,
    MonthDay,
}

impl DeepView for DateFormat {
    type V = DateFormat;

    open spec fn deep_view(&self) -> DateFormat {
        *self
    }
}

impl Coded for DateFormat {
    open spec fn code(self) -> int {
        match self {
            DateFormat::DayMonth => 0,
            DateFormat::MonthDay => 1,
        }
    }

    open spec fn from_code(code: int) -> Option<DateFormat> {
        if code == 0 {
            Some(DateFormat::DayMonth)
        } else if code == 1 {
            Some(DateFormat::MonthDay)
        } else {
            None
        }
    }

    fn of_code(code: u8) -> (r: Option<DateFormat>) {
        match code {
            0 => Some(DateFormat::DayMonth),
            1 => Some(DateFormat::MonthDay),
            _ => None,
        }
    }

    proof fn lemma_code_round_trip(self) {
    }

    proof fn lemma_documented_code(code: int) {
    }
}

impl Decode for DateFormat {
    open spec fn decoded(v: JsonValue) -> Result<DateFormat, DecodeErrorView> {
        coded_of::<DateFormat>(v)
    }

    fn decode(j: &Json) -> (r: Result<DateFormat, DecodeError>) {
        coded::<DateFormat>(j)
    }
}

impl Flag {
    /// The truth value that the flag stands for.
    pub fn is_set(self) -> (set: bool)
        ensures
            set == (self == Flag::True),
    {
        match self {
            Flag::True => true,
            Flag::False => false,
        }
    }
}

} // verus!
