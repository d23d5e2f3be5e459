//! The enumerations that the wire carries as a short text: each documented
//! name stands for one variant, letter for letter, and no other text is
//! accepted.

use vstd::prelude::*;

use crate::decode::Decode;
use crate::error::{DecodeError, DecodeErrorView, Expected, Fault};
use crate::json::{text_eq, Json, JsonValue};

verus! {

/// An enumeration with a wire name for each variant.
pub trait Named: Sized {
    /// The wire name of a variant.
    spec fn name(self) -> Seq<char>;

    /// The variant that a wire name stands for, if the name is documented.
    spec fn from_name(name: Seq<char>) -> Option<Self>;

    /// The variant that a wire name stands for, if the name is documented.
    fn of_name(name: &str) -> (r: Option<Self>)
        ensures
            r == Self::from_name(name@),
    ;

    /// The name of every variant stands for that variant.
    proof fn lemma_name_round_trip(self)
        ensures
            Self::from_name(self.name()) == Some(self),
    ;

    /// A name stands for at most the variant that has it.
    proof fn lemma_documented_name(name: Seq<char>)
        ensures
            Self::from_name(name) matches Some(variant) ==> variant.name() == name,
    ;
}

/// What a value decodes to as a named enumeration: the variant of the text it
/// holds, and a failure for a text that is no documented name.
pub open spec fn named_of<E: Named>(v: JsonValue) -> Result<E, DecodeErrorView> {
    match v {
        JsonValue::Text(name) => match E::from_name(name) {
            Some(variant) => Ok(variant),
            None => Err(DecodeErrorView::here(Fault::UnknownCode)),
        },
        _ => Err(DecodeErrorView::here(Fault::Mismatch(Expected::Text))),
    }
}

/// Decodes a named enumeration.
pub fn named<E: Named>(j: &Json) -> (r: Result<E, DecodeError>)
    ensures
        match r {
            Ok(variant) => named_of::<E>(j.deep_view()) == Ok::<E, DecodeErrorView>(variant),
            Err(e) => named_of::<E>(j.deep_view()) == Err::<E, DecodeErrorView>(e.deep_view()),
        },
{
    match j {
        Json::Text(name) => match E::of_name(name.as_str()) {
            Some(variant) => Ok(variant),
            None => Err(DecodeError::here(Fault::UnknownCode)),
        },
        _ => Err(DecodeError::here(Fault::Mismatch(Expected::Text))),
    }
}

/// Every variant is decoded from the text that is its name.
pub proof fn lemma_name_decodes<E: Named>(variant: E)
    ensures
        named_of::<E>(JsonValue::Text(variant.name())) == Ok::<E, DecodeErrorView>(variant),
{
    variant.lemma_name_round_trip();
}

/// A text that is the name of no variant is rejected as an unknown code.
pub proof fn lemma_unknown_name_fails<E: Named>(name: Seq<char>)
    requires
        forall|variant: E| variant.name() != name,
    ensures
        named_of::<E>(JsonValue::Text(name)) == Err::<E, DecodeErrorView>(
            DecodeErrorView::here(Fault::UnknownCode),
        ),
{
    E::lemma_documented_name(name);
}

/// A language of the service.
#[derive(Clone, Copy, Debug, PartialEq, Eq, Structural)]
pub enum Language {
    Danish,
    German,
    English,
    Spanish,
    Finnish,
    French,
    Italian,
    Japanese,
    Korean,
    Dutch,
    Polish,
    BrazilianPortuguese,
    Russian,
    Swedish,
    Turkish,
    MainlandChinese,
    TaiwanChinese,
}

impl DeepView for Language {
    type V = Language;

    open spec fn deep_view(&self) -> Language {
        *self
    }
}

impl Named for Language {
    open spec fn name(self) -> Seq<char> {
        match self {
            Language::Danish => "da"@,
            Language::German => "ge"@,
            Language::English => "en"@,
            Language::Spanish => "es"@,
            Language::Finnish => "fi"@,
            Language::French => "fr"@,
            Language::Italian => "it"@,
            Language::Japanese => "ja"@,
            Language::Korean => "ko"@,
            Language::Dutch => "nl"@,
            Language::Polish => "pl"@,
            Language::BrazilianPortuguese => "pt_BR"@,
            Language::Russian => "ru"@,
            Language::Swedish => "sv"@,
            Language::Turkish => "tr"@,
            Language::MainlandChinese => "zh_CN"@,
            Language::TaiwanChinese => "zh_TW"@,
        }
    }

    open spec fn from_name(name: Seq<char>) -> Option<Language> {
        if name == "da"@ {
            Some(Language::Danish)
        } else if name == "ge"@ {
            Some(Language::German)
        } else if name == "en"@ {
            Some(Language::English)
        } else if name == "es"@ {
            Some(Language::Spanish)
        } else if name == "fi"@ {
            Some(Language::Finnish)
        } else if name == "fr"@ {
            Some(Language::French)
        } else if name == "it"@ {
            Some(Language::Italian)
        } else if name == "ja"@ {
            Some(Language::Japanese)
        } else if name == "ko"@ {
            Some(Language::Korean)
        } else if name == "nl"@ {
            Some(Language::Dutch)
        } else if name == "pl"@ {
            Some(Language::Polish)
        } else if name == "pt_BR"@ {
            Some(Language::BrazilianPortuguese)
        } else if name == "ru"@ {
            Some(Language::Russian)
        } else if name == "sv"@ {
            Some(Language::Swedish)
        } else if name == "tr"@ {
            Some(Language::Turkish)
        } else if name == "zh_CN"@ {
            Some(Language::MainlandChinese)
        } else if name == "zh_TW"@ {
            Some(Language::TaiwanChinese)
        } else {
            None
        }
    }

    fn of_name(name: &str) -> (r: Option<Language>) {
        if text_eq(name, "da") {
            Some(Language::Danish)
        } else if text_eq(name, "ge") {
            Some(Language::German)
        } else if text_eq(name, "en") {
            Some(Language::English)
        } else if text_eq(name, "es") {
            Some(Language::Spanish)
        } else if text_eq(name, "fi") {
            Some(Language::Finnish)
        } else if text_eq(name, "fr") {
            Some(Language::French)
        } else if text_eq(name, "it") {
            Some(Language::Italian)
        } else if text_eq(name, "ja") {
            Some(Language::Japanese)
        } else if text_eq(name, "ko") {
            Some(Language::Korean)
        } else if text_eq(name, "nl") {
            Some(Language::Dutch)
        } else if text_eq(name, "pl") {
            Some(Language::Polish)
        } else if text_eq(name, "pt_BR") {
            Some(Language::BrazilianPortuguese)
        } else if text_eq(name, "ru") {
            Some(Language::Russian)
        } else if text_eq(name, "sv") {
            Some(Language::Swedish)
        } else if text_eq(name, "tr") {
            Some(Language::Turkish)
        } else if text_eq(name, "zh_CN") {
            Some(Language::MainlandChinese)
        } else if text_eq(name, "zh_TW") {
            Some(Language::TaiwanChinese)
        } else {
            None
        }
    }

    proof fn lemma_name_round_trip(self) {
        reveal_strlit("da");
        assert("da"@.len() == 2 && "da"@[0] == 'd' && "da"@[1] == 'a');
        reveal_strlit("ge");
        assert("ge"@.len() == 2 && "ge"@[0] == 'g' && "ge"@[1] == 'e');
        reveal_strlit("en");
        assert("en"@.len() == 2 && "en"@[0] == 'e' && "en"@[1] == 'n');
        reveal_strlit("es");
        assert("es"@.len() == 2 && "es"@[0] == 'e' && "es"@[1] == 's');
        reveal_strlit("fi");
        assert("fi"@.len() == 2 && "fi"@[0] == 'f' && "fi"@[1] == 'i');
        reveal_strlit("fr");
        assert("fr"@.len() == 2 && "fr"@[0] == 'f' && "fr"@[1] == 'r');
        reveal_strlit("it");
        assert("it"@.len() == 2 && "it"@[0] == 'i' && "it"@[1] == 't');
        reveal_strlit("ja");
        assert("ja"@.len() == 2 && "ja"@[0] == 'j' && "ja"@[1] == 'a');
        reveal_strlit("ko");
        assert("ko"@.len() == 2 && "ko"@[0] == 'k' && "ko"@[1] == 'o');
        reveal_strlit("nl");
        assert("nl"@.len() == 2 && "nl"@[0] == 'n' && "nl"@[1] == 'l');
        reveal_strlit("pl");
        assert("pl"@.len() == 2 && "pl"@[0] == 'p' && "pl"@[1] == 'l');
        reveal_strlit("pt_BR");
        assert("pt_BR"@.len() == 5 && "pt_BR"@[0] == 'p' && "pt_BR"@[1] == 't' && "pt_BR"@[2] == '_' && "pt_BR"@[3] == 'B' && "pt_BR"@[4] == 'R');
        reveal_strlit("ru");
        assert("ru"@.len() == 2 && "ru"@[0] == 'r' && "ru"@[1] == 'u');
        reveal_strlit("sv");
        assert("sv"@.len() == 2 && "sv"@[0] == 's' && "sv"@[1] == 'v');
        reveal_strlit("tr");
        assert("tr"@.len() == 2 && "tr"@[0] == 't' && "tr"@[1] == 'r');
        reveal_strlit("zh_CN");
        assert("zh_CN"@.len() == 5 && "zh_CN"@[0] == 'z' && "zh_CN"@[1] == 'h' && "zh_CN"@[2] == '_' && "zh_CN"@[3] == 'C' && "zh_CN"@[4] == 'N');
        reveal_strlit("zh_TW");
        assert("zh_TW"@.len() == 5 && "zh_TW"@[0] == 'z' && "zh_TW"@[1] == 'h' && "zh_TW"@[2] == '_' && "zh_TW"@[3] == 'T' && "zh_TW"@[4] == 'W');
    }

    proof fn lemma_documented_name(name: Seq<char>) {
    }
}

impl Decode for Language {
    open spec fn decoded(v: JsonValue) -> Result<Language, DecodeErrorView> {
        named_of::<Language>(v)
    }

    fn decode(j: &Json) -> (r: Result<Language, DecodeError>) {
        named::<Language>(j)
    }
}

/// The channel by which a reminder reaches the user.
#[derive(Clone, Copy, Debug, PartialEq, Eq, Structural)]
pub enum Reminder {
    Email,
    Mobile,
    Push,
    NoDefault,
}

impl DeepView for Reminder {
    type V = Reminder;

    open spec fn deep_view(&self) -> Reminder {
        *self
    }
}

impl Named for Reminder {
    open spec fn name(self) -> Seq<char> {
        match self {
            Reminder::Email => "email"@,
            Reminder::Mobile => "mobile"@,
            Reminder::Push => "push"@,
            Reminder::NoDefault => "no_default"@,
        }
    }

    open spec fn from_name(name: Seq<char>) -> Option<Reminder> {
        if name == "email"@ {
            Some(Reminder::Email)
        } else if name == "mobile"@ {
            Some(Reminder::Mobile)
        } else if name == "push"@ {
            Some(Reminder::Push)
        } else if name == "no_default"@ {
            Some(Reminder::NoDefault)
        } else {
            None
        }
    }

    fn of_name(name: &str) -> (r: Option<Reminder>) {
        if text_eq(name, "email") {
            Some(Reminder::Email)
        } else if text_eq(name, "mobile") {
            Some(Reminder::Mobile)
        } else if text_eq(name, "push") {
            Some(Reminder::Push)
        } else if text_eq(name, "no_default") {
            Some(Reminder::NoDefault)
        } else {
            None
        }
    }

    proof fn lemma_name_round_trip(self) {
        reveal_strlit("email");
        assert("email"@.len() == 5 && "email"@[0] == 'e' && "email"@[1] == 'm' && "email"@[2] == 'a' && "email"@[3] == 'i' && "email"@[4] == 'l');
        reveal_strlit("mobile");
        assert("mobile"@.len() == 6 && "mobile"@[0] == 'm' && "mobile"@[1] == 'o' && "mobile"@[2] == 'b' && "mobile"@[3] == 'i' && "mobile"@[4] == 'l' && "mobile"@[5] == 'e');
        reveal_strlit("push");
        assert("push"@.len() == 4 && "push"@[0] == 'p' && "push"@[1] == 'u' && "push"@[2] == 's' && "push"@[3] == 'h');
        reveal_strlit("no_default");
        assert("no_default"@.len() == 10 && "no_default"@[0] == 'n' && "no_default"@[1] == 'o' && "no_default"@[2] == '_' && "no_default"@[3] == 'd' && "no_default"@[4] == 'e' && "no_default"@[5] == 'f' && "no_default"@[6] == 'a' && "no_default"@[7] == 'u' && "no_default"@[8] == 'l' && "no_default"@[9] == 't');
    }

    proof fn lemma_documented_name(name: Seq<char>) {
    }
}

impl Decode for Reminder {
    open spec fn decoded(v: JsonValue) -> Result<Reminder, DecodeErrorView> {
        named_of::<Reminder>(v)
    }

    fn decode(j: &Json) -> (r: Result<Reminder, DecodeError>) {
        named::<Reminder>(j)
    }
}

/// The direction in which the karma score moves.
#[derive(Clone, Copy, Debug, PartialEq, Eq, Structural)]
pub enum KarmaTrend {
    Up,
}

impl DeepView for KarmaTrend {
    type V = KarmaTrend;

    open spec fn deep_view(&self) -> KarmaTrend {
        *self
    }
}

impl Named for KarmaTrend {
    open spec fn name(self) -> Seq<char> {
        match self {
            KarmaTrend::Up => "up"@,
        }
    }

    open spec fn from_name(name: Seq<char>) -> Option<KarmaTrend> {
        if name == "up"@ {
            Some(KarmaTrend::Up)
        } else {
            None
        }
    }

    fn of_name(name: &str) -> (r: Option<KarmaTrend>) {
        if text_eq(name, "up") {
            Some(KarmaTrend::Up)
        } else {
            None
        }
    }

    proof fn lemma_name_round_trip(self) {
        reveal_strlit("up");
        assert("up"@.len() == 2 && "up"@[0] == 'u' && "up"@[1] == 'p');
    }

    proof fn lemma_documented_name(name: Seq<char>) {
    }
}

impl Decode for KarmaTrend {
    open spec fn decoded(v: JsonValue) -> Result<KarmaTrend, DecodeErrorView> {
        named_of::<KarmaTrend>(v)
    }

    fn decode(j: &Json) -> (r: Result<KarmaTrend, DecodeError>) {
        named::<KarmaTrend>(j)
    }
}

/// The standing of a collaborator in a shared project.
#[derive(Clone, Copy, Debug, PartialEq, Eq, Structural)]
pub enum CollaboratorStatus {
    Active,
    Invited,
}

impl DeepView for CollaboratorStatus {
    type V = CollaboratorStatus;

    open spec fn deep_view(&self) -> CollaboratorStatus {
        *self
    }
}

impl Named for CollaboratorStatus {
    open spec fn name(self) -> Seq<char> {
        match self {
            CollaboratorStatus::Active => "Active"@,
            CollaboratorStatus::Invited => "Invited"@,
        }
    }

    open spec fn from_name(name: Seq<char>) -> Option<CollaboratorStatus> {
        if name == "Active"@ {
            Some(CollaboratorStatus::Active)
        } else if name == "Invited"@ {
            Some(CollaboratorStatus::Invited)
        } else {
            None
        }
    }

    fn of_name(name: &str) -> (r: Option<CollaboratorStatus>) {
        if text_eq(name, "Active") {
            Some(CollaboratorStatus::Active)
        } else if text_eq(name, "Invited") {
            Some(CollaboratorStatus::Invited)
        } else {
            None
        }
    }

    proof fn lemma_name_round_trip(self) {
        reveal_strlit("Active");
        assert("Active"@.len() == 6 && "Active"@[0] == 'A' && "Active"@[1] == 'c' && "Active"@[2] == 't' && "Active"@[3] == 'i' && "Active"@[4] == 'v' && "Active"@[5] == 'e');
        reveal_strlit("Invited");
        assert("Invited"@.len() == 7 && "Invited"@[0] == 'I' && "Invited"@[1] == 'n' && "Invited"@[2] == 'v' && "Invited"@[3] == 'i' && "Invited"@[4] == 't' && "Invited"@[5] == 'e' && "Invited"@[6] == 'd');
    }

    proof fn lemma_documented_name(name: Seq<char>) {
    }
}

impl Decode for CollaboratorStatus {
    open spec fn decoded(v: JsonValue) -> Result<CollaboratorStatus, DecodeErrorView> {
        named_of::<CollaboratorStatus>(v)
    }

    fn decode(j: &Json) -> (r: Result<CollaboratorStatus, DecodeError>) {
        named::<CollaboratorStatus>(j)
    }
}

/// How far the upload of an attachment has come.
#[derive(Clone, Copy, Debug, PartialEq, Eq, Structural)]
pub enum UploadState {
    Pending,
    Completed,
}

impl DeepView for UploadState {
    type V = UploadState;

    open spec fn deep_view(&self) -> UploadState {
        *self
    }
}

impl Named for UploadState {
    open spec fn name(self) -> Seq<char> {
        match self {
            UploadState::Pending => "Pending"@,
            UploadState::Completed => "Completed"@,
        }
    }

    open spec fn from_name(name: Seq<char>) -> Option<UploadState> {
        if name == "Pending"@ {
            Some(UploadState::Pending)
        } else if name == "Completed"@ {
            Some(UploadState::Completed)
        } else {
            None
        }
    }

    fn of_name(name: &str) -> (r: Option<UploadState>) {
        if text_eq(name, "Pending") {
            Some(UploadState::Pending)
        } else if text_eq(name, "Completed") {
            Some(UploadState::Completed)
        } else {
            None
        }
    }

    proof fn lemma_name_round_trip(self) {
        reveal_strlit("Pending");
        assert("Pending"@.len() == 7 && "Pending"@[0] == 'P' && "Pending"@[1] == 'e' && "Pending"@[2] == 'n' && "Pending"@[3] == 'd' && "Pending"@[4] == 'i' && "Pending"@[5] == 'n' && "Pending"@[6] == 'g');
        reveal_strlit("Completed");
        assert("Completed"@.len() == 9 && "Completed"@[0] == 'C' && "Completed"@[1] == 'o' && "Completed"@[2] == 'm' && "Completed"@[3] == 'p' && "Completed"@[4] == 'l' && "Completed"@[5] == 'e' && "Completed"@[6] == 't' && "Completed"@[7] == 'e' && "Completed"@[8] == 'd');
    }

    proof fn lemma_documented_name(name: Seq<char>) {
    }
}

impl Decode for UploadState {
    open spec fn decoded(v: JsonValue) -> Result<UploadState, DecodeErrorView> {
        named_of::<UploadState>(v)
    }

    fn decode(j: &Json) -> (r: Result<UploadState, DecodeError>) {
        named::<UploadState>(j)
    }
}

/// The page that the user starts on. The wire carries no tag for it: the
/// variant is the first whose shape the value has.
#[derive(Debug, PartialEq, Eq)]
pub enum Page {
    InfoPage,
    Blank,
    Query(String),
}

/// The model of a [`Page`].
pub enum PageView {
    InfoPage,
    Blank,
    Query(Seq<char>),
}

impl DeepView for Page {
    type V = PageView;

    open spec fn deep_view(&self) -> PageView {
        match self {
            Page::InfoPage => PageView::InfoPage,
            Page::Blank => PageView::Blank,
            Page::Query(text) => PageView::Query(text@),
        }
    }
}

impl Page {
    /// The shape of the info page: no payload.
    pub open spec fn info_page_shape(v: JsonValue) -> bool {
        v is Null
    }

    /// The shape of the blank page: no payload.
    pub open spec fn blank_shape(v: JsonValue) -> bool {
        v is Null
    }

    /// The shape of a query: a text.
    pub open spec fn query_shape(v: JsonValue) -> bool {
        v is Text
    }
}

impl Decode for Page {
    open spec fn decoded(v: JsonValue) -> Result<PageView, DecodeErrorView> {
        if Page::info_page_shape(v) {
            Ok(PageView::InfoPage)
        } else if Page::blank_shape(v) {
            Ok(PageView::Blank)
        } else if Page::query_shape(v) {
            Ok(PageView::Query(v->Text_0))
        } else {
            Err(DecodeErrorView::here(Fault::Mismatch(Expected::Page)))
        }
    }

    fn decode(j: &Json) -> (r: Result<Page, DecodeError>) {
        match j {
            Json::Null => Ok(Page::InfoPage),
            Json::Text(text) => Ok(Page::Query(text.clone())),
            _ => Err(DecodeError::here(Fault::Mismatch(Expected::Page))),
        }
    }
}

/// A start page is a query exactly when the value is a text, and then the
/// query is that text; a value without payload is the info page, the first
/// variant of that shape; every other value is rejected.
pub proof fn lemma_page_by_shape(v: JsonValue)
    ensures
        v matches JsonValue::Text(text) ==> Page::decoded(v) == Ok::<PageView, DecodeErrorView>(
            PageView::Query(text),
        ),
        Page::decoded(v) matches Ok(PageView::Query(_)) ==> v is Text,
        v is Null <==> Page::decoded(v) == Ok::<PageView, DecodeErrorView>(PageView::InfoPage),
        Page::decoded(v) != Ok::<PageView, DecodeErrorView>(PageView::Blank),
        !(v is Text) && !(v is Null) ==> Page::decoded(v) == Err::<PageView, DecodeErrorView>(
            DecodeErrorView::here(Fault::Mismatch(Expected::Page)),
        ),
{
}

} // verus!
