//! The profile of the user and what belongs to it.

use vstd::prelude::*;

use crate::codes::{DateFormat, Day, Flag, SortOrder, Theme, TimeFormat};
use crate::decode::{
    Decode, defaulted, defaulted_of, failure, Fields, first_failure, first_failure_from,
    lemma_absent_required, lemma_first_failure, missing, none_before, optional, optional_of,
    record, record_of, required, required_of,
};
use crate::error::{DecodeError, DecodeErrorView};
use crate::ids::{BusinessAccountId, ProjectId, UserId};
use crate::json::{Json, JsonValue, member, members_model, Numeral};
use crate::names::{KarmaTrend, Language, Page, PageView, Reminder};

verus! {

/// Features of the service that are switched on or off for the user.
#[derive(Debug, PartialEq, Eq)]
pub struct Features {
    /// Whether the user takes part in the beta.
    pub beta: Flag,
    /// Whether dates are no longer recognised while typing.
    pub dateist_inline_disabled: bool,
    /// The language in which dates are recognised.
    pub dateist_lang: Option<Language>,
    /// Whether the gold theme is unlocked.
    pub gold_theme: bool,
    /// Whether reminders can be pushed to a device.
    pub has_push_reminders: bool,
    /// Whether karma is switched off.
    pub karma_disabled: bool,
    /// Whether karma is paused for a vacation.
    pub karma_vacation: bool,
    /// The restriction level of the account.
    pub restriction: u64,
}

/// The model of [`Features`].
pub struct FeaturesView {
    pub beta: Flag,
    pub dateist_inline_disabled: bool,
    pub dateist_lang: Option<Language>,
    pub gold_theme: bool,
    pub has_push_reminders: bool,
    pub karma_disabled: bool,
    pub karma_vacation: bool,
    pub restriction: u64,
}

impl DeepView for Features {
    type V = FeaturesView;

    open spec fn deep_view(&self) -> FeaturesView {
        FeaturesView {
            beta: self.beta.deep_view(),
            dateist_inline_disabled: self.dateist_inline_disabled.deep_view(),
            dateist_lang: self.dateist_lang.deep_view(),
            gold_theme: self.gold_theme.deep_view(),
            has_push_reminders: self.has_push_reminders.deep_view(),
            karma_disabled: self.karma_disabled.deep_view(),
            karma_vacation: self.karma_vacation.deep_view(),
            restriction: self.restriction.deep_view(),
        }
    }
}

impl Features {
    /// The failure of each field, in the order in which the fields are declared.
    pub open spec fn faults(fields: Fields) -> Seq<Option<DecodeErrorView>> {
        seq![
            failure(required_of::<Flag>(fields, "beta"@)),
            failure(required_of::<bool>(fields, "dateist_inline_disabled"@)),
            failure(optional_of::<Language>(fields, "dateist_lang"@)),
            failure(defaulted_of::<bool>(fields, "gold_theme"@, false)),
            failure(required_of::<bool>(fields, "has_push_reminders"@)),
            failure(required_of::<bool>(fields, "karma_disabled"@)),
            failure(required_of::<bool>(fields, "karma_vacation"@)),
            failure(required_of::<u64>(fields, "restriction"@)),
        ]
    }

    /// The record that the fields make where none of them fails.
    pub open spec fn assembled(fields: Fields) -> FeaturesView {
        FeaturesView {
            beta: required_of::<Flag>(fields, "beta"@)->Ok_0,
            dateist_inline_disabled: required_of::<bool>(fields, "dateist_inline_disabled"@)->Ok_0,
            dateist_lang: optional_of::<Language>(fields, "dateist_lang"@)->Ok_0,
            gold_theme: defaulted_of::<bool>(fields, "gold_theme"@, false)->Ok_0,
            has_push_reminders: required_of::<bool>(fields, "has_push_reminders"@)->Ok_0,
            karma_disabled: required_of::<bool>(fields, "karma_disabled"@)->Ok_0,
            karma_vacation: required_of::<bool>(fields, "karma_vacation"@)->Ok_0,
            restriction: required_of::<u64>(fields, "restriction"@)->Ok_0,
        }
    }

    /// The key of the field at a place, the fields counted from zero as they
    /// are declared.
    pub open spec fn key_at(place: int) -> Seq<char> {
        if place == 0 {
            "beta"@
        } else if place == 1 {
            "dateist_inline_disabled"@
        } else if place == 2 {
            "dateist_lang"@
        } else if place == 3 {
            "gold_theme"@
        } else if place == 4 {
            "has_push_reminders"@
        } else if place == 5 {
            "karma_disabled"@
        } else if place == 6 {
            "karma_vacation"@
        } else {
            "restriction"@
        }
    }

    /// Whether the field at a place is required.
    pub open spec fn required_at(place: int) -> bool {
        place == 0 || place == 1 || place == 4 || place == 5 || place == 6 || place == 7
    }

    /// A record that lacks a required field does not decode. Since a record
    /// fails as the first of its fields that fails, the failure names the
    /// lacking field unless a field declared before it fails.
    pub proof fn lemma_missing_field(fields: Fields, place: int)
        requires
            Features::required_at(place),
            member(fields, Features::key_at(place)) is None,
        ensures
            Features::decoded(JsonValue::Object(fields)) is Err,
            none_before(Features::faults(fields), place) ==> Features::decoded(JsonValue::Object(fields))
                == Err::<FeaturesView, DecodeErrorView>(missing(Features::key_at(place))),
    {
        let key = Features::key_at(place);
        lemma_first_failure(Features::faults(fields));
        if place == 0 {
            lemma_absent_required::<Flag>(fields, key);
            assert(Features::faults(fields)[0] == Some(missing(key)));
        } else if place == 1 {
            lemma_absent_required::<bool>(fields, key);
            assert(Features::faults(fields)[1] == Some(missing(key)));
        } else if place == 4 {
            lemma_absent_required::<bool>(fields, key);
            assert(Features::faults(fields)[4] == Some(missing(key)));
        } else if place == 5 {
            lemma_absent_required::<bool>(fields, key);
            assert(Features::faults(fields)[5] == Some(missing(key)));
        } else if place == 6 {
            lemma_absent_required::<bool>(fields, key);
            assert(Features::faults(fields)[6] == Some(missing(key)));
        } else if place == 7 {
            lemma_absent_required::<u64>(fields, key);
            assert(Features::faults(fields)[7] == Some(missing(key)));
        }
    }

    /// A record with none of its optional members decodes whenever its required
    /// fields do, and then every optional field has no value and every field
    /// with a default has its default.
    pub proof fn lemma_minimal(fields: Fields)
        requires
            member(fields, "dateist_lang"@) is None,
            member(fields, "gold_theme"@) is None,
            required_of::<Flag>(fields, "beta"@) is Ok,
            required_of::<bool>(fields, "dateist_inline_disabled"@) is Ok,
            required_of::<bool>(fields, "has_push_reminders"@) is Ok,
            required_of::<bool>(fields, "karma_disabled"@) is Ok,
            required_of::<bool>(fields, "karma_vacation"@) is Ok,
            required_of::<u64>(fields, "restriction"@) is Ok,
        ensures
            Features::decoded(JsonValue::Object(fields)) is Ok,
            Features::decoded(JsonValue::Object(fields))->Ok_0.dateist_lang is None,
            !Features::decoded(JsonValue::Object(fields))->Ok_0.gold_theme,
    {
        lemma_first_failure(Features::faults(fields));
    }
}

impl Decode for Features {
    open spec fn decoded(v: JsonValue) -> Result<FeaturesView, DecodeErrorView> {
        match record_of(v) {
            Ok(fields) => match first_failure(Features::faults(fields)) {
                Some(e) => Err(e),
                None => Ok(Features::assembled(fields)),
            },
            Err(e) => Err(e),
        }
    }

    fn decode(j: &Json) -> (r: Result<Features, DecodeError>) {
        let fields = record(j)?;
        let ghost faults = Features::faults(members_model(fields@));
        let beta = required::<Flag>(fields, "beta")?;
        assert(first_failure(faults) == first_failure_from(faults, 1));
        let dateist_inline_disabled = required::<bool>(fields, "dateist_inline_disabled")?;
        assert(first_failure(faults) == first_failure_from(faults, 2));
        let dateist_lang = optional::<Language>(fields, "dateist_lang")?;
        assert(first_failure(faults) == first_failure_from(faults, 3));
        let gold_theme = defaulted::<bool>(fields, "gold_theme", false)?;
        assert(first_failure(faults) == first_failure_from(faults, 4));
        let has_push_reminders = required::<bool>(fields, "has_push_reminders")?;
        assert(first_failure(faults) == first_failure_from(faults, 5));
        let karma_disabled = required::<bool>(fields, "karma_disabled")?;
        assert(first_failure(faults) == first_failure_from(faults, 6));
        let karma_vacation = required::<bool>(fields, "karma_vacation")?;
        assert(first_failure(faults) == first_failure_from(faults, 7));
        let restriction = required::<u64>(fields, "restriction")?;
        assert(first_failure(faults) == first_failure_from(faults, 8));
        Ok(Features {
            beta,
            dateist_inline_disabled,
            dateist_lang,
            gold_theme,
            has_push_reminders,
            karma_disabled,
            karma_vacation,
            restriction,
        })
    }
}

/// The time zone of the user.
#[derive(Debug, PartialEq, Eq)]
pub struct TimezoneInfo {
    /// The offset from GMT, as text.
    pub gmt_string: String,
    /// The hours of the offset.
    pub hours: i8,
    /// Whether daylight saving time is in force.
    pub is_dst: Flag,
    /// The minutes of the offset.
    pub minutes: u8,
    /// The name of the time zone.
    pub timezone: String,
}

/// The model of [`TimezoneInfo`].
pub struct TimezoneInfoView {
    pub gmt_string: Seq<char>,
    pub hours: i8,
    pub is_dst: Flag,
    pub minutes: u8,
    pub timezone: Seq<char>,
}

impl DeepView for TimezoneInfo {
    type V = TimezoneInfoView;

    open spec fn deep_view(&self) -> TimezoneInfoView {
        TimezoneInfoView {
            gmt_string: self.gmt_string.deep_view(),
            hours: self.hours.deep_view(),
            is_dst: self.is_dst.deep_view(),
            minutes: self.minutes.deep_view(),
            timezone: self.timezone.deep_view(),
        }
    }
}

impl TimezoneInfo {
    /// The failure of each field, in the order in which the fields are declared.
    pub open spec fn faults(fields: Fields) -> Seq<Option<DecodeErrorView>> {
        seq![
            failure(required_of::<String>(fields, "gmt_string"@)),
            failure(required_of::<i8>(fields, "hours"@)),
            failure(required_of::<Flag>(fields, "is_dst"@)),
            failure(required_of::<u8>(fields, "minutes"@)),
            failure(required_of::<String>(fields, "timezone"@)),
        ]
    }

    /// The record that the fields make where none of them fails.
    pub open spec fn assembled(fields: Fields) -> TimezoneInfoView {
        TimezoneInfoView {
            gmt_string: required_of::<String>(fields, "gmt_string"@)->Ok_0,
            hours: required_of::<i8>(fields, "hours"@)->Ok_0,
            is_dst: required_of::<Flag>(fields, "is_dst"@)->Ok_0,
            minutes: required_of::<u8>(fields, "minutes"@)->Ok_0,
            timezone: required_of::<String>(fields, "timezone"@)->Ok_0,
        }
    }

    /// The key of the field at a place, the fields counted from zero as they
    /// are declared.
    pub open spec fn key_at(place: int) -> Seq<char> {
        if place == 0 {
            "gmt_string"@
        } else if place == 1 {
            "hours"@
        } else if place == 2 {
            "is_dst"@
        } else if place == 3 {
            "minutes"@
        } else {
            "timezone"@
        }
    }

    /// Whether the field at a place is required.
    pub open spec fn required_at(place: int) -> bool {
        place == 0 || place == 1 || place == 2 || place == 3 || place == 4
    }

    /// A record that lacks a required field does not decode. Since a record
    /// fails as the first of its fields that fails, the failure names the
    /// lacking field unless a field declared before it fails.
    pub proof fn lemma_missing_field(fields: Fields, place: int)
        requires
            TimezoneInfo::required_at(place),
            member(fields, TimezoneInfo::key_at(place)) is None,
        ensures
            TimezoneInfo::decoded(JsonValue::Object(fields)) is Err,
            none_before(TimezoneInfo::faults(fields), place) ==> TimezoneInfo::decoded(JsonValue::Object(fields))
                == Err::<TimezoneInfoView, DecodeErrorView>(missing(TimezoneInfo::key_at(place))),
    {
        let key = TimezoneInfo::key_at(place);
        lemma_first_failure(TimezoneInfo::faults(fields));
        if place == 0 {
            lemma_absent_required::<String>(fields, key);
            assert(TimezoneInfo::faults(fields)[0] == Some(missing(key)));
        } else if place == 1 {
            lemma_absent_required::<i8>(fields, key);
            assert(TimezoneInfo::faults(fields)[1] == Some(missing(key)));
        } else if place == 2 {
            lemma_absent_required::<Flag>(fields, key);
            assert(TimezoneInfo::faults(fields)[2] == Some(missing(key)));
        } else if place == 3 {
            lemma_absent_required::<u8>(fields, key);
            assert(TimezoneInfo::faults(fields)[3] == Some(missing(key)));
        } else if place == 4 {
            lemma_absent_required::<String>(fields, key);
            assert(TimezoneInfo::faults(fields)[4] == Some(missing(key)));
        }
    }
}

impl Decode for TimezoneInfo {
    open spec fn decoded(v: JsonValue) -> Result<TimezoneInfoView, DecodeErrorView> {
        match record_of(v) {
            Ok(fields) => match first_failure(TimezoneInfo::faults(fields)) {
                Some(e) => Err(e),
                None => Ok(TimezoneInfo::assembled(fields)),
            },
            Err(e) => Err(e),
        }
    }

    fn decode(j: &Json) -> (r: Result<TimezoneInfo, DecodeError>) {
        let fields = record(j)?;
        let ghost faults = TimezoneInfo::faults(members_model(fields@));
        let gmt_string = required::<String>(fields, "gmt_string")?;
        assert(first_failure(faults) == first_failure_from(faults, 1));
        let hours = required::<i8>(fields, "hours")?;
        assert(first_failure(faults) == first_failure_from(faults, 2));
        let is_dst = required::<Flag>(fields, "is_dst")?;
        assert(first_failure(faults) == first_failure_from(faults, 3));
        let minutes = required::<u8>(fields, "minutes")?;
        assert(first_failure(faults) == first_failure_from(faults, 4));
        let timezone = required::<String>(fields, "timezone")?;
        assert(first_failure(faults) == first_failure_from(faults, 5));
        Ok(TimezoneInfo {
            gmt_string,
            hours,
            is_dst,
            minutes,
            timezone,
        })
    }
}

/// The channels on which the user is reminded.
#[derive(Debug, PartialEq, Eq)]
pub struct UserSettings {
    /// Reminders by push message.
    pub reminder_push: bool,
    /// Reminders by text message.
    pub reminder_sms: bool,
    /// Reminders on the desktop.
    pub reminder_desktop: bool,
    /// Reminders by e-mail.
    pub reminder_email: bool,
}

/// The model of [`UserSettings`].
pub struct UserSettingsView {
    pub reminder_push: bool,
    pub reminder_sms: bool,
    pub reminder_desktop: bool,
    pub reminder_email: bool,
}

impl DeepView for UserSettings {
    type V = UserSettingsView;

    open spec fn deep_view(&self) -> UserSettingsView {
        UserSettingsView {
            reminder_push: self.reminder_push.deep_view(),
            reminder_sms: self.reminder_sms.deep_view(),
            reminder_desktop: self.reminder_desktop.deep_view(),
            reminder_email: self.reminder_email.deep_view(),
        }
    }
}

impl UserSettings {
    /// The failure of each field, in the order in which the fields are declared.
    pub open spec fn faults(fields: Fields) -> Seq<Option<DecodeErrorView>> {
        seq![
            failure(required_of::<bool>(fields, "reminder_push"@)),
            failure(defaulted_of::<bool>(fields, "reminder_sms"@, false)),
            failure(required_of::<bool>(fields, "reminder_desktop"@)),
            failure(required_of::<bool>(fields, "reminder_email"@)),
        ]
    }

    /// The record that the fields make where none of them fails.
    pub open spec fn assembled(fields: Fields) -> UserSettingsView {
        UserSettingsView {
            reminder_push: required_of::<bool>(fields, "reminder_push"@)->Ok_0,
            reminder_sms: defaulted_of::<bool>(fields, "reminder_sms"@, false)->Ok_0,
            reminder_desktop: required_of::<bool>(fields, "reminder_desktop"@)->Ok_0,
            reminder_email: required_of::<bool>(fields, "reminder_email"@)->Ok_0,
        }
    }

    /// The key of the field at a place, the fields counted from zero as they
    /// are declared.
    pub open spec fn key_at(place: int) -> Seq<char> {
        if place == 0 {
            "reminder_push"@
        } else if place == 1 {
            "reminder_sms"@
        } else if place == 2 {
            "reminder_desktop"@
        } else {
            "reminder_email"@
        }
    }

    /// Whether the field at a place is required.
    pub open spec fn required_at(place: int) -> bool {
        place == 0 || place == 2 || place == 3
    }

    /// A record that lacks a required field does not decode. Since a record
    /// fails as the first of its fields that fails, the failure names the
    /// lacking field unless a field declared before it fails.
    pub proof fn lemma_missing_field(fields: Fields, place: int)
        requires
            UserSettings::required_at(place),
            member(fields, UserSettings::key_at(place)) is None,
        ensures
            UserSettings::decoded(JsonValue::Object(fields)) is Err,
            none_before(UserSettings::faults(fields), place) ==> UserSettings::decoded(JsonValue::Object(fields))
                == Err::<UserSettingsView, DecodeErrorView>(missing(UserSettings::key_at(place))),
    {
        let key = UserSettings::key_at(place);
        lemma_first_failure(UserSettings::faults(fields));
        if place == 0 {
            lemma_absent_required::<bool>(fields, key);
            assert(UserSettings::faults(fields)[0] == Some(missing(key)));
        } else if place == 2 {
            lemma_absent_required::<bool>(fields, key);
            assert(UserSettings::faults(fields)[2] == Some(missing(key)));
        } else if place == 3 {
            lemma_absent_required::<bool>(fields, key);
            assert(UserSettings::faults(fields)[3] == Some(missing(key)));
        }
    }

    /// A record with none of its optional members decodes whenever its required
    /// fields do, and then every optional field has no value and every field
    /// with a default has its default.
    pub proof fn lemma_minimal(fields: Fields)
        requires
            member(fields, "reminder_sms"@) is None,
            required_of::<bool>(fields, "reminder_push"@) is Ok,
            required_of::<bool>(fields, "reminder_desktop"@) is Ok,
            required_of::<bool>(fields, "reminder_email"@) is Ok,
        ensures
            UserSettings::decoded(JsonValue::Object(fields)) is Ok,
            !UserSettings::decoded(JsonValue::Object(fields))->Ok_0.reminder_sms,
    {
        lemma_first_failure(UserSettings::faults(fields));
    }
}

impl Decode for UserSettings {
    open spec fn decoded(v: JsonValue) -> Result<UserSettingsView, DecodeErrorView> {
        match record_of(v) {
            Ok(fields) => match first_failure(UserSettings::faults(fields)) {
                Some(e) => Err(e),
                None => Ok(UserSettings::assembled(fields)),
            },
            Err(e) => Err(e),
        }
    }

    fn decode(j: &Json) -> (r: Result<UserSettings, DecodeError>) {
        let fields = record(j)?;
        let ghost faults = UserSettings::faults(members_model(fields@));
        let reminder_push = required::<bool>(fields, "reminder_push")?;
        assert(first_failure(faults) == first_failure_from(faults, 1));
        let reminder_sms = defaulted::<bool>(fields, "reminder_sms", false)?;
        assert(first_failure(faults) == first_failure_from(faults, 2));
        let reminder_desktop = required::<bool>(fields, "reminder_desktop")?;
        assert(first_failure(faults) == first_failure_from(faults, 3));
        let reminder_email = required::<bool>(fields, "reminder_email")?;
        assert(first_failure(faults) == first_failure_from(faults, 4));
        Ok(UserSettings {
            reminder_push,
            reminder_sms,
            reminder_desktop,
            reminder_email,
        })
    }
}

/// The profile of the user whose snapshot this is.
#[derive(Debug, PartialEq, Eq)]
pub struct UserProfile {
    /// The minutes before a due time at which a reminder is set by default.
    pub auto_reminder: u64,
    /// The address of the large avatar.
    pub avatar_big: String,
    /// The address of the medium avatar.
    pub avatar_medium: String,
    /// The address of the largest avatar.
    pub avatar_s640: String,
    /// The address of the small avatar.
    pub avatar_small: String,
    /// The business account of the user.
    pub business_account_id: Option<BusinessAccountId>,
    /// The number of tasks to complete in a day.
    pub daily_goal: u64,
    /// How dates are shown.
    pub date_format: DateFormat,
    /// Whether dates are no longer recognised while typing.
    pub dateist_inline_disabled: bool,
    /// The language in which dates are recognised.
    pub dateist_lang: Option<Language>,
    /// The days on which the user does not work.
    pub days_off: Vec<Day>,
    /// The channel of reminders set by default.
    pub default_reminder: Reminder,
    /// The e-mail address.
    pub email: String,
    /// What is switched on for the user.
    pub features: Features,
    /// The name of the user.
    pub full_name: String,
    /// The identifier of the user.
    pub id: UserId,
    /// The identifier of the avatar image.
    pub image_id: Option<String>,
    /// The project that is the inbox.
    pub inbox_project: ProjectId,
    /// Whether the user administers a business account.
    pub is_biz_admin: bool,
    /// Whether the user has a premium account.
    pub is_premium: bool,
    /// When the user joined.
    pub join_date: String,
    /// The karma score.
    pub karma: Numeral,
    /// The direction of the karma score.
    pub karma_trend: KarmaTrend,
    /// The language of the user.
    pub lang: Language,
    /// The host of the mobile number.
    pub mobile_host: Option<String>,
    /// The mobile number.
    pub mobile_number: Option<String>,
    /// The day that "next week" means.
    pub next_week: Day,
    /// When the premium account ends.
    pub premium_until: Option<String>,
    /// The order of dated entries.
    pub sort_order: SortOrder,
    /// The first day of the week.
    pub start_day: Day,
    /// The page that the user starts on.
    pub start_page: Page,
    /// The project that is the inbox of the team.
    pub team_inbox: Option<ProjectId>,
    /// The colour theme.
    pub theme: Theme,
    /// How the time of day is shown.
    pub time_format: TimeFormat,
    /// The token of the user.
    pub token: String,
    /// The time zone.
    pub tz_info: TimezoneInfo,
    /// The number of tasks to complete in a week.
    pub weekly_goal: u64,
}

/// The model of [`UserProfile`].
pub struct UserProfileView {
    pub auto_reminder: u64,
    pub avatar_big: Seq<char>,
    pub avatar_medium: Seq<char>,
    pub avatar_s640: Seq<char>,
    pub avatar_small: Seq<char>,
    pub business_account_id: Option<BusinessAccountId>,
    pub daily_goal: u64,
    pub date_format: DateFormat,
    pub dateist_inline_disabled: bool,
    pub dateist_lang: Option<Language>,
    pub days_off: Seq<Day>,
    pub default_reminder: Reminder,
    pub email: Seq<char>,
    pub features: FeaturesView,
    pub full_name: Seq<char>,
    pub id: UserId,
    pub image_id: Option<Seq<char>>,
    pub inbox_project: ProjectId,
    pub is_biz_admin: bool,
    pub is_premium: bool,
    pub join_date: Seq<char>,
    pub karma: Numeral,
    pub karma_trend: KarmaTrend,
    pub lang: Language,
    pub mobile_host: Option<Seq<char>>,
    pub mobile_number: Option<Seq<char>>,
    pub next_week: Day,
    pub premium_until: Option<Seq<char>>,
    pub sort_order: SortOrder,
    pub start_day: Day,
    pub start_page: PageView,
    pub team_inbox: Option<ProjectId>,
    pub theme: Theme,
    pub time_format: TimeFormat,
    pub token: Seq<char>,
    pub tz_info: TimezoneInfoView,
    pub weekly_goal: u64,
}

impl DeepView for UserProfile {
    type V = UserProfileView;

    open spec fn deep_view(&self) -> UserProfileView {
        UserProfileView {
            auto_reminder: self.auto_reminder.deep_view(),
            avatar_big: self.avatar_big.deep_view(),
            avatar_medium: self.avatar_medium.deep_view(),
            avatar_s640: self.avatar_s640.deep_view(),
            avatar_small: self.avatar_small.deep_view(),
            business_account_id: self.business_account_id.deep_view(),
            daily_goal: self.daily_goal.deep_view(),
            date_format: self.date_format.deep_view(),
            dateist_inline_disabled: self.dateist_inline_disabled.deep_view(),
            dateist_lang: self.dateist_lang.deep_view(),
            days_off: self.days_off.deep_view(),
            default_reminder: self.default_reminder.deep_view(),
            email: self.email.deep_view(),
            features: self.features.deep_view(),
            full_name: self.full_name.deep_view(),
            id: self.id.deep_view(),
            image_id: self.image_id.deep_view(),
            inbox_project: self.inbox_project.deep_view(),
            is_biz_admin: self.is_biz_admin.deep_view(),
            is_premium: self.is_premium.deep_view(),
            join_date: self.join_date.deep_view(),
            karma: self.karma.deep_view(),
            karma_trend: self.karma_trend.deep_view(),
            lang: self.lang.deep_view(),
            mobile_host: self.mobile_host.deep_view(),
            mobile_number: self.mobile_number.deep_view(),
            next_week: self.next_week.deep_view(),
            premium_until: self.premium_until.deep_view(),
            sort_order: self.sort_order.deep_view(),
            start_day: self.start_day.deep_view(),
            start_page: self.start_page.deep_view(),
            team_inbox: self.team_inbox.deep_view(),
            theme: self.theme.deep_view(),
            time_format: self.time_format.deep_view(),
            token: self.token.deep_view(),
            tz_info: self.tz_info.deep_view(),
            weekly_goal: self.weekly_goal.deep_view(),
        }
    }
}

impl UserProfile {
    /// The failure of each field, in the order in which the fields are declared.
    pub open spec fn faults(fields: Fields) -> Seq<Option<DecodeErrorView>> {
        seq![
            failure(required_of::<u64>(fields, "auto_reminder"@)),
            failure(required_of::<String>(fields, "avatar_big"@)),
            failure(required_of::<String>(fields, "avatar_medium"@)),
            failure(required_of::<String>(fields, "avatar_s640"@)),
            failure(required_of::<String>(fields, "avatar_small"@)),
            failure(optional_of::<BusinessAccountId>(fields, "business_account_id"@)),
            failure(required_of::<u64>(fields, "daily_goal"@)),
            failure(required_of::<DateFormat>(fields, "date_format"@)),
            failure(required_of::<bool>(fields, "dateist_inline_disabled"@)),
            failure(optional_of::<Language>(fields, "dateist_lang"@)),
            failure(required_of::<Vec<Day>>(fields, "days_off"@)),
            failure(required_of::<Reminder>(fields, "default_reminder"@)),
            failure(required_of::<String>(fields, "email"@)),
            failure(required_of::<Features>(fields, "features"@)),
            failure(required_of::<String>(fields, "full_name"@)),
            failure(required_of::<UserId>(fields, "id"@)),
            failure(optional_of::<String>(fields, "image_id"@)),
            failure(required_of::<ProjectId>(fields, "inbox_project"@)),
            failure(required_of::<bool>(fields, "is_biz_admin"@)),
            failure(required_of::<bool>(fields, "is_premium"@)),
            failure(required_of::<String>(fields, "join_date"@)),
            failure(required_of::<Numeral>(fields, "karma"@)),
            failure(required_of::<KarmaTrend>(fields, "karma_trend"@)),
            failure(required_of::<Language>(fields, "lang"@)),
            failure(optional_of::<String>(fields, "mobile_host"@)),
            failure(optional_of::<String>(fields, "mobile_number"@)),
            failure(required_of::<Day>(fields, "next_week"@)),
            failure(optional_of::<String>(fields, "premium_until"@)),
            failure(required_of::<SortOrder>(fields, "sort_order"@)),
            failure(required_of::<Day>(fields, "start_day"@)),
            failure(required_of::<Page>(fields, "start_page"@)),
            failure(optional_of::<ProjectId>(fields, "team_inbox"@)),
            failure(required_of::<Theme>(fields, "theme"@)),
            failure(required_of::<TimeFormat>(fields, "time_format"@)),
            failure(required_of::<String>(fields, "token"@)),
            failure(required_of::<TimezoneInfo>(fields, "tz_info"@)),
            failure(required_of::<u64>(fields, "weekly_goal"@)),
        ]
    }

    /// The record that the fields make where none of them fails.
    pub open spec fn assembled(fields: Fields) -> UserProfileView {
        UserProfileView {
            auto_reminder: required_of::<u64>(fields, "auto_reminder"@)->Ok_0,
            avatar_big: required_of::<String>(fields, "avatar_big"@)->Ok_0,
            avatar_medium: required_of::<String>(fields, "avatar_medium"@)->Ok_0,
            avatar_s640: required_of::<String>(fields, "avatar_s640"@)->Ok_0,
            avatar_small: required_of::<String>(fields, "avatar_small"@)->Ok_0,
            business_account_id: optional_of::<BusinessAccountId>(fields, "business_account_id"@)->Ok_0,
            daily_goal: required_of::<u64>(fields, "daily_goal"@)->Ok_0,
            date_format: required_of::<DateFormat>(fields, "date_format"@)->Ok_0,
            dateist_inline_disabled: required_of::<bool>(fields, "dateist_inline_disabled"@)->Ok_0,
            dateist_lang: optional_of::<Language>(fields, "dateist_lang"@)->Ok_0,
            days_off: required_of::<Vec<Day>>(fields, "days_off"@)->Ok_0,
            default_reminder: required_of::<Reminder>(fields, "default_reminder"@)->Ok_0,
            email: required_of::<String>(fields, "email"@)->Ok_0,
            features: required_of::<Features>(fields, "features"@)->Ok_0,
            full_name: required_of::<String>(fields, "full_name"@)->Ok_0,
            id: required_of::<UserId>(fields, "id"@)->Ok_0,
            image_id: optional_of::<String>(fields, "image_id"@)->Ok_0,
            inbox_project: required_of::<ProjectId>(fields, "inbox_project"@)->Ok_0,
            is_biz_admin: required_of::<bool>(fields, "is_biz_admin"@)->Ok_0,
            is_premium: required_of::<bool>(fields, "is_premium"@)->Ok_0,
            join_date: required_of::<String>(fields, "join_date"@)->Ok_0,
            karma: required_of::<Numeral>(fields, "karma"@)->Ok_0,
            karma_trend: required_of::<KarmaTrend>(fields, "karma_trend"@)->Ok_0,
            lang: required_of::<Language>(fields, "lang"@)->Ok_0,
            mobile_host: optional_of::<String>(fields, "mobile_host"@)->Ok_0,
            mobile_number: optional_of::<String>(fields, "mobile_number"@)->Ok_0,
            next_week: required_of::<Day>(fields, "next_week"@)->Ok_0,
            premium_until: optional_of::<String>(fields, "premium_until"@)->Ok_0,
            sort_order: required_of::<SortOrder>(fields, "sort_order"@)->Ok_0,
            start_day: required_of::<Day>(fields, "start_day"@)->Ok_0,
            start_page: required_of::<Page>(fields, "start_page"@)->Ok_0,
            team_inbox: optional_of::<ProjectId>(fields, "team_inbox"@)->Ok_0,
            theme: required_of::<Theme>(fields, "theme"@)->Ok_0,
            time_format: required_of::<TimeFormat>(fields, "time_format"@)->Ok_0,
            token: required_of::<String>(fields, "token"@)->Ok_0,
            tz_info: required_of::<TimezoneInfo>(fields, "tz_info"@)->Ok_0,
            weekly_goal: required_of::<u64>(fields, "weekly_goal"@)->Ok_0,
        }
    }

    /// The key of the field at a place, the fields counted from zero as they
    /// are declared.
    pub open spec fn key_at(place: int) -> Seq<char> {
        if place == 0 {
            "auto_reminder"@
        } else if place == 1 {
            "avatar_big"@
        } else if place == 2 {
            "avatar_medium"@
        } else if place == 3 {
            "avatar_s640"@
        } else if place == 4 {
            "avatar_small"@
        } else if place == 5 {
            "business_account_id"@
        } else if place == 6 {
            "daily_goal"@
        } else if place == 7 {
            "date_format"@
        } else if place == 8 {
            "dateist_inline_disabled"@
        } else if place == 9 {
            "dateist_lang"@
        } else if place == 10 {
            "days_off"@
        } else if place == 11 {
            "default_reminder"@
        } else if place == 12 {
            "email"@
        } else if place == 13 {
            "features"@
        } else if place == 14 {
            "full_name"@
        } else if place == 15 {
            "id"@
        } else if place == 16 {
            "image_id"@
        } else if place == 17 {
            "inbox_project"@
        } else if place == 18 {
            "is_biz_admin"@
        } else if place == 19 {
            "is_premium"@
        } else if place == 20 {
            "join_date"@
        } else if place == 21 {
            "karma"@
        } else if place == 22 {
            "karma_trend"@
        } else if place == 23 {
            "lang"@
        } else if place == 24 {
            "mobile_host"@
        } else if place == 25 {
            "mobile_number"@
        } else if place == 26 {
            "next_week"@
        } else if place == 27 {
            "premium_until"@
        } else if place == 28 {
            "sort_order"@
        } else if place == 29 {
            "start_day"@
        } else if place == 30 {
            "start_page"@
        } else if place == 31 {
            "team_inbox"@
        } else if place == 32 {
            "theme"@
        } else if place == 33 {
            "time_format"@
        } else if place == 34 {
            "token"@
        } else if place == 35 {
            "tz_info"@
        } else {
            "weekly_goal"@
        }
    }

    /// Whether the field at a place is required.
    pub open spec fn required_at(place: int) -> bool {
        place == 0 || place == 1 || place == 2 || place == 3 || place == 4 || place == 6
            || place == 7 || place == 8 || place == 10 || place == 11 || place == 12 || place == 13
            || place == 14 || place == 15 || place == 17 || place == 18 || place == 19
            || place == 20 || place == 21 || place == 22 || place == 23 || place == 26
            || place == 28 || place == 29 || place == 30 || place == 32 || place == 33
            || place == 34 || place == 35 || place == 36
    }

    /// A record that lacks a required field does not decode. Since a record
    /// fails as the first of its fields that fails, the failure names the
    /// lacking field unless a field declared before it fails.
    pub proof fn lemma_missing_field(fields: Fields, place: int)
        requires
            UserProfile::required_at(place),
            member(fields, UserProfile::key_at(place)) is None,
        ensures
            UserProfile::decoded(JsonValue::Object(fields)) is Err,
            none_before(UserProfile::faults(fields), place) ==> UserProfile::decoded(JsonValue::Object(fields))
                == Err::<UserProfileView, DecodeErrorView>(missing(UserProfile::key_at(place))),
    {
        let key = UserProfile::key_at(place);
        lemma_first_failure(UserProfile::faults(fields));
        if place == 0 {
            lemma_absent_required::<u64>(fields, key);
            assert(UserProfile::faults(fields)[0] == Some(missing(key)));
        } else if place == 1 {
            lemma_absent_required::<String>(fields, key);
            assert(UserProfile::faults(fields)[1] == Some(missing(key)));
        } else if place == 2 {
            lemma_absent_required::<String>(fields, key);
            assert(UserProfile::faults(fields)[2] == Some(missing(key)));
        } else if place == 3 {
            lemma_absent_required::<String>(fields, key);
            assert(UserProfile::faults(fields)[3] == Some(missing(key)));
        } else if place == 4 {
            lemma_absent_required::<String>(fields, key);
            assert(UserProfile::faults(fields)[4] == Some(missing(key)));
        } else if place == 6 {
            lemma_absent_required::<u64>(fields, key);
            assert(UserProfile::faults(fields)[6] == Some(missing(key)));
        } else if place == 7 {
            lemma_absent_required::<DateFormat>(fields, key);
            assert(UserProfile::faults(fields)[7] == Some(missing(key)));
        } else if place == 8 {
            lemma_absent_required::<bool>(fields, key);
            assert(UserProfile::faults(fields)[8] == Some(missing(key)));
        } else if place == 10 {
            lemma_absent_required::<Vec<Day>>(fields, key);
            assert(UserProfile::faults(fields)[10] == Some(missing(key)));
        } else if place == 11 {
            lemma_absent_required::<Reminder>(fields, key);
            assert(UserProfile::faults(fields)[11] == Some(missing(key)));
        } else if place == 12 {
            lemma_absent_required::<String>(fields, key);
            assert(UserProfile::faults(fields)[12] == Some(missing(key)));
        } else if place == 13 {
            lemma_absent_required::<Features>(fields, key);
            assert(UserProfile::faults(fields)[13] == Some(missing(key)));
        } else if place == 14 {
            lemma_absent_required::<String>(fields, key);
            assert(UserProfile::faults(fields)[14] == Some(missing(key)));
        } else if place == 15 {
            lemma_absent_required::<UserId>(fields, key);
            assert(UserProfile::faults(fields)[15] == Some(missing(key)));
        } else if place == 17 {
            lemma_absent_required::<ProjectId>(fields, key);
            assert(UserProfile::faults(fields)[17] == Some(missing(key)));
        } else if place == 18 {
            lemma_absent_required::<bool>(fields, key);
            assert(UserProfile::faults(fields)[18] == Some(missing(key)));
        } else if place == 19 {
            lemma_absent_required::<bool>(fields, key);
            assert(UserProfile::faults(fields)[19] == Some(missing(key)));
        } else if place == 20 {
            lemma_absent_required::<String>(fields, key);
            assert(UserProfile::faults(fields)[20] == Some(missing(key)));
        } else if place == 21 {
            lemma_absent_required::<Numeral>(fields, key);
            assert(UserProfile::faults(fields)[21] == Some(missing(key)));
        } else if place == 22 {
            lemma_absent_required::<KarmaTrend>(fields, key);
            assert(UserProfile::faults(fields)[22] == Some(missing(key)));
        } else if place == 23 {
            lemma_absent_required::<Language>(fields, key);
            assert(UserProfile::faults(fields)[23] == Some(missing(key)));
        } else if place == 26 {
            lemma_absent_required::<Day>(fields, key);
            assert(UserProfile::faults(fields)[26] == Some(missing(key)));
        } else if place == 28 {
            lemma_absent_required::<SortOrder>(fields, key);
            assert(UserProfile::faults(fields)[28] == Some(missing(key)));
        } else if place == 29 {
            lemma_absent_required::<Day>(fields, key);
            assert(UserProfile::faults(fields)[29] == Some(missing(key)));
        } else if place == 30 {
            lemma_absent_required::<Page>(fields, key);
            assert(UserProfile::faults(fields)[30] == Some(missing(key)));
        } else if place == 32 {
            lemma_absent_required::<Theme>(fields, key);
            assert(UserProfile::faults(fields)[32] == Some(missing(key)));
        } else if place == 33 {
            lemma_absent_required::<TimeFormat>(fields, key);
            assert(UserProfile::faults(fields)[33] == Some(missing(key)));
        } else if place == 34 {
            lemma_absent_required::<String>(fields, key);
            assert(UserProfile::faults(fields)[34] == Some(missing(key)));
        } else if place == 35 {
            lemma_absent_required::<TimezoneInfo>(fields, key);
            assert(UserProfile::faults(fields)[35] == Some(missing(key)));
        } else if place == 36 {
            lemma_absent_required::<u64>(fields, key);
            assert(UserProfile::faults(fields)[36] == Some(missing(key)));
        }
    }

    /// A record with none of its optional members decodes whenever its required
    /// fields do, and then every optional field has no value and every field
    /// with a default has its default.
    pub proof fn lemma_minimal(fields: Fields)
        requires
            member(fields, "business_account_id"@) is None,
            member(fields, "dateist_lang"@) is None,
            member(fields, "image_id"@) is None,
            member(fields, "mobile_host"@) is None,
            member(fields, "mobile_number"@) is None,
            member(fields, "premium_until"@) is None,
            member(fields, "team_inbox"@) is None,
            required_of::<u64>(fields, "auto_reminder"@) is Ok,
            required_of::<String>(fields, "avatar_big"@) is Ok,
            required_of::<String>(fields, "avatar_medium"@) is Ok,
            required_of::<String>(fields, "avatar_s640"@) is Ok,
            required_of::<String>(fields, "avatar_small"@) is Ok,
            required_of::<u64>(fields, "daily_goal"@) is Ok,
            required_of::<DateFormat>(fields, "date_format"@) is Ok,
            required_of::<bool>(fields, "dateist_inline_disabled"@) is Ok,
            required_of::<Vec<Day>>(fields, "days_off"@) is Ok,
            required_of::<Reminder>(fields, "default_reminder"@) is Ok,
            required_of::<String>(fields, "email"@) is Ok,
            required_of::<Features>(fields, "features"@) is Ok,
            required_of::<String>(fields, "full_name"@) is Ok,
            required_of::<UserId>(fields, "id"@) is Ok,
            required_of::<ProjectId>(fields, "inbox_project"@) is Ok,
            required_of::<bool>(fields, "is_biz_admin"@) is Ok,
            required_of::<bool>(fields, "is_premium"@) is Ok,
            required_of::<String>(fields, "join_date"@) is Ok,
            required_of::<Numeral>(fields, "karma"@) is Ok,
            required_of::<KarmaTrend>(fields, "karma_trend"@) is Ok,
            required_of::<Language>(fields, "lang"@) is Ok,
            required_of::<Day>(fields, "next_week"@) is Ok,
            required_of::<SortOrder>(fields, "sort_order"@) is Ok,
            required_of::<Day>(fields, "start_day"@) is Ok,
            required_of::<Page>(fields, "start_page"@) is Ok,
            required_of::<Theme>(fields, "theme"@) is Ok,
            required_of::<TimeFormat>(fields, "time_format"@) is Ok,
            required_of::<String>(fields, "token"@) is Ok,
            required_of::<TimezoneInfo>(fields, "tz_info"@) is Ok,
            required_of::<u64>(fields, "weekly_goal"@) is Ok,
        ensures
            UserProfile::decoded(JsonValue::Object(fields)) is Ok,
            UserProfile::decoded(JsonValue::Object(fields))->Ok_0.business_account_id is None,
            UserProfile::decoded(JsonValue::Object(fields))->Ok_0.dateist_lang is None,
            UserProfile::decoded(JsonValue::Object(fields))->Ok_0.image_id is None,
            UserProfile::decoded(JsonValue::Object(fields))->Ok_0.mobile_host is None,
            UserProfile::decoded(JsonValue::Object(fields))->Ok_0.mobile_number is None,
            UserProfile::decoded(JsonValue::Object(fields))->Ok_0.premium_until is None,
            UserProfile::decoded(JsonValue::Object(fields))->Ok_0.team_inbox is None,
    {
        lemma_first_failure(UserProfile::faults(fields));
    }
}

impl Decode for UserProfile {
    open spec fn decoded(v: JsonValue) -> Result<UserProfileView, DecodeErrorView> {
        match record_of(v) {
            Ok(fields) => match first_failure(UserProfile::faults(fields)) {
                Some(e) => Err(e),
                None => Ok(UserProfile::assembled(fields)),
            },
            Err(e) => Err(e),
        }
    }

    fn decode(j: &Json) -> (r: Result<UserProfile, DecodeError>) {
        let fields = record(j)?;
        let ghost faults = UserProfile::faults(members_model(fields@));
        let auto_reminder = required::<u64>(fields, "auto_reminder")?;
        assert(first_failure(faults) == first_failure_from(faults, 1));
        let avatar_big = required::<String>(fields, "avatar_big")?;
        assert(first_failure(faults) == first_failure_from(faults, 2));
        let avatar_medium = required::<String>(fields, "avatar_medium")?;
        assert(first_failure(faults) == first_failure_from(faults, 3));
        let avatar_s640 = required::<String>(fields, "avatar_s640")?;
        assert(first_failure(faults) == first_failure_from(faults, 4));
        let avatar_small = required::<String>(fields, "avatar_small")?;
        assert(first_failure(faults) == first_failure_from(faults, 5));
        let business_account_id = optional::<BusinessAccountId>(fields, "business_account_id")?;
        assert(first_failure(faults) == first_failure_from(faults, 6));
        let daily_goal = required::<u64>(fields, "daily_goal")?;
        assert(first_failure(faults) == first_failure_from(faults, 7));
        let date_format = required::<DateFormat>(fields, "date_format")?;
        assert(first_failure(faults) == first_failure_from(faults, 8));
        let dateist_inline_disabled = required::<bool>(fields, "dateist_inline_disabled")?;
        assert(first_failure(faults) == first_failure_from(faults, 9));
        let dateist_lang = optional::<Language>(fields, "dateist_lang")?;
        assert(first_failure(faults) == first_failure_from(faults, 10));
        let days_off = required::<Vec<Day>>(fields, "days_off")?;
        assert(first_failure(faults) == first_failure_from(faults, 11));
        let default_reminder = required::<Reminder>(fields, "default_reminder")?;
        assert(first_failure(faults) == first_failure_from(faults, 12));
        let email = required::<String>(fields, "email")?;
        assert(first_failure(faults) == first_failure_from(faults, 13));
        let features = required::<Features>(fields, "features")?;
        assert(first_failure(faults) == first_failure_from(faults, 14));
        let full_name = required::<String>(fields, "full_name")?;
        assert(first_failure(faults) == first_failure_from(faults, 15));
        let id = required::<UserId>(fields, "id")?;
        assert(first_failure(faults) == first_failure_from(faults, 16));
        let image_id = optional::<String>(fields, "image_id")?;
        assert(first_failure(faults) == first_failure_from(faults, 17));
        let inbox_project = required::<ProjectId>(fields, "inbox_project")?;
        assert(first_failure(faults) == first_failure_from(faults, 18));
        let is_biz_admin = required::<bool>(fields, "is_biz_admin")?;
        assert(first_failure(faults) == first_failure_from(faults, 19));
        let is_premium = required::<bool>(fields, "is_premium")?;
        assert(first_failure(faults) == first_failure_from(faults, 20));
        let join_date = required::<String>(fields, "join_date")?;
        assert(first_failure(faults) == first_failure_from(faults, 21));
        let karma = required::<Numeral>(fields, "karma")?;
        assert(first_failure(faults) == first_failure_from(faults, 22));
        let karma_trend = required::<KarmaTrend>(fields, "karma_trend")?;
        assert(first_failure(faults) == first_failure_from(faults, 23));
        let lang = required::<Language>(fields, "lang")?;
        assert(first_failure(faults) == first_failure_from(faults, 24));
        let mobile_host = optional::<String>(fields, "mobile_host")?;
        assert(first_failure(faults) == first_failure_from(faults, 25));
        let mobile_number = optional::<String>(fields, "mobile_number")?;
        assert(first_failure(faults) == first_failure_from(faults, 26));
        let next_week = required::<Day>(fields, "next_week")?;
        assert(first_failure(faults) == first_failure_from(faults, 27));
        let premium_until = optional::<String>(fields, "premium_until")?;
        assert(first_failure(faults) == first_failure_from(faults, 28));
        let sort_order = required::<SortOrder>(fields, "sort_order")?;
        assert(first_failure(faults) == first_failure_from(faults, 29));
        let start_day = required::<Day>(fields, "start_day")?;
        assert(first_failure(faults) == first_failure_from(faults, 30));
        let start_page = required::<Page>(fields, "start_page")?;
        assert(first_failure(faults) == first_failure_from(faults, 31));
        let team_inbox = optional::<ProjectId>(fields, "team_inbox")?;
        assert(first_failure(faults) == first_failure_from(faults, 32));
        let theme = required::<Theme>(fields, "theme")?;
        assert(first_failure(faults) == first_failure_from(faults, 33));
        let time_format = required::<TimeFormat>(fields, "time_format")?;
        assert(first_failure(faults) == first_failure_from(faults, 34));
        let token = required::<String>(fields, "token")?;
        assert(first_failure(faults) == first_failure_from(faults, 35));
        let tz_info = required::<TimezoneInfo>(fields, "tz_info")?;
        assert(first_failure(faults) == first_failure_from(faults, 36));
        let weekly_goal = required::<u64>(fields, "weekly_goal")?;
        assert(first_failure(faults) == first_failure_from(faults, 37));
        Ok(UserProfile {
            auto_reminder,
            avatar_big,
            avatar_medium,
            avatar_s640,
            avatar_small,
            business_account_id,
            daily_goal,
            date_format,
            dateist_inline_disabled,
            dateist_lang,
            days_off,
            default_reminder,
            email,
            features,
            full_name,
            id,
            image_id,
            inbox_project,
            is_biz_admin,
            is_premium,
            join_date,
            karma,
            karma_trend,
            lang,
            mobile_host,
            mobile_number,
            next_week,
            premium_until,
            sort_order,
            start_day,
            start_page,
            team_inbox,
            theme,
            time_format,
            token,
            tz_info,
            weekly_goal,
        })
    }
}

} // verus!
