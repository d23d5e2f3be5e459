use todoist_sync::codes::{Color, Day, Flag, Priority};
use todoist_sync::decode::Decode;
use todoist_sync::document::{decode, parse};
use todoist_sync::error::{DecodeError, Expected, Failure, Fault, Step};
use todoist_sync::ids::{ItemId, LabelId, ProjectId, UserId};
use todoist_sync::json::{Json, Member, Numeral};
use todoist_sync::names::{Language, Page, Reminder};
use todoist_sync::orders::Order;
use todoist_sync::projection::User;
use todoist_sync::snapshot::SyncSnapshot;

const FEATURES: &str = r#"{"beta":0,"dateist_inline_disabled":false,"has_push_reminders":true,"karma_disabled":false,"karma_vacation":false,"restriction":3}"#;

const TZ_INFO: &str =
    r#"{"gmt_string":"+02:00","hours":2,"is_dst":1,"minutes":0,"timezone":"Europe/Copenhagen"}"#;

fn user_with(start_page: &str, karma: &str, extra: &str) -> String {
    format!(
        r#"{{"auto_reminder":30,"avatar_big":"b","avatar_medium":"m","avatar_s640":"s6","avatar_small":"s","daily_goal":5,"date_format":0,"dateist_inline_disabled":false,"days_off":[6,7],"default_reminder":"push","email":"a@b.c","features":{FEATURES},"full_name":"Ada","id":1,"inbox_project":2,"is_biz_admin":false,"is_premium":true,"join_date":"2020-01-01","karma":{karma},"karma_trend":"up","lang":"en","next_week":1,"sort_order":0,"start_day":1,"start_page":{start_page},"theme":3,"time_format":1,"token":"t","tz_info":{TZ_INFO},"weekly_goal":25{extra}}}"#
    )
}

fn user() -> String {
    user_with("null", "12.5", "")
}

fn snapshot_with(user: &str, projects: &str, items: &str, labels: &str, extra: &str) -> String {
    format!(
        r#"{{"sync_token":"abc","full_sync":true,"user":{user},"projects":[{projects}],"items":[{items}],"notes":[],"project_notes":[],"sections":[],"labels":[{labels}],"filters":[],"day_orders":{{}},"reminders":[],"collaborators":[],"live_notifications":[],"live_notifications_last_read_id":0,"user_settings":{{"reminder_push":true,"reminder_desktop":true,"reminder_email":false}}{extra}}}"#
    )
}

fn minimal() -> String {
    snapshot_with(&user(), "", "", "", "")
}

fn project(id: u64) -> String {
    format!(
        r#"{{"id":{id},"name":"p","color":30,"child_order":1,"collapsed":0,"shared":false,"is_deleted":0,"is_archived":0,"is_favorite":1}}"#
    )
}

fn item_with(id: u64, project: u64, priority: &str, extra: &str) -> String {
    format!(
        r#"{{"id":{id},"user_id":1,"project_id":{project},"content":"task {id}","priority":{priority},"child_order":1,"day_order":-1,"collapsed":0,"labels":[5,5,9],"checked":0,"in_history":0,"is_deleted":0,"date_added":"2020-01-02"{extra}}}"#
    )
}

fn item(id: u64) -> String {
    item_with(id, 1, "1", "")
}

fn label_with(color: &str) -> String {
    format!(
        r#"{{"id":5,"name":"home","color":{color},"item_order":2,"is_deleted":0,"is_favorite":0}}"#
    )
}

fn decoded(text: &str) -> SyncSnapshot {
    match decode(text.as_bytes()) {
        Ok(snapshot) => snapshot,
        Err(failure) => panic!("the payload does not decode: {:?}", failure),
    }
}

fn rejected(text: &str) -> DecodeError {
    match decode(text.as_bytes()) {
        Err(Failure::Decode(e)) => e,
        other => panic!("expected a decode failure, got {:?}", other),
    }
}

fn key(name: &str) -> Step {
    Step::Key(name.to_string())
}

#[test]
fn minimal_payload_decodes_with_defaults() {
    let snapshot = decoded(&minimal());
    assert_eq!(snapshot.sync_token, "abc");
    assert!(snapshot.full_sync);
    assert_eq!(snapshot.user.business_account_id, None);
    assert_eq!(snapshot.user.team_inbox, None);
    assert_eq!(snapshot.user.image_id, None);
    assert_eq!(snapshot.user.dateist_lang, None);
    assert_eq!(snapshot.user.mobile_number, None);
    assert!(!snapshot.user.features.gold_theme);
    assert!(!snapshot.user_settings.reminder_sms);
    assert!(snapshot.collaborator_states.is_empty());
    assert!(snapshot.items.is_empty());
    assert_eq!(snapshot.day_orders.len(), 0);
}

#[test]
fn user_fields_are_decoded() {
    let snapshot = decoded(&minimal());
    assert_eq!(snapshot.user.id, UserId(1));
    assert_eq!(snapshot.user.inbox_project, ProjectId(2));
    assert_eq!(snapshot.user.days_off, vec![Day::Saturday, Day::Sunday]);
    assert_eq!(snapshot.user.default_reminder, Reminder::Push);
    assert_eq!(snapshot.user.lang, Language::English);
    assert_eq!(snapshot.user.tz_info.hours, 2);
    assert_eq!(snapshot.user.tz_info.is_dst, Flag::True);
    assert_eq!(snapshot.user.features.restriction, 3);
    assert_eq!(snapshot.user.weekly_goal, 25);
}

#[test]
fn missing_required_field_is_named() {
    let text = minimal().replace(r#""sync_token":"abc","#, "");
    let e = rejected(&text);
    assert_eq!(e.fault, Fault::Missing);
    assert_eq!(e.path, vec![key("sync_token")]);
}

#[test]
fn missing_field_of_a_nested_record_is_named_with_its_place() {
    let broken = item(10).replace(r#""content":"task 10","#, "");
    let text = snapshot_with(&user(), &project(1), &format!("{},{}", item(9), broken), "", "");
    let e = rejected(&text);
    assert_eq!(e.fault, Fault::Missing);
    assert_eq!(e.path, vec![key("items"), Step::Index(1), key("content")]);
}

#[test]
fn first_failing_field_in_declared_order_is_reported() {
    let text = minimal()
        .replace(r#""full_sync":true,"#, r#""full_sync":1,"#)
        .replace(r#""live_notifications_last_read_id":0,"#, "");
    let e = rejected(&text);
    assert_eq!(e.fault, Fault::Mismatch(Expected::Boolean));
    assert_eq!(e.path, vec![key("full_sync")]);
}

#[test]
fn unknown_members_are_ignored() {
    let text = snapshot_with(
        &user_with("null", "1", r#","shiny_new_field":{"a":[1,2,3]}"#),
        "",
        "",
        "",
        r#","stats":{"completed":4}"#,
    );
    let snapshot = decoded(&text);
    assert_eq!(snapshot.user.karma, Numeral::Unsigned(1));
}

#[test]
fn null_is_no_value_for_an_optional_field() {
    let text = snapshot_with(
        &user(),
        &project(1),
        &item_with(10, 1, "1", r#","due":null,"parent_id":null,"sync_id":null"#),
        "",
        "",
    );
    let snapshot = decoded(&text);
    assert_eq!(snapshot.items[0].due, None);
    assert_eq!(snapshot.items[0].parent_id, None);
    assert_eq!(snapshot.items[0].sync_id, None);
}

#[test]
fn null_is_rejected_for_a_field_with_a_default() {
    let text = minimal().replace(r#""reminder_push":true,"#, r#""reminder_push":true,"reminder_sms":null,"#);
    let e = rejected(&text);
    assert_eq!(e.fault, Fault::Mismatch(Expected::Boolean));
    assert_eq!(e.path, vec![key("user_settings"), key("reminder_sms")]);
}

#[test]
fn due_date_is_decoded_when_present() {
    let due = r#","due":{"date":"2020-02-03","string":"3 feb","lang":"da","is_recurring":false}"#;
    let text = snapshot_with(&user(), &project(1), &item_with(10, 1, "4", due), "", "");
    let snapshot = decoded(&text);
    let due = snapshot.items[0].due.as_ref().expect("a due date");
    assert_eq!(due.date, "2020-02-03");
    assert_eq!(due.timezone, None);
    assert_eq!(due.lang, Language::Danish);
    assert_eq!(snapshot.items[0].priority, Priority::VeryUrgent);
}

#[test]
fn labels_of_an_item_keep_order_and_repeats() {
    let text = snapshot_with(&user(), "", &item(10), "", "");
    let snapshot = decoded(&text);
    assert_eq!(snapshot.items[0].labels, vec![LabelId(5), LabelId(5), LabelId(9)]);
    assert!(snapshot.labels.is_empty());
    assert_eq!(snapshot.items[0].day_order, Order(-1));
}

#[test]
fn scenario_one_project_one_item() {
    let text = snapshot_with(&user(), &project(1), &item_with(10, 1, "2", ""), "", "");
    let snapshot = decoded(&text);
    assert_eq!(snapshot.projects.len(), 1);
    assert_eq!(snapshot.projects[0].id, ProjectId(1));
    assert_eq!(snapshot.projects[0].parent_id, None);
    assert_eq!(snapshot.items.len(), 1);
    assert_eq!(snapshot.items[0].id, ItemId(10));
    assert_eq!(snapshot.items[0].project_id, ProjectId(1));
    assert_eq!(snapshot.items[0].due, None);
    assert_eq!(snapshot.items[0].priority, Priority::High);
    let user = User::from(snapshot);
    assert_eq!(user.tasks.len(), 1);
    assert_eq!(user.tasks[0].item.id, ItemId(10));
    assert_eq!(user.tasks[0].item.priority, Priority::High);
    assert_eq!(user.tasks[0].item.content, "task 10");
}

#[test]
fn scenario_team_inbox_absent() {
    let text = minimal();
    assert!(!text.contains("team_inbox"));
    let snapshot = decoded(&text);
    assert_eq!(snapshot.user.team_inbox, None);
}

#[test]
fn team_inbox_present_is_decoded() {
    let text = snapshot_with(&user_with("null", "0", r#","team_inbox":77"#), "", "", "", "");
    assert_eq!(decoded(&text).user.team_inbox, Some(ProjectId(77)));
}

#[test]
fn scenario_undocumented_color_on_a_label() {
    let text = snapshot_with(&user(), "", "", &label_with("99"), "");
    let e = rejected(&text);
    assert_eq!(e.fault, Fault::UnknownCode);
    assert_eq!(e.path, vec![key("labels"), Step::Index(0), key("color")]);
}

#[test]
fn documented_color_on_a_label() {
    let text = snapshot_with(&user(), "", "", &label_with("49"), "");
    assert_eq!(decoded(&text).labels[0].color, Color::Tan);
}

#[test]
fn start_page_without_payload_is_the_info_page() {
    assert_eq!(decoded(&minimal()).user.start_page, Page::InfoPage);
}

#[test]
fn start_page_with_text_is_a_query() {
    let text = snapshot_with(&user_with(r#""today""#, "1", ""), "", "", "", "");
    assert_eq!(decoded(&text).user.start_page, Page::Query("today".to_string()));
    let more = snapshot_with(
        &user_with(r#""today""#, "1", r#","team_inbox":3,"image_id":"x""#),
        &project(1),
        &item(10),
        "",
        "",
    );
    assert_eq!(decoded(&more).user.start_page, Page::Query("today".to_string()));
}

#[test]
fn start_page_of_another_shape_is_rejected() {
    let text = snapshot_with(&user_with("17", "1", ""), "", "", "", "");
    let e = rejected(&text);
    assert_eq!(e.fault, Fault::Mismatch(Expected::Page));
    assert_eq!(e.path, vec![key("user"), key("start_page")]);
}

#[test]
fn start_page_is_required() {
    let text = minimal().replace(r#""start_page":null,"#, "");
    let e = rejected(&text);
    assert_eq!(e.fault, Fault::Missing);
    assert_eq!(e.path, vec![key("user"), key("start_page")]);
}

#[test]
fn karma_keeps_the_number_as_written() {
    let real = decoded(&minimal()).user.karma;
    assert_eq!(real, Numeral::Real(12.5f64.to_bits()));
    let whole = snapshot_with(&user_with("null", "7", ""), "", "", "", "");
    assert_eq!(decoded(&whole).user.karma, Numeral::Unsigned(7));
    let negative = snapshot_with(&user_with("null", "-7", ""), "", "", "", "");
    assert_eq!(decoded(&negative).user.karma, Numeral::Negative(-7));
    let text = snapshot_with(&user_with("null", r#""7""#, ""), "", "", "", "");
    assert_eq!(rejected(&text).fault, Fault::Mismatch(Expected::Number));
}

#[test]
fn integers_keep_their_width_and_sign() {
    let negative = minimal().replace(r#""daily_goal":5"#, r#""daily_goal":-5"#);
    let e = rejected(&negative);
    assert_eq!(e.fault, Fault::OutOfRange);
    assert_eq!(e.path, vec![key("user"), key("daily_goal")]);
    let fraction = minimal().replace(r#""daily_goal":5"#, r#""daily_goal":5.0"#);
    assert_eq!(rejected(&fraction).fault, Fault::Mismatch(Expected::Integer));
    let text = minimal().replace(r#""daily_goal":5"#, r#""daily_goal":"5""#);
    assert_eq!(rejected(&text).fault, Fault::Mismatch(Expected::Integer));
    let wide = minimal().replace(r#""hours":2"#, r#""hours":128"#);
    let e = rejected(&wide);
    assert_eq!(e.fault, Fault::OutOfRange);
    assert_eq!(e.path, vec![key("user"), key("tz_info"), key("hours")]);
    let low = minimal().replace(r#""hours":2"#, r#""hours":-128"#);
    assert_eq!(decoded(&low).user.tz_info.hours, -128);
    let minutes = minimal().replace(r#""minutes":0"#, r#""minutes":256"#);
    assert_eq!(rejected(&minutes).fault, Fault::OutOfRange);
    let largest = minimal().replace(r#""daily_goal":5"#, r#""daily_goal":18446744073709551615"#);
    assert_eq!(decoded(&largest).user.daily_goal, u64::MAX);
    let beyond = minimal().replace(r#""daily_goal":5"#, r#""daily_goal":18446744073709551616"#);
    assert_eq!(rejected(&beyond).fault, Fault::Mismatch(Expected::Integer));
}

#[test]
fn rank_beyond_the_signed_range_is_rejected() {
    let text = snapshot_with(&user(), "", "", "", "")
        .replace(r#""labels":[]"#, &format!(r#""labels":[{}]"#, label_with("30")))
        .replace(r#""item_order":2"#, r#""item_order":9223372036854775808"#);
    let e = rejected(&text);
    assert_eq!(e.fault, Fault::OutOfRange);
    assert_eq!(e.path, vec![key("labels"), Step::Index(0), key("item_order")]);
}

#[test]
fn flags_accept_zero_and_one_only() {
    let text = snapshot_with(&user(), &project(1).replace(r#""collapsed":0"#, r#""collapsed":2"#), "", "", "");
    let e = rejected(&text);
    assert_eq!(e.fault, Fault::UnknownCode);
    assert_eq!(e.path, vec![key("projects"), Step::Index(0), key("collapsed")]);
    let truth = snapshot_with(&user(), &project(1).replace(r#""collapsed":0"#, r#""collapsed":true"#), "", "", "");
    assert_eq!(rejected(&truth).fault, Fault::Mismatch(Expected::Integer));
    let large = snapshot_with(&user(), &project(1).replace(r#""collapsed":0"#, r#""collapsed":256"#), "", "", "");
    assert_eq!(rejected(&large).fault, Fault::UnknownCode);
    let ok = decoded(&snapshot_with(&user(), &project(1), "", "", ""));
    assert_eq!(ok.projects[0].collapsed, Flag::False);
    assert_eq!(ok.projects[0].is_favorite, Flag::True);
    assert!(ok.projects[0].is_favorite.is_set());
    assert!(!ok.projects[0].collapsed.is_set());
    assert!(!ok.projects[0].inbox_project);
}

#[test]
fn names_are_matched_letter_for_letter() {
    let upper = minimal().replace(r#""lang":"en""#, r#""lang":"EN""#);
    let e = rejected(&upper);
    assert_eq!(e.fault, Fault::UnknownCode);
    assert_eq!(e.path, vec![key("user"), key("lang")]);
    let brazil = minimal().replace(r#""lang":"en""#, r#""lang":"pt_BR""#);
    assert_eq!(decoded(&brazil).user.lang, Language::BrazilianPortuguese);
    let lower = minimal().replace(r#""lang":"en""#, r#""lang":"pt_Br""#);
    assert_eq!(rejected(&lower).fault, Fault::UnknownCode);
    let number = minimal().replace(r#""lang":"en""#, r#""lang":3"#);
    assert_eq!(rejected(&number).fault, Fault::Mismatch(Expected::Text));
}

#[test]
fn reminders_are_a_list_of_names() {
    let text = minimal().replace(r#""reminders":[]"#, r#""reminders":["email","no_default","mobile"]"#);
    assert_eq!(
        decoded(&text).reminders,
        vec![Reminder::Email, Reminder::NoDefault, Reminder::Mobile]
    );
    let bad = minimal().replace(r#""reminders":[]"#, r#""reminders":["email","fax"]"#);
    let e = rejected(&bad);
    assert_eq!(e.fault, Fault::UnknownCode);
    assert_eq!(e.path, vec![key("reminders"), Step::Index(1)]);
}

#[test]
fn a_list_must_be_a_list() {
    let text = minimal().replace(r#""projects":[]"#, r#""projects":{}"#);
    let e = rejected(&text);
    assert_eq!(e.fault, Fault::Mismatch(Expected::List));
    assert_eq!(e.path, vec![key("projects")]);
    let element = minimal().replace(r#""projects":[]"#, r#""projects":[[]]"#);
    let e = rejected(&element);
    assert_eq!(e.fault, Fault::Mismatch(Expected::Record));
    assert_eq!(e.path, vec![key("projects"), Step::Index(0)]);
}

#[test]
fn collaborator_states_are_decoded_when_present() {
    let states = r#","collaborator_states":[{"project_id":1,"user_id":2,"state":"Invited","is_deleted":false}]"#;
    let snapshot = decoded(&snapshot_with(&user(), "", "", "", states));
    assert_eq!(snapshot.collaborator_states.len(), 1);
    assert_eq!(snapshot.collaborator_states[0].user_id, UserId(2));
    assert_eq!(
        snapshot.collaborator_states[0].state,
        todoist_sync::names::CollaboratorStatus::Invited
    );
}

#[test]
fn payload_that_is_no_record_is_rejected() {
    for text in ["[]", "null", "17", r#""text""#, "true"] {
        let e = rejected(text);
        assert_eq!(e.fault, Fault::Mismatch(Expected::Record));
        assert!(e.path.is_empty());
    }
}

#[test]
fn payload_that_is_no_document_is_a_syntax_failure() {
    let e = rejected("{\n  \"sync_token\": ");
    assert!(matches!(e.fault, Fault::Syntax { line: 2, .. }));
    assert!(e.path.is_empty());
    let e = rejected("{} {}");
    assert_eq!(e.fault, Fault::Syntax { line: 1, column: 4 });
    let e = rejected("");
    assert!(matches!(e.fault, Fault::Syntax { .. }));
}

#[test]
fn payload_that_is_not_text_is_an_encoding_failure() {
    let mut bytes = minimal().into_bytes();
    bytes[5] = 0xff;
    assert_eq!(decode(&bytes), Err(Failure::Encoding));
    assert_eq!(decode(&[0x7b, 0x7d, 0xe2, 0x82]), Err(Failure::Encoding));
    assert_eq!(decode(&[0xc0, 0x80]), Err(Failure::Encoding));
    assert_eq!(decode(&[0xed, 0xa0, 0x80]), Err(Failure::Encoding));
    let text = minimal().replace("Ada", "Ad\u{e9}la \u{1f600}");
    assert_eq!(decoded(&text).user.full_name, "Ad\u{e9}la \u{1f600}");
}

#[test]
fn decoding_is_all_or_nothing() {
    let text = snapshot_with(&user(), &project(1), &format!("{},{}", item(1), item_with(2, 1, "9", "")), "", "");
    assert!(decode(text.as_bytes()).is_err());
}

#[test]
fn parse_builds_the_tree_of_the_document() {
    let tree = parse(br#"{"b":[1,-2,0.5,"x",null,true],"a":{}}"#).expect("a document");
    let expected = Json::Object(vec![
        Member { key: "a".to_string(), value: Json::Object(vec![]) },
        Member {
            key: "b".to_string(),
            value: Json::Array(vec![
                Json::Number(Numeral::Unsigned(1)),
                Json::Number(Numeral::Negative(-2)),
                Json::Number(Numeral::Real(0.5f64.to_bits())),
                Json::Text("x".to_string()),
                Json::Null,
                Json::Bool(true),
            ]),
        },
    ]);
    assert_eq!(tree, expected);
}

#[test]
fn snapshot_decodes_from_a_tree() {
    let tree = parse(minimal().as_bytes()).expect("a document");
    let snapshot = SyncSnapshot::decode(&tree).expect("a snapshot");
    assert_eq!(snapshot, decoded(&minimal()));
    let e = SyncSnapshot::decode(&Json::Array(vec![])).expect_err("no record");
    assert_eq!(e.fault, Fault::Mismatch(Expected::Record));
}

#[test]
fn first_member_with_a_key_counts_in_a_tree() {
    let tree = Json::Object(vec![
        Member { key: "reminder_push".to_string(), value: Json::Bool(true) },
        Member { key: "reminder_push".to_string(), value: Json::Null },
        Member { key: "reminder_desktop".to_string(), value: Json::Bool(false) },
        Member { key: "reminder_email".to_string(), value: Json::Bool(false) },
    ]);
    let settings = todoist_sync::user::UserSettings::decode(&tree).expect("settings");
    assert!(settings.reminder_push);
    assert!(!settings.reminder_sms);
}
