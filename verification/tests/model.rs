use todoist_sync::codes::{
    Coded, Color, DateFormat, Day, Flag, Priority, SortOrder, Theme, TimeFormat,
};
use todoist_sync::decode::Decode;
use todoist_sync::document::{decode, parse};
use todoist_sync::error::{Expected, Failure, Fault, Step};
use todoist_sync::ids::{
    names_same_entity, IdSpace, Identifier, ItemId, LabelId, NoteId, ProjectId, ProjectNoteId,
    UserId,
};
use todoist_sync::json::{find, text_eq, Json, Member, Numeral};
use todoist_sync::names::{
    CollaboratorStatus, KarmaTrend, Language, Named, Page, Reminder, UploadState,
};
use todoist_sync::note::Note;
use todoist_sync::orders::{item_key, DayOrders, Order};
use todoist_sync::projection::{Task, User};
use todoist_sync::reactions::{add_reaction, find_reaction, Reaction, Reactions};

fn tree(text: &str) -> Json {
    parse(text.as_bytes()).expect("a document")
}

#[test]
fn every_color_code_stands_for_its_color() {
    let colors = [
        Color::Crimson,
        Color::Red,
        Color::Orange,
        Color::Yellow,
        Color::Olive,
        Color::LightGreen,
        Color::DarkGreen,
        Color::SeaGreen,
        Color::SteelBlue,
        Color::SkyBlue,
        Color::BabyBlue,
        Color::Blue,
        Color::RoyalPurple,
        Color::Violet,
        Color::Pink,
        Color::Mulberry,
        Color::Salmon,
        Color::Gray,
        Color::LightGray,
        Color::Tan,
    ];
    for (i, color) in colors.iter().enumerate() {
        let code = 30 + i as u8;
        assert_eq!(Color::of_code(code), Some(*color));
        assert_eq!(Color::decode(&Json::Number(Numeral::Unsigned(code as u64))), Ok(*color));
    }
    for code in (0u8..30).chain(50..=255) {
        assert_eq!(Color::of_code(code), None);
    }
}

#[test]
fn every_coded_enumeration_has_its_documented_codes() {
    assert_eq!(Priority::of_code(1), Some(Priority::Natural));
    assert_eq!(Priority::of_code(2), Some(Priority::High));
    assert_eq!(Priority::of_code(3), Some(Priority::Urgent));
    assert_eq!(Priority::of_code(4), Some(Priority::VeryUrgent));
    assert_eq!(Priority::of_code(0), None);
    assert_eq!(Priority::of_code(5), None);
    assert_eq!(Flag::of_code(0), Some(Flag::False));
    assert_eq!(Flag::of_code(1), Some(Flag::True));
    assert_eq!(Flag::of_code(2), None);
    assert_eq!(Day::of_code(1), Some(Day::Monday));
    assert_eq!(Day::of_code(7), Some(Day::Sunday));
    assert_eq!(Day::of_code(0), None);
    assert_eq!(Day::of_code(8), None);
    assert_eq!(Theme::of_code(0), Some(Theme::Theme0));
    assert_eq!(Theme::of_code(10), Some(Theme::Theme10));
    assert_eq!(Theme::of_code(11), None);
    assert_eq!(TimeFormat::of_code(0), Some(TimeFormat::TwentyFour));
    assert_eq!(TimeFormat::of_code(1), Some(TimeFormat::Twelve));
    assert_eq!(TimeFormat::of_code(2), None);
    assert_eq!(SortOrder::of_code(0), Some(SortOrder::OldestDatesFirst));
    assert_eq!(SortOrder::of_code(1), Some(SortOrder::OldestDatesLast));
    assert_eq!(SortOrder::of_code(2), None);
    assert_eq!(DateFormat::of_code(0), Some(DateFormat::DayMonth));
    assert_eq!(DateFormat::of_code(1), Some(DateFormat::MonthDay));
    assert_eq!(DateFormat::of_code(2), None);
}

#[test]
fn coded_enumeration_rejects_what_is_no_code() {
    let unknown = Priority::decode(&tree("9")).expect_err("no code");
    assert_eq!(unknown.fault, Fault::UnknownCode);
    assert!(unknown.path.is_empty());
    assert_eq!(Priority::decode(&tree("-1")).expect_err("no code").fault, Fault::UnknownCode);
    assert_eq!(Priority::decode(&tree("300")).expect_err("no code").fault, Fault::UnknownCode);
    let fraction = Priority::decode(&tree("2.0")).expect_err("no integer");
    assert_eq!(fraction.fault, Fault::Mismatch(Expected::Integer));
    let text = Priority::decode(&tree("\"2\"")).expect_err("no integer");
    assert_eq!(text.fault, Fault::Mismatch(Expected::Integer));
    assert_eq!(Priority::decode(&tree("2")), Ok(Priority::High));
}

#[test]
fn every_language_name_stands_for_its_language() {
    let languages = [
        ("da", Language::Danish),
        ("ge", Language::German),
        ("en", Language::English),
        ("es", Language::Spanish),
        ("fi", Language::Finnish),
        ("fr", Language::French),
        ("it", Language::Italian),
        ("ja", Language::Japanese),
        ("ko", Language::Korean),
        ("nl", Language::Dutch),
        ("pl", Language::Polish),
        ("pt_BR", Language::BrazilianPortuguese),
        ("ru", Language::Russian),
        ("sv", Language::Swedish),
        ("tr", Language::Turkish),
        ("zh_CN", Language::MainlandChinese),
        ("zh_TW", Language::TaiwanChinese),
    ];
    for (name, language) in languages {
        assert_eq!(Language::of_name(name), Some(language));
        assert_eq!(Language::decode(&Json::Text(name.to_string())), Ok(language));
    }
    for name in ["", "d", "de", "Da", "da ", "pt_br", "zh_cn", "zh", "english"] {
        assert_eq!(Language::of_name(name), None);
    }
}

#[test]
fn every_named_enumeration_has_its_documented_names() {
    assert_eq!(Reminder::of_name("email"), Some(Reminder::Email));
    assert_eq!(Reminder::of_name("mobile"), Some(Reminder::Mobile));
    assert_eq!(Reminder::of_name("push"), Some(Reminder::Push));
    assert_eq!(Reminder::of_name("no_default"), Some(Reminder::NoDefault));
    assert_eq!(Reminder::of_name("Email"), None);
    assert_eq!(KarmaTrend::of_name("up"), Some(KarmaTrend::Up));
    assert_eq!(KarmaTrend::of_name("down"), None);
    assert_eq!(CollaboratorStatus::of_name("Active"), Some(CollaboratorStatus::Active));
    assert_eq!(CollaboratorStatus::of_name("Invited"), Some(CollaboratorStatus::Invited));
    assert_eq!(CollaboratorStatus::of_name("active"), None);
    assert_eq!(UploadState::of_name("Pending"), Some(UploadState::Pending));
    assert_eq!(UploadState::of_name("Completed"), Some(UploadState::Completed));
    assert_eq!(UploadState::of_name("completed"), None);
}

#[test]
fn page_takes_the_first_variant_of_the_shape() {
    assert_eq!(Page::decode(&Json::Null), Ok(Page::InfoPage));
    assert_eq!(Page::decode(&Json::Text(String::new())), Ok(Page::Query(String::new())));
    assert_eq!(Page::decode(&tree("\"filter?id=3\"")), Ok(Page::Query("filter?id=3".to_string())));
    for other in ["true", "0", "[]", "{}"] {
        let e = Page::decode(&tree(other)).expect_err("no page");
        assert_eq!(e.fault, Fault::Mismatch(Expected::Page));
    }
}

#[test]
fn identifiers_of_different_kinds_are_never_the_same() {
    assert!(!names_same_entity(&ItemId(7), &ProjectId(7)));
    assert!(!names_same_entity(&ProjectId(7), &ItemId(7)));
    assert!(!names_same_entity(&NoteId(7), &ProjectNoteId(7)));
    assert!(!names_same_entity(&UserId(0), &LabelId(0)));
    assert!(names_same_entity(&ItemId(7), &ItemId(7)));
    assert!(!names_same_entity(&ItemId(7), &ItemId(8)));
    assert_eq!(ItemId::id_space(), IdSpace::Item);
    assert_eq!(ProjectId::id_space(), IdSpace::Project);
    assert_eq!(ItemId(7).raw(), ProjectId(7).raw());
    assert_eq!(ItemId(7), ItemId(7));
    assert!(ItemId(7) < ItemId(8));
}

#[test]
fn identifier_is_an_unsigned_integer() {
    assert_eq!(ItemId::decode(&tree("18446744073709551615")), Ok(ItemId(u64::MAX)));
    assert_eq!(ItemId::decode(&tree("-1")).expect_err("negative").fault, Fault::OutOfRange);
    assert_eq!(
        ItemId::decode(&tree("\"1\"")).expect_err("text").fault,
        Fault::Mismatch(Expected::Integer)
    );
}

#[test]
fn text_is_compared_by_its_characters() {
    assert!(text_eq("", ""));
    assert!(text_eq("colour", "colour"));
    assert!(text_eq("søn", "søn"));
    assert!(!text_eq("colour", "color"));
    assert!(!text_eq("a", "b"));
    assert!(!text_eq("a", ""));
    assert!(!text_eq("søn", "son"));
}

#[test]
fn lookup_finds_the_first_member_with_the_key() {
    let members = vec![
        Member { key: "b".to_string(), value: Json::Bool(true) },
        Member { key: "a".to_string(), value: Json::Null },
        Member { key: "b".to_string(), value: Json::Bool(false) },
    ];
    assert_eq!(find(&members, "b"), Some(&Json::Bool(true)));
    assert_eq!(find(&members, "a"), Some(&Json::Null));
    assert_eq!(find(&members, "c"), None);
    assert_eq!(find(&Vec::new(), "a"), None);
}

#[test]
fn key_of_a_rank_is_a_plain_decimal_number() {
    assert_eq!(item_key("0"), Some(0));
    assert_eq!(item_key("7"), Some(7));
    assert_eq!(item_key("1203"), Some(1203));
    assert_eq!(item_key("18446744073709551615"), Some(u64::MAX));
    assert_eq!(item_key("18446744073709551616"), None);
    assert_eq!(item_key("99999999999999999999999"), None);
    assert_eq!(item_key(""), None);
    assert_eq!(item_key("07"), None);
    assert_eq!(item_key("00"), None);
    assert_eq!(item_key("-7"), None);
    assert_eq!(item_key("+7"), None);
    assert_eq!(item_key("7.0"), None);
    assert_eq!(item_key("7e2"), None);
    assert_eq!(item_key(" 7"), None);
    assert_eq!(item_key("７"), None);
    assert_eq!(item_key("seven"), None);
}

#[test]
fn day_orders_map_items_to_ranks() {
    let orders = DayOrders::decode(&tree(r#"{"10":3,"9":-1,"200":0}"#)).expect("ranks");
    assert_eq!(orders.len(), 3);
    assert_eq!(orders.rank(ItemId(10)), Some(Order(3)));
    assert_eq!(orders.rank(ItemId(9)), Some(Order(-1)));
    assert_eq!(orders.rank(ItemId(200)), Some(Order(0)));
    assert_eq!(orders.rank(ItemId(11)), None);
    let none = DayOrders::decode(&tree("{}")).expect("ranks");
    assert_eq!(none.len(), 0);
    assert_eq!(none.rank(ItemId(10)), None);
}

#[test]
fn later_rank_of_an_item_replaces_an_earlier_one() {
    let entries = Json::Object(vec![
        Member { key: "4".to_string(), value: Json::Number(Numeral::Unsigned(1)) },
        Member { key: "5".to_string(), value: Json::Number(Numeral::Unsigned(2)) },
        Member { key: "4".to_string(), value: Json::Number(Numeral::Negative(-3)) },
    ]);
    let orders = DayOrders::decode(&entries).expect("ranks");
    assert_eq!(orders.len(), 2);
    assert_eq!(orders.rank(ItemId(4)), Some(Order(-3)));
    assert_eq!(orders.rank(ItemId(5)), Some(Order(2)));
}

#[test]
fn day_orders_reject_bad_keys_and_ranks() {
    let e = DayOrders::decode(&tree(r#"{"10":3,"x":1}"#)).expect_err("a bad key");
    assert_eq!(e.fault, Fault::BadKey);
    assert_eq!(e.path, vec![Step::Key("x".to_string())]);
    let e = DayOrders::decode(&tree(r#"{"01":3}"#)).expect_err("a bad key");
    assert_eq!(e.fault, Fault::BadKey);
    let e = DayOrders::decode(&tree(r#"{"10":"3"}"#)).expect_err("a bad rank");
    assert_eq!(e.fault, Fault::Mismatch(Expected::Integer));
    assert_eq!(e.path, vec![Step::Key("10".to_string())]);
    let e = DayOrders::decode(&tree("[]")).expect_err("no map");
    assert_eq!(e.fault, Fault::Mismatch(Expected::Record));
}

#[test]
fn reactions_keep_users_in_order_with_repeats() {
    let reactions =
        Reactions::decode(&tree(r#"{"+1":[3,1,3,3],"heart":[],"-1":[2]}"#)).expect("reactions");
    assert_eq!(reactions.entries.len(), 3);
    let plus = find_reaction(&reactions.entries, "+1").expect("an entry");
    assert_eq!(
        reactions.entries[plus].users,
        vec![UserId(3), UserId(1), UserId(3), UserId(3)]
    );
    let heart = find_reaction(&reactions.entries, "heart").expect("an entry");
    assert!(reactions.entries[heart].users.is_empty());
    assert_eq!(find_reaction(&reactions.entries, "smile"), None);
}

#[test]
fn later_reaction_with_a_code_replaces_an_earlier_one() {
    let mut entries = Vec::new();
    add_reaction(&mut entries, Reaction { code: "a".to_string(), users: vec![UserId(1)] });
    add_reaction(&mut entries, Reaction { code: "b".to_string(), users: vec![UserId(2)] });
    add_reaction(&mut entries, Reaction { code: "a".to_string(), users: vec![UserId(3), UserId(3)] });
    assert_eq!(
        entries,
        vec![
            Reaction { code: "a".to_string(), users: vec![UserId(3), UserId(3)] },
            Reaction { code: "b".to_string(), users: vec![UserId(2)] },
        ]
    );
    let members = Json::Object(vec![
        Member { key: "a".to_string(), value: Json::Array(vec![]) },
        Member { key: "a".to_string(), value: Json::Array(vec![Json::Number(Numeral::Unsigned(9))]) },
    ]);
    let reactions = Reactions::decode(&members).expect("reactions");
    assert_eq!(reactions.entries, vec![Reaction { code: "a".to_string(), users: vec![UserId(9)] }]);
}

#[test]
fn reactions_reject_what_is_no_list_of_users() {
    let e = Reactions::decode(&tree(r#"{"+1":[3,"x"]}"#)).expect_err("a bad user");
    assert_eq!(e.fault, Fault::Mismatch(Expected::Integer));
    assert_eq!(e.path, vec![Step::Key("+1".to_string()), Step::Index(1)]);
    let e = Reactions::decode(&tree(r#"{"+1":3}"#)).expect_err("no list");
    assert_eq!(e.fault, Fault::Mismatch(Expected::List));
    let e = Reactions::decode(&tree("[]")).expect_err("no map");
    assert_eq!(e.fault, Fault::Mismatch(Expected::Record));
}

#[test]
fn note_with_attachment_and_reactions() {
    let text = r#"{"id":4,"posted_uid":1,"item_id":10,"project_id":2,"content":"look","file_attachment":{"file_type":"image/png","file_name":"a.png","file_size":1024,"file_url":"https://files.example/a.png","upload_state":"Completed"},"uids_to_notify":[1,2],"is_deleted":0,"posted":"2020-01-03","reactions":{"+1":[2]}}"#;
    let note = Note::decode(&tree(text)).expect("a note");
    assert_eq!(note.id, NoteId(4));
    assert_eq!(note.item_id, ItemId(10));
    assert_eq!(note.file_attachment.file_size, 1024);
    assert_eq!(note.file_attachment.upload_state, UploadState::Completed);
    assert_eq!(note.uids_to_notify, vec![UserId(1), UserId(2)]);
    assert_eq!(note.is_deleted, Flag::False);
    assert_eq!(note.reactions.entries.len(), 1);
    let broken = text.replace("\"Completed\"", "\"Done\"");
    let e = Note::decode(&tree(&broken)).expect_err("an unknown state");
    assert_eq!(e.fault, Fault::UnknownCode);
    assert_eq!(
        e.path,
        vec![Step::Key("file_attachment".to_string()), Step::Key("upload_state".to_string())]
    );
}

fn item_text(id: u64) -> String {
    format!(
        r#"{{"id":{id},"user_id":1,"project_id":1,"content":"task {id}","priority":1,"child_order":1,"day_order":0,"collapsed":0,"labels":[],"checked":1,"in_history":0,"is_deleted":1,"date_added":"d"}}"#
    )
}

fn snapshot_text(items: &str) -> String {
    format!(
        r#"{{"sync_token":"*","full_sync":true,"user":{{"auto_reminder":0,"avatar_big":"","avatar_medium":"","avatar_s640":"","avatar_small":"","daily_goal":0,"date_format":1,"dateist_inline_disabled":true,"days_off":[],"default_reminder":"email","email":"","features":{{"beta":1,"dateist_inline_disabled":true,"has_push_reminders":false,"karma_disabled":true,"karma_vacation":true,"restriction":0}},"full_name":"","id":1,"inbox_project":1,"is_biz_admin":true,"is_premium":false,"join_date":"","karma":0,"karma_trend":"up","lang":"ja","next_week":7,"sort_order":1,"start_day":7,"start_page":"inbox","theme":10,"time_format":0,"token":"","tz_info":{{"gmt_string":"","hours":-12,"is_dst":0,"minutes":59,"timezone":""}},"weekly_goal":0}},"projects":[],"items":[{items}],"notes":[],"project_notes":[],"sections":[],"labels":[],"filters":[],"day_orders":{{"30":1}},"reminders":[],"collaborators":[],"live_notifications":[],"live_notifications_last_read_id":5,"user_settings":{{"reminder_push":false,"reminder_sms":true,"reminder_desktop":false,"reminder_email":true}}}}"#
    )
}

#[test]
fn projection_keeps_count_and_order() {
    let items = format!("{},{},{}", item_text(30), item_text(10), item_text(20));
    let snapshot = decode(snapshot_text(&items).as_bytes()).expect("a snapshot");
    assert!(snapshot.user_settings.reminder_sms);
    assert_eq!(snapshot.day_orders.rank(ItemId(30)), Some(Order(1)));
    let user = User::from(snapshot);
    let ids: Vec<ItemId> = user.tasks.iter().map(|task| task.item.id).collect();
    assert_eq!(ids, vec![ItemId(30), ItemId(10), ItemId(20)]);
    assert_eq!(user.tasks[1].item.content, "task 10");
    assert_eq!(user.tasks[1].item.is_deleted, Flag::True);
}

#[test]
fn projection_of_no_items_has_no_tasks() {
    let snapshot = decode(snapshot_text("").as_bytes()).expect("a snapshot");
    assert!(User::from(snapshot).tasks.is_empty());
}

#[test]
fn task_wraps_its_item_unchanged() {
    let snapshot = decode(snapshot_text(&item_text(30)).as_bytes()).expect("a snapshot");
    let again = decode(snapshot_text(&item_text(30)).as_bytes()).expect("a snapshot");
    let mut items = snapshot.items;
    let task = Task::from(items.remove(0));
    assert_eq!(task.item, again.items[0]);
}

#[test]
fn decode_failure_becomes_a_failure_of_its_class() {
    let e = Page::decode(&Json::Bool(true)).expect_err("no page");
    assert_eq!(
        Failure::from(e),
        Failure::Decode(todoist_sync::error::DecodeError {
            fault: Fault::Mismatch(Expected::Page),
            path: vec![],
        })
    );
}
