use native_overlay::commands::NativeOverlayCommand;
use native_overlay::picker::{native_picker_choices, native_tag_input_valid, sort_tag_defs};
use native_overlay::tag_panel::{
    close_native_tag_picker, draw_native_tag_panel, draw_native_tag_picker,
    draw_native_tag_picker_panel, draw_native_tag_picker_tabs, native_tag_button_visuals,
    NativeTagPickerEvents, TagInputProblem,
};
use native_overlay::color::OverlayColor;
use native_overlay::tags::{
    native_tag_display_name, native_tag_is_on, native_visible_tag_choices, sync_native_tag_sticky,
    NativeOverlayCurrentTag, NativeOverlayTagDef, NativeOverlayTagMetadata,
};

fn def(name: &str, key: &str) -> NativeOverlayTagDef {
    NativeOverlayTagDef {
        name: name.to_string(),
        tag_key: key.to_string(),
        count: 0,
        pinned: false,
        last_applied_at: 0,
    }
}

fn full(name: &str, key: &str, count: u64, pinned: bool, last: i64) -> NativeOverlayTagDef {
    NativeOverlayTagDef {
        name: name.to_string(),
        tag_key: key.to_string(),
        count,
        pinned,
        last_applied_at: last,
    }
}

fn cur(key: &str, text: &str) -> NativeOverlayCurrentTag {
    NativeOverlayCurrentTag { tag_key: key.to_string(), display_name: text.to_string() }
}

fn names(v: &[NativeOverlayTagDef]) -> Vec<String> {
    v.iter().map(|d| d.name.clone()).collect()
}

fn sample_metadata() -> NativeOverlayTagMetadata {
    NativeOverlayTagMetadata {
        item_key: "item-1".to_string(),
        current_tags: vec![cur("dog", "dog text"), cur("bird", "bird"), cur("", "blank")],
        shortcut_tags: vec![def("Cat", "cat"), def("Dog", "dog"), def("dup", "cat")],
        tag_choices: vec![def("Bird!", "bird")],
    }
}

fn picker_metadata() -> NativeOverlayTagMetadata {
    NativeOverlayTagMetadata {
        item_key: "item-2".to_string(),
        current_tags: vec![cur("alps", "Alps")],
        shortcut_tags: vec![],
        tag_choices: vec![
            full("Alpha", "alpha", 3, false, 10),
            full("beta", "beta", 5, true, 0),
            full("Alps", "alps", 3, false, 10),
            full("ALPINE", "alpine", 1, true, 0),
            full("Alpha2", "alpha", 0, true, 0),
            full("Empty", "", 9, true, 99),
        ],
    }
}

#[test]
fn display_name_prefers_choices_then_shortcuts_then_fallback() {
    let m = sample_metadata();
    assert_eq!(native_tag_display_name(&m, &"bird".to_string(), &"bird".to_string()), "Bird!");
    assert_eq!(native_tag_display_name(&m, &"dog".to_string(), &"dog text".to_string()), "Dog");
    assert_eq!(native_tag_display_name(&m, &"fish".to_string(), &"fish text".to_string()), "fish text");
}

#[test]
fn tag_is_on_when_the_item_carries_its_key() {
    let m = sample_metadata();
    assert!(native_tag_is_on(&m.current_tags, &"dog".to_string()));
    assert!(!native_tag_is_on(&m.current_tags, &"cat".to_string()));
}

#[test]
fn visible_tags_are_shortcuts_then_sticky_then_current_each_once() {
    let m = sample_metadata();
    let sticky = vec![def("Old", "old"), def("Cat2", "cat")];
    let visible = native_visible_tag_choices(&m, &sticky);
    assert_eq!(names(&visible), vec!["Cat", "Dog", "Old", "Bird!"]);
    assert_eq!(visible[3].tag_key, "bird");
    assert_eq!(visible[3].count, 0);
    assert!(!visible[3].pinned);
}

#[test]
fn sticky_tags_reset_for_a_new_item_and_stay_for_the_same_one() {
    let m = sample_metadata();
    let mut key = None;
    let mut sticky = vec![def("Stale", "stale")];
    assert!(sync_native_tag_sticky(&m, &mut key, &mut sticky));
    assert_eq!(key.as_deref(), Some("item-1"));
    assert_eq!(names(&sticky), vec!["Bird!"]);

    assert!(!sync_native_tag_sticky(&m, &mut key, &mut sticky));
    assert_eq!(names(&sticky), vec!["Bird!"]);

    let mut later = m.clone();
    later.current_tags = vec![];
    assert!(!sync_native_tag_sticky(&later, &mut key, &mut sticky));
    assert_eq!(names(&sticky), vec!["Bird!"]);
}

#[test]
fn picker_with_query_lists_matching_keys_pinned_first() {
    let m = picker_metadata();
    let choices = native_picker_choices(&m, &"al".to_string(), false);
    assert_eq!(names(&choices), vec!["ALPINE", "Alpha", "Alps"]);
}

#[test]
fn picker_recent_tab_lists_applied_tags_newest_first() {
    let m = picker_metadata();
    let choices = native_picker_choices(&m, &String::new(), true);
    assert_eq!(names(&choices), vec!["Alpha", "Alps"]);
}

#[test]
fn picker_pinned_tab_keeps_the_stored_order() {
    let m = picker_metadata();
    let choices = native_picker_choices(&m, &String::new(), false);
    assert_eq!(names(&choices), vec!["beta", "ALPINE", "Alpha2"]);
}

#[test]
fn picker_sort_is_stable_for_equal_entries() {
    let defs = vec![
        full("b", "k1", 1, false, 5),
        full("B", "k2", 1, false, 5),
        full("a", "k3", 1, false, 5),
        full("z", "k4", 2, false, 5),
    ];
    let sorted = sort_tag_defs(&defs, false);
    assert_eq!(names(&sorted), vec!["z", "a", "b", "B"]);
}

#[test]
fn tag_input_must_be_short_and_without_spaces() {
    assert!(native_tag_input_valid("cat"));
    assert!(!native_tag_input_valid(""));
    assert!(!native_tag_input_valid("a b"));
    assert!(!native_tag_input_valid("全角\u{3000}空白"));
    assert!(native_tag_input_valid(&"x".repeat(64)));
    assert!(!native_tag_input_valid(&"x".repeat(65)));
}

#[test]
fn tag_button_colours_follow_the_tag_state() {
    let (text, fill, stroke) = native_tag_button_visuals(true);
    assert_eq!(text, OverlayColor::Rgb(236, 255, 238));
    assert_eq!(fill, OverlayColor::RgbaUnmultiplied(26, 108, 62, 246));
    assert_eq!(stroke, OverlayColor::Rgb(132, 236, 156));
    let (text, fill, stroke) = native_tag_button_visuals(false);
    assert_eq!(text, OverlayColor::Rgb(248, 250, 255));
    assert_eq!(fill, OverlayColor::RgbaUnmultiplied(35, 38, 50, 246));
    assert_eq!(stroke, OverlayColor::Rgb(132, 146, 174));
}

#[test]
fn closing_the_picker_resets_its_state() {
    let (mut open, mut input, mut focus, mut recent) = (true, "abc".to_string(), true, true);
    close_native_tag_picker(&mut open, &mut input, &mut focus, &mut recent);
    assert!(!open && input.is_empty() && !focus && !recent);
}

#[test]
fn picker_tabs_follow_clicks() {
    let mut recent = false;
    assert_eq!(draw_native_tag_picker_tabs(&mut recent, false, true), (true, false));
    assert!(recent);
    assert_eq!(draw_native_tag_picker_tabs(&mut recent, true, false), (false, false));
    assert!(!recent);
    assert_eq!(draw_native_tag_picker_tabs(&mut recent, false, false), (true, false));
    assert!(!recent);
}

#[test]
fn tag_panel_plus_opens_the_picker_and_buttons_toggle_tags() {
    let m = sample_metadata();
    let (mut open, mut input, mut focus, mut recent) = (false, "old".to_string(), false, true);
    let mut commands = Vec::new();
    let view = draw_native_tag_panel(
        &m, &[], true, Some(1), Some(0), &mut open, &mut input, &mut focus, &mut recent, &mut commands,
    );
    assert_eq!(view.plus_label, "＋");
    assert_eq!(view.plus_tooltip, "タグを検索/入力して付ける");
    assert!(open && input.is_empty() && focus && !recent);
    let labels: Vec<&str> = view.buttons.iter().map(|b| b.label.as_str()).collect();
    assert_eq!(labels, vec!["#Cat", "#Dog", "#Bird!"]);
    assert!(!view.buttons[0].is_on);
    assert!(view.buttons[1].is_on);
    assert_eq!(view.buttons[0].tooltip, "クリックで `#Cat` を付与");
    assert_eq!(view.buttons[1].tooltip, "クリックで `#Dog` を削除");
    assert_eq!(view.buttons[1].fill_color, OverlayColor::RgbaUnmultiplied(26, 108, 62, 246));
    assert_eq!(commands.len(), 2);
    assert!(matches!(&commands[0], NativeOverlayCommand::OpenTagViewForTag { name } if name == "Cat"));
    assert!(matches!(&commands[1], NativeOverlayCommand::ToggleTag { name } if name == "Dog"));

    let view = draw_native_tag_panel(
        &m, &[], true, None, None, &mut open, &mut input, &mut focus, &mut recent, &mut commands,
    );
    assert_eq!(view.plus_label, "×");
    assert_eq!(view.plus_tooltip, "タグ入力を閉じる");
    assert!(!open && !focus);
    assert_eq!(commands.len(), 2);
}

#[test]
fn tag_picker_adds_a_typed_tag_and_clears_the_field() {
    let m = picker_metadata();
    let mut input = "newtag".to_string();
    let (mut focus, mut recent, mut close) = (false, false, false);
    let mut commands = Vec::new();
    let view = draw_native_tag_picker(
        &m, &"newtag".to_string(), &"newtag".to_string(), true, false, false, false, false, None,
        &mut input, &mut focus, &mut recent, &mut commands, &mut close,
    );
    assert!(view.add_enabled);
    assert_eq!(view.problem, None);
    assert!(input.is_empty() && focus && close);
    assert!(matches!(&commands[0], NativeOverlayCommand::AddTag { name } if name == "newtag"));
    let labels: Vec<&str> = view.rows.iter().map(|r| r.label.as_str()).collect();
    assert_eq!(labels, vec!["#beta", "#ALPINE", "#Alpha2"]);
    assert_eq!(view.rows[0].meta, "5件");
    assert_eq!(view.rows[2].meta, "ピン");
    assert_eq!(view.rows[0].button_label, "付ける");
}

#[test]
fn tag_picker_warns_and_removes_a_carried_tag() {
    let m = picker_metadata();
    let mut input = "a b".to_string();
    let (mut focus, mut recent, mut close) = (false, false, false);
    let mut commands = Vec::new();
    let view = draw_native_tag_picker(
        &m, &"a b".to_string(), &"al".to_string(), true, true, true, false, false, Some(2),
        &mut input, &mut focus, &mut recent, &mut commands, &mut close,
    );
    assert!(!view.add_enabled);
    assert_eq!(view.problem, Some(TagInputProblem::Whitespace));
    assert_eq!(view.problem.unwrap().message(), "タグ名に空白は使えません。");
    assert_eq!(input, "a b");
    assert!(view.rows[2].is_on);
    assert_eq!(view.rows[2].button_label, "外す");
    assert!(matches!(&commands[0], NativeOverlayCommand::RemoveTag { name } if name == "Alps"));
    assert_eq!(commands.len(), 1);
    assert!(close);
}

#[test]
fn tag_picker_reports_an_overlong_name() {
    let m = picker_metadata();
    let long = "x".repeat(65);
    let mut input = long.clone();
    let (mut focus, mut recent, mut close) = (false, true, false);
    let mut commands = Vec::new();
    let view = draw_native_tag_picker(
        &m, &long, &long, true, false, false, false, false, None,
        &mut input, &mut focus, &mut recent, &mut commands, &mut close,
    );
    assert_eq!(view.problem, Some(TagInputProblem::TooLong));
    assert_eq!(TagInputProblem::TooLong.message(), "タグ名は64文字以内です。");
    assert!(view.rows.is_empty());
    assert!(commands.is_empty() && !close);
}

#[test]
fn picker_panel_back_closes_and_applying_closes() {
    let m = picker_metadata();
    let (mut open, mut input, mut focus, mut recent) = (true, "zz".to_string(), true, true);
    let mut commands = Vec::new();
    let back = NativeTagPickerEvents {
        normalized: String::new(),
        query_key: String::new(),
        back_clicked: true,
        add_clicked: false,
        input_has_focus: false,
        enter_pressed: false,
        pinned_tab_clicked: false,
        recent_tab_clicked: false,
        row_clicked: None,
    };
    let view = draw_native_tag_picker_panel(&m, &back, &mut open, &mut input, &mut focus, &mut recent, &mut commands);
    assert!(!open && input.is_empty() && !focus && !recent);
    assert_eq!(view.rows.len(), 3);

    let (mut open, mut input, mut focus, mut recent) = (true, String::new(), false, false);
    let pick = NativeTagPickerEvents { back_clicked: false, row_clicked: Some(0), ..back };
    draw_native_tag_picker_panel(&m, &pick, &mut open, &mut input, &mut focus, &mut recent, &mut commands);
    assert!(!open);
    assert!(matches!(&commands[0], NativeOverlayCommand::AddTag { name } if name == "beta"));
}

#[test]
fn sticky_sync_adds_only_new_nonempty_non_shortcut_keys() {
    let mut m = sample_metadata();
    m.current_tags = vec![cur("cat", "cat"), cur("fox", "fox"), cur("fox", "fox again"), cur("", "blank"), cur("owl", "owl")];
    let mut key = Some("item-1".to_string());
    let mut sticky = vec![def("Owl", "owl")];
    assert!(!sync_native_tag_sticky(&m, &mut key, &mut sticky));
    let keys: Vec<&str> = sticky.iter().map(|d| d.tag_key.as_str()).collect();
    assert_eq!(keys, vec!["owl", "fox"]);
}
