use clialogs::custom_dialog::{has_distinct_ids, Field};
use clialogs::date::Date;
use clialogs::gui::{
    close_permitted, collect_body, confirm_close, field_drawing, CloseDecision, FrameEnd,
    FrameInput, Keys, LabelPos, GUI,
};
use clialogs::listener::ProgressEvent;
use clialogs::response::{Response, ResponseType};

fn no_keys() -> Keys {
    Keys { enter_released: false, shift_held: false, escape_released: false }
}

fn quiet() -> FrameInput {
    FrameInput {
        keys: no_keys(),
        pending: None,
        ok_clicked: false,
        cancel_clicked: false,
        close_requested: false,
    }
}

fn required_text(id: &str, text: &str) -> Field {
    Field::Text {
        id: id.to_string(),
        required: true,
        multiline: false,
        label: String::new(),
        label_pos: LabelPos::Over,
        font_size: 16,
        text: text.to_string(),
        placeholder: String::new(),
    }
}

fn set_text(field: &mut Field, new_text: &str) {
    match field {
        Field::Text { text, .. } => *text = new_text.to_string(),
        Field::Password { text, .. } => *text = new_text.to_string(),
        _ => panic!("no text to set"),
    }
}

fn slider(id: &str, min: &str, max: &str, value: &str) -> Field {
    Field::slider(id.to_string(), min.to_string(), max.to_string(), value.to_string())
}

fn closed_with(decision: CloseDecision) -> Response {
    match decision {
        CloseDecision::Close(response) => response,
        CloseDecision::KeepOpen => panic!("the form stayed open"),
    }
}

fn every_kind() -> Vec<Field> {
    let mut text = Field::text("t".to_string());
    set_text(&mut text, "some text");
    let mut password = Field::password("p".to_string());
    set_text(&mut password, "secret");
    let calendar = Field::Calendar {
        id: "c".to_string(),
        required: false,
        label: String::new(),
        label_pos: LabelPos::Over,
        font_size: 16,
        date: Date::from_ymd_opt(2015, 9, 5).unwrap(),
        date_format: "%d/%m/%Y".to_string(),
    };
    let mut list = Field::list("l".to_string(), vec!["one".to_string(), "two".to_string()]);
    if let Field::List { selected, .. } = &mut list {
        *selected = "two".to_string();
    }
    let mut color = Field::color("k".to_string());
    if let Field::Color { rgb, .. } = &mut color {
        *rgb = [255, 0, 17];
    }
    let mut check = Field::check("x".to_string());
    if let Field::Check { checked, .. } = &mut check {
        *checked = true;
    }
    let mut combobox = Field::combobox("b".to_string(), vec!["red".to_string()]);
    if let Field::Combobox { selected, .. } = &mut combobox {
        *selected = "red".to_string();
    }
    let mut image = Field::image("i".to_string());
    if let Field::Image { path, .. } = &mut image {
        *path = "pics/logo.png".to_string();
    }
    vec![
        Field::label("Welcome".to_string()),
        text,
        Field::link("docs".to_string(), "https://example.org".to_string()),
        calendar,
        password,
        list,
        Field::progress("bar".to_string()),
        color,
        check,
        Field::radio("r".to_string(), "b".to_string(), vec!["a".to_string(), "b".to_string()]),
        slider("s", "-10", "10", "-3"),
        combobox,
        image,
    ]
}

#[test]
fn required_text_blocks_until_filled_in() {
    let mut required = Field::text("name".to_string());
    if let Field::Text { required, .. } = &mut required {
        *required = true;
    }
    let mut gui = GUI::new(vec![required]);
    assert!(!gui.handle_buttons(false, false));
    assert!(gui.handle_buttons(true, false));
    assert!(gui.ok_pressed());
    assert!(matches!(confirm_close(&mut gui), Ok(CloseDecision::KeepOpen)));
    assert!(!gui.ok_pressed());

    set_text(&mut gui.custom_dialog_fields[0], "Ada");
    assert!(gui.handle_buttons(true, false));
    let response = closed_with(confirm_close(&mut gui).unwrap());
    assert_eq!(
        response.encode(),
        "{\"type\":\"ok\",\"body\":[{\"id\":\"name\",\"value\":\"Ada\"}]}"
    );
}

#[test]
fn rejected_confirmation_is_taken_back() {
    let mut gui = GUI::new(vec![required_text("name", "")]);
    gui.handle_buttons(true, false);
    assert!(matches!(confirm_close(&mut gui), Ok(CloseDecision::KeepOpen)));
    // A close of the window that follows counts as a cancellation.
    let response = closed_with(confirm_close(&mut gui).unwrap());
    assert_eq!(response.response_type(), ResponseType::Cancelled);
    assert_eq!(response.encode(), "{\"type\":\"cancel\",\"body\":[]}");
}

#[test]
fn required_check_blocks_until_checked() {
    let mut check = Field::check("agree".to_string());
    if let Field::Check { required, .. } = &mut check {
        *required = true;
    }
    assert!(check.is_missing());
    let mut gui = GUI::new(vec![check]);
    gui.handle_buttons(true, false);
    assert!(matches!(confirm_close(&mut gui), Ok(CloseDecision::KeepOpen)));
    if let Field::Check { checked, .. } = &mut gui.custom_dialog_fields[0] {
        *checked = true;
    }
    assert!(!gui.custom_dialog_fields[0].is_missing());
    gui.handle_buttons(true, false);
    let response = closed_with(confirm_close(&mut gui).unwrap());
    assert_eq!(
        response.encode(),
        "{\"type\":\"ok\",\"body\":[{\"id\":\"agree\",\"value\":\"true\"}]}"
    );
}

#[test]
fn cancellation_ignores_the_fields() {
    let mut gui = GUI::new(vec![required_text("name", ""), required_text("other", "x")]);
    let response = closed_with(confirm_close(&mut gui).unwrap());
    assert_eq!(response.response_type(), ResponseType::Cancelled);
    assert!(response.body().is_empty());

    let mut gui = GUI::new(every_kind());
    let response = closed_with(confirm_close(&mut gui).unwrap());
    assert_eq!(response.encode(), "{\"type\":\"cancel\",\"body\":[]}");
}

#[test]
fn every_reporting_field_has_one_entry_in_order() {
    let fields = every_kind();
    let body = collect_body(&fields).unwrap();
    let found: Vec<(String, String)> =
        body.into_iter().map(|entry| (entry.id, entry.value)).collect();
    let expected = [
        ("t", "some text"),
        ("c", "05/09/2015"),
        ("p", "secret"),
        ("l", "two"),
        ("k", "[255,0,17]"),
        ("x", "true"),
        ("r", "b"),
        ("s", "-3"),
        ("b", "red"),
        ("i", "pics/logo.png"),
    ];
    assert_eq!(found.len(), expected.len());
    for (entry, (id, value)) in found.iter().zip(expected.iter()) {
        assert_eq!(entry.0, *id);
        assert_eq!(entry.1, *value);
    }
    let reporting = fields.iter().filter(|field| !field.is_decorative()).count();
    assert_eq!(found.len(), reporting);
}

#[test]
fn decorative_fields_report_nothing() {
    assert!(Field::label("x".to_string()).is_decorative());
    assert!(Field::link("x".to_string(), "y".to_string()).is_decorative());
    assert!(Field::progress("bar".to_string()).is_decorative());
    assert!(!Field::image("i".to_string()).is_decorative());
    assert!(Field::label("x".to_string()).response_entry().unwrap().is_none());
    assert!(Field::progress("bar".to_string()).response_entry().unwrap().is_none());
    assert!(Field::progress("bar".to_string()).id().is_none());
    let fields = vec![Field::label("x".to_string()), Field::progress("bar".to_string())];
    assert!(collect_body(&fields).unwrap().is_empty());
}

#[test]
fn confirmed_form_reports_every_kind() {
    let mut gui = GUI::new(every_kind());
    gui.handle_keys(Keys { enter_released: true, shift_held: false, escape_released: false });
    let response = closed_with(confirm_close(&mut gui).unwrap());
    assert_eq!(response.response_type(), ResponseType::Confirmed);
    assert_eq!(
        response.encode(),
        "{\"type\":\"ok\",\"body\":[{\"id\":\"t\",\"value\":\"some text\"},{\"id\":\"c\",\"value\":\"05/09/2015\"},{\"id\":\"p\",\"value\":\"secret\"},{\"id\":\"l\",\"value\":\"two\"},{\"id\":\"k\",\"value\":\"[255,0,17]\"},{\"id\":\"x\",\"value\":\"true\"},{\"id\":\"r\",\"value\":\"b\"},{\"id\":\"s\",\"value\":\"-3\"},{\"id\":\"b\",\"value\":\"red\"},{\"id\":\"i\",\"value\":\"pics/logo.png\"}]}"
    );
}

#[test]
fn only_required_empty_fields_block() {
    assert!(close_permitted(&Vec::new()));
    assert!(close_permitted(&every_kind()));
    assert!(close_permitted(&vec![Field::text("a".to_string())]));
    assert!(!close_permitted(&vec![required_text("a", "")]));
    assert!(close_permitted(&vec![required_text("a", " ")]));
    assert!(!close_permitted(&vec![required_text("a", "x"), required_text("b", "")]));

    let mut password = Field::password("p".to_string());
    if let Field::Password { required, .. } = &mut password {
        *required = true;
    }
    assert!(password.is_missing());
    set_text(&mut password, "pw");
    assert!(!password.is_missing());

    let mut list = Field::list("l".to_string(), vec!["one".to_string()]);
    if let Field::List { required, .. } = &mut list {
        *required = true;
    }
    assert!(list.is_missing());

    let mut combobox = Field::combobox("b".to_string(), Vec::new());
    if let Field::Combobox { required, .. } = &mut combobox {
        *required = true;
    }
    assert!(combobox.is_missing());

    let radio = Field::Radio {
        id: "r".to_string(),
        required: true,
        label: String::new(),
        label_pos: LabelPos::Over,
        font_size: 16,
        selected: String::new(),
        options: Vec::new(),
    };
    assert!(radio.is_missing());
}

#[test]
fn fields_that_cannot_be_empty_never_block() {
    let mut color = Field::color("k".to_string());
    if let Field::Color { required, .. } = &mut color {
        *required = true;
    }
    let mut calendar = Field::calendar("c".to_string(), Date::from_ymd_opt(2024, 1, 1).unwrap());
    if let Field::Calendar { required, .. } = &mut calendar {
        *required = true;
    }
    let mut moved = slider("s", "0", "10", "");
    if let Field::Slider { required, .. } = &mut moved {
        *required = true;
    }
    assert!(!color.is_missing());
    assert!(!calendar.is_missing());
    assert!(!moved.is_missing());
    assert!(!Field::image("i".to_string()).is_missing());
    assert!(!Field::label(String::new()).is_missing());
    assert!(!Field::progress("bar".to_string()).is_missing());
    assert!(close_permitted(&vec![color, calendar, moved]));
}

#[test]
fn values_are_written_by_kind() {
    let value = |field: Field| field.response_entry().unwrap().unwrap().value;
    assert_eq!(value(Field::color("k".to_string())), "[0,0,0]");
    assert_eq!(value(Field::check("x".to_string())), "false");
    assert_eq!(value(slider("s", "0", "100", "100")), "100");
    assert_eq!(value(slider("s", "0", "1", "0.5")), "0.5");
    assert_eq!(value(slider("s", "-1.5", "1.5", "-0.25")), "-0.25");
    assert_eq!(value(slider("s", "0", "1", (1.0f32 / 3.0).to_string().as_str())), "0.33333334");
    assert_eq!(value(Field::text("t".to_string())), "");
    assert_eq!(value(Field::image("i".to_string())), "");
    let day = Date::from_ymd_opt(2024, 2, 29).unwrap();
    assert_eq!(value(Field::calendar("c".to_string(), day)), "2024-02-29");
}

#[test]
fn date_that_cannot_be_written_is_refused() {
    let calendar = Field::Calendar {
        id: "when".to_string(),
        required: false,
        label: String::new(),
        label_pos: LabelPos::Over,
        font_size: 16,
        date: Date::from_ymd_opt(2015, 9, 5).unwrap(),
        date_format: "%H:%M".to_string(),
    };
    let refused = calendar.response_entry().unwrap_err();
    assert_eq!(refused.id, "when");
    assert_eq!(refused.date_format, "%H:%M");

    let mut gui = GUI::new(vec![calendar]);
    // Without a confirmation the date is never written.
    assert!(matches!(gui.handle_close(true), FrameEnd::Exit(_)));
    gui.handle_buttons(true, false);
    assert!(confirm_close(&mut gui).is_err());
    assert!(gui.ok_pressed());
}

#[test]
fn accept_key_confirms_unless_it_breaks_a_line() {
    let mut gui = GUI::new(Vec::new());
    assert!(!gui.handle_keys(Keys { enter_released: true, shift_held: true, escape_released: false }));
    assert!(!gui.ok_pressed());
    assert!(!gui.handle_keys(no_keys()));
    assert!(gui.handle_keys(Keys { enter_released: true, shift_held: false, escape_released: false }));
    assert!(gui.ok_pressed());
}

#[test]
fn dismiss_key_and_cancel_button_cancel() {
    let mut gui = GUI::new(vec![required_text("name", "Ada")]);
    gui.handle_buttons(true, false);
    assert!(gui.handle_keys(Keys { enter_released: false, shift_held: false, escape_released: true }));
    assert!(!gui.ok_pressed());
    let response = closed_with(confirm_close(&mut gui).unwrap());
    assert_eq!(response.response_type(), ResponseType::Cancelled);

    let mut gui = GUI::new(vec![required_text("name", "Ada")]);
    gui.handle_keys(Keys { enter_released: true, shift_held: false, escape_released: false });
    assert!(gui.handle_buttons(false, true));
    assert!(!gui.ok_pressed());
    let response = closed_with(confirm_close(&mut gui).unwrap());
    assert!(response.body().is_empty());
    assert_eq!(response.response_type(), ResponseType::Cancelled);
}

#[test]
fn progress_feed_sets_the_percentage() {
    let mut gui = GUI::new(vec![Field::progress("bar".to_string())]);
    assert_eq!(gui.progress(), 0);
    gui.poll_progress(None);
    assert_eq!(gui.progress(), 0);
    gui.poll_progress(Some(ProgressEvent { percent: 42 }));
    assert_eq!(gui.progress(), 42);
    gui.poll_progress(None);
    assert_eq!(gui.progress(), 42);
    gui.poll_progress(Some(ProgressEvent { percent: 7 }));
    assert_eq!(gui.progress(), 7);
    // The feed neither confirms nor keeps the window from closing.
    assert!(!gui.ok_pressed());
    assert!(matches!(gui.handle_close(true), FrameEnd::Exit(_)));
}

#[test]
fn cycle_without_events_changes_nothing() {
    let mut gui = GUI::new(vec![required_text("name", "")]);
    let frame = gui.update(quiet());
    assert!(!frame.close);
    assert!(!frame.repaint);
    assert!(matches!(frame.end, FrameEnd::Continue));
    assert!(!gui.ok_pressed());
    assert_eq!(gui.progress(), 0);
}

#[test]
fn cycle_with_the_confirm_button_asks_to_close_and_then_decides() {
    let mut gui = GUI::new(vec![required_text("name", ""), Field::progress("bar".to_string())]);
    let frame = gui
        .update(FrameInput { ok_clicked: true, pending: Some(ProgressEvent { percent: 9 }), ..quiet() });
    assert!(frame.close);
    assert!(frame.repaint);
    assert!(matches!(frame.end, FrameEnd::Continue));
    assert!(gui.ok_pressed());
    assert_eq!(gui.progress(), 9);

    let frame = gui.update(FrameInput { close_requested: true, ..quiet() });
    assert!(!frame.close);
    assert!(matches!(frame.end, FrameEnd::CancelClose));
    assert!(!gui.ok_pressed());

    set_text(&mut gui.custom_dialog_fields[0], "Ada");
    gui.update(FrameInput { ok_clicked: true, ..quiet() });
    let frame = gui.update(FrameInput { close_requested: true, ..quiet() });
    match frame.end {
        FrameEnd::Exit(response) => assert_eq!(
            response.encode(),
            "{\"type\":\"ok\",\"body\":[{\"id\":\"name\",\"value\":\"Ada\"}]}"
        ),
        _ => panic!("the dialog did not end"),
    }
}

#[test]
fn cycle_with_a_close_of_the_window_cancels() {
    let mut gui = GUI::new(vec![required_text("name", "")]);
    let frame = gui.update(FrameInput { close_requested: true, ..quiet() });
    match frame.end {
        FrameEnd::Exit(response) => {
            assert_eq!(response.encode(), "{\"type\":\"cancel\",\"body\":[]}")
        }
        _ => panic!("the dialog did not end"),
    }
}

#[test]
fn cancel_wins_over_confirm_in_one_cycle() {
    let mut gui = GUI::new(Vec::new());
    let keys = Keys { enter_released: true, shift_held: false, escape_released: true };
    let frame = gui.update(FrameInput { keys, close_requested: true, ..quiet() });
    assert!(frame.close);
    match frame.end {
        FrameEnd::Exit(response) => assert_eq!(response.response_type(), ResponseType::Cancelled),
        _ => panic!("the dialog did not end"),
    }
    let mut gui = GUI::new(Vec::new());
    let input = FrameInput { ok_clicked: true, cancel_clicked: true, close_requested: true, ..quiet() };
    match gui.update(input).end {
        FrameEnd::Exit(response) => assert_eq!(response.response_type(), ResponseType::Cancelled),
        _ => panic!("the dialog did not end"),
    }
}

#[test]
fn identifiers_are_compared_among_reporting_fields() {
    assert!(has_distinct_ids(&Vec::new()));
    assert!(has_distinct_ids(&every_kind()));
    assert!(!has_distinct_ids(&vec![Field::text("a".to_string()), Field::check("a".to_string())]));
    assert!(has_distinct_ids(&vec![Field::text("a".to_string()), Field::check("A".to_string())]));
    assert!(has_distinct_ids(&vec![
        Field::progress("a".to_string()),
        Field::text("a".to_string()),
        Field::progress("a".to_string()),
    ]));
    assert!(!has_distinct_ids(&vec![
        Field::text("a".to_string()),
        Field::text("b".to_string()),
        Field::label("x".to_string()),
        Field::image("a".to_string()),
    ]));
    assert_eq!(Field::image("pic".to_string()).id().unwrap(), "pic");
}

fn unwritable_calendar(id: &str) -> Field {
    Field::Calendar {
        id: id.to_string(),
        required: false,
        label: String::new(),
        label_pos: LabelPos::Over,
        font_size: 16,
        date: Date::from_ymd_opt(2015, 9, 5).unwrap(),
        date_format: "%H:%M".to_string(),
    }
}

#[test]
fn missing_field_is_rejected_before_a_date_is_written() {
    let mut gui = GUI::new(vec![unwritable_calendar("when"), required_text("name", "")]);
    gui.handle_buttons(true, false);
    assert!(matches!(confirm_close(&mut gui), Ok(CloseDecision::KeepOpen)));
    assert!(!gui.ok_pressed());

    // Once nothing is missing, the date is what stands in the way.
    set_text(&mut gui.custom_dialog_fields[1], "Ada");
    gui.handle_buttons(true, false);
    let refused = confirm_close(&mut gui).unwrap_err();
    assert_eq!(refused.id, "when");
    assert!(gui.ok_pressed());
}

#[test]
fn cycle_rejects_a_missing_field_whatever_the_dates_hold() {
    let mut gui = GUI::new(vec![required_text("name", ""), unwritable_calendar("when")]);
    gui.update(FrameInput { ok_clicked: true, ..quiet() });
    assert!(gui.ok_pressed());
    let frame = gui.update(FrameInput { close_requested: true, ..quiet() });
    assert!(matches!(frame.end, FrameEnd::CancelClose));
    assert!(!gui.ok_pressed());
    // A close of the window that follows is a cancellation.
    let frame = gui.update(FrameInput { close_requested: true, ..quiet() });
    match frame.end {
        FrameEnd::Exit(response) => {
            assert_eq!(response.encode(), "{\"type\":\"cancel\",\"body\":[]}")
        }
        _ => panic!("the dialog did not end"),
    }
}

#[test]
fn cycle_refuses_a_complete_form_with_a_date_that_cannot_be_written() {
    let mut gui = GUI::new(vec![required_text("name", "Ada"), unwritable_calendar("when")]);
    let frame = gui.update(FrameInput { ok_clicked: true, close_requested: true, ..quiet() });
    match frame.end {
        FrameEnd::Refused(refused) => {
            assert_eq!(refused.id, "when");
            assert_eq!(refused.date_format, "%H:%M");
        }
        _ => panic!("the form was not refused"),
    }
    assert!(gui.ok_pressed());
    assert_eq!(frame.drawings.len(), 2);
}

#[test]
fn cycle_draws_every_field_in_order() {
    let fields = vec![
        required_text("name", ""),
        Field::progress("bar".to_string()),
        Field::label("x".to_string()),
        required_text("other", "filled"),
    ];
    let expected: Vec<_> = fields.iter().map(field_drawing).collect();
    let mut gui = GUI::new(fields);
    let frame = gui.update(quiet());
    assert_eq!(frame.drawings, expected);
    assert_eq!(frame.drawings.len(), 4);
    assert!(frame.drawings[0].labeled.widget_marked);
    assert!(!frame.drawings[3].labeled.widget_marked);
    assert!(!frame.drawings[3].labeled.label_marked);
    assert!(frame.repaint);

    set_text(&mut gui.custom_dialog_fields[0], "Ada");
    let frame = gui.update(quiet());
    assert!(!frame.drawings[0].labeled.widget_marked);
    assert!(gui.update(FrameInput { close_requested: true, ..quiet() }).drawings.len() == 4);
}

#[test]
fn fields_are_read_and_set_by_place() {
    let mut gui = GUI::new(vec![required_text("name", ""), Field::check("x".to_string())]);
    assert_eq!(gui.fields().len(), 2);
    assert!(gui.fields()[0].is_missing());
    assert!(gui.set_field(0, required_text("name", "Ada")));
    assert!(!gui.fields()[0].is_missing());
    assert_eq!(gui.fields()[0].response_entry().unwrap().unwrap().value, "Ada");
    assert!(matches!(gui.fields()[1], Field::Check { .. }));
    assert!(gui.set_field(1, Field::label("x".to_string())));
    assert!(gui.fields()[1].is_decorative());
    assert!(!gui.set_field(2, Field::label("y".to_string())));
    assert_eq!(gui.fields().len(), 2);
    assert!(!gui.ok_pressed());
    assert_eq!(gui.progress(), 0);
}
