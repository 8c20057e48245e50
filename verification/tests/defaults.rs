use clialogs::custom_dialog::{
    default_date, default_date_format, default_font_size, default_h_align, default_h_label_pos,
    default_image_scale, default_label_pos, default_pos, default_window_size, write_bool,
    write_rgb, CustomDialog, Field,
};
use clialogs::date::Date;
use clialogs::gui::{HAlign, HLabelPos, LabelPos, GUI};

#[test]
fn window_without_a_size_has_the_usual_one() {
    let dialog = CustomDialog::new(vec![Field::text("name".to_string())]);
    assert_eq!(dialog.window_size, (400, 300));
    assert_eq!(default_window_size(), (400, 300));
    let (width, height) = default_window_size();
    assert_eq!((width as f32, height as f32), (400.0, 300.0));
}

#[test]
fn layout_with_nothing_but_fields_has_the_documented_values() {
    let dialog = CustomDialog::new(vec![Field::text("name".to_string())]);
    assert!(dialog.title.is_none());
    assert!(dialog.icon_path.is_none());
    assert!(!dialog.borderless);
    assert_eq!(dialog.window_pos, (800, 400));
    assert_eq!(dialog.body.len(), 1);
    assert_eq!(default_pos(), (800, 400));
}

#[test]
fn attributes_left_out_have_the_documented_values() {
    assert_eq!(default_date_format(), "%Y-%m-%d");
    assert_eq!(default_font_size(), 16);
    assert_eq!(default_image_scale(), 100);
    assert_eq!(default_label_pos(), LabelPos::Over);
    assert_eq!(default_h_label_pos(), HLabelPos::After);
    assert_eq!(default_h_align(), HAlign::Center);
}

#[test]
fn date_left_out_is_the_current_day() {
    let before = Date::today().unwrap();
    let date = default_date().unwrap();
    let after = Date::today().unwrap();
    assert!(date == before || date == after);
}

#[test]
fn text_field_starts_empty_and_optional() {
    match Field::text("name".to_string()) {
        Field::Text { id, required, multiline, label, label_pos, font_size, text, placeholder } => {
            assert_eq!(id, "name");
            assert!(!required);
            assert!(!multiline);
            assert_eq!(label, "");
            assert_eq!(label_pos, LabelPos::Over);
            assert_eq!(font_size, 16);
            assert_eq!(text, "");
            assert_eq!(placeholder, "");
        }
        _ => panic!("not a text field"),
    }
}

#[test]
fn calendar_reports_in_year_month_day() {
    let day = Date::from_ymd_opt(2024, 2, 29).unwrap();
    match Field::calendar("when".to_string(), day) {
        Field::Calendar { id, required, label, label_pos, font_size, date, date_format } => {
            assert_eq!(id, "when");
            assert!(!required);
            assert_eq!(label, "");
            assert_eq!(label_pos, LabelPos::Over);
            assert_eq!(font_size, 16);
            assert_eq!(date_format, "%Y-%m-%d");
            assert_eq!(date, day);
        }
        _ => panic!("not a calendar field"),
    }
}

#[test]
fn color_starts_black() {
    match Field::color("k".to_string()) {
        Field::Color { rgb, required, label_pos, font_size, .. } => {
            assert_eq!(rgb, [0, 0, 0]);
            assert!(!required);
            assert_eq!(label_pos, LabelPos::Over);
            assert_eq!(font_size, 16);
        }
        _ => panic!("not a color field"),
    }
}

#[test]
fn check_box_starts_unchecked_with_its_label_after() {
    match Field::check("x".to_string()) {
        Field::Check { checked, required, label_pos, font_size, .. } => {
            assert!(!checked);
            assert!(!required);
            assert_eq!(label_pos, HLabelPos::After);
            assert_eq!(font_size, 16);
        }
        _ => panic!("not a check box"),
    }
}

#[test]
fn other_fields_start_with_the_documented_values() {
    assert!(matches!(Field::label("x".to_string()), Field::Label { font_size: 16, .. }));
    assert!(matches!(
        Field::link("x".to_string(), "y".to_string()),
        Field::Link { font_size: 16, .. }
    ));
    assert!(matches!(
        Field::password("p".to_string()),
        Field::Password { required: false, label_pos: LabelPos::Over, font_size: 16, .. }
    ));
    match Field::list("l".to_string(), vec!["one".to_string()]) {
        Field::List { required, header, selected, values, font_size, .. } => {
            assert!(!required);
            assert_eq!(header, "");
            assert_eq!(selected, "");
            assert_eq!(values, vec!["one".to_string()]);
            assert_eq!(font_size, 16);
        }
        _ => panic!("not a list"),
    }
    assert!(matches!(
        Field::progress("bar".to_string()),
        Field::Progress { label_pos: LabelPos::Over, font_size: 16, .. }
    ));
    match Field::radio("r".to_string(), "a".to_string(), vec!["a".to_string()]) {
        Field::Radio { required, selected, options, label_pos, .. } => {
            assert!(!required);
            assert_eq!(selected, "a");
            assert_eq!(options, vec!["a".to_string()]);
            assert_eq!(label_pos, LabelPos::Over);
        }
        _ => panic!("not a radio group"),
    }
    match Field::slider("s".to_string(), "-5".to_string(), "5".to_string(), "2.5".to_string()) {
        Field::Slider { required, min, max, value, suffix, .. } => {
            assert!(!required);
            assert_eq!((min.as_str(), max.as_str(), value.as_str()), ("-5", "5", "2.5"));
            assert_eq!(suffix, "");
        }
        _ => panic!("not a slider"),
    }
    match Field::combobox("b".to_string(), vec!["a".to_string()]) {
        Field::Combobox { required, selected, options, font_size, .. } => {
            assert!(!required);
            assert_eq!(selected, "");
            assert_eq!(options, vec!["a".to_string()]);
            assert_eq!(font_size, 16);
        }
        _ => panic!("not a combo box"),
    }
    match Field::image("i".to_string()) {
        Field::Image { path, scale, h_align, .. } => {
            assert_eq!(path, "");
            assert_eq!(scale, 100);
            assert_eq!(h_align, HAlign::Center);
        }
        _ => panic!("not an image"),
    }
}

#[test]
fn dialog_opens_unconfirmed_without_progress() {
    let gui = GUI::new(vec![Field::progress("bar".to_string())]);
    assert!(!gui.ok_pressed());
    assert_eq!(gui.progress(), 0);
    assert_eq!(gui.custom_dialog_fields.len(), 1);
}

#[test]
fn states_and_colors_are_written_in_full() {
    assert_eq!(write_bool(true), "true");
    assert_eq!(write_bool(false), "false");
    assert_eq!(write_rgb(0, 0, 0), "[0,0,0]");
    assert_eq!(write_rgb(255, 128, 9), "[255,128,9]");
    assert_eq!(write_rgb(1, 10, 100), "[1,10,100]");
}
