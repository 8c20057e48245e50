//! The form of a custom dialog: an ordered list of typed fields, the values
//! that stand in for what a layout leaves out, and what each field reports
//! when the dialog is confirmed.

use crate::date::{date_text, valid_ymd, Date};
use crate::gui::{HAlign, HLabelPos, LabelPos};
use crate::response::{ResponseBody, ResponseBodyView};
use crate::text::{nat_decimal, push_decimal, same_text};
use vstd::prelude::*;

pub mod y_m_d_date_format;

verus! {

/// A custom dialog as its layout describes it. Lengths are whole pixels.
#[derive(Debug)]
pub struct CustomDialog {
    pub title: Option<String>,
    pub icon_path: Option<String>,
    pub borderless: bool,
    pub window_size: (u32, u32),
    pub window_pos: (i32, i32),
    pub body: Vec<Field>,
}

/// One entry of a form. The order of the entries is the order in which they
/// are drawn and reported. Font sizes are whole points and an image's scale
/// is in percent. A slider holds its ends and its value as the numbers are
/// written in decimal, so that a value with a fraction is reported as it
/// stands.
#[allow(inconsistent_fields)]
#[derive(Debug)]
pub enum Field {
    Label { text: String, font_size: u32 },
    Link { label: String, url: String, font_size: u32 },
    Text {
        id: String,
        required: bool,
        multiline: bool,
        label: String,
        label_pos: LabelPos,
        font_size: u32,
        text: String,
        placeholder: String,
    },
    Calendar {
        id: String,
        required: bool,
        label: String,
        label_pos: LabelPos,
        font_size: u32,
        date: Date,
        date_format: String,
    },
    Password {
        id: String,
        required: bool,
        label: String,
        label_pos: LabelPos,
        font_size: u32,
        text: String,
    },
    List {
        id: String,
        required: bool,
        header: String,
        selected: String,
        values: Vec<String>,
        font_size: u32,
    },
    Color {
        id: String,
        required: bool,
        label: String,
        label_pos: LabelPos,
        font_size: u32,
        rgb: [u8; 3],
    },
    Progress { id: String, label: String, label_pos: LabelPos, font_size: u32 },
    Check {
        id: String,
        required: bool,
        label: String,
        label_pos: HLabelPos,
        font_size: u32,
        checked: bool,
    },
    Radio {
        id: String,
        required: bool,
        label: String,
        label_pos: LabelPos,
        font_size: u32,
        selected: String,
        options: Vec<String>,
    },
    Slider {
        id: String,
        required: bool,
        label: String,
        label_pos: LabelPos,
        font_size: u32,
        min: String,
        max: String,
        value: String,
        suffix: String,
    },
    Combobox {
        id: String,
        required: bool,
        label: String,
        font_size: u32,
        options: Vec<String>,
        selected: String,
    },
    Image { id: String, path: String, scale: u32, h_align: HAlign },
}

/// A calendar field whose date cannot be written in its display format.
#[derive(Debug)]
pub struct UnwritableDate {
    /// The identifier of the field.
    pub id: String,
    /// The display format that was refused.
    pub date_format: String,
}

/// The date of a calendar field whose layout names none: the current day,
/// as far as the clock gives one.
pub fn default_date() -> (date: Option<Date>)
    ensures
        date matches Some(day) ==> valid_ymd(day@.year, day@.month, day@.day),
{
    Date::today()
}

/// The format in which a calendar field reports its date, unless its layout
/// names another: year, month and day with hyphens between them.
pub fn default_date_format() -> (format: String)
    ensures
        format@ == "%Y-%m-%d"@,
{
    "%Y-%m-%d".to_string()
}

/// The width and height of a window whose layout names none.
pub fn default_window_size() -> (size: (u32, u32))
    ensures
        size == (400u32, 300u32),
{
    (400, 300)
}

/// The font size of a field whose layout names none.
pub fn default_font_size() -> (size: u32)
    ensures
        size == 16,
{
    16
}

/// The place of a window whose layout names none.
pub fn default_pos() -> (pos: (i32, i32))
    ensures
        pos == (800i32, 400i32),
{
    (800, 400)
}

/// Where a label stands unless the layout says otherwise: over its field.
pub fn default_label_pos() -> (label_pos: LabelPos)
    ensures
        label_pos == LabelPos::Over,
{
    LabelPos::Over
}

/// Where the label of a check box stands unless the layout says otherwise:
/// after the box.
pub fn default_h_label_pos() -> (label_pos: HLabelPos)
    ensures
        label_pos == HLabelPos::After,
{
    HLabelPos::After
}

/// The scale of an image whose layout names none: its own size.
pub fn default_image_scale() -> (scale: u32)
    ensures
        scale == 100,
{
    100
}

/// How an image is aligned unless the layout says otherwise: in the middle.
pub fn default_h_align() -> (h_align: HAlign)
    ensures
        h_align == HAlign::Center,
{
    HAlign::Center
}

impl CustomDialog {
    /// The dialog of a layout that holds nothing but its fields: no title, no
    /// icon, a decorated window of the usual size at the usual place.
    pub fn new(body: Vec<Field>) -> (dialog: CustomDialog)
        ensures
            dialog.title is None,
            dialog.icon_path is None,
            !dialog.borderless,
            dialog.window_size == (400u32, 300u32),
            dialog.window_pos == (800i32, 400i32),
            dialog.body == body,
    {
        CustomDialog {
            title: None,
            icon_path: None,
            borderless: false,
            window_size: default_window_size(),
            window_pos: default_pos(),
            body,
        }
    }
}

/// The text of a check box's state.
pub open spec fn bool_text(b: bool) -> Seq<char> {
    if b {
        "true"@
    } else {
        "false"@
    }
}

/// The text of a color: its red, green and blue parts in decimal, between
/// square brackets and with commas between them.
pub open spec fn rgb_text(red: u8, green: u8, blue: u8) -> Seq<char> {
    "["@ + nat_decimal(red as nat) + ","@ + nat_decimal(green as nat) + ","@ + nat_decimal(
        blue as nat,
    ) + "]"@
}

/// Writes the state of a check box: `true` or `false`.
pub fn write_bool(b: bool) -> (text: String)
    ensures
        text@ == bool_text(b),
{
    if b {
        "true".to_string()
    } else {
        "false".to_string()
    }
}

/// Writes a color as its three parts in decimal, between square brackets.
pub fn write_rgb(red: u8, green: u8, blue: u8) -> (text: String)
    ensures
        text@ == rgb_text(red, green, blue),
{
    let mut text = "[".to_string();
    push_decimal(&mut text, red as u64);
    text.append(",");
    push_decimal(&mut text, green as u64);
    text.append(",");
    push_decimal(&mut text, blue as u64);
    text.append("]");
    text
}

impl Field {
    /// Whether the field only decorates the form: it takes no input and
    /// reports nothing.
    pub open spec fn decorative(self) -> bool {
        self is Label || self is Link || self is Progress
    }

    /// Whether the layout asks for the field to be filled in. Only an input
    /// field can be asked for.
    pub open spec fn required(self) -> bool {
        match self {
            Field::Text { required, .. } => required,
            Field::Calendar { required, .. } => required,
            Field::Password { required, .. } => required,
            Field::List { required, .. } => required,
            Field::Color { required, .. } => required,
            Field::Check { required, .. } => required,
            Field::Radio { required, .. } => required,
            Field::Slider { required, .. } => required,
            Field::Combobox { required, .. } => required,
            _ => false,
        }
    }

    /// Whether a field of this kind can be empty: a text can, a selection
    /// can, a check box can; a date, a color, a number and an image cannot.
    pub open spec fn can_be_empty(self) -> bool {
        self is Text || self is Password || self is List || self is Check || self is Radio
            || self is Combobox
    }

    /// Whether the field is empty by the rule of its kind: no character of
    /// text, nothing selected, a box not checked. A field that cannot be empty
    /// never is.
    pub open spec fn empty(self) -> bool {
        match self {
            Field::Text { text, .. } => text@.len() == 0,
            Field::Password { text, .. } => text@.len() == 0,
            Field::List { selected, .. } => selected@.len() == 0,
            Field::Check { checked, .. } => !checked,
            Field::Radio { selected, .. } => selected@.len() == 0,
            Field::Combobox { selected, .. } => selected@.len() == 0,
            _ => false,
        }
    }

    /// Whether the field is asked for and empty: such a field is marked, and
    /// it keeps the dialog from being confirmed.
    pub open spec fn missing(self) -> bool {
        self.required() && self.empty()
    }

    /// The identifier under which the field reports. Meant for a field that
    /// is not decorative.
    pub open spec fn id_text(self) -> Seq<char> {
        match self {
            Field::Text { id, .. } => id@,
            Field::Calendar { id, .. } => id@,
            Field::Password { id, .. } => id@,
            Field::List { id, .. } => id@,
            Field::Color { id, .. } => id@,
            Field::Progress { id, .. } => id@,
            Field::Check { id, .. } => id@,
            Field::Radio { id, .. } => id@,
            Field::Slider { id, .. } => id@,
            Field::Combobox { id, .. } => id@,
            Field::Image { id, .. } => id@,
            _ => Seq::empty(),
        }
    }

    /// Whether the field's value can be written: all can but a date whose
    /// display format cannot be written for a date.
    pub open spec fn writable(self) -> bool {
        match self {
            Field::Calendar { date, date_format, .. } => date_text(date@, date_format@) is Some,
            _ => true,
        }
    }

    /// The field's value as text: the text of a text or password field, the
    /// date in its display format, the selection of a list, radio group or
    /// combo box, `true` or `false` for a check box, the number of a slider as
    /// it is written, the three parts of a color, the path of an image. Meant
    /// for a field that is writable and not decorative.
    pub open spec fn value_text(self) -> Seq<char> {
        match self {
            Field::Text { text, .. } => text@,
            Field::Calendar { date, date_format, .. } => date_text(date@, date_format@).unwrap(),
            Field::Password { text, .. } => text@,
            Field::List { selected, .. } => selected@,
            Field::Color { rgb, .. } => rgb_text(rgb[0], rgb[1], rgb[2]),
            Field::Check { checked, .. } => bool_text(checked),
            Field::Radio { selected, .. } => selected@,
            Field::Slider { value, .. } => value@,
            Field::Combobox { selected, .. } => selected@,
            Field::Image { path, .. } => path@,
            _ => Seq::empty(),
        }
    }

    /// What the field contributes to the response of a confirmed dialog: one
    /// entry under its identifier, or nothing where it is decorative.
    pub open spec fn entry(self) -> Option<ResponseBodyView> {
        if self.decorative() {
            None
        } else {
            Some(ResponseBodyView { id: self.id_text(), value: self.value_text() })
        }
    }

    /// A line of text, in the usual font size.
    pub fn label(text: String) -> (field: Field)
        ensures
            field matches Field::Label { text: t, font_size } && t == text && font_size == 16,
    {
        Field::Label { text, font_size: default_font_size() }
    }

    /// A link, in the usual font size.
    pub fn link(label: String, url: String) -> (field: Field)
        ensures
            field matches Field::Link { label: l, url: u, font_size } && l == label && u == url
                && font_size == 16,
    {
        Field::Link { label, url, font_size: default_font_size() }
    }

    /// A text field as a layout that names only its identifier describes it:
    /// not asked for, one line, no label, no text and no placeholder.
    pub fn text(id: String) -> (field: Field)
        ensures
            field matches Field::Text {
                id: i,
                required,
                multiline,
                label,
                label_pos,
                font_size,
                text,
                placeholder,
            } && i == id && !required && !multiline && label@.len() == 0 && label_pos
                == LabelPos::Over && font_size == 16 && text@.len() == 0 && placeholder@.len()
                == 0,
    {
        Field::Text {
            id,
            required: false,
            multiline: false,
            label: String::new(),
            label_pos: default_label_pos(),
            font_size: default_font_size(),
            text: String::new(),
            placeholder: String::new(),
        }
    }

    /// A calendar field as a layout that names its identifier and its date
    /// describes it: not asked for, no label, reported as year, month and
    /// day. A layout that names no date stands for `default_date`.
    pub fn calendar(id: String, date: Date) -> (field: Field)
        ensures
            field matches Field::Calendar {
                id: i,
                required,
                label,
                label_pos,
                font_size,
                date: d,
                date_format,
            } && i == id && !required && label@.len() == 0 && label_pos == LabelPos::Over
                && font_size == 16 && d == date && date_format@ == "%Y-%m-%d"@,
    {
        Field::Calendar {
            id,
            required: false,
            label: String::new(),
            label_pos: default_label_pos(),
            font_size: default_font_size(),
            date,
            date_format: default_date_format(),
        }
    }

    /// A password field as a layout that names only its identifier describes
    /// it: not asked for, no label and no text.
    pub fn password(id: String) -> (field: Field)
        ensures
            field matches Field::Password { id: i, required, label, label_pos, font_size, text }
                && i == id && !required && label@.len() == 0 && label_pos == LabelPos::Over
                && font_size == 16 && text@.len() == 0,
    {
        Field::Password {
            id,
            required: false,
            label: String::new(),
            label_pos: default_label_pos(),
            font_size: default_font_size(),
            text: String::new(),
        }
    }

    /// A list as a layout that names only its identifier and its values
    /// describes it: not asked for, no header, nothing selected.
    pub fn list(id: String, values: Vec<String>) -> (field: Field)
        ensures
            field matches Field::List { id: i, required, header, selected, values: v, font_size }
                && i == id && !required && header@.len() == 0 && selected@.len() == 0 && v
                == values && font_size == 16,
    {
        Field::List {
            id,
            required: false,
            header: String::new(),
            selected: String::new(),
            values,
            font_size: default_font_size(),
        }
    }

    /// A color field as a layout that names only its identifier describes
    /// it: not asked for, no label, black.
    pub fn color(id: String) -> (field: Field)
        ensures
            field matches Field::Color { id: i, required, label, label_pos, font_size, rgb } && i
                == id && !required && label@.len() == 0 && label_pos == LabelPos::Over
                && font_size == 16 && rgb[0] == 0 && rgb[1] == 0 && rgb[2] == 0,
    {
        Field::Color {
            id,
            required: false,
            label: String::new(),
            label_pos: default_label_pos(),
            font_size: default_font_size(),
            rgb: [0, 0, 0],
        }
    }

    /// A progress bar as a layout that names only its identifier describes
    /// it: no label.
    pub fn progress(id: String) -> (field: Field)
        ensures
            field matches Field::Progress { id: i, label, label_pos, font_size } && i == id
                && label@.len() == 0 && label_pos == LabelPos::Over && font_size == 16,
    {
        Field::Progress {
            id,
            label: String::new(),
            label_pos: default_label_pos(),
            font_size: default_font_size(),
        }
    }

    /// A check box as a layout that names only its identifier describes it:
    /// not asked for, no label, not checked.
    pub fn check(id: String) -> (field: Field)
        ensures
            field matches Field::Check { id: i, required, label, label_pos, font_size, checked }
                && i == id && !required && label@.len() == 0 && label_pos == HLabelPos::After
                && font_size == 16 && !checked,
    {
        Field::Check {
            id,
            required: false,
            label: String::new(),
            label_pos: default_h_label_pos(),
            font_size: default_font_size(),
            checked: false,
        }
    }

    /// A radio group as a layout that names only its identifier, its
    /// selection and its options describes it: not asked for, no label.
    pub fn radio(id: String, selected: String, options: Vec<String>) -> (field: Field)
        ensures
            field matches Field::Radio {
                id: i,
                required,
                label,
                label_pos,
                font_size,
                selected: s,
                options: o,
            } && i == id && !required && label@.len() == 0 && label_pos == LabelPos::Over
                && font_size == 16 && s == selected && o == options,
    {
        Field::Radio {
            id,
            required: false,
            label: String::new(),
            label_pos: default_label_pos(),
            font_size: default_font_size(),
            selected,
            options,
        }
    }

    /// A slider as a layout that names only its identifier, its ends and its
    /// value describes it: not asked for, no label and no suffix.
    pub fn slider(id: String, min: String, max: String, value: String) -> (field: Field)
        ensures
            field matches Field::Slider {
                id: i,
                required,
                label,
                label_pos,
                font_size,
                min: lo,
                max: hi,
                value: v,
                suffix,
            } && i == id && !required && label@.len() == 0 && label_pos == LabelPos::Over
                && font_size == 16 && lo == min && hi == max && v == value && suffix@.len() == 0,
    {
        Field::Slider {
            id,
            required: false,
            label: String::new(),
            label_pos: default_label_pos(),
            font_size: default_font_size(),
            min,
            max,
            value,
            suffix: String::new(),
        }
    }

    /// A combo box as a layout that names only its identifier and its
    /// options describes it: not asked for, no label, nothing selected.
    pub fn combobox(id: String, options: Vec<String>) -> (field: Field)
        ensures
            field matches Field::Combobox { id: i, required, label, font_size, options: o, selected }
                && i == id && !required && label@.len() == 0 && font_size == 16 && o == options
                && selected@.len() == 0,
    {
        Field::Combobox {
            id,
            required: false,
            label: String::new(),
            font_size: default_font_size(),
            options,
            selected: String::new(),
        }
    }

    /// An image as a layout that names only its identifier describes it: no
    /// path, its own size, in the middle.
    pub fn image(id: String) -> (field: Field)
        ensures
            field matches Field::Image { id: i, path, scale, h_align } && i == id && path@.len()
                == 0 && scale == 100 && h_align == HAlign::Center,
    {
        Field::Image {
            id,
            path: String::new(),
            scale: default_image_scale(),
            h_align: default_h_align(),
        }
    }

    /// What the field contributes to the response of a confirmed dialog:
    /// nothing where it is decorative, else one entry with its identifier and
    /// its value as text. A calendar field whose date cannot be written in its
    /// display format is refused.
    pub fn response_entry(&self) -> (entry: Result<Option<ResponseBody>, UnwritableDate>)
        ensures
            match entry {
                Ok(Some(reported)) => self.writable() && self.entry() == Some(reported@),
                Ok(None) => self.decorative(),
                Err(_) => !self.writable(),
            },
    {
        match self {
            Field::Label { .. } => Ok(None),
            Field::Link { .. } => Ok(None),
            Field::Progress { .. } => Ok(None),
            Field::Text { id, text, .. } => Ok(
                Some(ResponseBody { id: id.clone(), value: text.clone() }),
            ),
            Field::Calendar { id, date, date_format, .. } => match date.format(
                date_format.as_str(),
            ) {
                Some(value) => Ok(Some(ResponseBody { id: id.clone(), value })),
                None => Err(UnwritableDate { id: id.clone(), date_format: date_format.clone() }),
            },
            Field::Password { id, text, .. } => Ok(
                Some(ResponseBody { id: id.clone(), value: text.clone() }),
            ),
            Field::List { id, selected, .. } => Ok(
                Some(ResponseBody { id: id.clone(), value: selected.clone() }),
            ),
            Field::Color { id, rgb, .. } => Ok(
                Some(ResponseBody { id: id.clone(), value: write_rgb(rgb[0], rgb[1], rgb[2]) }),
            ),
            Field::Check { id, checked, .. } => Ok(
                Some(ResponseBody { id: id.clone(), value: write_bool(*checked) }),
            ),
            Field::Radio { id, selected, .. } => Ok(
                Some(ResponseBody { id: id.clone(), value: selected.clone() }),
            ),
            Field::Slider { id, value, .. } => Ok(
                Some(ResponseBody { id: id.clone(), value: value.clone() }),
            ),
            Field::Combobox { id, selected, .. } => Ok(
                Some(ResponseBody { id: id.clone(), value: selected.clone() }),
            ),
            Field::Image { id, path, .. } => Ok(
                Some(ResponseBody { id: id.clone(), value: path.clone() }),
            ),
        }
    }

    /// Whether the field only decorates the form.
    pub fn is_decorative(&self) -> (decorative: bool)
        ensures
            decorative == self.decorative(),
    {
        match self {
            Field::Label { .. } => true,
            Field::Link { .. } => true,
            Field::Progress { .. } => true,
            _ => false,
        }
    }

    /// Whether the field is asked for and empty.
    pub fn is_missing(&self) -> (missing: bool)
        ensures
            missing == self.missing(),
    {
        match self {
            Field::Text { required, text, .. } => *required && text.as_str().is_empty(),
            Field::Password { required, text, .. } => *required && text.as_str().is_empty(),
            Field::List { required, selected, .. } => *required && selected.as_str().is_empty(),
            Field::Check { required, checked, .. } => *required && !*checked,
            Field::Radio { required, selected, .. } => *required && selected.as_str().is_empty(),
            Field::Combobox { required, selected, .. } => *required
                && selected.as_str().is_empty(),
            _ => false,
        }
    }
}

/// Whether the fields that report do so under identifiers that differ from
/// one another, so that no entry of a response can be taken for another.
pub open spec fn distinct_ids(fields: Seq<Field>) -> bool {
    forall|i: int, j: int|
        0 <= i < j < fields.len() && !(#[trigger] fields[i]).decorative() && !(
        #[trigger] fields[j]).decorative() ==> fields[i].id_text() != fields[j].id_text()
}

impl Field {
    /// The identifier under which the field reports, if it reports.
    pub fn id(&self) -> (id: Option<&String>)
        ensures
            id is None <==> self.decorative(),
            id matches Some(found) ==> found@ == self.id_text(),
    {
        match self {
            Field::Label { .. } => None,
            Field::Link { .. } => None,
            Field::Progress { .. } => None,
            Field::Text { id, .. } => Some(id),
            Field::Calendar { id, .. } => Some(id),
            Field::Password { id, .. } => Some(id),
            Field::List { id, .. } => Some(id),
            Field::Color { id, .. } => Some(id),
            Field::Check { id, .. } => Some(id),
            Field::Radio { id, .. } => Some(id),
            Field::Slider { id, .. } => Some(id),
            Field::Combobox { id, .. } => Some(id),
            Field::Image { id, .. } => Some(id),
        }
    }
}

/// Whether the fields that report do so under identifiers that differ from
/// one another.
pub fn has_distinct_ids(fields: &Vec<Field>) -> (distinct: bool)
    ensures
        distinct == distinct_ids(fields@),
{
    let mut j: usize = 0;
    while j < fields.len()
        invariant
            j <= fields.len(),
            forall|a: int, b: int|
                0 <= a < b < j && !(#[trigger] fields@[a]).decorative() && !(
                #[trigger] fields@[b]).decorative() ==> fields@[a].id_text()
                    != fields@[b].id_text(),
        decreases fields.len() - j,
    {
        match fields[j].id() {
            None => {},
            Some(later) => {
                let mut i: usize = 0;
                while i < j
                    invariant
                        i <= j < fields.len(),
                        !fields@[j as int].decorative(),
                        later@ == fields@[j as int].id_text(),
                        forall|a: int|
                            0 <= a < i && !(#[trigger] fields@[a]).decorative()
                                ==> fields@[a].id_text() != later@,
                    decreases j - i,
                {
                    match fields[i].id() {
                        None => {},
                        Some(earlier) => {
                            if same_text(earlier.as_str(), later.as_str()) {
                                return false;
                            }
                        },
                    }
                    i = i + 1;
                }
            },
        }
        j = j + 1;
    }
    true
}

} // verus!
