//! The commands of the utility, and what each of them asks for: a
//! notification, a file picker, a message box, or a form read from a layout.

use crate::response::{body_view, cancel_view, ok_view, Response, ResponseBody, ResponseBodyView};
use crate::text::{debug_list, list_debug_text, texts};
use vstd::prelude::*;

verus! {

/// What the utility was started with.
#[derive(Debug)]
pub struct Cli {
    /// The path of an icon for the window or the notification.
    pub icon_path: Option<String>,
    pub command: Command,
}

/// One command of the utility.
#[derive(Debug)]
pub enum Command {
    Notification { title: String, text: String },
    FileDialog { is_directory: bool, open_directory: String, multiple: bool, save: bool },
    MessageDialog { title: String, level: MessageDialogLevel, text: String },
    Progress { title: String, label: String },
    Input { title: String, label: String, hint: Option<String> },
    LogIn { title: String, label: String, user_label: String, pass_label: String },
    Calendar { title: String, label: String, date_format: String },
    Color { title: String, label: String },
    List { title: String, header: String, values: Vec<String> },
    Select { title: String, label: String, options: Vec<String> },
    Custom { layout_path: String },
}

/// How grave a message is.
#[derive(Clone, Copy, Debug, PartialEq, Eq, Structural)]
pub enum MessageDialogLevel {
    Info,
    Warning,
    Error,
    Question,
}

/// The picker that a file dialog opens.
#[derive(Clone, Copy, Debug, PartialEq, Eq, Structural)]
pub enum Picker {
    SaveFile,
    PickFolders,
    PickFiles,
    PickFolder,
    PickFile,
}

/// The buttons of a message box.
#[derive(Clone, Copy, Debug, PartialEq, Eq, Structural)]
pub enum MessageButtons {
    Confirm,
    ConfirmCancel,
}

/// The level that a message box is shown with.
#[derive(Clone, Copy, Debug, PartialEq, Eq, Structural)]
pub enum MessageLevel {
    Info,
    Warning,
    Error,
}

/// A placeholder of a layout and the text that takes its place.
#[derive(Debug)]
pub struct Pattern {
    pub key: String,
    pub value: String,
}

/// The mathematical value of a `Pattern`.
pub struct PatternView {
    pub key: Seq<char>,
    pub value: Seq<char>,
}

impl View for Pattern {
    type V = PatternView;

    open spec fn view(&self) -> PatternView {
        PatternView { key: self.key@, value: self.value@ }
    }
}

/// The layout that a command shows: the path of its file, and what stands in
/// for the placeholders of the file.
#[derive(Debug)]
pub struct Layout {
    pub path: String,
    /// The patterns, in the order in which they are applied to the file.
    pub patterns: Vec<Pattern>,
}

/// The mathematical value of a `Layout`.
pub struct LayoutView {
    pub path: Seq<char>,
    pub patterns: Seq<PatternView>,
}

/// The mathematical values of a list of patterns.
pub open spec fn patterns_view(patterns: Seq<Pattern>) -> Seq<PatternView> {
    patterns.map_values(|pattern: Pattern| pattern@)
}

impl View for Layout {
    type V = LayoutView;

    open spec fn view(&self) -> LayoutView {
        LayoutView { path: self.path@, patterns: patterns_view(self.patterns@) }
    }
}

/// A pattern with the key `key`.
pub open spec fn pattern(key: Seq<char>, value: Seq<char>) -> PatternView {
    PatternView { key, value }
}

/// The picker for the flags of a file dialog: saving goes before everything
/// else, then several entries before one, and folders or files as asked.
pub open spec fn picker_of(is_directory: bool, multiple: bool, save: bool) -> Picker {
    if save {
        Picker::SaveFile
    } else if multiple {
        if is_directory {
            Picker::PickFolders
        } else {
            Picker::PickFiles
        }
    } else if is_directory {
        Picker::PickFolder
    } else {
        Picker::PickFile
    }
}

/// The layout of a command: each command that shows a form has a layout file
/// of its own and hands its arguments to the placeholders of that file, and
/// the custom command names its file itself. A command that shows no form
/// has none.
pub open spec fn layout_of(command: Command) -> Option<LayoutView> {
    match command {
        Command::Notification { .. } => None,
        Command::FileDialog { .. } => None,
        Command::MessageDialog { .. } => None,
        Command::Progress { title, label } => Some(
            LayoutView {
                path: "def_layouts/progress.json"@,
                patterns: seq![pattern("title"@, title@), pattern("label"@, label@)],
            },
        ),
        Command::Input { title, label, hint } => Some(
            LayoutView {
                path: "def_layouts/input.json"@,
                patterns: seq![
                    pattern("title"@, title@),
                    pattern("label"@, label@),
                    pattern(
                        "placeholder"@,
                        match hint {
                            Some(text) => text@,
                            None => Seq::empty(),
                        },
                    ),
                ],
            },
        ),
        Command::LogIn { title, label, user_label, pass_label } => Some(
            LayoutView {
                path: "def_layouts/log_in.json"@,
                patterns: seq![
                    pattern("title"@, title@),
                    pattern("label"@, label@),
                    pattern("user_label"@, user_label@),
                    pattern("pass_label"@, pass_label@),
                ],
            },
        ),
        Command::Calendar { title, label, date_format } => Some(
            LayoutView {
                path: "def_layouts/calendar.json"@,
                patterns: seq![
                    pattern("title"@, title@),
                    pattern("label"@, label@),
                    pattern("date-format"@, date_format@),
                ],
            },
        ),
        Command::Color { title, label } => Some(
            LayoutView {
                path: "def_layouts/color.json"@,
                patterns: seq![pattern("title"@, title@), pattern("label"@, label@)],
            },
        ),
        Command::List { title, header, values } => Some(
            LayoutView {
                path: "def_layouts/list.json"@,
                patterns: seq![
                    pattern("title"@, title@),
                    pattern("header"@, header@),
                    pattern("values"@, list_debug_text(texts(values@))),
                ],
            },
        ),
        Command::Select { title, label, options } => Some(
            LayoutView {
                path: "def_layouts/select.json"@,
                patterns: seq![
                    pattern("title"@, title@),
                    pattern("label"@, label@),
                    pattern("options"@, list_debug_text(texts(options@))),
                ],
            },
        ),
        Command::Custom { layout_path } => Some(
            LayoutView { path: layout_path@, patterns: Seq::empty() },
        ),
    }
}

/// The picker for the flags of a file dialog.
pub fn picker(is_directory: bool, multiple: bool, save: bool) -> (picker: Picker)
    ensures
        picker == picker_of(is_directory, multiple, save),
{
    if save {
        Picker::SaveFile
    } else if multiple {
        if is_directory {
            Picker::PickFolders
        } else {
            Picker::PickFiles
        }
    } else if is_directory {
        Picker::PickFolder
    } else {
        Picker::PickFile
    }
}

/// The buttons of a message box: a question can be turned down, the other
/// messages can only be taken note of.
pub fn message_buttons(level: MessageDialogLevel) -> (buttons: MessageButtons)
    ensures
        buttons == (if level == MessageDialogLevel::Question {
            MessageButtons::ConfirmCancel
        } else {
            MessageButtons::Confirm
        }),
{
    match level {
        MessageDialogLevel::Question => MessageButtons::ConfirmCancel,
        _ => MessageButtons::Confirm,
    }
}

/// The level that a message box is shown with: a warning and an error keep
/// theirs, everything else is shown as information.
pub fn message_level(level: MessageDialogLevel) -> (shown: MessageLevel)
    ensures
        shown == (match level {
            MessageDialogLevel::Warning => MessageLevel::Warning,
            MessageDialogLevel::Error => MessageLevel::Error,
            _ => MessageLevel::Info,
        }),
{
    match level {
        MessageDialogLevel::Warning => MessageLevel::Warning,
        MessageDialogLevel::Error => MessageLevel::Error,
        _ => MessageLevel::Info,
    }
}

/// The response of a message box: confirmed without entries, or cancelled.
pub fn message_response(ok_pressed: bool) -> (response: Response)
    ensures
        response@ == (if ok_pressed {
            ok_view(Seq::empty())
        } else {
            cancel_view()
        }),
{
    if ok_pressed {
        let body: Vec<ResponseBody> = Vec::new();
        assert(body_view(body@) == Seq::<ResponseBodyView>::empty());
        Response::ok(body)
    } else {
        Response::cancel()
    }
}

/// The response of a file dialog: the text of what was picked as the one
/// entry `paths`, or cancelled where nothing was picked.
pub fn paths_response(paths: Option<String>) -> (response: Response)
    ensures
        response@ == (match paths {
            Some(picked) => ok_view(seq![ResponseBodyView { id: "paths"@, value: picked@ }]),
            None => cancel_view(),
        }),
{
    match paths {
        Some(picked) => {
            let mut body: Vec<ResponseBody> = Vec::new();
            body.push(ResponseBody { id: "paths".to_string(), value: picked });
            assert(body_view(body@) == seq![ResponseBodyView { id: "paths"@, value: picked@ }]);
            Response::ok(body)
        },
        None => Response::cancel(),
    }
}

/// A layout with no pattern yet.
fn layout(path: &str) -> (layout: Layout)
    ensures
        layout@ == (LayoutView { path: path@, patterns: Seq::empty() }),
{
    let layout = Layout { path: path.to_string(), patterns: Vec::new() };
    assert(patterns_view(layout.patterns@) == Seq::<PatternView>::empty());
    layout
}

impl Layout {
    /// Adds a pattern after those that are there.
    fn with(self, key: &str, value: String) -> (layout: Layout)
        ensures
            layout@ == (LayoutView {
                path: self@.path,
                patterns: self@.patterns.push(pattern(key@, value@)),
            }),
    {
        let mut layout = self;
        layout.patterns.push(Pattern { key: key.to_string(), value });
        assert(patterns_view(layout.patterns@) == patterns_view(self.patterns@).push(
            pattern(key@, value@),
        ));
        layout
    }
}

impl Command {
    /// The layout that the command shows, if it shows a form.
    pub fn layout(&self) -> (layout: Option<Layout>)
        ensures
            match layout {
                Some(found) => layout_of(*self) == Some(found@),
                None => layout_of(*self) is None,
            },
    {
        let found = match self {
            Command::Notification { .. } => {
                return None;
            },
            Command::FileDialog { .. } => {
                return None;
            },
            Command::MessageDialog { .. } => {
                return None;
            },
            Command::Progress { title, label } => self::layout("def_layouts/progress.json").with(
                "title",
                title.clone(),
            ).with("label", label.clone()),
            Command::Input { title, label, hint } => {
                let placeholder = match hint {
                    Some(text) => text.clone(),
                    None => String::new(),
                };
                self::layout("def_layouts/input.json").with("title", title.clone()).with(
                    "label",
                    label.clone(),
                ).with("placeholder", placeholder)
            },
            Command::LogIn { title, label, user_label, pass_label } => self::layout(
                "def_layouts/log_in.json",
            ).with("title", title.clone()).with("label", label.clone()).with(
                "user_label",
                user_label.clone(),
            ).with("pass_label", pass_label.clone()),
            Command::Calendar { title, label, date_format } => self::layout(
                "def_layouts/calendar.json",
            ).with("title", title.clone()).with("label", label.clone()).with(
                "date-format",
                date_format.clone(),
            ),
            Command::Color { title, label } => self::layout("def_layouts/color.json").with(
                "title",
                title.clone(),
            ).with("label", label.clone()),
            Command::List { title, header, values } => self::layout("def_layouts/list.json").with(
                "title",
                title.clone(),
            ).with("header", header.clone()).with("values", debug_list(values)),
            Command::Select { title, label, options } => self::layout(
                "def_layouts/select.json",
            ).with("title", title.clone()).with("label", label.clone()).with(
                "options",
                debug_list(options),
            ),
            Command::Custom { layout_path } => self::layout(layout_path.as_str()),
        };
        assert(found@.patterns =~= layout_of(*self).unwrap().patterns);
        Some(found)
    }
}

} // verus!
