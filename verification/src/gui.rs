//! The interaction loop of a custom dialog: what a redraw cycle decides from
//! the keys, the buttons and the progress feed, how each field is laid out
//! and marked, and what a request to close the window leads to.

use crate::custom_dialog::{Field, UnwritableDate};
use crate::listener::ProgressEvent;
use crate::response::{body_view, cancel_view, ok_view, Response, ResponseBody, ResponseBodyView};
use crate::text::same_text;
use vstd::prelude::*;

verus! {

/// Where the label of a field stands: over the field or next to it.
#[derive(Clone, Copy, Debug, PartialEq, Eq, Structural)]
pub enum LabelPos {
    Over,
    Next,
}

/// Where the label of a check box stands: before the box or after it.
#[derive(Clone, Copy, Debug, PartialEq, Eq, Structural)]
pub enum HLabelPos {
    Before,
    After,
}

/// How an image is aligned in the width of the window.
#[derive(Clone, Copy, Debug, PartialEq, Eq, Structural)]
pub enum HAlign {
    Left,
    Center,
    Right,
}

/// How a field's widget and its label are put on the form.
#[derive(Clone, Copy, Debug, PartialEq, Eq, Structural)]
pub enum Placement {
    /// The widget alone, without a label.
    Alone,
    /// The label over the widget.
    Over,
    /// The label first, the widget next to it on the same line.
    Next,
    /// The widget first, its label after it on the same line.
    After,
    /// The label as the heading of a table.
    Heading,
}

/// What is drawn for one field besides the widget itself.
#[derive(Clone, Copy, Debug, PartialEq, Eq, Structural)]
pub struct LabeledWidget {
    /// Where the label stands.
    pub placement: Placement,
    /// Whether the label is drawn in the color that marks a missing value.
    pub label_marked: bool,
    /// Whether the widget's background is drawn in that color.
    pub widget_marked: bool,
}

/// What a redraw cycle draws for one field.
#[derive(Clone, Copy, Debug, PartialEq, Eq, Structural)]
pub struct FieldDrawing {
    /// The label and the marks.
    pub labeled: LabeledWidget,
    /// Whether a spinner is drawn after the widget.
    pub spinner: bool,
    /// Whether the field asks for the next redraw cycle to follow at once.
    pub repaint: bool,
}

impl LabeledWidget {
    /// Whether the mark of a missing value is drawn, on the label or on the
    /// widget.
    pub open spec fn marked(self) -> bool {
        self.label_marked || self.widget_marked
    }
}

/// Whether a label is drawn: an absent label is written as no text at all or
/// as the word `null`.
pub open spec fn has_label(label_text: Seq<char>) -> bool {
    label_text.len() != 0 && label_text != "null"@
}

/// The placement for a label position.
pub open spec fn placement_of(label_pos: LabelPos) -> Placement {
    match label_pos {
        LabelPos::Over => Placement::Over,
        LabelPos::Next => Placement::Next,
    }
}

/// How a widget with a label is drawn: a field without a label stands alone
/// and carries the mark itself, else the label stands where `label_pos` puts
/// it and carries the mark.
pub open spec fn labeled_widget(label_text: Seq<char>, label_pos: LabelPos, marked: bool)
    -> LabeledWidget {
    if has_label(label_text) {
        LabeledWidget {
            placement: placement_of(label_pos),
            label_marked: marked,
            widget_marked: false,
        }
    } else {
        LabeledWidget { placement: Placement::Alone, label_marked: false, widget_marked: marked }
    }
}

/// A label that is always drawn, marked or not, where `placement` puts it.
pub open spec fn plain_label(placement: Placement, marked: bool) -> LabeledWidget {
    LabeledWidget { placement, label_marked: marked, widget_marked: false }
}

/// What is drawn for `field`. A text, password, calendar or slider field
/// drops an absent label; the others always draw theirs. A field that is
/// asked for and empty is marked. A progress bar asks for continuous redraw,
/// and shows a spinner where its label stands next to it.
pub open spec fn drawing_of(field: Field) -> FieldDrawing {
    match field {
        Field::Label { .. } | Field::Link { .. } | Field::Image { .. } => FieldDrawing {
            labeled: plain_label(Placement::Alone, false),
            spinner: false,
            repaint: false,
        },
        Field::Text { label, label_pos, .. } => FieldDrawing {
            labeled: labeled_widget(label@, label_pos, field.missing()),
            spinner: false,
            repaint: false,
        },
        Field::Password { label, label_pos, .. } => FieldDrawing {
            labeled: labeled_widget(label@, label_pos, field.missing()),
            spinner: false,
            repaint: false,
        },
        Field::Calendar { label, label_pos, .. } => FieldDrawing {
            labeled: labeled_widget(label@, label_pos, false),
            spinner: false,
            repaint: false,
        },
        Field::Slider { label, label_pos, .. } => FieldDrawing {
            labeled: labeled_widget(label@, label_pos, false),
            spinner: false,
            repaint: false,
        },
        Field::List { .. } => FieldDrawing {
            labeled: plain_label(Placement::Heading, field.missing()),
            spinner: false,
            repaint: false,
        },
        Field::Color { label_pos, .. } => FieldDrawing {
            labeled: plain_label(placement_of(label_pos), false),
            spinner: false,
            repaint: false,
        },
        Field::Progress { label_pos, .. } => FieldDrawing {
            labeled: plain_label(placement_of(label_pos), false),
            spinner: label_pos == LabelPos::Next,
            repaint: true,
        },
        Field::Check { label_pos, .. } => FieldDrawing {
            labeled: plain_label(
                match label_pos {
                    HLabelPos::Before => Placement::Next,
                    HLabelPos::After => Placement::After,
                },
                field.missing(),
            ),
            spinner: false,
            repaint: false,
        },
        Field::Radio { label_pos, .. } => FieldDrawing {
            labeled: plain_label(placement_of(label_pos), field.missing()),
            spinner: false,
            repaint: false,
        },
        Field::Combobox { .. } => FieldDrawing {
            labeled: plain_label(Placement::After, field.missing()),
            spinner: false,
            repaint: false,
        },
    }
}

/// Whether `drawn` holds what is drawn for `fields`: every field once, in
/// the order of the form, each as `drawing_of` says, so that a field is
/// marked exactly while it is asked for and empty.
pub open spec fn draws(drawn: Seq<FieldDrawing>, fields: Seq<Field>) -> bool {
    &&& drawn.len() == fields.len()
    &&& forall|i: int| 0 <= i < fields.len() ==> drawn[i] == drawing_of(#[trigger] fields[i])
}

/// Whether some field asks for continuous redraw.
pub open spec fn wants_repaint(fields: Seq<Field>) -> bool {
    exists|i: int| 0 <= i < fields.len() && drawing_of(#[trigger] fields[i]).repaint
}

/// The placement for a label position.
pub fn placement(label_pos: &LabelPos) -> (placement: Placement)
    ensures
        placement == placement_of(*label_pos),
{
    match label_pos {
        LabelPos::Over => Placement::Over,
        LabelPos::Next => Placement::Next,
    }
}

/// What is drawn for `field` in a redraw cycle.
pub fn field_drawing(field: &Field) -> (drawing: FieldDrawing)
    ensures
        drawing == drawing_of(*field),
{
    let marked = field.is_missing();
    let (labeled, spinner, repaint) = match field {
        Field::Label { .. } | Field::Link { .. } | Field::Image { .. } => (
            LabeledWidget { placement: Placement::Alone, label_marked: false, widget_marked: false },
            false,
            false,
        ),
        Field::Text { label, label_pos, .. } => (
            GUI::add_labeled_widget(label.as_str(), label_pos, marked),
            false,
            false,
        ),
        Field::Password { label, label_pos, .. } => (
            GUI::add_labeled_widget(label.as_str(), label_pos, marked),
            false,
            false,
        ),
        Field::Calendar { label, label_pos, .. } => (
            GUI::add_labeled_widget(label.as_str(), label_pos, false),
            false,
            false,
        ),
        Field::Slider { label, label_pos, .. } => (
            GUI::add_labeled_widget(label.as_str(), label_pos, false),
            false,
            false,
        ),
        Field::List { .. } => (
            LabeledWidget {
                placement: Placement::Heading,
                label_marked: marked,
                widget_marked: false,
            },
            false,
            false,
        ),
        Field::Color { label_pos, .. } => (
            LabeledWidget {
                placement: placement(label_pos),
                label_marked: false,
                widget_marked: false,
            },
            false,
            false,
        ),
        Field::Progress { label_pos, .. } => (
            LabeledWidget {
                placement: placement(label_pos),
                label_marked: false,
                widget_marked: false,
            },
            match label_pos {
                LabelPos::Over => false,
                LabelPos::Next => true,
            },
            true,
        ),
        Field::Check { label_pos, .. } => (
            LabeledWidget {
                placement: match label_pos {
                    HLabelPos::Before => Placement::Next,
                    HLabelPos::After => Placement::After,
                },
                label_marked: marked,
                widget_marked: false,
            },
            false,
            false,
        ),
        Field::Radio { label_pos, .. } => (
            LabeledWidget {
                placement: placement(label_pos),
                label_marked: marked,
                widget_marked: false,
            },
            false,
            false,
        ),
        Field::Combobox { .. } => (
            LabeledWidget {
                placement: Placement::After,
                label_marked: marked,
                widget_marked: false,
            },
            false,
            false,
        ),
    };
    FieldDrawing { labeled, spinner, repaint }
}

/// The state of an open dialog: the fields with their current values, whether
/// the user has confirmed since the last request to close, and the
/// percentage that the progress bar shows.
#[derive(Debug)]
pub struct GUI {
    pub custom_dialog_fields: Vec<Field>,
    ok_pressed: bool,
    progress: u32,
}

/// The mathematical value of a `GUI`.
pub struct GUIView {
    pub fields: Seq<Field>,
    pub ok_pressed: bool,
    pub progress: u32,
}

impl View for GUI {
    type V = GUIView;

    closed spec fn view(&self) -> GUIView {
        GUIView {
            fields: self.custom_dialog_fields@,
            ok_pressed: self.ok_pressed,
            progress: self.progress,
        }
    }
}

/// What a request to close the window leads to.
#[derive(Debug)]
pub enum CloseDecision {
    /// The window closes, and the dialog reports this response.
    Close(Response),
    /// The request is turned down and the form stays open.
    KeepOpen,
}

/// What a request to close the window comes to.
pub enum CloseOutcome {
    /// The dialog is cancelled.
    Cancelled,
    /// The dialog is confirmed and reports these entries.
    Confirmed(Seq<ResponseBodyView>),
    /// The confirmation is turned down: a field is asked for and empty.
    Rejected,
    /// The form cannot be reported: a date cannot be written.
    Refused,
}

/// The entries that the fields report, in the order of the fields: one for
/// each field that is not decorative.
pub open spec fn response_body(fields: Seq<Field>) -> Seq<ResponseBodyView>
    decreases fields.len(),
{
    if fields.len() == 0 {
        Seq::empty()
    } else {
        let before = response_body(fields.drop_last());
        match fields.last().entry() {
            Some(entry) => before.push(entry),
            None => before,
        }
    }
}

/// The number of fields that are not decorative.
pub open spec fn reporting_count(fields: Seq<Field>) -> nat
    decreases fields.len(),
{
    if fields.len() == 0 {
        0
    } else if fields.last().decorative() {
        reporting_count(fields.drop_last())
    } else {
        reporting_count(fields.drop_last()) + 1
    }
}

/// Whether the value of every field can be written.
pub open spec fn all_writable(fields: Seq<Field>) -> bool {
    forall|i: int| 0 <= i < fields.len() ==> (#[trigger] fields[i]).writable()
}

/// Whether the form may be confirmed: no field is asked for and empty.
pub open spec fn may_close(fields: Seq<Field>) -> bool {
    forall|i: int| 0 <= i < fields.len() ==> !(#[trigger] fields[i]).missing()
}

/// What a request to close comes to in a given state: without a confirmation
/// the dialog is cancelled, whatever the fields hold; a confirmed form is
/// turned down while some field is asked for and empty, whatever else it
/// holds, and reported otherwise. Only a form that would be reported can be
/// refused for a date that cannot be written.
pub open spec fn close_outcome(gui: GUIView) -> CloseOutcome {
    if !gui.ok_pressed {
        CloseOutcome::Cancelled
    } else if !may_close(gui.fields) {
        CloseOutcome::Rejected
    } else if !all_writable(gui.fields) {
        CloseOutcome::Refused
    } else {
        CloseOutcome::Confirmed(response_body(gui.fields))
    }
}

/// Collects what the fields report, in their order.
pub fn collect_body(fields: &Vec<Field>) -> (collected: Result<Vec<ResponseBody>, UnwritableDate>)
    ensures
        match collected {
            Ok(body) => all_writable(fields@) && body_view(body@) == response_body(fields@),
            Err(_) => !all_writable(fields@),
        },
{
    let mut body: Vec<ResponseBody> = Vec::new();
    let mut i: usize = 0;
    assert(body_view(body@) == response_body(fields@.take(0)));
    while i < fields.len()
        invariant
            i <= fields.len(),
            all_writable(fields@.take(i as int)),
            body_view(body@) == response_body(fields@.take(i as int)),
        decreases fields.len() - i,
    {
        let ghost seen = fields@.take(i + 1);
        let ghost before = body@;
        proof {
            assert(seen.drop_last() == fields@.take(i as int));
            assert(seen.last() == fields@[i as int]);
        }
        match fields[i].response_entry() {
            Ok(Some(entry)) => {
                body.push(entry);
                assert(body_view(body@) == body_view(before).push(entry@));
            },
            Ok(None) => {},
            Err(refused) => {
                return Err(refused);
            },
        }
        proof {
            assert forall|k: int| 0 <= k < seen.len() implies (#[trigger] seen[k]).writable() by {
                if k < i {
                    assert(seen[k] == fields@.take(i as int)[k]);
                }
            }
        }
        i = i + 1;
    }
    assert(fields@.take(i as int) == fields@);
    Ok(body)
}

/// Whether the form may be confirmed: no field is asked for and empty.
pub fn close_permitted(fields: &Vec<Field>) -> (permitted: bool)
    ensures
        permitted == may_close(fields@),
{
    let mut i: usize = 0;
    while i < fields.len()
        invariant
            i <= fields.len(),
            forall|k: int| 0 <= k < i ==> !(#[trigger] fields@[k]).missing(),
        decreases fields.len() - i,
    {
        if fields[i].is_missing() {
            return false;
        }
        i = i + 1;
    }
    true
}

/// Answers a request to close the window.
///
/// Without a confirmation the dialog is cancelled: the window closes with
/// the `cancel` response, whatever the fields hold. After a confirmation the
/// form is looked through first: while a field is asked for and empty the
/// window stays open, with the confirmation taken back so that the next
/// request counts as a new one. Else the fields are collected and the window
/// closes with the `ok` response. A form that would be reported but holds a
/// date that cannot be written is refused as it stands.
pub fn confirm_close(gui: &mut GUI) -> (decision: Result<CloseDecision, UnwritableDate>)
    ensures
        match close_outcome(old(gui)@) {
            CloseOutcome::Cancelled => {
                &&& decision matches Ok(CloseDecision::Close(response))
                &&& response@ == cancel_view()
                &&& final(gui)@ == old(gui)@
            },
            CloseOutcome::Confirmed(body) => {
                &&& decision matches Ok(CloseDecision::Close(response))
                &&& response@ == ok_view(body)
                &&& final(gui)@ == old(gui)@
            },
            CloseOutcome::Rejected => {
                &&& decision matches Ok(CloseDecision::KeepOpen)
                &&& final(gui)@ == (GUIView { ok_pressed: false, ..old(gui)@ })
            },
            CloseOutcome::Refused => {
                &&& decision is Err
                &&& final(gui)@ == old(gui)@
            },
        },
{
    if !gui.ok_pressed {
        return Ok(CloseDecision::Close(Response::cancel()));
    }
    if !close_permitted(&gui.custom_dialog_fields) {
        gui.ok_pressed = false;
        return Ok(CloseDecision::KeepOpen);
    }
    match collect_body(&gui.custom_dialog_fields) {
        Ok(body) => Ok(CloseDecision::Close(Response::ok(body))),
        Err(refused) => Err(refused),
    }
}

/// The keys that a redraw cycle looks at.
#[derive(Clone, Copy, Debug, PartialEq, Eq, Structural)]
pub struct Keys {
    /// The accept key was released.
    pub enter_released: bool,
    /// The modifier that makes the accept key a line break is held.
    pub shift_held: bool,
    /// The dismiss key was released.
    pub escape_released: bool,
}

/// What a redraw cycle gets from outside: the keys, what the progress feed
/// holds, the buttons that were activated, and whether the window was asked
/// to close.
#[derive(Clone, Copy, Debug, PartialEq, Eq, Structural)]
pub struct FrameInput {
    pub keys: Keys,
    /// The event waiting in the progress feed, if any.
    pub pending: Option<ProgressEvent>,
    /// The confirm button was activated.
    pub ok_clicked: bool,
    /// The cancel button was activated.
    pub cancel_clicked: bool,
    /// The window was asked to close.
    pub close_requested: bool,
}

/// How a redraw cycle ends.
#[derive(Debug)]
pub enum FrameEnd {
    /// Nothing asked the window to close: the form goes on.
    Continue,
    /// The request to close is turned down: the form goes on.
    CancelClose,
    /// The dialog is over: the response is reported and nothing runs after it.
    Exit(Response),
    /// The form was to be reported and cannot be: a date cannot be written.
    Refused(UnwritableDate),
}

/// What a redraw cycle asks of the window.
#[derive(Debug)]
pub struct Frame {
    /// What is drawn: one drawing for each field, in the order of the form.
    pub drawings: Vec<FieldDrawing>,
    /// Whether the window is asked to close.
    pub close: bool,
    /// Whether the next redraw cycle is to follow at once.
    pub repaint: bool,
    /// How the cycle ends.
    pub end: FrameEnd,
}

/// Whether the keys confirm the form: the accept key, unless the modifier
/// makes it a line break.
pub open spec fn keys_confirm(keys: Keys) -> bool {
    keys.enter_released && !keys.shift_held
}

/// The confirmation after the keys: the dismiss key takes it back, the accept
/// key gives it.
pub open spec fn pressed_after_keys(ok_pressed: bool, keys: Keys) -> bool {
    if keys.escape_released {
        false
    } else {
        ok_pressed || keys_confirm(keys)
    }
}

/// The confirmation after the buttons: the cancel button takes it back, the
/// confirm button gives it.
pub open spec fn pressed_after_buttons(ok_pressed: bool, ok_clicked: bool, cancel_clicked: bool)
    -> bool {
    if cancel_clicked {
        false
    } else {
        ok_pressed || ok_clicked
    }
}

/// The percentage after a look into the progress feed: the event that waits
/// there replaces it, and without one it stays.
pub open spec fn progress_after(progress: u32, pending: Option<ProgressEvent>) -> u32 {
    match pending {
        Some(event) => event.percent,
        None => progress,
    }
}

/// The state after the keys, the progress feed and the buttons of a cycle.
pub open spec fn after_events(gui: GUIView, input: FrameInput) -> GUIView {
    GUIView {
        fields: gui.fields,
        ok_pressed: pressed_after_buttons(
            pressed_after_keys(gui.ok_pressed, input.keys),
            input.ok_clicked,
            input.cancel_clicked,
        ),
        progress: progress_after(gui.progress, input.pending),
    }
}

/// Whether the events of a cycle ask the window to close.
pub open spec fn close_sent(input: FrameInput) -> bool {
    keys_confirm(input.keys) || input.keys.escape_released || input.ok_clicked
        || input.cancel_clicked
}

impl GUI {
    /// A dialog that has just opened: not confirmed, and no progress yet.
    pub fn new(custom_dialog_fields: Vec<Field>) -> (gui: GUI)
        ensures
            gui@ == (GUIView { fields: custom_dialog_fields@, ok_pressed: false, progress: 0 }),
    {
        GUI { custom_dialog_fields, ok_pressed: false, progress: 0 }
    }

    /// Whether the user has confirmed since the last request to close.
    pub fn ok_pressed(&self) -> (ok_pressed: bool)
        ensures
            ok_pressed == self@.ok_pressed,
    {
        self.ok_pressed
    }

    /// The percentage that the progress bar shows.
    pub fn progress(&self) -> (progress: u32)
        ensures
            progress == self@.progress,
    {
        self.progress
    }

    /// The fields with their current values, in the order of the form.
    pub fn fields(&self) -> (fields: &Vec<Field>)
        ensures
            fields@ == self@.fields,
    {
        &self.custom_dialog_fields
    }

    /// Puts `field` in the place `index` of the form, as an edit of the user
    /// does. Returns whether the form has such a place; without one nothing
    /// changes. The confirmation and the progress stay as they are.
    pub fn set_field(&mut self, index: usize, field: Field) -> (set: bool)
        ensures
            set == (index < old(self)@.fields.len()),
            set ==> final(self)@ == (GUIView {
                fields: old(self)@.fields.update(index as int, field),
                ..old(self)@
            }),
            !set ==> final(self)@ == old(self)@,
    {
        if index < self.custom_dialog_fields.len() {
            self.custom_dialog_fields.set(index, field);
            true
        } else {
            false
        }
    }

    /// How a widget with a label is drawn: without a label the widget stands
    /// alone and carries the mark of a missing value itself; else the label
    /// stands over the widget or next to it and carries the mark.
    pub fn add_labeled_widget(label_text: &str, label_pos: &LabelPos, mark_as_required: bool) -> (drawn:
        LabeledWidget)
        ensures
            drawn == labeled_widget(label_text@, *label_pos, mark_as_required),
    {
        if label_text.is_empty() || same_text(label_text, "null") {
            return LabeledWidget {
                placement: Placement::Alone,
                label_marked: false,
                widget_marked: mark_as_required,
            };
        }
        LabeledWidget {
            placement: placement(label_pos),
            label_marked: mark_as_required,
            widget_marked: false,
        }
    }

    /// Looks into the progress feed: an event that waits there sets the
    /// percentage that the progress bar shows.
    pub fn poll_progress(&mut self, pending: Option<ProgressEvent>)
        ensures
            final(self)@ == (GUIView {
                progress: progress_after(old(self)@.progress, pending),
                ..old(self)@
            }),
    {
        match pending {
            Some(event) => {
                self.progress = event.percent;
            },
            None => {},
        }
    }

    /// Handles the keys of a cycle: the accept key confirms, unless the
    /// modifier makes it a line break, and the dismiss key cancels. Returns
    /// whether the window is asked to close.
    pub fn handle_keys(&mut self, keys: Keys) -> (close: bool)
        ensures
            close == (keys_confirm(keys) || keys.escape_released),
            final(self)@ == (GUIView {
                ok_pressed: pressed_after_keys(old(self)@.ok_pressed, keys),
                ..old(self)@
            }),
    {
        let mut close = false;
        if keys.enter_released && !keys.shift_held {
            self.ok_pressed = true;
            close = true;
        }
        if keys.escape_released {
            self.ok_pressed = false;
            close = true;
        }
        close
    }

    /// Handles the buttons of a cycle: the confirm button confirms and the
    /// cancel button cancels. Returns whether the window is asked to close.
    pub fn handle_buttons(&mut self, ok_clicked: bool, cancel_clicked: bool) -> (close: bool)
        ensures
            close == (ok_clicked || cancel_clicked),
            final(self)@ == (GUIView {
                ok_pressed: pressed_after_buttons(old(self)@.ok_pressed, ok_clicked, cancel_clicked),
                ..old(self)@
            }),
    {
        let mut close = false;
        if ok_clicked {
            self.ok_pressed = true;
            close = true;
        }
        if cancel_clicked {
            self.ok_pressed = false;
            close = true;
        }
        close
    }

    /// What a redraw cycle draws: every field, in the order of the form.
    pub fn drawings(&self) -> (drawn: Vec<FieldDrawing>)
        ensures
            draws(drawn@, self@.fields),
    {
        let mut drawn: Vec<FieldDrawing> = Vec::new();
        let mut i: usize = 0;
        while i < self.custom_dialog_fields.len()
            invariant
                i <= self.custom_dialog_fields.len(),
                drawn@.len() == i,
                forall|k: int|
                    0 <= k < i ==> drawn@[k] == drawing_of(#[trigger] self.custom_dialog_fields@[k]),
            decreases self.custom_dialog_fields.len() - i,
        {
            drawn.push(field_drawing(&self.custom_dialog_fields[i]));
            i = i + 1;
        }
        drawn
    }

    /// Whether some field asks for continuous redraw.
    pub fn needs_repaint(&self) -> (repaint: bool)
        ensures
            repaint == wants_repaint(self@.fields),
    {
        let mut i: usize = 0;
        while i < self.custom_dialog_fields.len()
            invariant
                i <= self.custom_dialog_fields.len(),
                forall|k: int| 0 <= k < i ==> !drawing_of(#[trigger] self.custom_dialog_fields@[k]).repaint,
            decreases self.custom_dialog_fields.len() - i,
        {
            if field_drawing(&self.custom_dialog_fields[i]).repaint {
                return true;
            }
            i = i + 1;
        }
        false
    }

    /// Ends a cycle: where the window was asked to close, the request is
    /// answered as `confirm_close` says.
    pub fn handle_close(&mut self, close_requested: bool) -> (end: FrameEnd)
        ensures
            !close_requested ==> {
                &&& end is Continue
                &&& final(self)@ == old(self)@
            },
            close_requested ==> match close_outcome(old(self)@) {
                CloseOutcome::Cancelled => {
                    &&& end matches FrameEnd::Exit(response)
                    &&& response@ == cancel_view()
                    &&& final(self)@ == old(self)@
                },
                CloseOutcome::Confirmed(body) => {
                    &&& end matches FrameEnd::Exit(response)
                    &&& response@ == ok_view(body)
                    &&& final(self)@ == old(self)@
                },
                CloseOutcome::Rejected => {
                    &&& end is CancelClose
                    &&& final(self)@ == (GUIView { ok_pressed: false, ..old(self)@ })
                },
                CloseOutcome::Refused => {
                    &&& end is Refused
                    &&& final(self)@ == old(self)@
                },
            },
    {
        if !close_requested {
            return FrameEnd::Continue;
        }
        match confirm_close(self) {
            Ok(CloseDecision::Close(response)) => FrameEnd::Exit(response),
            Ok(CloseDecision::KeepOpen) => FrameEnd::CancelClose,
            Err(refused) => FrameEnd::Refused(refused),
        }
    }

    /// One redraw cycle, from what it gets from outside to what it asks of the
    /// window: the keys are handled, the progress feed is looked into, every
    /// field is drawn in the order of the form, the buttons are handled, and
    /// a request to close is answered.
    pub fn update(&mut self, input: FrameInput) -> (frame: Frame)
        ensures
            draws(frame.drawings@, old(self)@.fields),
            frame.close == close_sent(input),
            frame.repaint == wants_repaint(old(self)@.fields),
            !input.close_requested ==> {
                &&& frame.end is Continue
                &&& final(self)@ == after_events(old(self)@, input)
            },
            input.close_requested ==> match close_outcome(after_events(old(self)@, input)) {
                CloseOutcome::Cancelled => {
                    &&& frame.end matches FrameEnd::Exit(response)
                    &&& response@ == cancel_view()
                    &&& final(self)@ == after_events(old(self)@, input)
                },
                CloseOutcome::Confirmed(body) => {
                    &&& frame.end matches FrameEnd::Exit(response)
                    &&& response@ == ok_view(body)
                    &&& final(self)@ == after_events(old(self)@, input)
                },
                CloseOutcome::Rejected => {
                    &&& frame.end is CancelClose
                    &&& final(self)@ == (GUIView {
                        ok_pressed: false,
                        ..after_events(old(self)@, input)
                    })
                },
                CloseOutcome::Refused => {
                    &&& frame.end is Refused
                    &&& final(self)@ == after_events(old(self)@, input)
                },
            },
    {
        let by_keys = self.handle_keys(input.keys);
        self.poll_progress(input.pending);
        let drawings = self.drawings();
        let repaint = self.needs_repaint();
        let by_buttons = self.handle_buttons(input.ok_clicked, input.cancel_clicked);
        let end = self.handle_close(input.close_requested);
        Frame { drawings, close: by_keys || by_buttons, repaint, end }
    }
}

/// The response of a confirmed dialog has as many entries as the form has
/// fields that are not decorative.
pub proof fn lemma_body_counts_reporting_fields(fields: Seq<Field>)
    ensures
        response_body(fields).len() == reporting_count(fields),
    decreases fields.len(),
{
    if fields.len() > 0 {
        lemma_body_counts_reporting_fields(fields.drop_last());
    }
}

/// The entries of the fields before a given place are the head of the entries
/// of all the fields.
pub proof fn lemma_body_of_prefix(fields: Seq<Field>, n: int)
    requires
        0 <= n <= fields.len(),
    ensures
        response_body(fields.take(n)).len() <= response_body(fields).len(),
        response_body(fields.take(n)) == response_body(fields).take(
            response_body(fields.take(n)).len() as int,
        ),
    decreases fields.len(),
{
    if n == fields.len() {
        assert(fields.take(n) == fields);
    } else {
        assert(fields.drop_last().take(n) == fields.take(n));
        lemma_body_of_prefix(fields.drop_last(), n);
    }
}

/// The entries stand in the order of the fields: the entry of a field that is
/// not decorative stands at the place given by the number of such fields
/// before it.
pub proof fn lemma_body_keeps_field_order(fields: Seq<Field>, i: int)
    requires
        0 <= i < fields.len(),
        !fields[i].decorative(),
    ensures
        reporting_count(fields.take(i)) < response_body(fields).len(),
        Some(response_body(fields)[reporting_count(fields.take(i)) as int]) == fields[i].entry(),
{
    let upto = fields.take(i + 1);
    assert(upto.drop_last() == fields.take(i));
    assert(upto.last() == fields[i]);
    lemma_body_counts_reporting_fields(fields.take(i));
    lemma_body_of_prefix(fields, i + 1);
    let place = reporting_count(fields.take(i)) as int;
    assert(response_body(upto)[place] == fields[i].entry().unwrap());
    assert(response_body(fields).take(response_body(upto).len() as int)[place]
        == response_body(fields)[place]);
}

/// A field keeps a confirmed form open exactly while it is asked for, of a
/// kind that can be empty, and empty; a form may be confirmed exactly when it
/// has no such field. A decorative field, and one that is not asked for, never
/// stands in the way.
pub proof fn lemma_only_missing_fields_block(fields: Seq<Field>)
    ensures
        may_close(fields) <==> !exists|i: int|
            0 <= i < fields.len() && (#[trigger] fields[i]).required() && fields[i].can_be_empty()
                && fields[i].empty(),
        forall|i: int|
            0 <= i < fields.len() && ((#[trigger] fields[i]).decorative() || !fields[i].required())
                ==> !fields[i].missing(),
{
    if may_close(fields) {
        assert forall|i: int| 0 <= i < fields.len() implies !((#[trigger] fields[i]).required()
            && fields[i].can_be_empty() && fields[i].empty()) by {
            assert(!fields[i].missing());
        }
    } else {
        let i = choose|i: int| 0 <= i < fields.len() && (#[trigger] fields[i]).missing();
        assert(fields[i].required() && fields[i].can_be_empty() && fields[i].empty());
    }
}

/// A confirmed form is turned down exactly while some field is asked for
/// and empty, whatever its other fields hold, and it is reported exactly
/// when no field is missing and every value can be written.
pub proof fn lemma_close_waits_for_missing_fields(gui: GUIView)
    requires
        gui.ok_pressed,
    ensures
        close_outcome(gui) is Rejected <==> exists|i: int|
            0 <= i < gui.fields.len() && (#[trigger] gui.fields[i]).missing(),
        close_outcome(gui) is Confirmed <==> all_writable(gui.fields) && forall|i: int|
            0 <= i < gui.fields.len() ==> !(#[trigger] gui.fields[i]).missing(),
        !(close_outcome(gui) is Cancelled),
{
}

/// Filling in the one field that was missing lets the form be confirmed, and
/// emptying a field that is asked for keeps it open.
pub proof fn lemma_filling_in_unblocks(fields: Seq<Field>, i: int, filled: Field)
    requires
        0 <= i < fields.len(),
        forall|k: int| 0 <= k < fields.len() && k != i ==> !(#[trigger] fields[k]).missing(),
    ensures
        may_close(fields.update(i, filled)) <==> !filled.missing(),
{
    let after = fields.update(i, filled);
    if !filled.missing() {
        assert forall|k: int| 0 <= k < after.len() implies !(#[trigger] after[k]).missing() by {
            if k != i {
                assert(after[k] == fields[k]);
            }
        }
    } else {
        assert(after[i].missing());
    }
}

/// A field is drawn with the mark of a missing value exactly while it is
/// asked for and empty by the rule of its kind. A field of a kind that cannot
/// be empty, and a decorative one, is never marked.
pub proof fn lemma_marked_exactly_when_missing(field: Field)
    ensures
        drawing_of(field).labeled.marked() <==> field.missing(),
        !field.can_be_empty() ==> !drawing_of(field).labeled.marked(),
{
}

/// A cancellation always cancels: without a confirmation, a request to close
/// comes to the `cancel` response with no entry, whatever the fields hold;
/// and the cancel button, or the dismiss key without the confirm button after
/// it, leaves the dialog without a confirmation.
pub proof fn lemma_cancellation_always_cancels(gui: GUIView, input: FrameInput)
    ensures
        !gui.ok_pressed ==> close_outcome(gui) is Cancelled,
        input.cancel_clicked || (input.keys.escape_released && !input.ok_clicked)
            ==> close_outcome(after_events(gui, input)) is Cancelled,
        cancel_view().body.len() == 0,
        cancel_view().response_type is Cancelled,
{
}

} // verus!
