//! The rows that each logical sheet is brought up to date with, and the one
//! batch of writes that an export run ends in.

use vstd::prelude::*;
use vstd::string::StringExecFns;
use crate::calendar::CalendarDate;
use crate::calendar::date_text;
use crate::calendar::format_date;
use crate::sheets::Rows;
use crate::sheets::ValueRange;
use crate::sheets::create_bulk_updates_for_sheet;
use crate::sheets::can_plan;
use crate::sheets::is_sheet_plan;
use crate::text::bool_text;
use crate::text::bool_to_text;
use crate::text::signed_decimal;
use crate::text::signed_decimal_text;

verus! {

/// A store as the database holds it; the identifier and the time are given as
/// the text they are reported with.
#[derive(Clone, Debug, PartialEq, Eq)]
pub struct StoreRecord {
    pub id: String,
    pub store_hash: String,
    pub installed_at: String,
    pub published: bool,
    pub uninstalled: bool,
}

/// The reason a store gave when it removed the widget.
#[derive(Clone, Debug, PartialEq, Eq)]
pub struct UninstallFeedbackRecord {
    pub id: i64,
    pub store_hash: String,
    pub unpublished_at: String,
    pub reason: String,
}

/// A message sent through the feedback form.
#[derive(Clone, Debug, PartialEq, Eq)]
pub struct GeneralFeedbackRecord {
    pub id: i64,
    pub submitted_at: String,
    pub name: String,
    pub email: String,
    pub message: String,
}

/// How often one kind of event was recorded for one charity.
#[derive(Clone, Debug, PartialEq, Eq)]
pub struct CharityEventCount {
    pub charity: String,
    pub event_type: String,
    pub count: i64,
}

/// How often one kind of widget event was recorded.
#[derive(Clone, Debug, PartialEq, Eq)]
pub struct WidgetEventCount {
    pub event_type: String,
    pub count: i64,
}

/// The cells of the row of a store: identifier, store hash, time of
/// installation, and whether it is published and uninstalled.
pub open spec fn store_row(store: StoreRecord) -> Seq<Seq<char>> {
    seq![
        store.id@,
        store.store_hash@,
        store.installed_at@,
        bool_text(store.published),
        bool_text(store.uninstalled),
    ]
}

/// The cells of the row of an uninstall feedback: identifier, store hash,
/// time and reason.
pub open spec fn uninstall_feedback_row(feedback: UninstallFeedbackRecord) -> Seq<Seq<char>> {
    seq![
        signed_decimal(feedback.id as int),
        feedback.store_hash@,
        feedback.unpublished_at@,
        feedback.reason@,
    ]
}

/// The cells of the row of a general feedback: identifier, time, name, email
/// address and message.
pub open spec fn general_feedback_row(feedback: GeneralFeedbackRecord) -> Seq<Seq<char>> {
    seq![
        signed_decimal(feedback.id as int),
        feedback.submitted_at@,
        feedback.name@,
        feedback.email@,
        feedback.message@,
    ]
}

/// The text of a reporting window: its first and its last day, with " to "
/// between them.
pub open spec fn window_text(start_date: CalendarDate, end_date: CalendarDate) -> Seq<char> {
    date_text(start_date) + seq![' ', 't', 'o', ' '] + date_text(end_date)
}

/// The one cell of the row that heads the summary of a reporting window: the
/// window between two rules of five horizontal line extensions each.
pub open spec fn window_heading(start_date: CalendarDate, end_date: CalendarDate) -> Seq<char> {
    seq!['\u{23af}', '\u{23af}', '\u{23af}', '\u{23af}', '\u{23af}', ' '] + window_text(
        start_date,
        end_date,
    ) + seq![' ', '\u{23af}', '\u{23af}', '\u{23af}', '\u{23af}', '\u{23af}']
}

/// The key of a charity event count in a reporting window: charity and kind
/// of event with a colon between them, a space, and the window.
pub open spec fn charity_event_key(
    count: CharityEventCount,
    start_date: CalendarDate,
    end_date: CalendarDate,
) -> Seq<char> {
    count.charity@ + seq![':'] + count.event_type@ + seq![' '] + window_text(start_date, end_date)
}

/// The cells of the row of a charity event count: key, charity, kind of event
/// and count.
pub open spec fn charity_event_row(
    count: CharityEventCount,
    start_date: CalendarDate,
    end_date: CalendarDate,
) -> Seq<Seq<char>> {
    seq![
        charity_event_key(count, start_date, end_date),
        count.charity@,
        count.event_type@,
        signed_decimal(count.count as int),
    ]
}

/// The key of a widget event count in a reporting window: the kind of event,
/// a space, and the window.
pub open spec fn widget_event_key(
    count: WidgetEventCount,
    start_date: CalendarDate,
    end_date: CalendarDate,
) -> Seq<char> {
    count.event_type@ + seq![' '] + window_text(start_date, end_date)
}

/// The cells of the row of a widget event count: key, kind of event and
/// count.
pub open spec fn widget_event_row(
    count: WidgetEventCount,
    start_date: CalendarDate,
    end_date: CalendarDate,
) -> Seq<Seq<char>> {
    seq![
        widget_event_key(count, start_date, end_date),
        count.event_type@,
        signed_decimal(count.count as int),
    ]
}

/// The rows of the stores sheet: one for each store, in their order.
pub fn get_store_status_rows(stores: &Vec<StoreRecord>) -> (rows: Rows)
    ensures
        rows@.len() == stores@.len(),
        forall|i: int|
            0 <= i < stores@.len() ==> (#[trigger] rows@[i]).deep_view() == store_row(stores@[i]),
{
    let mut rows: Rows = Vec::new();
    let mut i: usize = 0;
    while i < stores.len()
        invariant
            i <= stores.len(),
            rows@.len() == i,
            forall|k: int|
                0 <= k < i ==> (#[trigger] rows@[k]).deep_view() == store_row(stores@[k]),
        decreases stores.len() - i,
    {
        let store = &stores[i];
        let mut row: Vec<String> = Vec::new();
        row.push(store.id.clone());
        row.push(store.store_hash.clone());
        row.push(store.installed_at.clone());
        row.push(bool_to_text(store.published));
        row.push(bool_to_text(store.uninstalled));
        assert(row.deep_view() =~= store_row(*store));
        rows.push(row);
        i += 1;
    }
    rows
}

/// The rows of the uninstall feedback sheet: one for each feedback, in their
/// order.
pub fn get_uninstall_feedback_rows(feedback_list: &Vec<UninstallFeedbackRecord>) -> (rows: Rows)
    ensures
        rows@.len() == feedback_list@.len(),
        forall|i: int|
            0 <= i < feedback_list@.len() ==> (#[trigger] rows@[i]).deep_view()
                == uninstall_feedback_row(feedback_list@[i]),
{
    let mut rows: Rows = Vec::new();
    let mut i: usize = 0;
    while i < feedback_list.len()
        invariant
            i <= feedback_list.len(),
            rows@.len() == i,
            forall|k: int|
                0 <= k < i ==> (#[trigger] rows@[k]).deep_view() == uninstall_feedback_row(
                    feedback_list@[k],
                ),
        decreases feedback_list.len() - i,
    {
        let feedback = &feedback_list[i];
        let mut row: Vec<String> = Vec::new();
        row.push(signed_decimal_text(feedback.id));
        row.push(feedback.store_hash.clone());
        row.push(feedback.unpublished_at.clone());
        row.push(feedback.reason.clone());
        assert(row.deep_view() =~= uninstall_feedback_row(*feedback));
        rows.push(row);
        i += 1;
    }
    rows
}

/// The rows of the general feedback sheet: one for each feedback, in their
/// order.
pub fn get_general_feedback_rows(feedback_list: &Vec<GeneralFeedbackRecord>) -> (rows: Rows)
    ensures
        rows@.len() == feedback_list@.len(),
        forall|i: int|
            0 <= i < feedback_list@.len() ==> (#[trigger] rows@[i]).deep_view()
                == general_feedback_row(feedback_list@[i]),
{
    let mut rows: Rows = Vec::new();
    let mut i: usize = 0;
    while i < feedback_list.len()
        invariant
            i <= feedback_list.len(),
            rows@.len() == i,
            forall|k: int|
                0 <= k < i ==> (#[trigger] rows@[k]).deep_view() == general_feedback_row(
                    feedback_list@[k],
                ),
        decreases feedback_list.len() - i,
    {
        let feedback = &feedback_list[i];
        let mut row: Vec<String> = Vec::new();
        row.push(signed_decimal_text(feedback.id));
        row.push(feedback.submitted_at.clone());
        row.push(feedback.name.clone());
        row.push(feedback.email.clone());
        row.push(feedback.message.clone());
        assert(row.deep_view() =~= general_feedback_row(*feedback));
        rows.push(row);
        i += 1;
    }
    rows
}

/// Writes a reporting window: its first and its last day, with " to " between
/// them.
pub fn format_window(start_date: CalendarDate, end_date: CalendarDate) -> (text: String)
    requires
        1 <= start_date.month <= 12,
        1 <= end_date.month <= 12,
    ensures
        text@ == window_text(start_date, end_date),
{
    let mut text = format_date(start_date);
    text.push(' ');
    text.push('t');
    text.push('o');
    text.push(' ');
    let end = format_date(end_date);
    text.append(end.as_str());
    assert(text@ =~= window_text(start_date, end_date));
    text
}

/// The row that heads the summary of a reporting window.
pub fn window_heading_row(start_date: CalendarDate, end_date: CalendarDate) -> (row: Vec<String>)
    requires
        1 <= start_date.month <= 12,
        1 <= end_date.month <= 12,
    ensures
        row.deep_view() == seq![window_heading(start_date, end_date)],
{
    let mut heading = String::new();
    let mut i: usize = 0;
    while i < 5
        invariant
            i <= 5,
            heading@ == Seq::new(i as nat, |k: int| '\u{23af}'),
        decreases 5 - i,
    {
        heading.push('\u{23af}');
        i += 1;
        assert(heading@ =~= Seq::new(i as nat, |k: int| '\u{23af}'));
    }
    heading.push(' ');
    let window = format_window(start_date, end_date);
    heading.append(window.as_str());
    heading.push(' ');
    let ghost before = heading@;
    let mut i: usize = 0;
    while i < 5
        invariant
            i <= 5,
            heading@ == before + Seq::new(i as nat, |k: int| '\u{23af}'),
        decreases 5 - i,
    {
        heading.push('\u{23af}');
        i += 1;
        assert(heading@ =~= before + Seq::new(i as nat, |k: int| '\u{23af}'));
    }
    assert(heading@ =~= window_heading(start_date, end_date));
    let mut row: Vec<String> = Vec::new();
    row.push(heading);
    assert(row.deep_view() =~= seq![window_heading(start_date, end_date)]);
    row
}

/// The rows of the charity events sheet for a reporting window: the heading
/// of the window, then one row for each count, in their order.
pub fn get_charity_event_summary_rows(
    counts: &Vec<CharityEventCount>,
    start_date: CalendarDate,
    end_date: CalendarDate,
) -> (rows: Rows)
    requires
        1 <= start_date.month <= 12,
        1 <= end_date.month <= 12,
        counts@.len() < usize::MAX,
    ensures
        rows@.len() == counts@.len() + 1,
        rows@[0].deep_view() == seq![window_heading(start_date, end_date)],
        forall|i: int|
            0 <= i < counts@.len() ==> (#[trigger] rows@[i + 1]).deep_view() == charity_event_row(
                counts@[i],
                start_date,
                end_date,
            ),
{
    let mut rows: Rows = Vec::new();
    rows.push(window_heading_row(start_date, end_date));
    let window = format_window(start_date, end_date);
    let mut i: usize = 0;
    while i < counts.len()
        invariant
            i <= counts.len(),
            rows@.len() == i + 1,
            window@ == window_text(start_date, end_date),
            rows@[0].deep_view() == seq![window_heading(start_date, end_date)],
            forall|k: int|
                0 <= k < i ==> (#[trigger] rows@[k + 1]).deep_view() == charity_event_row(
                    counts@[k],
                    start_date,
                    end_date,
                ),
        decreases counts.len() - i,
    {
        let count = &counts[i];
        let mut key = count.charity.clone();
        key.push(':');
        key.append(count.event_type.as_str());
        key.push(' ');
        key.append(window.as_str());
        assert(key@ =~= charity_event_key(*count, start_date, end_date));
        let mut row: Vec<String> = Vec::new();
        row.push(key);
        row.push(count.charity.clone());
        row.push(count.event_type.clone());
        row.push(signed_decimal_text(count.count));
        assert(row.deep_view() =~= charity_event_row(*count, start_date, end_date));
        rows.push(row);
        i += 1;
    }
    rows
}

/// The rows of the widget events sheet for a reporting window: the heading of
/// the window, then one row for each count, in their order.
pub fn get_widget_event_summary_rows(
    counts: &Vec<WidgetEventCount>,
    start_date: CalendarDate,
    end_date: CalendarDate,
) -> (rows: Rows)
    requires
        1 <= start_date.month <= 12,
        1 <= end_date.month <= 12,
        counts@.len() < usize::MAX,
    ensures
        rows@.len() == counts@.len() + 1,
        rows@[0].deep_view() == seq![window_heading(start_date, end_date)],
        forall|i: int|
            0 <= i < counts@.len() ==> (#[trigger] rows@[i + 1]).deep_view() == widget_event_row(
                counts@[i],
                start_date,
                end_date,
            ),
{
    let mut rows: Rows = Vec::new();
    rows.push(window_heading_row(start_date, end_date));
    let window = format_window(start_date, end_date);
    let mut i: usize = 0;
    while i < counts.len()
        invariant
            i <= counts.len(),
            rows@.len() == i + 1,
            window@ == window_text(start_date, end_date),
            rows@[0].deep_view() == seq![window_heading(start_date, end_date)],
            forall|k: int|
                0 <= k < i ==> (#[trigger] rows@[k + 1]).deep_view() == widget_event_row(
                    counts@[k],
                    start_date,
                    end_date,
                ),
        decreases counts.len() - i,
    {
        let count = &counts[i];
        let mut key = count.event_type.clone();
        key.push(' ');
        key.append(window.as_str());
        assert(key@ =~= widget_event_key(*count, start_date, end_date));
        let mut row: Vec<String> = Vec::new();
        row.push(key);
        row.push(count.event_type.clone());
        row.push(signed_decimal_text(count.count));
        assert(row.deep_view() =~= widget_event_row(*count, start_date, end_date));
        rows.push(row);
        i += 1;
    }
    rows
}

/// The logical sheets of an export, in the order they are brought up to date.
#[derive(Clone, Copy, Debug, PartialEq, Eq, Structural)]
pub enum Sheet {
    Stores,
    UninstallFeedback,
    GeneralFeedback,
    CharityEvents,
    WidgetEvents,
}

/// The number of logical sheets of an export.
pub const SHEET_COUNT: usize = 5;

impl Sheet {
    /// The name of the sheet in the spreadsheet.
    pub open spec fn name_text(self) -> Seq<char> {
        match self {
            Sheet::Stores => "stores"@,
            Sheet::UninstallFeedback => "uninstall-feedback"@,
            Sheet::GeneralFeedback => "general-feedback"@,
            Sheet::CharityEvents => "charity-events"@,
            Sheet::WidgetEvents => "widget-events"@,
        }
    }

    /// The sheet that is brought up to date after `done` others, if one is
    /// left.
    pub open spec fn at_position(done: nat) -> Option<Sheet> {
        if done == 0 {
            Some(Sheet::Stores)
        } else if done == 1 {
            Some(Sheet::UninstallFeedback)
        } else if done == 2 {
            Some(Sheet::GeneralFeedback)
        } else if done == 3 {
            Some(Sheet::CharityEvents)
        } else if done == 4 {
            Some(Sheet::WidgetEvents)
        } else {
            None
        }
    }

    /// The name of the sheet in the spreadsheet.
    pub fn name(self) -> (name: &'static str)
        ensures
            name@ == self.name_text(),
    {
        match self {
            Sheet::Stores => "stores",
            Sheet::UninstallFeedback => "uninstall-feedback",
            Sheet::GeneralFeedback => "general-feedback",
            Sheet::CharityEvents => "charity-events",
            Sheet::WidgetEvents => "widget-events",
        }
    }

    /// The sheet that is brought up to date after `done` others, if one is
    /// left.
    pub fn at(done: usize) -> (sheet: Option<Sheet>)
        ensures
            sheet == Sheet::at_position(done as nat),
            sheet is Some <==> done < SHEET_COUNT,
    {
        match done {
            0 => Some(Sheet::Stores),
            1 => Some(Sheet::UninstallFeedback),
            2 => Some(Sheet::GeneralFeedback),
            3 => Some(Sheet::CharityEvents),
            4 => Some(Sheet::WidgetEvents),
            _ => None,
        }
    }
}

/// The request of one batch of writes, in the shape the spreadsheet service
/// takes it.
#[derive(Clone, Debug, PartialEq, Eq)]
pub struct BatchUpdateValuesRequest {
    pub data: Option<Vec<ValueRange>>,
    pub include_values_in_response: Option<bool>,
    pub response_date_time_render_option: Option<String>,
    pub response_value_render_option: Option<String>,
    pub value_input_option: Option<String>,
}

/// How the service reads the values of a write: as a user would have typed
/// them.
pub open spec fn user_entered() -> Seq<char> {
    "USER_ENTERED"@
}

/// Whether `request` carries exactly `data`, has its values read as typed by a
/// user, and asks for no values back.
pub open spec fn is_batch_request(request: BatchUpdateValuesRequest, data: Seq<ValueRange>) -> bool {
    &&& request.data matches Some(updates) && updates@ == data
    &&& request.value_input_option matches Some(option) && option@ == user_entered()
    &&& request.include_values_in_response == Some(false)
    &&& request.response_date_time_render_option is None
    &&& request.response_value_render_option is None
}

/// The writes of all sheets in one sequence: those of the first sheet, then
/// those of the second, and so on, each in their order.
pub open spec fn concatenated(per_sheet: Seq<Vec<ValueRange>>) -> Seq<ValueRange>
    decreases per_sheet.len(),
{
    if per_sheet.len() == 0 {
        Seq::empty()
    } else {
        concatenated(per_sheet.drop_last()) + per_sheet.last()@
    }
}

/// A batch keeps the writes of each sheet together and in their order: write
/// `j` of sheet `s` stands `j` places after all writes of the sheets before
/// `s`.
pub proof fn lemma_batch_keeps_order(per_sheet: Seq<Vec<ValueRange>>, s: int, j: int)
    requires
        0 <= s < per_sheet.len(),
        0 <= j < per_sheet[s]@.len(),
    ensures
        concatenated(per_sheet.take(s)).len() + j < concatenated(per_sheet).len(),
        concatenated(per_sheet)[concatenated(per_sheet.take(s)).len() + j] == per_sheet[s]@[j],
    decreases per_sheet.len(),
{
    let front = per_sheet.drop_last();
    if s == per_sheet.len() - 1 {
        assert(per_sheet.take(s) =~= front);
    } else {
        assert(front.take(s) =~= per_sheet.take(s));
        lemma_batch_keeps_order(front, s, j);
    }
}

/// Joins the writes planned for each sheet into one batch, sheet after sheet.
pub fn assemble_batch(per_sheet: Vec<Vec<ValueRange>>) -> (batch: Vec<ValueRange>)
    ensures
        batch@ == concatenated(per_sheet@),
{
    let ghost all = per_sheet@;
    let mut batch: Vec<ValueRange> = Vec::new();
    for updates in it: per_sheet
        invariant
            it.seq() == all,
            batch@ == concatenated(all.take(it.index() as int)),
    {
        let ghost k = it.index() as int;
        let mut more = updates;
        batch.append(&mut more);
        assert(all.take(k + 1).drop_last() =~= all.take(k));
        assert(all.take(k + 1).last() == updates);
    }
    assert(all.take(all.len() as int) =~= all);
    batch
}

/// The request that submits `updates` as one batch.
pub fn batch_update_request(updates: Vec<ValueRange>) -> (request: BatchUpdateValuesRequest)
    ensures
        is_batch_request(request, updates@),
{
    BatchUpdateValuesRequest {
        data: Some(updates),
        include_values_in_response: Some(false),
        response_date_time_render_option: None,
        response_value_render_option: None,
        value_input_option: Some("USER_ENTERED".to_owned()),
    }
}

/// An export run: the plans of the sheets brought up to date so far.
pub struct ExportRun {
    planned: Vec<Vec<ValueRange>>,
}

impl View for ExportRun {
    type V = Seq<Vec<ValueRange>>;

    closed spec fn view(&self) -> Seq<Vec<ValueRange>> {
        self.planned@
    }
}

impl ExportRun {
    /// The sheet that the run turns to next, if one is left.
    pub open spec fn pending(&self) -> Option<Sheet> {
        Sheet::at_position(self@.len())
    }

    /// A run that has planned no sheet yet.
    pub fn new() -> (run: ExportRun)
        ensures
            run@.len() == 0,
            run.pending() == Some(Sheet::Stores),
    {
        ExportRun { planned: Vec::new() }
    }

    /// The sheet whose rows and existing keys the run needs next; `None` once
    /// every sheet is planned.
    pub fn pending_sheet(&self) -> (sheet: Option<Sheet>)
        ensures
            sheet == self.pending(),
    {
        Sheet::at(self.planned.len())
    }

    /// Plans the pending sheet from the keys it holds and the rows it is
    /// brought up to date with, and turns to the next sheet.
    pub fn plan_pending_sheet(&mut self, existing_rows: &Option<Rows>, rows: Rows)
        requires
            old(self).pending() is Some,
            can_plan(*existing_rows, rows@),
        ensures
            final(self)@.len() == old(self)@.len() + 1,
            final(self)@.drop_last() == old(self)@,
            is_sheet_plan(
                final(self)@.last()@,
                old(self).pending()->0.name_text(),
                *existing_rows,
                rows@,
            ),
    {
        let sheet = Sheet::at(self.planned.len());
        match sheet {
            Some(sheet) => {
                let updates = create_bulk_updates_for_sheet(sheet.name(), existing_rows, rows);
                self.planned.push(updates);
                assert(self.planned@.drop_last() =~= old(self).planned@);
            },
            None => {},
        }
    }

    /// Ends the run: the request that submits the writes of all sheets as one
    /// batch, or `None` while a sheet is pending.
    pub fn finish(self) -> (request: Option<BatchUpdateValuesRequest>)
        ensures
            match request {
                Some(batch) => self.pending() is None && is_batch_request(batch, concatenated(self@)),
                None => self.pending() is Some,
            },
    {
        match Sheet::at(self.planned.len()) {
            Some(_) => None,
            None => Some(batch_update_request(assemble_batch(self.planned))),
        }
    }
}

} // verus!
