//! One run of the tool over the years it searches, as a state machine: the
//! program performs each [`Action`] (an HTTP request) and hands the answer back
//! to the run, which decides what to report and what to do next.

use vstd::prelude::*;
use vstd::string::StringExecFns;

use crate::civil::{
    compare_gap, displayed_datetime, gap_order, iso_text, parse_datetime, parsed_datetime, CivilDateTime,
    SpanOrder,
};
use crate::config::{App, Client, Mode};
use crate::digits::{decimal, decimal_text};
use crate::extract::{datetime_in, law_extracted_datetime_valid, plausible_year, time_found_in};
use crate::immich::{date_patch, recorded_text, Asset, Patch, Results};
use crate::pattern::Patterns;

verus! {

/// What the run reports to the user.
#[derive(Debug)]
pub enum Notice {
    /// The search for `year` found `count` assets.
    Found { count: usize, year: u16 },
    /// The file name holds no date.
    NoDate { file_name: String },
    /// The file name holds a date but no time after it: the time is midnight.
    NoTime { file_name: String },
    /// The asset's original date and time `text` is not one that `jiff` reads.
    UnreadableDate { file_name: String, text: String },
    /// A dry run would set the date and time of the asset.
    WillSet { file_name: String, datetime: CivilDateTime },
    /// A dry run would replace the asset's date and time.
    WillChange { file_name: String, existing: CivilDateTime, datetime: CivilDateTime },
    /// The asset keeps the date and time it has.
    KeepExisting { file_name: String, existing: CivilDateTime },
    /// The date and time of the asset was set.
    DateSet { file_name: String, datetime: CivilDateTime },
    /// The date and time of the asset was replaced.
    Changed { file_name: String, existing: CivilDateTime, datetime: CivilDateTime },
    /// The asset keeps its date and time: it is within the threshold.
    WithinThreshold { file_name: String, existing: CivilDateTime, datetime: CivilDateTime },
}

/// The next request the program makes for the run.
#[derive(Debug)]
pub enum Action {
    /// Search the assets whose file name contains `needle`, result page `page`;
    /// answer with [`Run::on_page`].
    Search { needle: String, page: String },
    /// Fetch the asset `id`; answer with [`Run::on_asset`].
    Fetch { id: String },
    /// Send `patch` to the asset `id`; answer with [`Run::on_written`].
    Write { id: String, patch: Patch },
    /// Stop: `jiff` could not compare the dates of the asset named `file_name`.
    Fail { file_name: String },
    /// The run is over.
    Done,
}

/// What the program does next: report the notices, then perform the action.
#[derive(Debug)]
pub struct Step {
    pub notices: Vec<Notice>,
    pub action: Action,
}

/// Where a run stands.
#[derive(Debug)]
pub enum Stage {
    /// Not started.
    Idle,
    /// Waiting for a page of search results.
    Searching,
    /// Waiting for the asset whose file name gives `datetime`.
    Fetching { datetime: CivilDateTime },
    /// Waiting for a write to finish; then `notice` is reported.
    Writing { notice: Notice },
    /// The run is over.
    Finished,
}

/// A run over the years `year..=last_year`.
pub struct Run {
    pub mode: Mode,
    pub patterns: Patterns,
    /// The year being searched.
    pub year: u16,
    pub last_year: u16,
    /// The assets that the search for `year` found.
    pub listing: Vec<Asset>,
    /// The next asset of the listing to look at.
    pub position: usize,
    pub stage: Stage,
}

/// What the run decides for an asset, given what it already holds.
#[derive(Debug, Clone, Copy, PartialEq, Eq, Structural)]
pub enum Verdict {
    /// A dry run would set the date.
    WillSet,
    /// A dry run would replace the date it holds.
    WillChange(CivilDateTime),
    /// Keep the date it holds.
    KeepExisting(CivilDateTime),
    /// Set the date.
    SetDate,
    /// Replace the date it holds.
    Change(CivilDateTime),
    /// Keep the date it holds: the difference is within the threshold.
    WithinThreshold(CivilDateTime),
    /// The difference could not be compared with the threshold.
    Incomparable(CivilDateTime),
}

/// The decision for an asset that holds `existing`, where `gap` is how the
/// difference between the two dates compares with the threshold.
pub open spec fn verdict(mode: Mode, existing: Option<CivilDateTime>, gap: Option<SpanOrder>) -> Verdict {
    match (mode, existing) {
        (Mode::DryRun, None) => Verdict::WillSet,
        (Mode::DryRun, Some(e)) => Verdict::WillChange(e),
        (Mode::IfUnset, Some(e)) => Verdict::KeepExisting(e),
        (Mode::IfUnset, None) => Verdict::SetDate,
        (Mode::OverWrite(_), None) => Verdict::SetDate,
        (Mode::OverWrite(_), Some(e)) => match gap {
            Some(SpanOrder::Longer) => Verdict::Change(e),
            Some(_) => Verdict::WithinThreshold(e),
            None => Verdict::Incomparable(e),
        },
    }
}

/// The decision for an asset that holds `existing`, where `gap` is how the
/// difference between the two dates compares with the threshold.
pub fn decide(mode: &Mode, existing: Option<CivilDateTime>, gap: Option<SpanOrder>) -> (v: Verdict)
    ensures
        v == verdict(*mode, existing, gap),
{
    match (mode, existing) {
        (Mode::DryRun, None) => Verdict::WillSet,
        (Mode::DryRun, Some(e)) => Verdict::WillChange(e),
        (Mode::IfUnset, Some(e)) => Verdict::KeepExisting(e),
        (Mode::IfUnset, None) => Verdict::SetDate,
        (Mode::OverWrite(_), None) => Verdict::SetDate,
        (Mode::OverWrite(_), Some(e)) => match gap {
            Some(SpanOrder::Longer) => Verdict::Change(e),
            Some(_) => Verdict::WithinThreshold(e),
            None => Verdict::Incomparable(e),
        },
    }
}

/// The text searched for to find the assets of `year`: the year in decimal.
pub open spec fn needle(year: u16) -> Seq<char> {
    decimal_text(year as nat)
}

/// `action` searches for the assets of `year`, result page `page`.
pub open spec fn searches(action: Action, year: u16, page: Seq<char>) -> bool {
    action matches Action::Search { needle: n, page: p } && n@ == needle(year) && p@ == page
}

/// Walks the listing from `from` on: the notices for the names looked at
/// (one that holds no date, one whose date comes without a time) and the
/// first asset whose name holds a date of `year`, with that date.
///
/// An asset whose name holds a date of another year is passed over silently:
/// the year searched for may match another part of its name.
pub open spec fn next_candidate(year: u16, listing: Seq<Asset>, from: int) -> (Seq<Notice>, Option<(int, CivilDateTime)>)
    decreases listing.len() - from,
{
    if from < 0 || from >= listing.len() {
        (Seq::empty(), None)
    } else {
        let rest = next_candidate(year, listing, from + 1);
        match datetime_in(listing[from].original_file_name@) {
            None => (
                seq![Notice::NoDate { file_name: listing[from].original_file_name }] + rest.0,
                rest.1,
            ),
            Some(dt) => {
                let noted = if time_found_in(listing[from].original_file_name@) {
                    Seq::empty()
                } else {
                    seq![Notice::NoTime { file_name: listing[from].original_file_name }]
                };
                if dt.date.year as int == year as int {
                    (noted, Some((from, dt)))
                } else {
                    (noted + rest.0, rest.1)
                }
            },
        }
    }
}

/// After reporting `incoming`, the run of `year..=last_year` moves on through
/// `listing` from `from`: it fetches the next asset whose name holds a date of
/// `year`, searches the next year when the listing is used up, and ends after
/// the last year.
pub open spec fn advanced(
    mode: Mode,
    year: u16,
    last_year: u16,
    listing: Seq<Asset>,
    from: int,
    incoming: Seq<Notice>,
    post: Run,
    step: Step,
) -> bool {
    let (notices, found) = next_candidate(year, listing, from);
    &&& post.mode == mode
    &&& post.last_year == last_year
    &&& step.notices@ == incoming + notices
    &&& match found {
        Some((index, dt)) => {
            &&& post.year == year
            &&& post.listing@ == listing
            &&& post.position == index + 1
            &&& post.stage == Stage::Fetching { datetime: dt }
            &&& step.action == Action::Fetch { id: listing[index].id }
        },
        None => if year < last_year {
            &&& post.year == year + 1
            &&& post.listing@.len() == 0
            &&& post.position == 0
            &&& post.stage is Searching
            &&& searches(step.action, (year + 1) as u16, "1"@)
        } else {
            &&& post.year == year
            &&& post.listing@ == listing
            &&& post.stage is Finished
            &&& step.action is Done
        },
    }
}

/// The run starts with the search for its first year, or ends at once when it
/// has no year.
pub open spec fn begun(pre: Run, post: Run, step: Step) -> bool {
    &&& post.mode == pre.mode
    &&& post.year == pre.year
    &&& post.last_year == pre.last_year
    &&& post.listing@ == pre.listing@
    &&& post.position == pre.position
    &&& step.notices@.len() == 0
    &&& if pre.year <= pre.last_year {
        post.stage is Searching && searches(step.action, pre.year, "1"@)
    } else {
        post.stage is Finished && step.action is Done
    }
}

/// A page of results joins the listing; the run asks for the next page, or,
/// after the last page, reports how many assets it found and moves on.
pub open spec fn paged(pre: Run, page: Results, post: Run, step: Step) -> bool {
    let listing = pre.listing@ + page.items@;
    match page.next_page {
        Some(next) => {
            &&& post.mode == pre.mode
            &&& post.year == pre.year
            &&& post.last_year == pre.last_year
            &&& post.listing@ == listing
            &&& post.position == 0
            &&& post.stage is Searching
            &&& step.notices@.len() == 0
            &&& searches(step.action, pre.year, next@)
        },
        None => advanced(
            pre.mode,
            pre.year,
            pre.last_year,
            listing,
            0,
            seq![Notice::Found { count: listing.len() as usize, year: pre.year }],
            post,
            step,
        ),
    }
}

/// The original date and time that `asset` holds, if `jiff` reads it.
pub open spec fn existing_datetime(asset: Asset) -> Option<CivilDateTime> {
    match recorded_text(asset) {
        Some(text) => parsed_datetime(text@),
        None => None,
    }
}

/// The notice that `asset` holds a date text that `jiff` does not read.
pub open spec fn unreadable_notices(asset: Asset) -> Seq<Notice> {
    match recorded_text(asset) {
        Some(text) => if parsed_datetime(text@) is None {
            seq![Notice::UnreadableDate { file_name: asset.original_file_name, text }]
        } else {
            Seq::empty()
        },
        None => Seq::empty(),
    }
}

/// The run writes `datetime` to the asset `id` and waits, with `notice` to
/// report once the write is done.
pub open spec fn writing(
    pre: Run,
    id: String,
    datetime: CivilDateTime,
    notice: Notice,
    incoming: Seq<Notice>,
    post: Run,
    step: Step,
) -> bool {
    &&& post.mode == pre.mode
    &&& post.year == pre.year
    &&& post.last_year == pre.last_year
    &&& post.listing@ == pre.listing@
    &&& post.position == pre.position
    &&& post.stage == Stage::Writing { notice }
    &&& step.notices@ == incoming
    &&& step.action matches Action::Write { id: target, patch } && target == id
        && patch.date_time_original@ == displayed_datetime(datetime)
        && patch.date_time_original@ == iso_text(datetime)
}

/// How the difference between `datetime` and the date that `asset` holds
/// compares with the threshold, when the run overwrites and the asset holds a
/// date `jiff` reads; `None` otherwise, where no comparison is made.
pub open spec fn asset_gap(mode: Mode, datetime: CivilDateTime, asset: Asset) -> Option<SpanOrder> {
    match (mode, existing_datetime(asset)) {
        (Mode::OverWrite(threshold), Some(existing)) => gap_order(datetime, existing, threshold),
        _ => None,
    }
}

/// What the run does with the asset it fetched, whose file name gave the date
/// and time it waits with, where `gap` is how the difference between that and
/// the asset's own date compares with the threshold.
pub open spec fn judged(pre: Run, asset: Asset, gap: Option<SpanOrder>, post: Run, step: Step) -> bool {
    let datetime = pre.stage->Fetching_datetime;
    let name = asset.original_file_name;
    let incoming = unreadable_notices(asset);
    let after = |notice: Notice|
        advanced(
            pre.mode,
            pre.year,
            pre.last_year,
            pre.listing@,
            pre.position as int,
            incoming.push(notice),
            post,
            step,
        );
    match verdict(pre.mode, existing_datetime(asset), gap) {
        Verdict::WillSet => after(Notice::WillSet { file_name: name, datetime }),
        Verdict::WillChange(e) => after(Notice::WillChange { file_name: name, existing: e, datetime }),
        Verdict::KeepExisting(e) => after(Notice::KeepExisting { file_name: name, existing: e }),
        Verdict::SetDate => writing(
            pre,
            asset.id,
            datetime,
            Notice::DateSet { file_name: name, datetime },
            incoming,
            post,
            step,
        ),
        Verdict::Change(e) => writing(
            pre,
            asset.id,
            datetime,
            Notice::Changed { file_name: name, existing: e, datetime },
            incoming,
            post,
            step,
        ),
        Verdict::WithinThreshold(e) => after(
            Notice::WithinThreshold { file_name: name, existing: e, datetime },
        ),
        Verdict::Incomparable(_) => {
            &&& post.mode == pre.mode
            &&& post.year == pre.year
            &&& post.last_year == pre.last_year
            &&& post.stage is Finished
            &&& step.notices@ == incoming
            &&& step.action == Action::Fail { file_name: name }
        },
    }
}

/// Once the write is done, the run reports its notice and moves on.
pub open spec fn written(pre: Run, post: Run, step: Step) -> bool {
    advanced(
        pre.mode,
        pre.year,
        pre.last_year,
        pre.listing@,
        pre.position as int,
        seq![pre.stage->Writing_notice],
        post,
        step,
    )
}

/// Every date and time that the notice reports is a valid one.
pub open spec fn notice_valid(notice: Notice) -> bool {
    match notice {
        Notice::WillSet { datetime, .. } => datetime.is_valid(),
        Notice::WillChange { existing, datetime, .. } => existing.is_valid() && datetime.is_valid(),
        Notice::KeepExisting { existing, .. } => existing.is_valid(),
        Notice::DateSet { datetime, .. } => datetime.is_valid(),
        Notice::Changed { existing, datetime, .. } => existing.is_valid() && datetime.is_valid(),
        Notice::WithinThreshold { existing, datetime, .. } => existing.is_valid()
            && datetime.is_valid(),
        _ => true,
    }
}

/// Every date and time that the notices report is a valid one.
pub open spec fn notices_valid(notices: Seq<Notice>) -> bool {
    forall|i: int| 0 <= i < notices.len() ==> notice_valid(#[trigger] notices[i])
}

/// A date and time as file names give them: valid, of a year from 1826 to
/// 2100, to the whole second.
pub open spec fn extracted_shape(dt: CivilDateTime) -> bool {
    &&& dt.is_valid()
    &&& plausible_year(dt.date.year as int)
    &&& dt.time.subsec_nanosecond == 0
}

/// What the program hands back to a run.
pub enum Event {
    /// Start the run ([`Run::begin`]).
    Begin,
    /// A page of search results ([`Run::on_page`]).
    Page(Results),
    /// The asset fetched ([`Run::on_asset`]).
    Fetched(Asset),
    /// The write is done ([`Run::on_written`]).
    Written,
}

/// `step` is what the run in state `pre` does on `event`, leaving it in state
/// `post`: the relation that [`Run::begin`], [`Run::on_page`],
/// [`Run::on_asset`] and [`Run::on_written`] ensure, each in the stage that it
/// requires.
pub open spec fn transition(pre: Run, event: Event, post: Run, step: Step) -> bool {
    &&& pre.wf()
    &&& post.wf()
    &&& match event {
        Event::Begin => pre.stage is Idle && begun(pre, post, step),
        Event::Page(page) => pre.stage is Searching && paged(pre, page, post, step),
        Event::Fetched(asset) => pre.stage is Fetching && judged(
            pre,
            asset,
            asset_gap(pre.mode, pre.stage->Fetching_datetime, asset),
            post,
            step,
        ),
        Event::Written => pre.stage is Writing && written(pre, post, step),
    }
}

impl Run {
    /// The patterns are compiled, the position lies within the listing, a
    /// search starts from an empty listing, and the date and time waited with
    /// is a valid one.
    pub open spec fn wf(&self) -> bool {
        &&& self.patterns.wf()
        &&& self.position <= self.listing@.len()
        &&& (self.stage is Idle || self.stage is Searching) ==> self.position == 0
        &&& self.stage is Fetching ==> extracted_shape(self.stage->Fetching_datetime)
        &&& self.stage is Writing ==> notice_valid(self.stage->Writing_notice)
    }

    /// A run of `mode` over the years `first_year..=last_year`.
    pub fn new(mode: Mode, first_year: u16, last_year: u16) -> (run: Run)
        ensures
            run.wf(),
            run.mode == mode,
            run.year == first_year,
            run.last_year == last_year,
            run.listing@.len() == 0,
            run.stage is Idle,
    {
        Run {
            mode,
            patterns: Patterns::compile(),
            year: first_year,
            last_year,
            listing: Vec::new(),
            position: 0,
            stage: Stage::Idle,
        }
    }

    /// Starts the run: the search for the first year, or the end when there is
    /// no year to search.
    pub fn begin(&mut self) -> (step: Step)
        requires
            old(self).wf(),
            old(self).stage is Idle,
        ensures
            final(self).wf(),
            begun(*old(self), *final(self), step),
            notices_valid(step.notices@),
    {
        if self.year <= self.last_year {
            self.stage = Stage::Searching;
            Step { notices: Vec::new(), action: search(self.year, String::from_str("1")) }
        } else {
            self.stage = Stage::Finished;
            Step { notices: Vec::new(), action: Action::Done }
        }
    }

    /// Takes in a page of search results.
    pub fn on_page(&mut self, page: Results) -> (step: Step)
        requires
            old(self).wf(),
            old(self).stage is Searching,
        ensures
            final(self).wf(),
            paged(*old(self), page, *final(self), step),
            notices_valid(step.notices@),
    {
        let ghost listing = self.listing@ + page.items@;
        let mut items = page.items;
        self.listing.append(&mut items);
        match page.next_page {
            Some(next) => Step { notices: Vec::new(), action: search(self.year, next) },
            None => {
                let mut notices: Vec<Notice> = Vec::new();
                notices.push(Notice::Found { count: self.listing.len(), year: self.year });
                self.advance(notices)
            },
        }
    }

    /// Takes in the asset fetched for the date and time the run waits with;
    /// in overwrite mode, an asset that holds a date is compared with the
    /// threshold through `jiff` (see [`asset_gap`]).
    pub fn on_asset(&mut self, asset: Asset) -> (step: Step)
        requires
            old(self).wf(),
            old(self).stage is Fetching,
        ensures
            final(self).wf(),
            judged(
                *old(self),
                asset,
                asset_gap(old(self).mode, old(self).stage->Fetching_datetime, asset),
                *final(self),
                step,
            ),
            notices_valid(step.notices@),
    {
        let datetime = match &self.stage {
            Stage::Fetching { datetime } => *datetime,
            _ => return Step { notices: Vec::new(), action: Action::Done },
        };
        let mut notices: Vec<Notice> = Vec::new();
        let existing = match asset.recorded_datetime_text() {
            Some(text) => {
                let parsed = parse_datetime(text.as_str());
                if parsed.is_none() {
                    notices.push(
                        Notice::UnreadableDate {
                            file_name: asset.original_file_name.clone(),
                            text: text.clone(),
                        },
                    );
                }
                parsed
            },
            None => None,
        };
        assert(notices@ == unreadable_notices(asset));
        assert(existing == existing_datetime(asset));
        let gap = match (&self.mode, &existing) {
            (Mode::OverWrite(threshold), Some(e)) => compare_gap(&datetime, e, *threshold),
            _ => None,
        };
        let name = asset.original_file_name;
        let step = match decide(&self.mode, existing, gap) {
            Verdict::WillSet => {
                notices.push(Notice::WillSet { file_name: name, datetime });
                self.advance(notices)
            },
            Verdict::WillChange(e) => {
                notices.push(Notice::WillChange { file_name: name, existing: e, datetime });
                self.advance(notices)
            },
            Verdict::KeepExisting(e) => {
                notices.push(Notice::KeepExisting { file_name: name, existing: e });
                self.advance(notices)
            },
            Verdict::SetDate => {
                self.stage = Stage::Writing { notice: Notice::DateSet { file_name: name, datetime } };
                Step { notices, action: Action::Write { id: asset.id, patch: date_patch(&datetime) } }
            },
            Verdict::Change(e) => {
                self.stage = Stage::Writing {
                    notice: Notice::Changed { file_name: name, existing: e, datetime },
                };
                Step { notices, action: Action::Write { id: asset.id, patch: date_patch(&datetime) } }
            },
            Verdict::WithinThreshold(e) => {
                notices.push(Notice::WithinThreshold { file_name: name, existing: e, datetime });
                self.advance(notices)
            },
            Verdict::Incomparable(_) => {
                self.stage = Stage::Finished;
                Step { notices, action: Action::Fail { file_name: name } }
            },
        };
        assert(judged(*old(self), asset, gap, *self, step));
        step
    }

    /// Takes in that the write the run asked for is done.
    pub fn on_written(&mut self) -> (step: Step)
        requires
            old(self).wf(),
            old(self).stage is Writing,
        ensures
            final(self).wf(),
            written(*old(self), *final(self), step),
            notices_valid(step.notices@),
    {
        let mut stage = Stage::Idle;
        std::mem::swap(&mut stage, &mut self.stage);
        let notice = match stage {
            Stage::Writing { notice } => notice,
            _ => return Step { notices: Vec::new(), action: Action::Done },
        };
        let mut notices: Vec<Notice> = Vec::new();
        notices.push(notice);
        self.advance(notices)
    }

    /// Reports `incoming` and moves on through the listing.
    fn advance(&mut self, incoming: Vec<Notice>) -> (step: Step)
        requires
            old(self).patterns.wf(),
            old(self).position <= old(self).listing@.len(),
            notices_valid(incoming@),
        ensures
            final(self).wf(),
            notices_valid(step.notices@),
            final(self).patterns == old(self).patterns,
            advanced(
                old(self).mode,
                old(self).year,
                old(self).last_year,
                old(self).listing@,
                old(self).position as int,
                incoming@,
                *final(self),
                step,
            ),
    {
        let ghost start = self.position as int;
        let ghost listing = self.listing@;
        let mut notices = incoming;
        let mut i = self.position;
        while i < self.listing.len()
            invariant
                self.patterns.wf(),
                self.listing@ == listing,
                listing == old(self).listing@,
                start == old(self).position as int,
                self.mode == old(self).mode,
                self.year == old(self).year,
                self.last_year == old(self).last_year,
                self.patterns == old(self).patterns,
                start <= i <= listing.len(),
                notices_valid(notices@),
                incoming@ + next_candidate(self.year, listing, start).0 == notices@
                    + next_candidate(self.year, listing, i as int).0,
                next_candidate(self.year, listing, start).1 == next_candidate(
                    self.year,
                    listing,
                    i as int,
                ).1,
            decreases listing.len() - i,
        {
            let found = self.patterns.extract_datetime_noting_time(
                self.listing[i].original_file_name.as_str(),
            );
            let ghost rest = next_candidate(self.year, listing, i + 1);
            let ghost before = notices@;
            match found {
                None => {
                    notices.push(Notice::NoDate { file_name: self.listing[i].original_file_name.clone() });
                    assert(before + next_candidate(self.year, listing, i as int).0 == notices@ + rest.0);
                },
                Some((dt, time_found)) => {
                    if !time_found {
                        notices.push(
                            Notice::NoTime { file_name: self.listing[i].original_file_name.clone() },
                        );
                    }
                    let ghost noted = notices@.subrange(before.len() as int, notices@.len() as int);
                    assert(before + noted == notices@);
                    assert(next_candidate(self.year, listing, i as int).0 == noted + (if dt.date.year
                        as int == self.year as int {
                        Seq::<Notice>::empty()
                    } else {
                        rest.0
                    }));
                    if dt.date.year as i32 == self.year as i32 {
                        proof {
                            law_extracted_datetime_valid(listing[i as int].original_file_name@);
                        }
                        self.position = i + 1;
                        self.stage = Stage::Fetching { datetime: dt };
                        let id = self.listing[i].id.clone();
                        assert(next_candidate(self.year, listing, i as int).1 == Some((i as int, dt)));
                        assert(notices@ + Seq::<Notice>::empty() == notices@);
                        assert(id == listing[i as int].id);
                        return Step { notices, action: Action::Fetch { id } };
                    }
                    assert(before + next_candidate(self.year, listing, i as int).0 == notices@ + rest.0);
                },
            }
            i = i + 1;
        }
        if self.year < self.last_year {
            self.year = self.year + 1;
            self.listing = Vec::new();
            self.position = 0;
            self.stage = Stage::Searching;
            Step { notices, action: search(self.year, String::from_str("1")) }
        } else {
            self.position = i;
            self.stage = Stage::Finished;
            Step { notices, action: Action::Done }
        }
    }
}

/// The search for the assets of `year`, result page `page`.
fn search(year: u16, page: String) -> (action: Action)
    ensures
        searches(action, year, page@),
{
    Action::Search { needle: decimal(year), page }
}

impl App {
    /// Splits the app into its client and a run over its years.
    pub fn start(self) -> (res: (Client, Run))
        ensures
            res.0 == self.client,
            res.1.wf(),
            res.1.mode == self.mode,
            res.1.year == self.first_year,
            res.1.last_year == self.last_year,
            res.1.listing@.len() == 0,
            res.1.stage is Idle,
    {
        let run = Run::new(self.mode, self.first_year, self.last_year);
        (self.client, run)
    }
}

} // verus!
