//! What holds of the tool across its operations.

use vstd::prelude::*;

use crate::civil::{gap_order, iso_text, CivilDateTime, SpanOrder, SpanUnits};
use crate::config::{is_default_builder, Builder, Mode, Timeout};
use crate::extract::datetime_in;
use crate::immich::{Asset, Results};
use crate::run::{
    advanced, asset_gap, begun, existing_datetime, judged, needle, next_candidate, paged, searches,
    transition, unreadable_notices, written, Action, Event, Notice, Run, Stage, Step,
};

verus! {

/// Walking the listing finds only assets whose file name holds a date of the
/// year searched, and the date it finds is the one in that file name.
pub proof fn lemma_candidate_matches_year(year: u16, listing: Seq<Asset>, from: int)
    ensures
        next_candidate(year, listing, from).1 matches Some((k, dt)) ==> (from <= k < listing.len()
            && datetime_in(listing[k].original_file_name@) == Some(dt) && dt.date.year as int
            == year as int),
    decreases listing.len() - from,
{
    if 0 <= from < listing.len() {
        lemma_candidate_matches_year(year, listing, from + 1);
    }
}

/// `step` fetches asset `k` of the listing, from `from` on, whose file name
/// holds a date of `year`, and the run waits with that date.
pub open spec fn fetches_dated_asset(
    listing: Seq<Asset>,
    k: int,
    from: int,
    year: u16,
    post: Run,
    step: Step,
) -> bool {
    &&& from <= k < listing.len()
    &&& step.action == (Action::Fetch { id: listing[k].id })
    &&& datetime_in(listing[k].original_file_name@) matches Some(dt)
    &&& dt.date.year as int == year as int
    &&& post.stage == (Stage::Fetching { datetime: dt })
}

/// Moving on through a listing never writes; when it fetches an asset, that
/// asset is one of the listing whose file name holds a date of the year
/// searched, and the run waits with exactly that date.
pub proof fn law_fetches_only_assets_dated_in_the_year(
    mode: Mode,
    year: u16,
    last_year: u16,
    listing: Seq<Asset>,
    from: int,
    incoming: Seq<Notice>,
    post: Run,
    step: Step,
)
    requires
        advanced(mode, year, last_year, listing, from, incoming, post, step),
    ensures
        !(step.action is Write),
        step.action is Fetch ==> exists|k: int|
            #![trigger listing[k]]
            fetches_dated_asset(listing, k, from, year, post, step),
{
    lemma_candidate_matches_year(year, listing, from);
    if let Some((k, dt)) = next_candidate(year, listing, from).1 {
        assert(listing[k].id == step.action->Fetch_id);
    }
}

/// The years are searched in order, each from its first page: moving on after
/// the listing of a year searches the next year, and the run ends only after
/// the last year.
pub proof fn law_years_in_order(
    mode: Mode,
    year: u16,
    last_year: u16,
    listing: Seq<Asset>,
    from: int,
    incoming: Seq<Notice>,
    post: Run,
    step: Step,
)
    requires
        advanced(mode, year, last_year, listing, from, incoming, post, step),
    ensures
        step.action is Search ==> year < last_year && post.year == year + 1 && searches(
            step.action,
            post.year,
            "1"@,
        ),
        step.action is Done ==> year >= last_year,
{
}

/// Starting a run, taking in a page of results and finishing a write never
/// write: only the decision on a fetched asset does.
pub proof fn law_only_a_fetched_asset_is_written(pre: Run, page: Results, post: Run, step: Step)
    ensures
        begun(pre, post, step) ==> !(step.action is Write),
        paged(pre, page, post, step) ==> !(step.action is Write),
        written(pre, post, step) ==> !(step.action is Write),
{
    if paged(pre, page, post, step) && page.next_page is None {
        law_fetches_only_assets_dated_in_the_year(
            pre.mode,
            pre.year,
            pre.last_year,
            pre.listing@ + page.items@,
            0,
            seq![Notice::Found { count: (pre.listing@ + page.items@).len() as usize, year: pre.year }],
            post,
            step,
        );
    }
    if written(pre, post, step) {
        law_fetches_only_assets_dated_in_the_year(
            pre.mode,
            pre.year,
            pre.last_year,
            pre.listing@,
            pre.position as int,
            seq![pre.stage->Writing_notice],
            post,
            step,
        );
    }
}

/// A page that is not the last is followed by the search for the next page
/// of the same year, and its assets join the listing.
pub proof fn law_every_page_is_read(pre: Run, page: Results, post: Run, step: Step)
    requires
        paged(pre, page, post, step),
        page.next_page is Some,
    ensures
        searches(step.action, pre.year, page.next_page->Some_0@),
        post.listing@ == pre.listing@ + page.items@,
{
}

/// A dry run changes nothing.
pub proof fn law_dry_run_never_writes(
    pre: Run,
    asset: Asset,
    gap: Option<SpanOrder>,
    post: Run,
    step: Step,
)
    requires
        pre.mode is DryRun,
        judged(pre, asset, gap, post, step),
    ensures
        !(step.action is Write),
{
    let datetime = pre.stage->Fetching_datetime;
    let name = asset.original_file_name;
    let notice = match existing_datetime(asset) {
        Some(e) => Notice::WillChange { file_name: name, existing: e, datetime },
        None => Notice::WillSet { file_name: name, datetime },
    };
    law_fetches_only_assets_dated_in_the_year(
        pre.mode,
        pre.year,
        pre.last_year,
        pre.listing@,
        pre.position as int,
        unreadable_notices(asset).push(notice),
        post,
        step,
    );
}


/// The decision on a fetched asset writes exactly when the mode allows it: the
/// asset has no date and the run is not a dry run, or the run overwrites and
/// the asset's date differs by more than the threshold. What it writes, to
/// that asset, is the date and time from the file name, as
/// `YYYY-MM-DDTHH:MM:SS`.
pub proof fn law_writes_exactly_when_allowed(
    pre: Run,
    asset: Asset,
    gap: Option<SpanOrder>,
    post: Run,
    step: Step,
)
    requires
        pre.wf(),
        pre.stage is Fetching,
        judged(pre, asset, gap, post, step),
    ensures
        step.action is Write <==> !(pre.mode is DryRun) && (existing_datetime(asset) is None || (
        pre.mode is OverWrite && gap == Some(SpanOrder::Longer))),
        step.action matches Action::Write { id, patch } ==> id == asset.id
            && patch.date_time_original@ == iso_text(pre.stage->Fetching_datetime),
{
    let datetime = pre.stage->Fetching_datetime;
    let name = asset.original_file_name;
    let reported = match crate::run::verdict(pre.mode, existing_datetime(asset), gap) {
        crate::run::Verdict::WillSet => Some(Notice::WillSet { file_name: name, datetime }),
        crate::run::Verdict::WillChange(e) => Some(
            Notice::WillChange { file_name: name, existing: e, datetime },
        ),
        crate::run::Verdict::KeepExisting(e) => Some(
            Notice::KeepExisting { file_name: name, existing: e },
        ),
        crate::run::Verdict::WithinThreshold(e) => Some(
            Notice::WithinThreshold { file_name: name, existing: e, datetime },
        ),
        _ => None,
    };
    if let Some(notice) = reported {
        law_fetches_only_assets_dated_in_the_year(
            pre.mode,
            pre.year,
            pre.last_year,
            pre.listing@,
            pre.position as int,
            unreadable_notices(asset).push(notice),
            post,
            step,
        );
    }
}

/// When the run overwrites and the asset holds a date, the date is replaced
/// exactly when `jiff` finds the difference between the two dates, without its
/// sign and measured from the asset's date, longer than the threshold.
pub proof fn law_overwrite_follows_the_threshold(
    pre: Run,
    asset: Asset,
    threshold: SpanUnits,
    existing: CivilDateTime,
    post: Run,
    step: Step,
)
    requires
        pre.wf(),
        pre.stage is Fetching,
        pre.mode == Mode::OverWrite(threshold),
        existing_datetime(asset) == Some(existing),
        judged(pre, asset, asset_gap(pre.mode, pre.stage->Fetching_datetime, asset), post, step),
    ensures
        step.action is Write <==> gap_order(pre.stage->Fetching_datetime, existing, threshold)
            == Some(SpanOrder::Longer),
{
    law_writes_exactly_when_allowed(
        pre,
        asset,
        asset_gap(pre.mode, pre.stage->Fetching_datetime, asset),
        post,
        step,
    );
}

/// What moving on through `listing` in `year` of a run of `mode` over the
/// years up to `last_year` does: it fetches an asset of the listing whose file
/// name holds a date of `year`, searches the next year from its first page, or
/// ends after the last year.
pub open spec fn moves_on(
    mode: Mode,
    year: u16,
    last_year: u16,
    listing: Seq<Asset>,
    post: Run,
    step: Step,
) -> bool {
    &&& post.mode == mode
    &&& post.last_year == last_year
    &&& match step.action {
        Action::Fetch { .. } => {
            &&& post.year == year
            &&& post.listing@ == listing
            &&& exists|k: int|
                #![trigger listing[k]]
                fetches_dated_asset(listing, k, 0, year, post, step)
        },
        Action::Search { .. } => {
            &&& year < last_year
            &&& post.year == year + 1
            &&& post.stage is Searching
            &&& searches(step.action, post.year, "1"@)
        },
        Action::Done => year >= last_year && post.year == year && post.stage is Finished,
        _ => false,
    }
}

proof fn lemma_advanced_moves_on(
    mode: Mode,
    year: u16,
    last_year: u16,
    listing: Seq<Asset>,
    from: int,
    incoming: Seq<Notice>,
    post: Run,
    step: Step,
)
    requires
        0 <= from,
        advanced(mode, year, last_year, listing, from, incoming, post, step),
    ensures
        moves_on(mode, year, last_year, listing, post, step),
{
    law_fetches_only_assets_dated_in_the_year(mode, year, last_year, listing, from, incoming, post, step);
    if step.action is Fetch {
        let k = choose|k: int|
            #![trigger listing[k]]
            fetches_dated_asset(listing, k, from, year, post, step);
        assert(fetches_dated_asset(listing, k, 0, year, post, step));
    }
}

proof fn lemma_judged_moves_on(pre: Run, asset: Asset, gap: Option<SpanOrder>, post: Run, step: Step)
    requires
        judged(pre, asset, gap, post, step),
    ensures
        post.mode == pre.mode,
        post.last_year == pre.last_year,
        step.action is Write ==> post.year == pre.year && post.stage is Writing,
        step.action is Fail ==> post.year == pre.year && post.stage is Finished,
        !(step.action is Write || step.action is Fail) ==> moves_on(
            pre.mode,
            pre.year,
            pre.last_year,
            pre.listing@,
            post,
            step,
        ),
{
    let datetime = pre.stage->Fetching_datetime;
    let name = asset.original_file_name;
    let reported = match crate::run::verdict(pre.mode, existing_datetime(asset), gap) {
        crate::run::Verdict::WillSet => Some(Notice::WillSet { file_name: name, datetime }),
        crate::run::Verdict::WillChange(e) => Some(
            Notice::WillChange { file_name: name, existing: e, datetime },
        ),
        crate::run::Verdict::KeepExisting(e) => Some(
            Notice::KeepExisting { file_name: name, existing: e },
        ),
        crate::run::Verdict::WithinThreshold(e) => Some(
            Notice::WithinThreshold { file_name: name, existing: e, datetime },
        ),
        _ => None,
    };
    if let Some(notice) = reported {
        lemma_advanced_moves_on(
            pre.mode,
            pre.year,
            pre.last_year,
            pre.listing@,
            pre.position as int,
            unreadable_notices(asset).push(notice),
            post,
            step,
        );
    }
}

/// What one transition of a run keeps and changes: the mode and the last year
/// stay; the year grows by at most one, and only with the search of the new
/// year from its first page; every search is for the year the run is in; the
/// run ends only after its last year; a fetch is of an asset of the listing
/// dated in the year; and a finished run takes no further event.
proof fn lemma_transition(pre: Run, event: Event, post: Run, step: Step)
    requires
        transition(pre, event, post, step),
    ensures
        !(pre.stage is Finished),
        post.mode == pre.mode,
        post.last_year == pre.last_year,
        pre.year <= post.year <= pre.year + 1,
        post.year == pre.year + 1 ==> pre.year < pre.last_year && searches(
            step.action,
            post.year,
            "1"@,
        ),
        step.action matches Action::Search { needle: n, .. } ==> n@ == needle(post.year),
        step.action is Done ==> post.year >= post.last_year && post.stage is Finished,
        post.stage is Finished ==> step.action is Done || step.action is Fail,
        step.action is Fetch ==> exists|k: int|
            #![trigger post.listing@[k]]
            fetches_dated_asset(post.listing@, k, 0, post.year, post, step),
        post.stage is Fetching ==> step.action is Fetch,
        step.action is Write ==> event is Fetched,
        pre.stage is Idle ==> event is Begin,
        pre.stage is Idle && pre.year <= pre.last_year ==> searches(step.action, pre.year, "1"@),
        pre.stage is Idle && pre.year > pre.last_year ==> step.action is Done,
{
    match event {
        Event::Begin => {},
        Event::Page(page) => {
            if page.next_page is None {
                lemma_advanced_moves_on(
                    pre.mode,
                    pre.year,
                    pre.last_year,
                    pre.listing@ + page.items@,
                    0,
                    seq![Notice::Found { count: (pre.listing@ + page.items@).len() as usize, year: pre.year }],
                    post,
                    step,
                );
            }
        },
        Event::Fetched(asset) => {
            lemma_judged_moves_on(
                pre,
                asset,
                asset_gap(pre.mode, pre.stage->Fetching_datetime, asset),
                post,
                step,
            );
        },
        Event::Written => {
            lemma_advanced_moves_on(
                pre.mode,
                pre.year,
                pre.last_year,
                pre.listing@,
                pre.position as int,
                seq![pre.stage->Writing_notice],
                post,
                step,
            );
        },
    }
}

/// `runs[0]` is a run not yet started, and each `runs[i + 1]` and
/// `steps[i]` are what `runs[i]` became and did on `events[i]`: a whole run,
/// event by event.
pub open spec fn is_trace(runs: Seq<Run>, events: Seq<Event>, steps: Seq<Step>) -> bool {
    &&& runs.len() == steps.len() + 1
    &&& events.len() == steps.len()
    &&& runs[0].stage is Idle
    &&& forall|i: int|
        #![trigger steps[i]]
        0 <= i < steps.len() ==> transition(runs[i], events[i], runs[i + 1], steps[i])
}

proof fn lemma_trace_prefix(runs: Seq<Run>, events: Seq<Event>, steps: Seq<Step>, n: int)
    requires
        is_trace(runs, events, steps),
        0 <= n < runs.len(),
    ensures
        runs[n].mode == runs[0].mode,
        runs[n].last_year == runs[0].last_year,
        runs[0].year <= runs[n].year,
        runs[0].year <= runs[0].last_year ==> runs[n].year <= runs[0].last_year,
        runs[0].year > runs[0].last_year ==> n <= 1 && (n == 1 ==> runs[1].stage is Finished),
    decreases n,
{
    if n > 0 {
        lemma_trace_prefix(runs, events, steps, n - 1);
        let _ = steps[n - 1];
        lemma_transition(runs[n - 1], events[n - 1], runs[n], steps[n - 1]);
        if runs[0].year > runs[0].last_year && n == 2 {
            let _ = steps[1];
            lemma_transition(runs[1], events[1], runs[2], steps[1]);
        }
    }
}

/// Over a whole run the mode and the range of years stay as they were set,
/// and the years are searched in order, each from its first page: the year
/// the run is in starts at the first year, never passes the last, and grows by
/// one only with the search of the new year from page 1; every search is for
/// the year the run is in; the first request searches the first year when
/// there is one; and the run ends only after the last year.
pub proof fn law_run_searches_the_years_in_order(
    runs: Seq<Run>,
    events: Seq<Event>,
    steps: Seq<Step>,
    i: int,
)
    requires
        is_trace(runs, events, steps),
        0 <= i < steps.len(),
    ensures
        runs[i + 1].mode == runs[0].mode,
        runs[i + 1].last_year == runs[0].last_year,
        runs[0].year <= runs[i].year <= runs[i + 1].year <= runs[i].year + 1,
        runs[0].year <= runs[0].last_year ==> runs[i + 1].year <= runs[0].last_year,
        runs[i + 1].year == runs[i].year + 1 ==> searches(steps[i].action, runs[i + 1].year, "1"@),
        steps[i].action matches Action::Search { needle: n, .. } ==> n@ == needle(runs[i + 1].year),
        i == 0 && runs[0].year <= runs[0].last_year ==> searches(
            steps[0].action,
            runs[0].year,
            "1"@,
        ),
        steps[i].action is Done ==> runs[i + 1].year >= runs[0].last_year,
{
    lemma_trace_prefix(runs, events, steps, i);
    lemma_trace_prefix(runs, events, steps, i + 1);
    let _ = steps[i];
    lemma_transition(runs[i], events[i], runs[i + 1], steps[i]);
}

/// One of the `steps` searches `year` from its first page.
pub open spec fn year_searched(steps: Seq<Step>, year: u16) -> bool {
    exists|i: int| #![trigger steps[i]] 0 <= i < steps.len() && searches(steps[i].action, year, "1"@)
}

proof fn lemma_years_searched_so_far(runs: Seq<Run>, events: Seq<Event>, steps: Seq<Step>, n: int)
    requires
        is_trace(runs, events, steps),
        1 <= n <= steps.len(),
        runs[0].year <= runs[0].last_year,
    ensures
        forall|year: u16|
            runs[0].year <= year <= runs[n].year ==> #[trigger] year_searched(steps, year),
    decreases n,
{
    let _ = steps[n - 1];
    lemma_transition(runs[n - 1], events[n - 1], runs[n], steps[n - 1]);
    lemma_trace_prefix(runs, events, steps, n - 1);
    if n > 1 {
        lemma_years_searched_so_far(runs, events, steps, n - 1);
        assert forall|year: u16| runs[0].year <= year <= runs[n].year implies #[trigger] year_searched(
            steps,
            year,
        ) by {
            if year == runs[n].year && runs[n].year != runs[n - 1].year {
                assert(0 <= n - 1 < steps.len() && searches(steps[n - 1].action, year, "1"@));
            }
        }
    } else {
        assert forall|year: u16| runs[0].year <= year <= runs[n].year implies #[trigger] year_searched(
            steps,
            year,
        ) by {
            assert(0 <= n - 1 < steps.len() && searches(steps[n - 1].action, year, "1"@));
        }
    }
}

/// A run that ends normally has searched every year of its range, from the
/// first to the last, each from its first page.
pub proof fn law_run_searches_every_year(runs: Seq<Run>, events: Seq<Event>, steps: Seq<Step>)
    requires
        is_trace(runs, events, steps),
        steps.len() > 0,
        steps[steps.len() - 1].action is Done,
        runs[0].year <= runs[0].last_year,
    ensures
        forall|year: u16|
            runs[0].year <= year <= runs[0].last_year ==> #[trigger] year_searched(steps, year),
{
    let n = steps.len() as int;
    lemma_years_searched_so_far(runs, events, steps, n);
    law_run_searches_the_years_in_order(runs, events, steps, n - 1);
}

/// A run whose first year comes after its last sends no request: its one step
/// ends it.
pub proof fn law_empty_range_sends_nothing(runs: Seq<Run>, events: Seq<Event>, steps: Seq<Step>)
    requires
        is_trace(runs, events, steps),
        runs[0].year > runs[0].last_year,
    ensures
        steps.len() <= 1,
        steps.len() == 1 ==> steps[0].action is Done,
{
    lemma_trace_prefix(runs, events, steps, runs.len() - 1);
    if steps.len() == 1 {
        let _ = steps[0];
        lemma_transition(runs[0], events[0], runs[1], steps[0]);
    }
}

/// Nothing follows the end of a run: a step that ends it, or stops it on
/// dates `jiff` cannot compare, is the last.
pub proof fn law_nothing_after_the_end(
    runs: Seq<Run>,
    events: Seq<Event>,
    steps: Seq<Step>,
    i: int,
)
    requires
        is_trace(runs, events, steps),
        0 <= i < steps.len(),
        steps[i].action is Done || steps[i].action is Fail,
    ensures
        i == steps.len() - 1,
{
    let _ = steps[i];
    lemma_transition(runs[i], events[i], runs[i + 1], steps[i]);
    if i + 1 < steps.len() {
        let _ = steps[i + 1];
        lemma_transition(runs[i + 1], events[i + 1], runs[i + 2], steps[i + 1]);
    }
}

/// Over a whole run, every write is the one the original date allows, to an
/// asset the run fetched because its file name holds a date of the year
/// searched, within the years of the run: the step before fetched the asset
/// of the listing whose file name gives the date, the write goes to the asset
/// fetched and sets that date as `YYYY-MM-DDTHH:MM:SS`, and it happens only
/// when the run is not a dry run and the asset has no date `jiff` reads, or
/// the run overwrites and the difference is longer than the threshold.
pub proof fn law_run_writes_only_what_is_allowed(
    runs: Seq<Run>,
    events: Seq<Event>,
    steps: Seq<Step>,
    i: int,
)
    requires
        is_trace(runs, events, steps),
        0 <= i < steps.len(),
        steps[i].action is Write,
    ensures
        1 <= i,
        events[i] is Fetched,
        runs[i].stage is Fetching,
        exists|k: int|
            #![trigger runs[i].listing@[k]]
            fetches_dated_asset(runs[i].listing@, k, 0, runs[i].year, runs[i], steps[i - 1]),
        runs[0].year <= runs[i].year,
        runs[0].year <= runs[0].last_year ==> runs[i].year <= runs[0].last_year,
        ({
            let asset = events[i]->Fetched_0;
            let datetime = runs[i].stage->Fetching_datetime;
            &&& steps[i].action->Write_id == asset.id
            &&& steps[i].action->Write_patch.date_time_original@ == iso_text(datetime)
            &&& !(runs[0].mode is DryRun)
            &&& (existing_datetime(asset) is None || (runs[0].mode matches Mode::OverWrite(threshold)
                && existing_datetime(asset) matches Some(existing) && gap_order(
                datetime,
                existing,
                threshold,
            ) == Some(SpanOrder::Longer)))
        }),
{
    lemma_trace_prefix(runs, events, steps, i);
    let _ = steps[i];
    lemma_transition(runs[i], events[i], runs[i + 1], steps[i]);
    let asset = events[i]->Fetched_0;
    law_writes_exactly_when_allowed(
        runs[i],
        asset,
        asset_gap(runs[i].mode, runs[i].stage->Fetching_datetime, asset),
        runs[i + 1],
        steps[i],
    );
    let _ = steps[i - 1];
    lemma_transition(runs[i - 1], events[i - 1], runs[i], steps[i - 1]);
}

/// A dry run changes nothing, over a whole run.
pub proof fn law_dry_run_changes_nothing(
    runs: Seq<Run>,
    events: Seq<Event>,
    steps: Seq<Step>,
    i: int,
)
    requires
        is_trace(runs, events, steps),
        runs[0].mode is DryRun,
        0 <= i < steps.len(),
    ensures
        !(steps[i].action is Write),
{
    if steps[i].action is Write {
        law_run_writes_only_what_is_allowed(runs, events, steps, i);
    }
}

/// The file name of `asset` holds a date of `year`.
pub open spec fn dated_in(asset: Asset, year: u16) -> bool {
    datetime_in(asset.original_file_name@) matches Some(dt) && dt.date.year as int == year as int
}

/// The run may write `datetime` to `asset`: it is not a dry run, and the
/// asset has no date `jiff` reads, or the run overwrites and the difference
/// between the two dates is longer than the threshold.
pub open spec fn write_allowed(mode: Mode, datetime: CivilDateTime, asset: Asset) -> bool {
    &&& !(mode is DryRun)
    &&& (existing_datetime(asset) is None || (mode matches Mode::OverWrite(threshold)
        && existing_datetime(asset) matches Some(existing) && gap_order(datetime, existing, threshold)
        == Some(SpanOrder::Longer)))
}

/// Step `m` fetches `asset` of a listing, and the run then waits with the date
/// and time that its file name holds.
pub open spec fn fetches_listed(runs: Seq<Run>, steps: Seq<Step>, m: int, asset: Asset) -> bool {
    &&& steps[m].action == (Action::Fetch { id: asset.id })
    &&& datetime_in(asset.original_file_name@) matches Some(dt)
    &&& runs[m + 1].stage == (Stage::Fetching { datetime: dt })
}

/// One of the steps from `from` to before `to` fetches `asset`.
pub open spec fn fetched_between(
    runs: Seq<Run>,
    steps: Seq<Step>,
    from: int,
    to: int,
    asset: Asset,
) -> bool {
    exists|m: int| #![trigger steps[m]] from <= m < to && fetches_listed(runs, steps, m, asset)
}

/// Walking a listing passes over no asset dated in the year before the one it
/// stops at, and stops at none when it finds nothing.
proof fn lemma_next_candidate_skips(year: u16, listing: Seq<Asset>, from: int)
    requires
        0 <= from,
    ensures
        next_candidate(year, listing, from).1 matches Some((k, dt)) ==> {
            &&& from <= k < listing.len()
            &&& datetime_in(listing[k].original_file_name@) == Some(dt)
            &&& dt.date.year as int == year as int
            &&& forall|m: int| #![trigger listing[m]] from <= m < k ==> !dated_in(listing[m], year)
        },
        next_candidate(year, listing, from).1 is None ==> forall|m: int|
            #![trigger listing[m]]
            from <= m < listing.len() ==> !dated_in(listing[m], year),
    decreases listing.len() - from,
{
    if from < listing.len() {
        lemma_next_candidate_skips(year, listing, from + 1);
    }
}

/// `runs[j]` is still working through `listing` of `year`, every asset of it
/// dated in `year` before its position fetched since step `i`; or it is done
/// with the listing, every such asset fetched since step `i`.
spec fn listing_progress(
    runs: Seq<Run>,
    steps: Seq<Step>,
    i: int,
    j: int,
    year: u16,
    listing: Seq<Asset>,
) -> bool {
    ||| {
        &&& runs[j].year == year
        &&& runs[j].listing@ == listing
        &&& (runs[j].stage is Fetching || runs[j].stage is Writing)
        &&& forall|k: int|
            #![trigger listing[k]]
            0 <= k < runs[j].position && dated_in(listing[k], year) ==> fetched_between(
                runs,
                steps,
                i,
                j,
                listing[k],
            )
    }
    ||| forall|k: int|
        #![trigger listing[k]]
        0 <= k < listing.len() && dated_in(listing[k], year) ==> fetched_between(
            runs,
            steps,
            i,
            j,
            listing[k],
        )
}

/// The decision on a fetched asset writes, stops the run, or moves on through
/// the listing from the run's position.
proof fn lemma_judged_cases(pre: Run, asset: Asset, gap: Option<SpanOrder>, post: Run, step: Step)
    requires
        judged(pre, asset, gap, post, step),
    ensures
        ({
            ||| step.action is Write && post.year == pre.year && post.listing@ == pre.listing@
                && post.position == pre.position && post.stage is Writing
            ||| step.action is Fail
            ||| exists|incoming: Seq<Notice>|
                advanced(
                    pre.mode,
                    pre.year,
                    pre.last_year,
                    pre.listing@,
                    pre.position as int,
                    incoming,
                    post,
                    step,
                )
        }),
{
    let datetime = pre.stage->Fetching_datetime;
    let name = asset.original_file_name;
    let reported = match crate::run::verdict(pre.mode, existing_datetime(asset), gap) {
        crate::run::Verdict::WillSet => Some(Notice::WillSet { file_name: name, datetime }),
        crate::run::Verdict::WillChange(e) => Some(
            Notice::WillChange { file_name: name, existing: e, datetime },
        ),
        crate::run::Verdict::KeepExisting(e) => Some(
            Notice::KeepExisting { file_name: name, existing: e },
        ),
        crate::run::Verdict::WithinThreshold(e) => Some(
            Notice::WithinThreshold { file_name: name, existing: e, datetime },
        ),
        _ => None,
    };
    if let Some(notice) = reported {
        let incoming = unreadable_notices(asset).push(notice);
        assert(advanced(
            pre.mode,
            pre.year,
            pre.last_year,
            pre.listing@,
            pre.position as int,
            incoming,
            post,
            step,
        ));
    }
}

/// Moving on through `listing` from `from`, when every asset dated in `year`
/// before `from` was fetched since step `i`, keeps that true one step later.
proof fn lemma_progress_after_advance(
    runs: Seq<Run>,
    steps: Seq<Step>,
    i: int,
    j: int,
    year: u16,
    listing: Seq<Asset>,
    from: int,
    incoming: Seq<Notice>,
)
    requires
        0 <= i <= j,
        j + 1 < runs.len(),
        j < steps.len(),
        0 <= from <= listing.len(),
        advanced(runs[j].mode, year, runs[j].last_year, listing, from, incoming, runs[j + 1], steps[j]),
        forall|k: int|
            #![trigger listing[k]]
            0 <= k < from && dated_in(listing[k], year) ==> fetched_between(runs, steps, i, j, listing[k]),
    ensures
        listing_progress(runs, steps, i, j + 1, year, listing),
{
    lemma_next_candidate_skips(year, listing, from);
    assert forall|k: int|
        #![trigger listing[k]]
        0 <= k < from && dated_in(listing[k], year) implies fetched_between(
        runs,
        steps,
        i,
        j + 1,
        listing[k],
    ) by {
        let m = choose|m: int|
            #![trigger steps[m]]
            i <= m < j && fetches_listed(runs, steps, m, listing[k]);
        assert(fetches_listed(runs, steps, m, listing[k]));
    }
    if let Some((index, dt)) = next_candidate(year, listing, from).1 {
        assert forall|k: int|
            #![trigger listing[k]]
            0 <= k < runs[j + 1].position && dated_in(listing[k], year) implies fetched_between(
            runs,
            steps,
            i,
            j + 1,
            listing[k],
        ) by {
            if k == index {
                assert(fetches_listed(runs, steps, j, listing[k]));
            }
        }
    }
}

/// Step by step after the last page of a year, the run works through that
/// year's listing until every asset of it dated in the year has been fetched.
proof fn lemma_listing_progress(
    runs: Seq<Run>,
    events: Seq<Event>,
    steps: Seq<Step>,
    i: int,
    j: int,
)
    requires
        is_trace(runs, events, steps),
        steps[steps.len() - 1].action is Done,
        0 <= i < j <= steps.len(),
        events[i] matches Event::Page(page) && page.next_page is None,
    ensures
        listing_progress(
            runs,
            steps,
            i,
            j,
            runs[i].year,
            runs[i].listing@ + events[i]->Page_0.items@,
        ),
    decreases j,
{
    let year = runs[i].year;
    let page = events[i]->Page_0;
    let listing = runs[i].listing@ + page.items@;
    let _ = steps[j - 1];
    if j == i + 1 {
        lemma_progress_after_advance(
            runs,
            steps,
            i,
            i,
            year,
            listing,
            0,
            seq![Notice::Found { count: listing.len() as usize, year }],
        );
    } else {
        lemma_listing_progress(runs, events, steps, i, j - 1);
        let pre = runs[j - 1];
        let post = runs[j];
        let step = steps[j - 1];
        if pre.year == year && pre.listing@ == listing && (pre.stage is Fetching
            || pre.stage is Writing) {
            if pre.stage is Fetching {
                let asset = events[j - 1]->Fetched_0;
                lemma_judged_cases(
                    pre,
                    asset,
                    asset_gap(pre.mode, pre.stage->Fetching_datetime, asset),
                    post,
                    step,
                );
                if step.action is Fail {
                    law_nothing_after_the_end(runs, events, steps, j - 1);
                } else if step.action is Write {
                    assert forall|k: int|
                        #![trigger listing[k]]
                        0 <= k < post.position && dated_in(listing[k], year) implies fetched_between(
                        runs,
                        steps,
                        i,
                        j,
                        listing[k],
                    ) by {
                        let m = choose|m: int|
                            #![trigger steps[m]]
                            i <= m < j - 1 && fetches_listed(runs, steps, m, listing[k]);
                        assert(fetches_listed(runs, steps, m, listing[k]));
                    }
                } else {
                    let incoming = choose|incoming: Seq<Notice>|
                        advanced(
                            pre.mode,
                            pre.year,
                            pre.last_year,
                            pre.listing@,
                            pre.position as int,
                            incoming,
                            post,
                            step,
                        );
                    lemma_progress_after_advance(
                        runs,
                        steps,
                        i,
                        j - 1,
                        year,
                        listing,
                        pre.position as int,
                        incoming,
                    );
                }
            } else {
                lemma_progress_after_advance(
                    runs,
                    steps,
                    i,
                    j - 1,
                    year,
                    listing,
                    pre.position as int,
                    seq![pre.stage->Writing_notice],
                );
            }
        } else {
            assert forall|k: int|
                #![trigger listing[k]]
                0 <= k < listing.len() && dated_in(listing[k], year) implies fetched_between(
                runs,
                steps,
                i,
                j,
                listing[k],
            ) by {
                let m = choose|m: int|
                    #![trigger steps[m]]
                    i <= m < j - 1 && fetches_listed(runs, steps, m, listing[k]);
                assert(fetches_listed(runs, steps, m, listing[k]));
            }
        }
    }
}

/// Over a whole run that ends normally, every asset whose file name holds a
/// date of a year searched is fetched and decided on: for the listing of the
/// year, once its last page is in, each asset of it dated in the year is
/// fetched by a later step, the run then waits with the date and time from
/// its file name, the next event is the asset fetched, and the step on it
/// writes exactly when the mode allows it.
pub proof fn law_run_decides_every_dated_asset(
    runs: Seq<Run>,
    events: Seq<Event>,
    steps: Seq<Step>,
    i: int,
    k: int,
)
    requires
        is_trace(runs, events, steps),
        steps.len() > 0,
        steps[steps.len() - 1].action is Done,
        0 <= i < steps.len(),
        events[i] matches Event::Page(page) && page.next_page is None,
        0 <= k < (runs[i].listing@ + events[i]->Page_0.items@).len(),
        dated_in((runs[i].listing@ + events[i]->Page_0.items@)[k], runs[i].year),
    ensures
        ({
            let asset = (runs[i].listing@ + events[i]->Page_0.items@)[k];
            exists|m: int|
                #![trigger steps[m]]
                i <= m && m + 1 < steps.len() && fetches_listed(runs, steps, m, asset)
                    && events[m + 1] is Fetched && (steps[m + 1].action is Write <==> write_allowed(
                    runs[0].mode,
                    runs[m + 1].stage->Fetching_datetime,
                    events[m + 1]->Fetched_0,
                ))
        }),
{
    let year = runs[i].year;
    let listing = runs[i].listing@ + events[i]->Page_0.items@;
    let asset = listing[k];
    let n = steps.len() as int;
    lemma_listing_progress(runs, events, steps, i, n);
    let _ = steps[n - 1];
    lemma_transition(runs[n - 1], events[n - 1], runs[n], steps[n - 1]);
    assert(fetched_between(runs, steps, i, n, listing[k]));
    let m = choose|m: int|
        #![trigger steps[m]]
        i <= m < n && fetches_listed(runs, steps, m, asset);
    assert(fetches_listed(runs, steps, m, asset));
    assert(m + 1 < n);
    let _ = steps[m + 1];
    lemma_transition(runs[m + 1], events[m + 1], runs[m + 2], steps[m + 1]);
    lemma_trace_prefix(runs, events, steps, m + 1);
    let fetched = events[m + 1]->Fetched_0;
    law_writes_exactly_when_allowed(
        runs[m + 1],
        fetched,
        asset_gap(runs[m + 1].mode, runs[m + 1].stage->Fetching_datetime, fetched),
        runs[m + 2],
        steps[m + 1],
    );
    assert(i <= m && m + 1 < steps.len() && fetches_listed(runs, steps, m, asset)
        && events[m + 1] is Fetched);
}

/// Two builders made for the same host and API key in the same year, by
/// [`crate::config::App::builder`] or [`Builder::new`], are the same: same
/// host, key, timeout, years and mode.
pub proof fn law_builders_agree(
    first: Builder,
    second: Builder,
    host: ureq::http::Uri,
    api_key: String,
)
    requires
        is_default_builder(first, host, api_key),
        is_default_builder(second, host, api_key),
        first.until_year == second.until_year,
    ensures
        first.client.host.uri() == second.client.host.uri(),
        first.client.host@ == second.client.host@,
        first.client.api_key == second.client.api_key,
        first.client.timeout == second.client.timeout,
        first.from_year == second.from_year,
        first.until_year == second.until_year,
        first.mode == second.mode,
{
}

/// A timeout made from a number of seconds lasts exactly that many whole
/// seconds: `secs` seconds and no fraction of one.
pub proof fn law_timeout_counts_whole_seconds(secs: u64)
    ensures
        Timeout::spec_from_secs(secs).secs == secs,
        Timeout::spec_from_secs(secs).subsec_nanos == 0,
        Timeout::spec_from_secs(secs).nanos() == secs * 1_000_000_000,
{
}

} // verus!
