use vstd::prelude::*;
use crate::model::{
    exported, record_views, time_range_of, CmdRange, Commands, ConvertedExportData, OutputType,
    SourceTrack, TimeRange, opt_view, views,
};
use crate::render::{document, render_document};

verus! {

/// The most items the provider hands out in one ranking.
pub const MAX_COUNT: u8 = 50;

/// A requested item count, capped at the provider's maximum.
pub open spec fn clamp_count(c: u8) -> u8 {
    if c > MAX_COUNT { MAX_COUNT } else { c }
}

fn copy_strings(v: &Vec<String>) -> (r: Vec<String>)
    ensures
        views(r@) == views(v@),
{
    let mut res: Vec<String> = Vec::new();
    let mut i: usize = 0;
    while i < v.len()
        invariant
            i <= v@.len(),
            res@.len() == i,
            forall|j: int| 0 <= j < i ==> #[trigger] res@[j] == v@[j],
        decreases v@.len() - i,
    {
        res.push(v[i].clone());
        i = i + 1;
    }
    assert(views(res@) =~= views(v@));
    res
}

fn copy_opt(o: &Option<String>) -> (r: Option<String>)
    ensures
        opt_view(r) == opt_view(*o),
{
    match o {
        Some(s) => Some(s.clone()),
        None => None,
    }
}

/// Turns the first `count` items into records ranked from one, in their order.
pub fn convert_tracks(items: &Vec<SourceTrack>, count: u8) -> (r: Vec<ConvertedExportData>)
    ensures
        record_views(r@) == exported(items@, count as nat),
{
    let n: usize = if items.len() < count as usize { items.len() } else { count as usize };
    let mut res: Vec<ConvertedExportData> = Vec::new();
    let mut i: usize = 0;
    while i < n
        invariant
            n <= items@.len(),
            n <= count,
            i <= n,
            res@.len() == i,
            forall|j: int| 0 <= j < i ==> #[trigger] res@[j]@ == items@[j].record_at((j + 1) as nat),
        decreases n - i,
    {
        let item = &items[i];
        res.push(ConvertedExportData {
            name: item.name.clone(),
            artists: copy_strings(&item.artists),
            url: copy_opt(&item.spotify_url),
            preview_url: copy_opt(&item.preview_url),
            album: item.album.clone(),
            counter: (i + 1) as u8,
        });
        i = i + 1;
    }
    assert(record_views(res@) =~= exported(items@, count as nat));
    res
}

/// Where a command stands in its life.
#[derive(Clone, Copy, Debug, PartialEq, Eq, Structural)]
pub enum Phase {
    Created,
    Fetching,
    Executed,
    Failed,
}

/// What the provider handed over on one pull.
#[derive(Debug)]
pub enum FetchEvent {
    Item(SourceTrack),
    Exhausted,
    Failed,
}

/// What a command asks of the loop that feeds it.
#[derive(Clone, Copy, Debug, PartialEq, Eq, Structural)]
pub enum FetchAction {
    Continue,
    Done,
    Abort,
}

/// The phase a command moves to when it receives an event.
pub open spec fn next_phase(p: Phase, e: FetchEvent) -> Phase {
    if p == Phase::Fetching {
        match e {
            FetchEvent::Item(_) => Phase::Fetching,
            FetchEvent::Exhausted => Phase::Executed,
            FetchEvent::Failed => Phase::Failed,
        }
    } else {
        p
    }
}

/// The phase after a sequence of events, received one after another.
pub open spec fn phase_after(p: Phase, events: Seq<FetchEvent>) -> Phase
    decreases events.len(),
{
    if events.len() == 0 {
        p
    } else {
        next_phase(phase_after(p, events.drop_last()), events.last())
    }
}

/// Exports the user's top tracks over a time range.
pub struct TopTracksCommand {
    time: TimeRange,
    count: u8,
    saved_result: Vec<SourceTrack>,
    phase: Phase,
}

impl TopTracksCommand {
    /// The time range the ranking is asked for.
    pub closed spec fn time_view(&self) -> TimeRange {
        self.time
    }

    /// The most records the export holds.
    pub closed spec fn count_view(&self) -> u8 {
        self.count
    }

    /// The items fetched so far, in delivery order.
    pub closed spec fn buffer(&self) -> Seq<SourceTrack> {
        self.saved_result@
    }

    /// Where the command stands.
    pub closed spec fn phase(&self) -> Phase {
        self.phase
    }

    /// A fresh command, its count capped at the provider's maximum.
    pub fn new(time: CmdRange, count: u8) -> (r: TopTracksCommand)
        ensures
            r.time_view() == time_range_of(time),
            r.count_view() == clamp_count(count),
            r.buffer() == Seq::<SourceTrack>::empty(),
            r.phase() == Phase::Created,
    {
        let real_count = if count > MAX_COUNT { MAX_COUNT } else { count };
        TopTracksCommand {
            count: real_count,
            time: TimeRange::from(time),
            saved_result: Vec::new(),
            phase: Phase::Created,
        }
    }

    /// The time range to ask the provider for.
    pub fn time_range(&self) -> (r: TimeRange)
        ensures
            r == self.time_view(),
    {
        self.time
    }

    /// The most records the export holds.
    pub fn max_count(&self) -> (r: u8)
        ensures
            r == self.count_view(),
    {
        self.count
    }

    /// Starts a fetch: the buffer is emptied and events are taken from now on.
    pub fn start_execute(&mut self)
        ensures
            final(self).phase() == Phase::Fetching,
            final(self).buffer() == Seq::<SourceTrack>::empty(),
            final(self).time_view() == old(self).time_view(),
            final(self).count_view() == old(self).count_view(),
    {
        self.saved_result = Vec::new();
        self.phase = Phase::Fetching;
    }

    /// Takes what the provider handed over and says how the fetch goes on: an item
    /// is buffered, the end of the sequence completes the fetch, an error aborts it.
    /// Outside a fetch the command is left as it is.
    pub fn on_fetch(&mut self, event: FetchEvent) -> (a: FetchAction)
        ensures
            final(self).phase() == next_phase(old(self).phase(), event),
            final(self).time_view() == old(self).time_view(),
            final(self).count_view() == old(self).count_view(),
            old(self).phase() == Phase::Fetching ==> match event {
                FetchEvent::Item(t) => a == FetchAction::Continue && final(self).buffer()
                    == old(self).buffer().push(t),
                FetchEvent::Exhausted => a == FetchAction::Done && final(self).buffer()
                    == old(self).buffer(),
                FetchEvent::Failed => a == FetchAction::Abort,
            },
            old(self).phase() != Phase::Fetching ==> a == FetchAction::Abort && final(self).buffer()
                == old(self).buffer(),
    {
        if self.phase != Phase::Fetching {
            return FetchAction::Abort;
        }
        match event {
            FetchEvent::Item(t) => {
                self.saved_result.push(t);
                FetchAction::Continue
            },
            FetchEvent::Exhausted => {
                self.phase = Phase::Executed;
                FetchAction::Done
            },
            FetchEvent::Failed => {
                self.phase = Phase::Failed;
                FetchAction::Abort
            },
        }
    }

    /// The document of the fetched items in the given format, capped at the
    /// command's count; there is none unless a fetch completed.
    pub fn output(&self, format: OutputType) -> (r: Option<String>)
        ensures
            r is Some <==> self.phase() == Phase::Executed,
            r matches Some(s) ==> s@ == document(
                exported(self.buffer(), self.count_view() as nat),
                format,
            ),
    {
        if self.phase != Phase::Executed {
            return None;
        }
        let records = convert_tracks(&self.saved_result, self.count);
        Some(render_document(&records, format))
    }
}

/// A command that fetches items from the provider and exports them as a document.
pub trait Command {
    /// Starts a fetch.
    fn start_execute(&mut self);

    /// Takes one event from the provider and says how the fetch goes on.
    fn on_fetch(&mut self, event: FetchEvent) -> FetchAction;

    /// The document of what was fetched, once a fetch completed.
    fn output(&self, format: OutputType) -> Option<String>;
}

impl Command for TopTracksCommand {
    fn start_execute(&mut self) {
        TopTracksCommand::start_execute(self)
    }

    fn on_fetch(&mut self, event: FetchEvent) -> FetchAction {
        TopTracksCommand::on_fetch(self, event)
    }

    fn output(&self, format: OutputType) -> Option<String> {
        TopTracksCommand::output(self, format)
    }
}

/// Builds the command that a selection stands for.
pub fn make_command(command: Commands) -> (r: TopTracksCommand)
    ensures
        match command {
            Commands::TopTracks { time, count } => r.time_view() == time_range_of(time)
                && r.count_view() == clamp_count(count),
        },
        r.buffer() == Seq::<SourceTrack>::empty(),
        r.phase() == Phase::Created,
{
    match command {
        Commands::TopTracks { time, count } => TopTracksCommand::new(time, count),
    }
}

/// The number of records an export holds is the fetched count or the requested
/// count capped at the provider's maximum, whichever is smaller.
pub proof fn emitted_count_is_capped(items: Seq<SourceTrack>, requested: u8)
    ensures
        exported(items, clamp_count(requested) as nat).len() == vstd::math::min(
            items.len() as int,
            vstd::math::min(requested as int, MAX_COUNT as int),
        ),
{
}

/// The ranks of an export run from one up to its length, each once.
pub proof fn ranks_are_dense(items: Seq<SourceTrack>, count: nat)
    ensures
        forall|i: int|
            0 <= i < exported(items, count).len() ==> #[trigger] exported(items, count)[i].rank
                == i + 1,
{
}

/// Once a fetch failed, no further event makes the command executed, so no
/// document comes of what it had buffered.
pub proof fn failed_fetch_blocks_output(events: Seq<FetchEvent>)
    ensures
        phase_after(Phase::Failed, events) == Phase::Failed,
    decreases events.len(),
{
    if events.len() > 0 {
        failed_fetch_blocks_output(events.drop_last());
    }
}

} // verus!
