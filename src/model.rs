use vstd::prelude::*;

verus! {

/// The document formats an export can be written in.
#[derive(Clone, Copy, Debug, PartialEq, Eq, Structural)]
pub enum OutputType {
    Markdown,
    HTML,
    MarkdownWWW,
    JSON,
}

/// The time range selector as a user names it.
#[derive(Clone, Copy, Debug, PartialEq, Eq, Structural)]
pub enum CmdRange {
    Short,
    Medium,
    Long,
}

/// The time range over which the provider ranks listening data.
#[derive(Clone, Copy, Debug, PartialEq, Eq, Structural)]
pub enum TimeRange {
    ShortTerm,
    MediumTerm,
    LongTerm,
}

/// The time range that a selector stands for.
pub open spec fn time_range_of(c: CmdRange) -> TimeRange {
    match c {
        CmdRange::Short => TimeRange::ShortTerm,
        CmdRange::Medium => TimeRange::MediumTerm,
        CmdRange::Long => TimeRange::LongTerm,
    }
}

impl From<CmdRange> for TimeRange {
    fn from(value: CmdRange) -> (r: TimeRange)
        ensures
            r == time_range_of(value),
    {
        match value {
            CmdRange::Short => TimeRange::ShortTerm,
            CmdRange::Medium => TimeRange::MediumTerm,
            CmdRange::Long => TimeRange::LongTerm,
        }
    }
}

impl vstd::std_specs::convert::FromSpecImpl<CmdRange> for TimeRange {
    open spec fn obeys_from_spec() -> bool {
        true
    }

    open spec fn from_spec(v: CmdRange) -> TimeRange {
        time_range_of(v)
    }
}

/// A command that the user selected, with its settings.
#[derive(Debug)]
pub enum Commands {
    TopTracks { time: CmdRange, count: u8 },
}

/// The character view of an optional string.
pub open spec fn opt_view(o: Option<String>) -> Option<Seq<char>> {
    match o {
        Some(s) => Some(s@),
        None => None,
    }
}

/// One item as the provider delivered it.
#[derive(Debug)]
pub struct SourceTrack {
    pub name: String,
    pub artists: Vec<String>,
    pub album: String,
    pub spotify_url: Option<String>,
    pub preview_url: Option<String>,
}

/// The mathematical model of one exported record.
pub ghost struct RecordView {
    pub rank: nat,
    pub name: Seq<char>,
    pub artists: Seq<Seq<char>>,
    pub album: Seq<char>,
    pub url: Option<Seq<char>>,
    pub preview_url: Option<Seq<char>>,
}

/// The character views of a sequence of strings.
pub open spec fn views(v: Seq<String>) -> Seq<Seq<char>> {
    v.map_values(|s: String| s@)
}

impl SourceTrack {
    /// The record that this item becomes at the given rank.
    pub open spec fn record_at(&self, rank: nat) -> RecordView {
        RecordView {
            rank,
            name: self.name@,
            artists: views(self.artists@),
            album: self.album@,
            url: opt_view(self.spotify_url),
            preview_url: opt_view(self.preview_url),
        }
    }
}

/// One exported record: an item of the source with its rank in the export.
#[derive(Debug)]
pub struct ConvertedExportData {
    pub name: String,
    pub artists: Vec<String>,
    pub url: Option<String>,
    pub preview_url: Option<String>,
    pub album: String,
    pub counter: u8,
}

impl View for ConvertedExportData {
    type V = RecordView;

    open spec fn view(&self) -> RecordView {
        RecordView {
            rank: self.counter as nat,
            name: self.name@,
            artists: views(self.artists@),
            album: self.album@,
            url: opt_view(self.url),
            preview_url: opt_view(self.preview_url),
        }
    }
}

/// The records of an export: the first `count` items of `items`, ranked from one.
pub open spec fn exported(items: Seq<SourceTrack>, count: nat) -> Seq<RecordView> {
    let n = if items.len() < count { items.len() } else { count };
    Seq::new(n, |i: int| items[i].record_at((i + 1) as nat))
}

/// The models of a sequence of records.
pub open spec fn record_views(v: Seq<ConvertedExportData>) -> Seq<RecordView> {
    v.map_values(|r: ConvertedExportData| r@)
}

} // verus!
