use spotify_export::command::{
    convert_tracks, make_command, FetchAction, FetchEvent, TopTracksCommand,
};
use spotify_export::model::{CmdRange, Commands, ConvertedExportData, OutputType, SourceTrack, TimeRange};
use spotify_export::render::{decimal_string, join_vec, render_document};

fn track(name: &str, artists: &[&str], url: Option<&str>, preview: Option<&str>) -> SourceTrack {
    SourceTrack {
        name: name.to_string(),
        artists: artists.iter().map(|a| a.to_string()).collect(),
        album: format!("{} album", name),
        spotify_url: url.map(|u| u.to_string()),
        preview_url: preview.map(|u| u.to_string()),
    }
}

fn record(rank: u8, name: &str, artists: &[&str], url: Option<&str>, preview: Option<&str>) -> ConvertedExportData {
    ConvertedExportData {
        name: name.to_string(),
        artists: artists.iter().map(|a| a.to_string()).collect(),
        url: url.map(|u| u.to_string()),
        preview_url: preview.map(|u| u.to_string()),
        album: "Album".to_string(),
        counter: rank,
    }
}

fn executed(count: u8, items: Vec<SourceTrack>) -> TopTracksCommand {
    let mut cmd = TopTracksCommand::new(CmdRange::Short, count);
    cmd.start_execute();
    for t in items {
        assert_eq!(cmd.on_fetch(FetchEvent::Item(t)), FetchAction::Continue);
    }
    assert_eq!(cmd.on_fetch(FetchEvent::Exhausted), FetchAction::Done);
    cmd
}

#[test]
fn join_empty_is_empty() {
    assert_eq!(join_vec(&[], ", "), "");
}

#[test]
fn join_three_artists() {
    let v = vec!["A".to_string(), "B".to_string(), "C".to_string()];
    assert_eq!(join_vec(&v, ", "), "A, B, C");
}

#[test]
fn decimal_of_ranks() {
    assert_eq!(decimal_string(0), "0");
    assert_eq!(decimal_string(7), "7");
    assert_eq!(decimal_string(50), "50");
    assert_eq!(decimal_string(255), "255");
}

#[test]
fn html_escapes_script_name() {
    let r = record(1, "<script>", &["A"], None, None);
    let out = r.to_output_type(OutputType::HTML);
    assert!(out.contains("&lt;script&gt;"));
    assert!(!out.contains("<script>"));
}

#[test]
fn html_item_with_links() {
    let r = record(1, "Tom & Jerry", &["A", "B"], Some("https://x/1"), Some("https://p/1"));
    let out = r.to_output_type(OutputType::HTML);
    assert_eq!(
        out,
        "<li>Tom &amp; Jerry</li>\n<ul><li>By: A, B</li>\n<li>Album: Album</li>\n\
<li><a href=\"https:&#x2F;&#x2F;x&#x2F;1\">Spotify Link</a></li>\
<li><audio controls><source src=\"https:&#x2F;&#x2F;p&#x2F;1\" type=\"audio/mpeg\">Your browser does not support the audio element.</audio></li></ul>"
    );
}

#[test]
fn json_item_without_links_has_nulls() {
    let r = record(3, "Song", &["A", "B"], None, None);
    let out = r.to_output_type(OutputType::JSON);
    assert_eq!(out, "{\"artists\":\"A, B\",\"name\":\"Song\",\"position\":3,\"preview_url\":null,\"url\":null}");
    let doc = render_document(&vec![r], OutputType::JSON);
    let v: serde_json::Value = serde_json::from_str(&doc).unwrap();
    let arr = v.as_array().unwrap();
    assert_eq!(arr.len(), 1);
    assert!(arr[0]["url"].is_null());
    assert!(arr[0]["preview_url"].is_null());
    assert_eq!(arr[0]["position"], 3);
}

#[test]
fn json_escapes_quotes() {
    let r = record(1, "Say \"hi\"", &[], Some("https://x/1"), None);
    let doc = render_document(&vec![r], OutputType::JSON);
    let v: serde_json::Value = serde_json::from_str(&doc).unwrap();
    assert_eq!(v[0]["name"], "Say \"hi\"");
    assert_eq!(v[0]["artists"], "");
    assert_eq!(v[0]["url"], "https://x/1");
}

#[test]
fn markdown_www_with_and_without_link() {
    let linked = record(2, "Song", &["A"], Some("https://x/1"), None);
    assert_eq!(linked.to_output_type(OutputType::MarkdownWWW), "2. [Song (A)](https://x/1)\n");
    let plain = record(2, "Song", &["A"], None, None);
    assert_eq!(plain.to_output_type(OutputType::MarkdownWWW), "2. Song (A)\n");
}

#[test]
fn markdown_item_preview_before_link() {
    let r = record(1, "Song", &["A", "B"], Some("https://x/1"), Some("https://p/1"));
    assert_eq!(
        r.to_output_type(OutputType::Markdown),
        "1. Song (A, B)\n* Album: Album\n* [Preview](https://p/1)\n* [Spotify Link](https://x/1)\n\n"
    );
    let bare = record(4, "Song", &[], None, None);
    assert_eq!(bare.to_output_type(OutputType::Markdown), "4. Song ()\n* Album: Album\n\n\n");
}

#[test]
fn empty_export_documents() {
    let none: Vec<ConvertedExportData> = vec![];
    assert_eq!(render_document(&none, OutputType::Markdown), "");
    assert_eq!(render_document(&none, OutputType::MarkdownWWW), "");
    assert_eq!(render_document(&none, OutputType::HTML), "<ol></ol>");
    assert_eq!(render_document(&none, OutputType::JSON), "[]");
    let cmd = executed(10, vec![]);
    assert_eq!(cmd.output(OutputType::JSON), Some("[]".to_string()));
}

#[test]
fn documents_join_items() {
    let rs = vec![record(1, "X", &["A"], None, None), record(2, "Y", &["B"], None, None)];
    assert_eq!(render_document(&rs, OutputType::MarkdownWWW), "1. X (A)\n2. Y (B)\n");
    let json = render_document(&rs, OutputType::JSON);
    assert!(json.starts_with("[{") && json.contains("},\n{") && json.ends_with("}]"));
    let v: serde_json::Value = serde_json::from_str(&json).unwrap();
    assert_eq!(v.as_array().unwrap().len(), 2);
    let html = render_document(&rs, OutputType::HTML);
    assert!(html.starts_with("<ol><li>X</li>") && html.ends_with("</ul></ol>"));
}

#[test]
fn conversion_caps_and_ranks() {
    let items: Vec<SourceTrack> = (0..5).map(|i| track(&format!("T{}", i), &["A"], None, None)).collect();
    let rs = convert_tracks(&items, 3);
    assert_eq!(rs.len(), 3);
    for (i, r) in rs.iter().enumerate() {
        assert_eq!(r.counter as usize, i + 1);
        assert_eq!(r.name, format!("T{}", i));
    }
    assert_eq!(convert_tracks(&items, 9).len(), 5);
}

#[test]
fn requested_count_is_capped_at_fifty() {
    let items: Vec<SourceTrack> = (0..60).map(|i| track(&format!("T{}", i), &[], None, None)).collect();
    let cmd = executed(200, items);
    assert_eq!(cmd.max_count(), 50);
    let doc = cmd.output(OutputType::MarkdownWWW).unwrap();
    assert_eq!(doc.lines().count(), 50);
    assert!(doc.starts_with("1. T0 ()\n"));
    assert!(doc.ends_with("50. T49 ()\n"));
}

#[test]
fn fewer_items_than_requested() {
    let items: Vec<SourceTrack> = (0..2).map(|i| track(&format!("T{}", i), &[], None, None)).collect();
    let cmd = executed(20, items);
    assert_eq!(cmd.output(OutputType::MarkdownWWW).unwrap(), "1. T0 ()\n2. T1 ()\n");
}

#[test]
fn fetch_error_prevents_output() {
    let mut cmd = TopTracksCommand::new(CmdRange::Long, 5);
    cmd.start_execute();
    assert_eq!(cmd.on_fetch(FetchEvent::Item(track("A", &[], None, None))), FetchAction::Continue);
    assert_eq!(cmd.on_fetch(FetchEvent::Failed), FetchAction::Abort);
    assert_eq!(cmd.on_fetch(FetchEvent::Exhausted), FetchAction::Abort);
    assert_eq!(cmd.output(OutputType::Markdown), None);
    let mut early = TopTracksCommand::new(CmdRange::Long, 5);
    early.start_execute();
    assert_eq!(early.on_fetch(FetchEvent::Failed), FetchAction::Abort);
    assert_eq!(early.output(OutputType::JSON), None);
}

#[test]
fn output_before_execute_is_none() {
    let cmd = TopTracksCommand::new(CmdRange::Medium, 5);
    assert_eq!(cmd.output(OutputType::HTML), None);
}

#[test]
fn factory_builds_top_tracks() {
    let cmd = make_command(Commands::TopTracks { time: CmdRange::Medium, count: 51 });
    assert_eq!(cmd.time_range(), TimeRange::MediumTerm);
    assert_eq!(cmd.max_count(), 50);
    let small = make_command(Commands::TopTracks { time: CmdRange::Short, count: 7 });
    assert_eq!(small.time_range(), TimeRange::ShortTerm);
    assert_eq!(small.max_count(), 7);
    assert_eq!(TimeRange::from(CmdRange::Long), TimeRange::LongTerm);
}
