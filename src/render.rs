use vstd::prelude::*;
use crate::model::{views, ConvertedExportData, OutputType, RecordView, record_views};

verus! {

/// The parts joined in order, with `sep` between each two neighbours.
pub open spec fn join_seq(parts: Seq<Seq<char>>, sep: Seq<char>) -> Seq<char>
    decreases parts.len(),
{
    if parts.len() == 0 {
        Seq::empty()
    } else if parts.len() == 1 {
        parts[0]
    } else {
        join_seq(parts.drop_last(), sep) + sep + parts.last()
    }
}

/// Joins `vec` into one string, with `sep` between each two neighbours.
pub fn join_vec(vec: &[String], sep: &str) -> (r: String)
    ensures
        r@ == join_seq(views(vec@), sep@),
{
    let mut res = String::new();
    let mut i: usize = 0;
    while i < vec.len()
        invariant
            i <= vec@.len(),
            res@ == join_seq(views(vec@.take(i as int)), sep@),
        decreases vec@.len() - i,
    {
        if i > 0 {
            res.append(sep);
        }
        res.append(vec[i].as_str());
        proof {
            let prev = views(vec@.take(i as int));
            let next = views(vec@.take(i + 1));
            assert(next.drop_last() =~= prev);
            assert(next.last() == vec@[i as int]@);
            if i == 0 {
                assert(prev =~= Seq::<Seq<char>>::empty());
            }
        }
        i = i + 1;
    }
    assert(vec@.take(vec@.len() as int) =~= vec@);
    res
}


/// The decimal digit for a value below ten.
pub open spec fn digit_char(d: nat) -> char {
    if d == 0 { '0' } else if d == 1 { '1' } else if d == 2 { '2' } else if d == 3 { '3' }
    else if d == 4 { '4' } else if d == 5 { '5' } else if d == 6 { '6' } else if d == 7 { '7' }
    else if d == 8 { '8' } else { '9' }
}

/// The decimal notation of `n`, without leading zeros.
pub open spec fn decimal(n: nat) -> Seq<char>
    decreases n,
{
    if n < 10 {
        seq![digit_char(n)]
    } else {
        decimal(n / 10) + seq![digit_char(n % 10)]
    }
}

fn digit_str(d: u8) -> (r: &'static str)
    requires
        d < 10,
    ensures
        r@ == seq![digit_char(d as nat)],
{
    proof {
        reveal_strlit("0");
        reveal_strlit("1");
        reveal_strlit("2");
        reveal_strlit("3");
        reveal_strlit("4");
        reveal_strlit("5");
        reveal_strlit("6");
        reveal_strlit("7");
        reveal_strlit("8");
        reveal_strlit("9");
    }
    match d {
        0 => "0",
        1 => "1",
        2 => "2",
        3 => "3",
        4 => "4",
        5 => "5",
        6 => "6",
        7 => "7",
        8 => "8",
        _ => "9",
    }
}

/// The decimal notation of `n`.
pub fn decimal_string(n: u8) -> (r: String)
    ensures
        r@ == decimal(n as nat),
{
    let mut res = String::new();
    if n >= 100 {
        res.append(digit_str(n / 100));
    }
    if n >= 10 {
        res.append(digit_str((n / 10) % 10));
    }
    res.append(digit_str(n % 10));
    proof {
        let m = n as nat;
        if m >= 100 {
            assert(decimal(m / 100) == seq![digit_char(m / 100)]);
            assert((m / 10) / 10 == m / 100);
            assert(decimal(m / 10) == decimal(m / 100) + seq![digit_char((m / 10) % 10)]);
            assert(res@ =~= decimal(m));
        } else if m >= 10 {
            assert(decimal(m / 10) == seq![digit_char(m / 10)]);
            assert((m / 10) % 10 == m / 10);
            assert(res@ =~= decimal(m));
        } else {
            assert(res@ =~= decimal(m));
        }
    }
    res
}

/// What HTML entity encoding makes of one character.
pub open spec fn escape_char(c: char) -> Seq<char> {
    if c == '&' {
        "&amp;"@
    } else if c == '<' {
        "&lt;"@
    } else if c == '>' {
        "&gt;"@
    } else if c == '"' {
        "&quot;"@
    } else if c == '\'' {
        "&#x27;"@
    } else if c == '/' {
        "&#x2F;"@
    } else {
        seq![c]
    }
}

/// `s` with each character replaced by its HTML encoding.
pub open spec fn html_escaped(s: Seq<char>) -> Seq<char>
    decreases s.len(),
{
    if s.len() == 0 {
        Seq::empty()
    } else {
        html_escaped(s.drop_last()) + escape_char(s.last())
    }
}

/// HTML-encoded text holds no `<`, so no tag can come out of what it encodes.
pub proof fn escaped_text_has_no_open_bracket(s: Seq<char>)
    ensures
        forall|i: int| 0 <= i < html_escaped(s).len() ==> #[trigger] html_escaped(s)[i] != '<',
    decreases s.len(),
{
    reveal_strlit("&amp;");
    reveal_strlit("&lt;");
    reveal_strlit("&gt;");
    reveal_strlit("&quot;");
    reveal_strlit("&#x27;");
    reveal_strlit("&#x2F;");
    if s.len() > 0 {
        escaped_text_has_no_open_bracket(s.drop_last());
        let head = html_escaped(s.drop_last());
        let tail = escape_char(s.last());
        assert forall|i: int| 0 <= i < html_escaped(s).len() implies #[trigger] html_escaped(s)[i]
            != '<' by {
            if i >= head.len() {
                assert(html_escaped(s)[i] == tail[i - head.len()]);
            } else {
                assert(html_escaped(s)[i] == head[i]);
            }
        }
    }
}

/// Relies on html_escape::encode_safe: it writes `&`, `<`, `>`, `"`, `'` and `/` as
/// HTML entities and keeps every other character.
#[verifier::external_body]
fn escape_html(s: &str) -> (r: String)
    ensures
        r@ == html_escaped(s@),
{
    html_escape::encode_safe(s).into_owned()
}

/// The JSON string literal that stands for `s`.
pub uninterp spec fn json_quoted(s: Seq<char>) -> Seq<char>;

/// Relies on serde_json's `Display` of `Value::String`: the string written as a
/// JSON string literal, quoted and escaped; it depends on the characters alone.
#[verifier::external_body]
fn json_string(s: &str) -> (r: String)
    ensures
        r@ == json_quoted(s@),
{
    serde_json::Value::String(s.to_string()).to_string()
}

/// The artists of a record as one display string.
pub open spec fn artists_text(r: RecordView) -> Seq<char> {
    join_seq(r.artists, ", "@)
}

/// A record as a Markdown list entry.
pub open spec fn markdown_text(r: RecordView) -> Seq<char> {
    let head = decimal(r.rank) + ". "@ + r.name + " ("@ + artists_text(r) + ")\n* Album: "@
        + r.album + "\n"@;
    let with_preview = match r.preview_url {
        Some(u) => head + "* [Preview]("@ + u + ")\n"@,
        None => head,
    };
    let with_link = match r.url {
        Some(u) => with_preview + "* [Spotify Link]("@ + u + ")"@,
        None => with_preview,
    };
    with_link + "\n\n"@
}

/// A record as an HTML list item followed by a nested list of its details.
pub open spec fn html_text(r: RecordView) -> Seq<char> {
    let head = "<li>"@ + html_escaped(r.name) + "</li>\n<ul><li>By: "@ + html_escaped(
        artists_text(r),
    ) + "</li>\n<li>Album: "@ + html_escaped(r.album) + "</li>\n"@;
    let with_link = match r.url {
        Some(u) => head + "<li><a href=\""@ + html_escaped(u) + "\">Spotify Link</a></li>"@,
        None => head,
    };
    let with_preview = match r.preview_url {
        Some(u) => with_link + "<li><audio controls><source src=\""@ + html_escaped(u)
            + "\" type=\"audio/mpeg\">Your browser does not support the audio element.</audio></li>"@,
        None => with_link,
    };
    with_preview + "</ul>"@
}

/// A record as one compact Markdown line, linked when it has a link.
pub open spec fn markdown_www_text(r: RecordView) -> Seq<char> {
    match r.url {
        Some(u) => decimal(r.rank) + ". ["@ + r.name + " ("@ + artists_text(r) + ")]("@ + u
            + ")\n"@,
        None => decimal(r.rank) + ". "@ + r.name + " ("@ + artists_text(r) + ")\n"@,
    }
}

/// An optional string as a JSON value: a string literal, or `null`.
pub open spec fn json_opt(o: Option<Seq<char>>) -> Seq<char> {
    match o {
        Some(u) => json_quoted(u),
        None => "null"@,
    }
}

/// A record as a JSON object, its keys in sorted order.
pub open spec fn json_text(r: RecordView) -> Seq<char> {
    "{\"artists\":"@ + json_quoted(artists_text(r)) + ",\"name\":"@ + json_quoted(r.name)
        + ",\"position\":"@ + decimal(r.rank) + ",\"preview_url\":"@ + json_opt(r.preview_url)
        + ",\"url\":"@ + json_opt(r.url) + "}"@
}

/// A record in the given format.
pub open spec fn item_text(r: RecordView, t: OutputType) -> Seq<char> {
    match t {
        OutputType::Markdown => markdown_text(r),
        OutputType::HTML => html_text(r),
        OutputType::MarkdownWWW => markdown_www_text(r),
        OutputType::JSON => json_text(r),
    }
}

fn json_opt_string(o: &Option<String>) -> (r: String)
    ensures
        r@ == json_opt(crate::model::opt_view(*o)),
{
    match o {
        Some(u) => json_string(u.as_str()),
        None => String::from_str("null"),
    }
}

impl ConvertedExportData {
    /// Renders this record in the given format.
    pub fn to_output_type(&self, t: OutputType) -> (r: String)
        ensures
            r@ == item_text(self@, t),
    {
        let artists = join_vec(self.artists.as_slice(), ", ");
        match t {
            OutputType::Markdown => {
                let mut res = decimal_string(self.counter);
                res.append(". ");
                res.append(self.name.as_str());
                res.append(" (");
                res.append(artists.as_str());
                res.append(")\n* Album: ");
                res.append(self.album.as_str());
                res.append("\n");
                if let Some(u) = &self.preview_url {
                    res.append("* [Preview](");
                    res.append(u.as_str());
                    res.append(")\n");
                }
                if let Some(u) = &self.url {
                    res.append("* [Spotify Link](");
                    res.append(u.as_str());
                    res.append(")");
                }
                res.append("\n\n");
                res
            },
            OutputType::HTML => {
                let mut res = String::from_str("<li>");
                res.append(escape_html(self.name.as_str()).as_str());
                res.append("</li>\n<ul><li>By: ");
                res.append(escape_html(artists.as_str()).as_str());
                res.append("</li>\n<li>Album: ");
                res.append(escape_html(self.album.as_str()).as_str());
                res.append("</li>\n");
                if let Some(u) = &self.url {
                    res.append("<li><a href=\"");
                    res.append(escape_html(u.as_str()).as_str());
                    res.append("\">Spotify Link</a></li>");
                }
                if let Some(u) = &self.preview_url {
                    res.append("<li><audio controls><source src=\"");
                    res.append(escape_html(u.as_str()).as_str());
                    res.append(
                        "\" type=\"audio/mpeg\">Your browser does not support the audio element.</audio></li>",
                    );
                }
                res.append("</ul>");
                res
            },
            OutputType::MarkdownWWW => {
                let mut res = decimal_string(self.counter);
                match &self.url {
                    Some(u) => {
                        res.append(". [");
                        res.append(self.name.as_str());
                        res.append(" (");
                        res.append(artists.as_str());
                        res.append(")](");
                        res.append(u.as_str());
                        res.append(")\n");
                    },
                    None => {
                        res.append(". ");
                        res.append(self.name.as_str());
                        res.append(" (");
                        res.append(artists.as_str());
                        res.append(")\n");
                    },
                }
                res
            },
            OutputType::JSON => {
                let mut res = String::from_str("{\"artists\":");
                res.append(json_string(artists.as_str()).as_str());
                res.append(",\"name\":");
                res.append(json_string(self.name.as_str()).as_str());
                res.append(",\"position\":");
                res.append(decimal_string(self.counter).as_str());
                res.append(",\"preview_url\":");
                res.append(json_opt_string(&self.preview_url).as_str());
                res.append(",\"url\":");
                res.append(json_opt_string(&self.url).as_str());
                res.append("}");
                res
            },
        }
    }
}

/// The whole document for a sequence of records in the given format.
pub open spec fn document(records: Seq<RecordView>, t: OutputType) -> Seq<char> {
    let parts = records.map_values(|r: RecordView| item_text(r, t));
    match t {
        OutputType::Markdown => join_seq(parts, ""@),
        OutputType::MarkdownWWW => join_seq(parts, ""@),
        OutputType::HTML => "<ol>"@ + join_seq(parts, ""@) + "</ol>"@,
        OutputType::JSON => "["@ + join_seq(parts, ",\n"@) + "]"@,
    }
}

/// Renders each record and assembles them into one document of the given format.
pub fn render_document(records: &Vec<ConvertedExportData>, format: OutputType) -> (r: String)
    ensures
        r@ == document(record_views(records@), format),
{
    let mut parts: Vec<String> = Vec::new();
    let mut i: usize = 0;
    while i < records.len()
        invariant
            i <= records@.len(),
            parts@.len() == i,
            forall|j: int| 0 <= j < i ==> #[trigger] parts@[j]@ == item_text(records@[j]@, format),
        decreases records@.len() - i,
    {
        parts.push(records[i].to_output_type(format));
        i = i + 1;
    }
    assert(views(parts@) =~= record_views(records@).map_values(
        |r: RecordView| item_text(r, format),
    ));
    match format {
        OutputType::Markdown => join_vec(parts.as_slice(), ""),
        OutputType::MarkdownWWW => join_vec(parts.as_slice(), ""),
        OutputType::HTML => {
            let mut res = String::from_str("<ol>");
            res.append(join_vec(parts.as_slice(), "").as_str());
            res.append("</ol>");
            res
        },
        OutputType::JSON => {
            let mut res = String::from_str("[");
            res.append(join_vec(parts.as_slice(), ",\n").as_str());
            res.append("]");
            res
        },
    }
}

/// Joining no parts gives the empty string, whatever the separator.
pub proof fn join_of_nothing_is_empty(sep: Seq<char>)
    ensures
        join_seq(Seq::empty(), sep) == Seq::<char>::empty(),
{
}

/// An export of no records is an empty document of its format: nothing for the
/// Markdown formats, an empty ordered list for HTML and an empty array for JSON.
pub proof fn empty_export_is_empty_document(t: OutputType)
    ensures
        document(Seq::empty(), t) == match t {
            OutputType::Markdown => ""@,
            OutputType::MarkdownWWW => ""@,
            OutputType::HTML => "<ol></ol>"@,
            OutputType::JSON => "[]"@,
        },
{
    reveal_strlit("");
    reveal_strlit("<ol>");
    reveal_strlit("</ol>");
    reveal_strlit("<ol></ol>");
    reveal_strlit("[");
    reveal_strlit("]");
    reveal_strlit("[]");
    let parts = Seq::<RecordView>::empty().map_values(|r: RecordView| item_text(r, t));
    assert(parts =~= Seq::empty());
    assert("<ol>"@ + Seq::<char>::empty() + "</ol>"@ =~= "<ol></ol>"@);
    assert("["@ + Seq::<char>::empty() + "]"@ =~= "[]"@);
}

} // verus!
