//! The device-list output parser.
//!
//! The device bridge prints one header line followed by one line per
//! device: `<id><whitespace><status>[<whitespace><extra>...]`. Parsing is
//! lenient by design: the header is skipped, blank lines are skipped, and
//! any line with fewer than two tokens is dropped silently — one bad line
//! never aborts the rest of the output. A third token, when present, is a
//! best-effort model hint. Records are rebuilt on every query and never
//! cached.
//!
//! Lines are separated by `\n`; spaces, tabs and `\r` separate tokens, so
//! `\r\n` endings need no special case.

use vstd::prelude::*;

verus! {

/// Connection status reported for one device.
#[derive(Debug, Clone, Copy, PartialEq, Eq, Structural)]
pub enum DeviceStatus {
    Device,
    Offline,
    Unauthorized,
    Unknown,
}

/// One parsed device line.
#[derive(Debug, Clone)]
pub struct DeviceRecord {
    /// First token: the device identifier.
    pub id: String,
    /// Second token, mapped to the status enum.
    pub status: DeviceStatus,
    /// Third token, when the line has one: a best-effort model hint.
    pub model: Option<String>,
}

/// The mathematical shape of a record: its strings as character sequences.
pub struct DeviceRecordView {
    pub id: Seq<char>,
    pub status: DeviceStatus,
    pub model: Option<Seq<char>>,
}

impl View for DeviceRecord {
    type V = DeviceRecordView;

    open spec fn view(&self) -> DeviceRecordView {
        DeviceRecordView {
            id: self.id@,
            status: self.status,
            model: match self.model {
                Some(m) => Some(m@),
                None => None,
            },
        }
    }
}

/// Token-separating whitespace inside a line.
pub open spec fn spec_is_ws(c: char) -> bool {
    c == ' ' || c == '\t' || c == '\r'
}

/// Executable twin of [`spec_is_ws`].
fn is_ws(c: char) -> (ws: bool)
    ensures
        ws == spec_is_ws(c),
{
    c == ' ' || c == '\t' || c == '\r'
}

/// Distance to the first `\n`, or the whole length where there is none.
pub open spec fn spec_line_len(s: Seq<char>) -> nat
    decreases s.len(),
{
    if s.len() == 0 {
        0
    } else if s[0] == '\n' {
        0
    } else {
        1 + spec_line_len(s.skip(1))
    }
}

/// Distance to the first whitespace character, or the whole length.
pub open spec fn spec_token_len(s: Seq<char>) -> nat
    decreases s.len(),
{
    if s.len() == 0 {
        0
    } else if spec_is_ws(s[0]) {
        0
    } else {
        1 + spec_token_len(s.skip(1))
    }
}

/// `spec_line_len` is pinned down by exhibiting the first `\n` position.
proof fn lemma_line_len_at(s: Seq<char>, m: int)
    requires
        0 <= m <= s.len(),
        forall|k: int| 0 <= k < m ==> s[k] != '\n',
        m < s.len() ==> s[m] == '\n',
    ensures
        spec_line_len(s) == m,
    decreases s.len(),
{
    if s.len() == 0 {
    } else if s[0] == '\n' {
        if m > 0 {
            assert(s[0] != '\n');
        }
    } else {
        let t = s.skip(1);
        assert(forall|k: int| 0 <= k < m - 1 ==> t[k] == s[k + 1] && t[k] != '\n');
        lemma_line_len_at(t, m - 1);
    }
}

/// `spec_token_len` is pinned down by exhibiting the first whitespace.
proof fn lemma_token_len_at(s: Seq<char>, m: int)
    requires
        0 <= m <= s.len(),
        forall|k: int| 0 <= k < m ==> !spec_is_ws(s[k]),
        m < s.len() ==> spec_is_ws(s[m]),
    ensures
        spec_token_len(s) == m,
    decreases s.len(),
{
    if s.len() == 0 {
    } else if spec_is_ws(s[0]) {
        if m > 0 {
            assert(!spec_is_ws(s[0]));
        }
    } else {
        let t = s.skip(1);
        assert(forall|k: int| 0 <= k < m - 1 ==> t[k] == s[k + 1] && !spec_is_ws(t[k]));
        lemma_token_len_at(t, m - 1);
    }
}

/// The text cut at every `\n`: `k` separators give `k + 1` parts.
pub open spec fn spec_lines(s: Seq<char>) -> Seq<Seq<char>>
    decreases s.len(),
{
    let n = spec_line_len(s);
    if n >= s.len() {
        seq![s]
    } else {
        seq![s.take(n as int)] + spec_lines(s.skip(n as int + 1))
    }
}

/// Splitting always yields at least the one (possibly empty) part.
pub proof fn lemma_spec_lines_nonempty(s: Seq<char>)
    ensures
        spec_lines(s).len() >= 1,
{
}

/// One line cut into whitespace-separated tokens; runs of whitespace
/// collapse and contribute nothing.
pub open spec fn spec_tokens(s: Seq<char>) -> Seq<Seq<char>>
    decreases s.len(),
{
    if s.len() == 0 {
        seq![]
    } else if spec_is_ws(s[0]) {
        spec_tokens(s.skip(1))
    } else {
        let t = spec_token_len(s);
        if t >= s.len() {
            seq![s]
        } else {
            seq![s.take(t as int)] + spec_tokens(s.skip(t as int))
        }
    }
}

/// Cuts the text at every `\n`, exactly as [`spec_lines`] describes.
pub fn split_lines(text: &str) -> (lines: Vec<String>)
    ensures
        lines@.map_values(|l: String| l@) == spec_lines(text@),
{
    let n = text.unicode_len();
    let mut lines: Vec<String> = Vec::new();
    let mut pos: usize = 0;
    proof {
        assert(text@.skip(0) =~= text@);
        assert(lines@.map_values(|l: String| l@) + spec_lines(text@) =~= spec_lines(text@));
    }
    loop
        invariant_except_break
            spec_lines(text@) == lines@.map_values(|l: String| l@) + spec_lines(
                text@.skip(pos as int),
            ),
        invariant
            pos <= n,
            n == text@.len(),
        ensures
            spec_lines(text@) == lines@.map_values(|l: String| l@),
        decreases n - pos,
    {
        let mut j = pos;
        while j < n && text.get_char(j) != '\n'
            invariant
                pos <= j <= n,
                n == text@.len(),
                forall|k: int| pos <= k < j ==> text@[k] != '\n',
            decreases n - j,
        {
            j = j + 1;
        }
        proof {
            let rest = text@.skip(pos as int);
            assert(forall|k: int|
                0 <= k < j - pos ==> rest[k] == text@[k + pos] && rest[k] != '\n');
            lemma_line_len_at(rest, j - pos);
        }
        let line = text.substring_char(pos, j).to_owned();
        proof {
            assert(text@.skip(pos as int).take(j - pos) =~= text@.subrange(pos as int, j as int));
        }
        let ghost prev = lines@.map_values(|l: String| l@);
        lines.push(line);
        proof {
            assert(lines@.map_values(|l: String| l@) =~= prev + seq![line@]);
        }
        if j == n {
            proof {
                assert(text@.skip(pos as int) =~= text@.subrange(pos as int, j as int));
                assert(spec_lines(text@) =~= lines@.map_values(|l: String| l@));
            }
            break ;
        }
        proof {
            let rest = text@.skip(pos as int);
            assert(rest.skip(j - pos + 1) =~= text@.skip(j as int + 1));
            assert(spec_lines(rest) == seq![rest.take(j - pos)] + spec_lines(rest.skip(j - pos + 1)));
            assert(spec_lines(text@) =~= lines@.map_values(|l: String| l@) + spec_lines(
                text@.skip(j as int + 1),
            ));
        }
        pos = j + 1;
    }
    lines
}

/// Cuts one line into tokens, exactly as [`spec_tokens`] describes.
pub fn tokenize(line: &str) -> (tokens: Vec<String>)
    ensures
        tokens@.map_values(|t: String| t@) == spec_tokens(line@),
{
    let n = line.unicode_len();
    let mut tokens: Vec<String> = Vec::new();
    let mut pos: usize = 0;
    proof {
        assert(line@.skip(0) =~= line@);
    }
    while pos < n
        invariant
            pos <= n,
            n == line@.len(),
            spec_tokens(line@) == tokens@.map_values(|t: String| t@) + spec_tokens(
                line@.skip(pos as int),
            ),
        decreases n - pos,
    {
        if is_ws(line.get_char(pos)) {
            proof {
                assert(line@.skip(pos as int).skip(1) =~= line@.skip(pos as int + 1));
            }
            pos = pos + 1;
        } else {
            let mut j = pos + 1;
            while j < n && !is_ws(line.get_char(j))
                invariant
                    pos < j <= n,
                    n == line@.len(),
                    forall|k: int| pos <= k < j ==> !spec_is_ws(line@[k]),
                decreases n - j,
            {
                j = j + 1;
            }
            proof {
                let rest = line@.skip(pos as int);
                assert(forall|k: int|
                    0 <= k < j - pos ==> rest[k] == line@[k + pos] && !spec_is_ws(rest[k]));
                lemma_token_len_at(rest, j - pos);
            }
            let token = line.substring_char(pos, j).to_owned();
            proof {
                assert(line@.skip(pos as int).take(j - pos) =~= line@.subrange(
                    pos as int,
                    j as int,
                ));
                assert(line@.skip(pos as int) =~= line@.subrange(pos as int, n as int));
            }
            let ghost prev = tokens@.map_values(|t: String| t@);
            tokens.push(token);
            proof {
                assert(tokens@.map_values(|t: String| t@) =~= prev + seq![token@]);
                let rest = line@.skip(pos as int);
                if j < n {
                    assert(rest.skip(j - pos) =~= line@.skip(j as int));
                    assert(spec_tokens(rest) == seq![rest.take(j - pos)] + spec_tokens(
                        rest.skip(j - pos),
                    ));
                } else {
                    assert(spec_tokens(rest) == seq![rest]);
                    assert(line@.skip(j as int) =~= Seq::<char>::empty());
                }
                assert(spec_tokens(line@) =~= tokens@.map_values(|t: String| t@) + spec_tokens(
                    line@.skip(j as int),
                ));
            }
            pos = j;
        }
    }
    proof {
        assert(line@.skip(n as int) =~= Seq::<char>::empty());
    }
    tokens
}

/// Character-for-character string equality, verified against the views.
fn str_eq(s: &str, other: &str) -> (eq: bool)
    ensures
        eq == (s@ == other@),
{
    let n = s.unicode_len();
    let m = other.unicode_len();
    if n != m {
        proof {
            if s@ == other@ {
                assert(s@.len() == other@.len());
            }
        }
        return false;
    }
    let mut i: usize = 0;
    while i < n
        invariant
            i <= n,
            n == s@.len(),
            n == other@.len(),
            forall|k: int| 0 <= k < i ==> s@[k] == other@[k],
        decreases n - i,
    {
        if s.get_char(i) != other.get_char(i) {
            return false;
        }
        i = i + 1;
    }
    proof {
        assert(s@ =~= other@);
    }
    true
}

/// The model hint a third token carries. The bridge's verbose listing
/// writes key=value blocks such as `model:Pixel_3`: a `model:` key keeps
/// only its value; any other third token is taken as the model itself.
pub open spec fn spec_model_hint(token: Seq<char>) -> Seq<char> {
    if token.len() >= 6 && token.take(6) == "model:"@ {
        token.skip(6)
    } else {
        token
    }
}

/// Extracts the model hint, exactly as [`spec_model_hint`] describes.
fn model_hint(token: &str) -> (hint: String)
    ensures
        hint@ == spec_model_hint(token@),
{
    let n = token.unicode_len();
    if n >= 6 && str_eq(token.substring_char(0, 6), "model:") {
        let value = token.substring_char(6, n).to_owned();
        proof {
            assert(token@.subrange(6, n as int) =~= token@.skip(6));
        }
        value
    } else {
        token.to_owned()
    }
}

/// The status a second token stands for. The three statuses the bridge
/// documents map to themselves; everything else is `Unknown`.
pub open spec fn spec_status_of(token: Seq<char>) -> DeviceStatus {
    if token == "device"@ {
        DeviceStatus::Device
    } else if token == "offline"@ {
        DeviceStatus::Offline
    } else if token == "unauthorized"@ {
        DeviceStatus::Unauthorized
    } else {
        DeviceStatus::Unknown
    }
}

/// Maps one status token, exactly as [`spec_status_of`] describes.
pub fn status_of_token(token: &str) -> (status: DeviceStatus)
    ensures
        status == spec_status_of(token@),
{
    if str_eq(token, "device") {
        DeviceStatus::Device
    } else if str_eq(token, "offline") {
        DeviceStatus::Offline
    } else if str_eq(token, "unauthorized") {
        DeviceStatus::Unauthorized
    } else {
        DeviceStatus::Unknown
    }
}

/// What one data line contributes: a record when it has at least two
/// tokens — identifier, status, optional model hint — and nothing when it
/// is blank or malformed.
pub open spec fn spec_line_record(line: Seq<char>) -> Option<DeviceRecordView> {
    let toks = spec_tokens(line);
    if toks.len() < 2 {
        None
    } else {
        Some(
            DeviceRecordView {
                id: toks[0],
                status: spec_status_of(toks[1]),
                model: if toks.len() >= 3 {
                    Some(spec_model_hint(toks[2]))
                } else {
                    None
                },
            },
        )
    }
}

/// Parses one data line, exactly as [`spec_line_record`] describes: a
/// record, or `None` for a blank or malformed line.
pub fn parse_device_line(line: &str) -> (record: Option<DeviceRecord>)
    ensures
        (match record {
            Some(r) => spec_line_record(line@) == Some(r@),
            None => spec_line_record(line@) is None,
        }),
{
    let tokens = tokenize(line);
    if tokens.len() < 2 {
        None
    } else {
        let id = tokens[0].clone();
        let status = status_of_token(tokens[1].as_str());
        let model = if tokens.len() >= 3 {
            Some(model_hint(tokens[2].as_str()))
        } else {
            None
        };
        Some(DeviceRecord { id, status, model })
    }
}

/// The records of a run of data lines, in input order, with blank and
/// malformed lines contributing nothing.
pub open spec fn spec_records(lines: Seq<Seq<char>>) -> Seq<DeviceRecordView>
    decreases lines.len(),
{
    if lines.len() == 0 {
        seq![]
    } else {
        match spec_line_record(lines[0]) {
            Some(r) => seq![r] + spec_records(lines.skip(1)),
            None => spec_records(lines.skip(1)),
        }
    }
}

/// What parsing whole device-list output means: the first line is the
/// header and contributes nothing; every later line contributes as
/// [`spec_line_record`] says.
pub open spec fn spec_parse_devices(text: Seq<char>) -> Seq<DeviceRecordView> {
    spec_records(spec_lines(text).skip(1))
}

/// Parses device-list output, exactly as [`spec_parse_devices`] describes.
pub fn parse_devices(text: &str) -> (records: Vec<DeviceRecord>)
    ensures
        records@.map_values(|r: DeviceRecord| r@) == spec_parse_devices(text@),
{
    let lines = split_lines(text);
    let ghost lv = lines@.map_values(|l: String| l@);
    let mut records: Vec<DeviceRecord> = Vec::new();
    let mut i: usize = 1;
    proof {
        lemma_spec_lines_nonempty(text@);
        assert(records@.map_values(|r: DeviceRecord| r@) + spec_records(lv.skip(1)) =~= spec_records(
            lv.skip(1),
        ));
    }
    while i < lines.len()
        invariant
            1 <= i <= lines@.len(),
            lv == lines@.map_values(|l: String| l@),
            spec_records(lv.skip(1)) == records@.map_values(|r: DeviceRecord| r@) + spec_records(
                lv.skip(i as int),
            ),
        decreases lines@.len() - i,
    {
        let ghost prev = records@.map_values(|r: DeviceRecord| r@);
        proof {
            assert(lv.skip(i as int)[0] == lv[i as int]);
            assert(lv.skip(i as int).skip(1) =~= lv.skip(i as int + 1));
            assert(lv[i as int] == lines@[i as int]@);
        }
        match parse_device_line(lines[i].as_str()) {
            Some(record) => {
                records.push(record);
                proof {
                    assert(records@.map_values(|r: DeviceRecord| r@) =~= prev + seq![record@]);
                    assert(prev + seq![record@] + spec_records(lv.skip(i as int + 1)) =~= prev
                        + spec_records(lv.skip(i as int)));
                }
            },
            None => {},
        }
        i = i + 1;
    }
    proof {
        assert(lv.skip(lines@.len() as int) =~= Seq::<Seq<char>>::empty());
    }
    records
}

/// Law: well-formed output parses one-to-one. Where every data line yields
/// a record, there are exactly as many records as data lines, the `i`-th
/// record coming from the `i`-th line.
pub proof fn lemma_records_one_to_one(lines: Seq<Seq<char>>)
    requires
        forall|i: int| 0 <= i < lines.len() ==> spec_line_record(lines[i]) is Some,
    ensures
        spec_records(lines).len() == lines.len(),
        forall|i: int|
            0 <= i < lines.len() ==> spec_records(lines)[i] == spec_line_record(
                lines[i],
            )->Some_0,
    decreases lines.len(),
{
    if lines.len() > 0 {
        let rest = lines.skip(1);
        assert(forall|k: int| 0 <= k < rest.len() ==> rest[k] == lines[k + 1]);
        lemma_records_one_to_one(rest);
        assert(forall|i: int|
            1 <= i < lines.len() ==> spec_records(lines)[i] == spec_records(rest)[i - 1]);
    }
}

/// Law: well-formed device-list output with `N` data lines parses to
/// exactly `N` records, in input order, the `i`-th record coming from the
/// `i`-th data line after the header.
pub proof fn lemma_parse_devices_one_to_one(text: Seq<char>)
    requires
        forall|i: int|
            1 <= i < spec_lines(text).len() ==> spec_line_record(spec_lines(text)[i]) is Some,
    ensures
        spec_parse_devices(text).len() == spec_lines(text).len() - 1,
        forall|i: int|
            1 <= i < spec_lines(text).len() ==> spec_parse_devices(text)[i - 1]
                == spec_line_record(spec_lines(text)[i])->Some_0,
{
    let data = spec_lines(text).skip(1);
    lemma_spec_lines_nonempty(text);
    assert(forall|k: int| 0 <= k < data.len() ==> data[k] == spec_lines(text)[k + 1]);
    lemma_records_one_to_one(data);
}

/// Law: leniency drops only the bad line. Removing one blank or malformed
/// line from the input leaves the parsed records untouched — the count and
/// order of records from well-formed lines are unaffected.
pub proof fn lemma_malformed_line_dropped(lines: Seq<Seq<char>>, i: int)
    requires
        0 <= i < lines.len(),
        spec_line_record(lines[i]) is None,
    ensures
        spec_records(lines) == spec_records(lines.remove(i)),
    decreases lines.len(),
{
    if i == 0 {
        assert(lines.remove(0) =~= lines.skip(1));
    } else {
        let rest = lines.skip(1);
        lemma_malformed_line_dropped(rest, i - 1);
        assert(lines.remove(i).skip(1) =~= rest.remove(i - 1));
        assert(lines.remove(i)[0] == lines[0]);
    }
}

} // verus!
