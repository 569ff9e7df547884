//! Doorbell and wireless chime control.

use vstd::prelude::*;
use vstd::string::*;
use crate::text;

pub mod cmdline;

verus! {

/// The tone that a text stands for: a number if it is one, and otherwise what
/// the tone of that name has for an id.
pub open spec fn tone_of(s: Seq<char>, named: Option<u32>) -> Option<u32> {
    match text::number(s, u32::MAX as nat) {
        Some(n) => Some(n as u32),
        None => named,
    }
}

/// The tone that a text stands for. `named` is the id of the tone of that name,
/// if there is one. `None` is an unknown tone.
pub fn parse_tone(s: &str, named: Option<u32>) -> (tone: Option<u32>)
    ensures
        tone == tone_of(s@, named),
{
    match text::parse_number(s, u32::MAX as u64) {
        Some(n) => Some(n as u32),
        None => named,
    }
}

/// A number written out is the tone of that id, whatever tones there are names
/// for.
pub proof fn law_numeric_tones_are_literal(id: u32, named: Option<u32>)
    ensures
        tone_of(text::decimal(id as nat), named) == Some(id),
{
    text::law_decimal_round_trip(id as nat, u32::MAX as nat);
}

/// When a chime keeps silent.
#[derive(Debug)]
pub struct SilentWindow {
    pub weekday_mask: u32,
    pub start_time: String,
    pub end_time: String,
}

/// What a `silent` command asks for.
#[derive(Debug)]
pub enum SilentRequest {
    Get,
    Change(SilentWindow),
}

/// What is wrong with a `silent` command that has some of its arguments.
pub const SILENT_ARGUMENTS: &'static str = "silent command requires either zero (get) or three (set) extra arguments";

/// What a `silent` command asks for: to see the window without arguments, to set
/// it with all three.
pub fn silent_request(
    weekday_mask: Option<u32>,
    start_time: Option<String>,
    end_time: Option<String>,
) -> (request: Result<SilentRequest, &'static str>)
    ensures
        match (weekday_mask, start_time, end_time) {
            (None, None, None) => request matches Ok(SilentRequest::Get),
            (Some(mask), Some(start), Some(end)) => request matches Ok(SilentRequest::Change(w))
                && w.weekday_mask == mask && w.start_time == start && w.end_time == end,
            _ => request matches Err(reason) && reason@ == SILENT_ARGUMENTS@,
        },
{
    match (weekday_mask, start_time, end_time) {
        (None, None, None) => Ok(SilentRequest::Get),
        (Some(mask), Some(start), Some(end)) => Ok(
            SilentRequest::Change(
                SilentWindow { weekday_mask: mask, start_time: start, end_time: end },
            ),
        ),
        _ => Err(SILENT_ARGUMENTS),
    }
}

/// What is printed for a silent window.
pub fn silent_line(device_id: u32, window: &SilentWindow) -> (line: String)
    ensures
        line@ == "Silent window for chime "@ + text::decimal(device_id as nat)
            + ": weekday_mask="@ + text::decimal(window.weekday_mask as nat) + " start="@
            + window.start_time@ + " end="@ + window.end_time@,
{
    let mut line = "Silent window for chime ".to_owned();
    text::append_decimal(&mut line, device_id as u64);
    line.append(": weekday_mask=");
    text::append_decimal(&mut line, window.weekday_mask as u64);
    line.append(" start=");
    line.append(window.start_time.as_str());
    line.append(" end=");
    line.append(window.end_time.as_str());
    line
}

/// A chime that is paired with the doorbell.
#[derive(Debug)]
pub struct Chime {
    pub device_id: u32,
    pub name: Option<String>,
    pub vol_level: Option<u32>,
    pub led_state: Option<u32>,
    pub music_id: Option<u32>,
}

/// A text with spaces behind it up to a width.
pub open spec fn padded(s: Seq<char>, width: nat) -> Seq<char> {
    if s.len() >= width {
        s
    } else {
        s + Seq::new((width - s.len()) as nat, |i: int| ' ')
    }
}

fn append_padded(out: &mut String, s: &str, width: usize)
    ensures
        final(out)@ == old(out)@ + padded(s@, width as nat),
{
    let ghost before = out@;
    let chars = text::chars_of(s);
    out.append(s);
    let mut i: usize = chars.len();
    while i < width
        invariant
            chars@ == s@,
            chars@.len() <= i,
            chars@.len() < width ==> i <= width,
            chars@.len() >= width ==> i == chars@.len(),
            out@ =~= before + s@ + Seq::new((i - s@.len()) as nat, |j: int| ' '),
        decreases width - i,
    {
        out.push(' ');
        i += 1;
    }
    assert(out@ =~= before + padded(s@, width as nat));
}

/// A number, or a hyphen if there is none.
pub open spec fn number_or_hyphen(n: Option<u32>) -> Seq<char> {
    match n {
        Some(v) => text::decimal(v as nat),
        None => "-"@,
    }
}

fn shown_number(n: Option<u32>) -> (out: String)
    ensures
        out@ == number_or_hyphen(n),
{
    match n {
        Some(v) => text::decimal_text(v as u64),
        None => "-".to_owned(),
    }
}

/// A row of the list of chimes.
pub open spec fn chime_row(c: Chime) -> Seq<char> {
    padded(text::decimal(c.device_id as nat), 4) + " "@ + padded(
        match c.name {
            Some(n) => n@,
            None => Seq::empty(),
        },
        20,
    ) + " "@ + padded(number_or_hyphen(c.vol_level), 3) + " "@ + padded(
        number_or_hyphen(c.led_state),
        3,
    ) + " "@ + number_or_hyphen(c.music_id)
}

/// A row of the list of chimes.
pub fn chime_line(c: &Chime) -> (line: String)
    ensures
        line@ == chime_row(*c),
{
    let mut line = String::new();
    append_padded(&mut line, text::decimal_text(c.device_id as u64).as_str(), 4);
    assert(line@ =~= padded(text::decimal(c.device_id as nat), 4));
    line.append(" ");
    let name: String = match &c.name {
        Some(n) => n.clone(),
        None => String::new(),
    };
    append_padded(&mut line, name.as_str(), 20);
    line.append(" ");
    append_padded(&mut line, shown_number(c.vol_level).as_str(), 3);
    line.append(" ");
    append_padded(&mut line, shown_number(c.led_state).as_str(), 3);
    line.append(" ");
    line.append(shown_number(c.music_id).as_str());
    line
}

/// The lines of the list of chimes: a heading and a row for each, or a word that
/// there are none.
pub fn chime_list(chimes: &Vec<Chime>) -> (lines: Vec<String>)
    ensures
        if chimes@.len() == 0 {
            text::views(lines@) == seq!["No wireless chimes are paired with this doorbell."@]
        } else {
            text::views(lines@) == seq![
                "Paired chimes:"@,
                "ID   Name                 Vol Led MusicId"@,
            ] + chimes@.map_values(|c: Chime| chime_row(c))
        },
{
    let mut lines: Vec<String> = Vec::new();
    if chimes.len() == 0 {
        lines.push("No wireless chimes are paired with this doorbell.".to_owned());
        assert(text::views(lines@) =~= seq![
            "No wireless chimes are paired with this doorbell."@,
        ]);
        return lines;
    }
    lines.push("Paired chimes:".to_owned());
    lines.push("ID   Name                 Vol Led MusicId".to_owned());
    let ghost rows = chimes@.map_values(|c: Chime| chime_row(c));
    let ghost heading = seq![
        "Paired chimes:"@,
        "ID   Name                 Vol Led MusicId"@,
    ];
    assert(text::views(lines@) =~= heading + rows.take(0));
    let mut i: usize = 0;
    while i < chimes.len()
        invariant
            i <= chimes@.len(),
            rows == chimes@.map_values(|c: Chime| chime_row(c)),
            text::views(lines@) =~= heading + rows.take(i as int),
        decreases chimes@.len() - i,
    {
        let ghost before = lines@;
        lines.push(chime_line(&chimes[i]));
        assert(text::views(lines@) =~= text::views(before).push(rows[i as int]));
        i += 1;
    }
    assert(rows.take(i as int) =~= rows);
    lines
}

/// A chime is listed with its number, its name, its volume, its light and its tune, in that
/// order, in columns of 4, 20, 3 and 3 characters; a hyphen stands for what is not known.
pub proof fn law_chimes_are_listed_in_columns(c: Chime, s: Seq<char>, width: nat)
    ensures
        chime_row(c) == padded(text::decimal(c.device_id as nat), 4) + " "@ + padded(
            match c.name {
                Some(n) => n@,
                None => Seq::empty(),
            },
            20,
        ) + " "@ + padded(
            match c.vol_level {
                Some(v) => text::decimal(v as nat),
                None => "-"@,
            },
            3,
        ) + " "@ + padded(
            match c.led_state {
                Some(v) => text::decimal(v as nat),
                None => "-"@,
            },
            3,
        ) + " "@ + (match c.music_id {
            Some(v) => text::decimal(v as nat),
            None => "-"@,
        }),
        padded(s, width).len() == (if s.len() < width {
            width
        } else {
            s.len()
        }),
        padded(s, width).take(s.len() as int) == s,
        forall|i: int| s.len() <= i < padded(s, width).len() ==> #[trigger] padded(s, width)[i] == ' ',
{
    assert(padded(s, width).take(s.len() as int) =~= s);
}

} // verus!
