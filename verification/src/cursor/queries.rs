//! Reading cursor positions and screen sizes out of what the desktop's
//! helper programs print.
//!
//! The caller runs the programs; each function here takes the text that one
//! of them printed.

use vstd::prelude::*;
use crate::cursor::{CursorPosition, ScreenBounds};
use crate::parse::{
    find_char,
    find_word,
    last_token,
    next_line,
    nth_token,
    parse_i32,
    spec_find_char,
    spec_find_word,
    spec_last_token,
    spec_next_line,
    spec_nth_token,
    spec_parse_i32,
    spec_trim,
    spec_word_at,
    to_chars,
    trim,
    word_at,
};

verus! {

/// What a text of the form `x, y` holds.
#[derive(Debug, Clone, Copy, PartialEq, Eq, Structural)]
pub enum PairReading {
    /// The position that the text writes.
    Position(CursorPosition),
    /// The text has a comma, but one of the two numbers before and after it
    /// is no 32-bit integer.
    Malformed,
    /// The text has no comma.
    NoPair,
}

/// What a text of the form `x, y` holds. White space around the text and
/// around each number is ignored, and so is what follows a second comma.
pub open spec fn spec_parse_pair(s: Seq<char>) -> PairReading {
    let (from, end) = spec_trim(s, 0, s.len() as int);
    let comma = spec_find_char(s, ',', from, end);
    if comma >= end {
        PairReading::NoPair
    } else {
        let (x_from, x_end) = spec_trim(s, from, comma);
        let second = spec_find_char(s, ',', comma + 1, end);
        let (y_from, y_end) = spec_trim(s, comma + 1, second);
        match (spec_parse_i32(s, x_from, x_end), spec_parse_i32(s, y_from, y_end)) {
            (Some(x), Some(y)) => PairReading::Position(CursorPosition { x, y }),
            _ => PairReading::Malformed,
        }
    }
}

/// Reads a position from a text of the form `x, y`.
pub fn parse_pair(text: &str) -> (reading: PairReading)
    ensures
        reading == spec_parse_pair(text@),
{
    let chars = to_chars(text);
    let s: &[char] = chars.as_slice();
    let (from, end) = trim(s, 0, s.len());
    let comma: usize = find_char(s, ',', from, end);
    if comma >= end {
        return PairReading::NoPair;
    }
    let (x_from, x_end) = trim(s, from, comma);
    let second: usize = find_char(s, ',', comma + 1, end);
    let (y_from, y_end) = trim(s, comma + 1, second);
    match parse_i32(s, x_from, x_end) {
        Some(x) => match parse_i32(s, y_from, y_end) {
            Some(y) => PairReading::Position(CursorPosition { x, y }),
            None => PairReading::Malformed,
        },
        None => PairReading::Malformed,
    }
}

/// The coordinates that the lines from `from` on assign, given those that
/// earlier lines assigned. A line that begins with `X=` assigns the
/// horizontal coordinate and one that begins with `Y=` the vertical one: the
/// 32-bit integer that the rest of the line writes, or none where it writes
/// none. A later assignment replaces an earlier one.
pub open spec fn spec_assignments(s: Seq<char>, from: int, x: Option<i32>, y: Option<i32>) -> (
    Option<i32>,
    Option<i32>,
)
    decreases s.len() - from,
{
    if from < 0 || from >= s.len() {
        (x, y)
    } else {
        let (stop, next) = spec_next_line(s, from);
        if next <= from || next > s.len() {
            (x, y)
        } else if spec_word_at(s, seq!['X', '='], from, stop) {
            spec_assignments(s, next, spec_parse_i32(s, from + 2, stop), y)
        } else if spec_word_at(s, seq!['Y', '='], from, stop) {
            spec_assignments(s, next, x, spec_parse_i32(s, from + 2, stop))
        } else {
            spec_assignments(s, next, x, y)
        }
    }
}

/// The position that a list of shell assignments holds: both coordinates
/// must be assigned.
pub open spec fn spec_parse_assignments(s: Seq<char>) -> Option<CursorPosition> {
    match spec_assignments(s, 0, None, None) {
        (Some(x), Some(y)) => Some(CursorPosition { x, y }),
        _ => None,
    }
}

/// Reads a position from lines of the form `X=..` and `Y=..`.
pub fn parse_assignments(text: &str) -> (position: Option<CursorPosition>)
    ensures
        position == spec_parse_assignments(text@),
{
    let chars = to_chars(text);
    let s: &[char] = chars.as_slice();
    let x_mark: [char; 2] = ['X', '='];
    let y_mark: [char; 2] = ['Y', '='];
    let mut x: Option<i32> = None;
    let mut y: Option<i32> = None;
    let mut from: usize = 0;
    while from < s.len()
        invariant
            from <= s@.len(),
            x_mark@ == seq!['X', '='],
            y_mark@ == seq!['Y', '='],
            spec_assignments(s@, from as int, x, y) == spec_assignments(s@, 0, None, None),
        decreases s@.len() - from,
    {
        let (stop, next) = next_line(s, from);
        if word_at(s, x_mark.as_slice(), from, stop) {
            x = parse_i32(s, from + 2, stop);
        } else if word_at(s, y_mark.as_slice(), from, stop) {
            y = parse_i32(s, from + 2, stop);
        }
        from = next;
    }
    match (x, y) {
        (Some(x), Some(y)) => Some(CursorPosition { x, y }),
        _ => None,
    }
}

/// The word by which the line with a script's number is known.
pub open spec fn int32_word() -> Seq<char> {
    seq!['i', 'n', 't', '3', '2']
}

/// The number that the first line with the word `int32`, from `from` on,
/// ends with: the 32-bit integer that its last token writes.
pub open spec fn spec_script_id_from(s: Seq<char>, from: int) -> Option<i32>
    decreases s.len() - from,
{
    if from < 0 || from >= s.len() {
        None
    } else {
        let (stop, next) = spec_next_line(s, from);
        if spec_find_word(s, int32_word(), from, stop) is Some {
            match spec_last_token(s, from, stop) {
                Some((token_from, token_end)) => spec_parse_i32(s, token_from, token_end),
                None => None,
            }
        } else if next <= from || next > s.len() {
            None
        } else {
            spec_script_id_from(s, next)
        }
    }
}

/// Reads the number of a loaded script from the reply that announces it.
pub fn parse_script_id(text: &str) -> (id: Option<i32>)
    ensures
        id == spec_script_id_from(text@, 0),
{
    let chars = to_chars(text);
    let s: &[char] = chars.as_slice();
    let word: [char; 5] = ['i', 'n', 't', '3', '2'];
    let mut from: usize = 0;
    while from < s.len()
        invariant
            from <= s@.len(),
            word@ == int32_word(),
            s@ == text@,
            spec_script_id_from(s@, from as int) == spec_script_id_from(s@, 0),
        decreases s@.len() - from,
    {
        let (stop, next) = next_line(s, from);
        if find_word(s, word.as_slice(), from, stop).is_some() {
            return match last_token(s, from, stop) {
                Some((token_from, token_end)) => parse_i32(s, token_from, token_end),
                None => None,
            };
        }
        from = next;
    }
    None
}

/// Width and height that two tokens write, where both write a 32-bit
/// integer.
pub open spec fn spec_bounds_of(s: Seq<char>, width: (int, int), height: (int, int)) -> Option<
    ScreenBounds,
> {
    match (spec_parse_i32(s, width.0, width.1), spec_parse_i32(s, height.0, height.1)) {
        (Some(width), Some(height)) => Some(ScreenBounds { width, height }),
        _ => None,
    }
}

fn bounds_of(s: &[char], width: (usize, usize), height: (usize, usize)) -> (bounds: Option<
    ScreenBounds,
>)
    requires
        width.0 <= width.1 <= s@.len(),
        height.0 <= height.1 <= s@.len(),
    ensures
        bounds == spec_bounds_of(
            s@,
            (width.0 as int, width.1 as int),
            (height.0 as int, height.1 as int),
        ),
{
    match parse_i32(s, width.0, width.1) {
        Some(width) => match parse_i32(s, height.0, height.1) {
            Some(height) => Some(ScreenBounds { width, height }),
            None => None,
        },
        None => None,
    }
}

/// The screen size that a text of the form `width height` holds: its first
/// two tokens, where there are two and both write a 32-bit integer.
pub open spec fn spec_parse_geometry(s: Seq<char>) -> Option<ScreenBounds> {
    match (
        spec_nth_token(s, 0, s.len() as int, 0),
        spec_nth_token(s, 0, s.len() as int, 1),
    ) {
        (Some(width), Some(height)) => spec_bounds_of(s, width, height),
        _ => None,
    }
}

/// Reads a screen size from a text of the form `width height`.
pub fn parse_geometry(text: &str) -> (bounds: Option<ScreenBounds>)
    ensures
        bounds == spec_parse_geometry(text@),
{
    let chars = to_chars(text);
    let s: &[char] = chars.as_slice();
    match nth_token(s, 0, s.len(), 0) {
        Some(width) => match nth_token(s, 0, s.len(), 1) {
            Some(height) => bounds_of(s, width, height),
            None => None,
        },
        None => None,
    }
}

/// The word with which the line of a screen begins.
pub open spec fn screen_word() -> Seq<char> {
    seq!['S', 'c', 'r', 'e', 'e', 'n']
}

/// The word before a screen's current size.
pub open spec fn current_word() -> Seq<char> {
    seq!['c', 'u', 'r', 'r', 'e', 'n', 't']
}

/// What one line of a screen listing says of the screen's size.
#[derive(Debug, Clone, Copy, PartialEq, Eq, Structural)]
pub enum LineReading {
    /// The line says nothing of the size: the search goes on.
    Nothing,
    /// The line ends the search with this answer.
    Answer(Option<ScreenBounds>),
}

/// What the line `[from, stop)` of a screen listing says. Only a line that
/// begins with `Screen` and holds the word `current` says anything. Such a
/// line is read from the second character after the word up to the next
/// comma: where three tokens stand there and the second is `x`, the first and
/// the third are width and height, and the search ends, without a size where
/// one of them is no 32-bit integer. A line that ends with the word, or on
/// which a character outside ASCII follows the word, ends the search without
/// a size.
pub open spec fn spec_read_screen_line(s: Seq<char>, from: int, stop: int) -> LineReading {
    if !spec_word_at(s, screen_word(), from, stop) {
        LineReading::Nothing
    } else {
        match spec_find_word(s, current_word(), from, stop) {
            None => LineReading::Nothing,
            Some(at) => if at + 7 >= stop || s[at + 7] as u32 >= 0x80 {
                LineReading::Answer(None)
            } else {
                let piece_end = spec_find_char(s, ',', at + 8, stop);
                match (
                    spec_nth_token(s, at + 8, piece_end, 0),
                    spec_nth_token(s, at + 8, piece_end, 1),
                    spec_nth_token(s, at + 8, piece_end, 2),
                ) {
                    (Some(width), Some(by), Some(height)) => if s.subrange(by.0, by.1) == seq![
                        'x',
                    ] {
                        LineReading::Answer(spec_bounds_of(s, width, height))
                    } else {
                        LineReading::Nothing
                    },
                    _ => LineReading::Nothing,
                }
            },
        }
    }
}

/// The screen size that the first telling line of a screen listing holds,
/// from `from` on.
pub open spec fn spec_screen_size_from(s: Seq<char>, from: int) -> Option<ScreenBounds>
    decreases s.len() - from,
{
    if from < 0 || from >= s.len() {
        None
    } else {
        let (stop, next) = spec_next_line(s, from);
        match spec_read_screen_line(s, from, stop) {
            LineReading::Answer(answer) => answer,
            LineReading::Nothing => if next <= from || next > s.len() {
                None
            } else {
                spec_screen_size_from(s, next)
            },
        }
    }
}

fn read_screen_line(s: &[char], from: usize, stop: usize) -> (reading: LineReading)
    requires
        from <= stop <= s@.len(),
    ensures
        reading == spec_read_screen_line(s@, from as int, stop as int),
{
    let screen: [char; 6] = ['S', 'c', 'r', 'e', 'e', 'n'];
    let current: [char; 7] = ['c', 'u', 'r', 'r', 'e', 'n', 't'];
    if !word_at(s, screen.as_slice(), from, stop) {
        return LineReading::Nothing;
    }
    let at: usize = match find_word(s, current.as_slice(), from, stop) {
        Some(at) => at,
        None => {
            return LineReading::Nothing;
        },
    };
    if at + 7 >= stop || s[at + 7] as u32 >= 0x80 {
        return LineReading::Answer(None);
    }
    let piece_end: usize = find_char(s, ',', at + 8, stop);
    let width = match nth_token(s, at + 8, piece_end, 0) {
        Some(token) => token,
        None => {
            return LineReading::Nothing;
        },
    };
    let by = match nth_token(s, at + 8, piece_end, 1) {
        Some(token) => token,
        None => {
            return LineReading::Nothing;
        },
    };
    let height = match nth_token(s, at + 8, piece_end, 2) {
        Some(token) => token,
        None => {
            return LineReading::Nothing;
        },
    };
    let is_by: bool = by.1 - by.0 == 1 && s[by.0] == 'x';
    assert(is_by == (s@.subrange(by.0 as int, by.1 as int) == seq!['x'])) by {
        if is_by {
            assert(s@.subrange(by.0 as int, by.1 as int) =~= seq!['x']);
        } else if by.1 - by.0 == 1 {
            assert(s@.subrange(by.0 as int, by.1 as int)[0] != 'x');
        } else {
            assert(s@.subrange(by.0 as int, by.1 as int).len() != 1);
        }
    }
    if is_by {
        LineReading::Answer(bounds_of(s, width, height))
    } else {
        LineReading::Nothing
    }
}

/// Reads the current screen size from a screen listing.
pub fn parse_screen_listing(text: &str) -> (bounds: Option<ScreenBounds>)
    ensures
        bounds == spec_screen_size_from(text@, 0),
{
    let chars = to_chars(text);
    let s: &[char] = chars.as_slice();
    let mut from: usize = 0;
    while from < s.len()
        invariant
            from <= s@.len(),
            s@ == text@,
            spec_screen_size_from(s@, from as int) == spec_screen_size_from(s@, 0),
        decreases s@.len() - from,
    {
        let (stop, next) = next_line(s, from);
        match read_screen_line(s, from, stop) {
            LineReading::Answer(answer) => {
                return answer;
            },
            LineReading::Nothing => {},
        }
        from = next;
    }
    None
}

/// What the description of one monitor holds of its place and size, each
/// field as far as the description holds it as an integer.
#[derive(Debug, Clone, Copy, PartialEq, Eq, Structural)]
pub struct MonitorFields {
    /// Horizontal position of the monitor's left edge.
    pub x: Option<i64>,
    /// Vertical position of the monitor's top edge.
    pub y: Option<i64>,
    /// Width of the monitor.
    pub width: Option<i64>,
    /// Height of the monitor.
    pub height: Option<i64>,
}

/// Key under which a monitor's description holds its horizontal position.
pub const KEY_X: &'static str = "x";

/// Key under which a monitor's description holds its vertical position.
pub const KEY_Y: &'static str = "y";

/// Key under which a monitor's description holds its width.
pub const KEY_WIDTH: &'static str = "width";

/// Key under which a monitor's description holds its height.
pub const KEY_HEIGHT: &'static str = "height";

/// The monitors that a JSON text describes, as `serde_json` reads it: none
/// where the text is no JSON array, and otherwise, for each element of the
/// array, the integers that it holds under the four given keys, in the order
/// horizontal position, vertical position, width, height.
pub uninterp spec fn json_monitors(
    text: Seq<char>,
    x_key: Seq<char>,
    y_key: Seq<char>,
    width_key: Seq<char>,
    height_key: Seq<char>,
) -> Option<Seq<MonitorFields>>;

/// The monitors of a list that may be missing.
pub open spec fn monitors_view(monitors: Option<Vec<MonitorFields>>) -> Option<
    Seq<MonitorFields>,
> {
    match monitors {
        Some(list) => Some(list@),
        None => None,
    }
}

/// Reads a JSON text with `serde_json::from_str` as an array of values, and
/// of each value the fields under the four given keys with `Value::get` and
/// `Value::as_i64`. The contract names what the crate returns and claims
/// nothing else of it: the same text and keys give the same monitors.
#[verifier::external_body]
fn read_monitors(text: &str, x_key: &str, y_key: &str, width_key: &str, height_key: &str) -> (monitors:
    Option<Vec<MonitorFields>>)
    ensures
        monitors_view(monitors) == json_monitors(text@, x_key@, y_key@, width_key@, height_key@),
{
    let values: Vec<serde_json::Value> = serde_json::from_str(text).ok()?;
    Some(
        values.iter().map(
            |m| MonitorFields {
                x: m.get(x_key).and_then(|v| v.as_i64()),
                y: m.get(y_key).and_then(|v| v.as_i64()),
                width: m.get(width_key).and_then(|v| v.as_i64()),
                height: m.get(height_key).and_then(|v| v.as_i64()),
            },
        ).collect(),
    )
}

/// The far edge of a monitor along one axis: position and size are cut to 32
/// bits each and added, wrapping around at the ends of the range.
pub open spec fn spec_far_edge(origin: i64, size: i64) -> i32 {
    let sum = (origin as i32) + (size as i32);
    if sum > i32::MAX {
        (sum - 0x1_0000_0000) as i32
    } else if sum < i32::MIN {
        (sum + 0x1_0000_0000) as i32
    } else {
        sum as i32
    }
}

fn far_edge(origin: i64, size: i64) -> (edge: i32)
    ensures
        edge == spec_far_edge(origin, size),
{
    let low_origin: i32 = #[verifier::truncate]
    (origin as i32);
    let low_size: i32 = #[verifier::truncate]
    (size as i32);
    low_origin.wrapping_add(low_size)
}

/// The box around the monitors from position `from` on, given the far edges
/// found so far. A monitor that lacks one of its four fields ends the search
/// without a box. The box counts only where both its far edges are positive.
pub open spec fn spec_bounding_box(
    monitors: Seq<MonitorFields>,
    from: int,
    max_x: i32,
    max_y: i32,
) -> Option<ScreenBounds>
    decreases monitors.len() - from,
{
    if from < 0 || from >= monitors.len() {
        if max_x > 0 && max_y > 0 {
            Some(ScreenBounds { width: max_x, height: max_y })
        } else {
            None
        }
    } else {
        let m = monitors[from];
        match (m.x, m.y, m.width, m.height) {
            (Some(x), Some(y), Some(width), Some(height)) => {
                let edge_x = spec_far_edge(x, width);
                let edge_y = spec_far_edge(y, height);
                spec_bounding_box(
                    monitors,
                    from + 1,
                    if edge_x > max_x {
                        edge_x
                    } else {
                        max_x
                    },
                    if edge_y > max_y {
                        edge_y
                    } else {
                        max_y
                    },
                )
            },
            _ => None,
        }
    }
}

/// The size of the screen that monitors span: the box from the origin to the
/// farthest right and bottom edges.
pub fn monitors_bounds(monitors: &Vec<MonitorFields>) -> (bounds: Option<ScreenBounds>)
    ensures
        bounds == spec_bounding_box(monitors@, 0, 0, 0),
{
    let mut max_x: i32 = 0;
    let mut max_y: i32 = 0;
    let mut i: usize = 0;
    while i < monitors.len()
        invariant
            i <= monitors.len(),
            spec_bounding_box(monitors@, i as int, max_x, max_y) == spec_bounding_box(
                monitors@,
                0,
                0,
                0,
            ),
        decreases monitors.len() - i,
    {
        let m: MonitorFields = monitors[i];
        match (m.x, m.y, m.width, m.height) {
            (Some(x), Some(y), Some(width), Some(height)) => {
                let edge_x: i32 = far_edge(x, width);
                let edge_y: i32 = far_edge(y, height);
                if edge_x > max_x {
                    max_x = edge_x;
                }
                if edge_y > max_y {
                    max_y = edge_y;
                }
            },
            _ => {
                return None;
            },
        }
        i = i + 1;
    }
    if max_x > 0 && max_y > 0 {
        Some(ScreenBounds { width: max_x, height: max_y })
    } else {
        None
    }
}

/// The size of the screen that a JSON list of monitors describes; `None`
/// where the text is no such list or the list gives no box. A monitor's
/// place and size are read under the keys `x`, `y`, `width` and `height`.
pub open spec fn spec_parse_monitors(text: Seq<char>) -> Option<ScreenBounds> {
    match json_monitors(text, KEY_X@, KEY_Y@, KEY_WIDTH@, KEY_HEIGHT@) {
        Some(monitors) => spec_bounding_box(monitors, 0, 0, 0),
        None => None,
    }
}

/// Reads the size of the screen from a JSON list of monitors.
pub fn parse_monitors(text: &str) -> (bounds: Option<ScreenBounds>)
    ensures
        bounds == spec_parse_monitors(text@),
{
    match read_monitors(text, KEY_X, KEY_Y, KEY_WIDTH, KEY_HEIGHT) {
        Some(monitors) => monitors_bounds(&monitors),
        None => None,
    }
}

} // verus!