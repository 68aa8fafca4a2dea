//! The screens that the window manager's support information describes.
//!
//! The information is a text of many sections. A screen's section begins with a line such as
//! `Screen 0:` and gives, each on a line of its own, a name and a geometry such as
//! `Geometry: 0,0,1920x1080`.

use crate::screen;
use crate::screen::{ScreenInfo, ScreenView};
use crate::text;
use vstd::prelude::*;

verus! {

/// Why support information is of no use.
#[derive(Debug, Clone, Copy, PartialEq, Eq, Structural)]
pub enum SupportError {
    /// It describes no screen.
    NoScreens,
    /// The geometry of a screen cannot be read.
    BadGeometry,
}

/// What is said of support information that is of no use.
pub open spec fn support_message(e: SupportError) -> Seq<char> {
    match e {
        SupportError::NoScreens => "support information describes no screen"@,
        SupportError::BadGeometry => "support information holds a geometry that cannot be read"@,
    }
}

impl SupportError {
    /// The reason as a sentence for the user.
    pub fn message(&self) -> (s: String)
        ensures
            s@ == support_message(*self),
    {
        match self {
            SupportError::NoScreens => "support information describes no screen".to_owned(),
            SupportError::BadGeometry =>
                "support information holds a geometry that cannot be read".to_owned(),
        }
    }
}

/// A screen's section whose geometry is still to come.
pub struct Section {
    pub index: u32,
    pub name: Seq<char>,
}

/// What has been read so far: the section of a screen whose geometry is still to come, and the
/// screens that are complete.
pub struct Scan {
    pub section: Option<Section>,
    pub screens: Seq<ScreenView>,
}

/// The number of the screen whose section a line begins.
pub open spec fn section_start(line: Seq<char>) -> Option<u32> {
    if text::starts_with(line, "Screen "@) && text::ends_with(line.skip("Screen "@.len() as int), ":"@) {
        let rest = line.skip("Screen "@.len() as int);
        match text::written_i32(rest.take(rest.len() - ":"@.len())) {
            Some(n) if n >= 0 => Some(n as u32),
            _ => None,
        }
    } else {
        None
    }
}

/// The value of a line that gives the named thing, without the white space around it.
pub open spec fn value_of(line: Seq<char>, key: Seq<char>) -> Option<Seq<char>> {
    if text::starts_with(line, key) {
        Some(text::trimmed(line.skip(key.len() as int)))
    } else {
        None
    }
}

/// The four numbers of a geometry: `x,y,widthxheight`.
pub open spec fn geometry_of(s: Seq<char>) -> Option<(i32, i32, i32, i32)> {
    let parts = text::pieces(s, ',');
    let size = text::pieces(parts[2], 'x');
    if parts.len() == 3 && size.len() == 2 {
        match (
            text::written_i32(parts[0]),
            text::written_i32(parts[1]),
            text::written_i32(size[0]),
            text::written_i32(size[1]),
        ) {
            (Some(x), Some(y), Some(width), Some(height)) => Some((x, y, width, height)),
            _ => None,
        }
    } else {
        None
    }
}

/// What one line adds to what has been read; nothing where it spoils it.
pub open spec fn scan_line(scan: Scan, raw: Seq<char>) -> Option<Scan> {
    let line = text::trimmed(raw);
    if section_start(line) is Some {
        Some(Scan { section: Some(Section { index: section_start(line)->0, name: Seq::empty() }), ..scan })
    } else if scan.section is None {
        Some(scan)
    } else if value_of(line, "Name:"@) is Some {
        Some(
            Scan {
                section: Some(
                    Section { name: value_of(line, "Name:"@)->0, ..scan.section->0 },
                ),
                ..scan
            },
        )
    } else if value_of(line, "Geometry:"@) is Some {
        match geometry_of(value_of(line, "Geometry:"@)->0) {
            None => None,
            Some((x, y, width, height)) => Some(
                Scan {
                    section: None,
                    screens: scan.screens.push(
                        ScreenView {
                            index: scan.section->0.index,
                            name: scan.section->0.name,
                            x,
                            y,
                            width,
                            height,
                        },
                    ),
                },
            ),
        }
    } else {
        Some(scan)
    }
}

/// What a list of lines says, read from the first to the last.
pub open spec fn scan_lines(lines: Seq<Seq<char>>) -> Option<Scan>
    decreases lines.len(),
{
    if lines.len() == 0 {
        Some(Scan { section: None, screens: Seq::empty() })
    } else {
        match scan_lines(lines.drop_last()) {
            None => None,
            Some(scan) => scan_line(scan, lines.last()),
        }
    }
}

/// The screens that a text describes.
pub open spec fn screens_of(information: Seq<char>) -> Result<Seq<ScreenView>, SupportError> {
    match scan_lines(text::pieces(information, '\n')) {
        None => Err(SupportError::BadGeometry),
        Some(scan) => if scan.screens.len() == 0 {
            Err(SupportError::NoScreens)
        } else {
            Ok(scan.screens)
        },
    }
}

spec fn section_view(section: Option<(u32, String)>) -> Option<Section> {
    match section {
        Some((index, name)) => Some(Section { index, name: name@ }),
        None => None,
    }
}

fn read_section_start(line: &Vec<char>) -> (index: Option<u32>)
    ensures
        index == section_start(line@),
{
    match text::strip_prefix(line, "Screen ") {
        None => None,
        Some(rest) => match text::strip_suffix(&rest, ":") {
            None => None,
            Some(digits) => match text::parse_i32(&digits) {
                Ok(n) => if n >= 0 {
                    Some(n as u32)
                } else {
                    None
                },
                Err(_) => None,
            },
        },
    }
}

fn read_value(line: &Vec<char>, key: &str) -> (value: Option<Vec<char>>)
    ensures
        value is Some == value_of(line@, key@) is Some,
        value matches Some(v) ==> v@ == value_of(line@, key@)->0,
{
    match text::strip_prefix(line, key) {
        None => None,
        Some(rest) => Some(text::trim_chars(&rest)),
    }
}

fn read_geometry(s: &Vec<char>) -> (geometry: Option<(i32, i32, i32, i32)>)
    ensures
        geometry == geometry_of(s@),
{
    let parts = text::split(s, ',');
    assert forall|i: int| 0 <= i < parts@.len() implies text::pieces(s@, ',')[i] == (
    #[trigger] parts@[i])@ by {
        assert(text::texts(parts@)[i] == parts@[i]@);
    }
    if parts.len() != 3 {
        return None;
    }
    let size = text::split(&parts[2], 'x');
    assert forall|i: int| 0 <= i < size@.len() implies text::pieces(parts@[2]@, 'x')[i] == (
    #[trigger] size@[i])@ by {
        assert(text::texts(size@)[i] == size@[i]@);
    }
    if size.len() != 2 {
        return None;
    }
    let x = text::parse_i32(&parts[0]);
    let y = text::parse_i32(&parts[1]);
    let width = text::parse_i32(&size[0]);
    let height = text::parse_i32(&size[1]);
    match (x, y, width, height) {
        (Ok(x), Ok(y), Ok(width), Ok(height)) => Some((x, y, width, height)),
        _ => None,
    }
}

/// Reads the screens from the window manager's support information.
pub fn parse_support_information(information: &str) -> (screens: Result<
    Vec<ScreenInfo>,
    SupportError,
>)
    ensures
        match (screens, screens_of(information@)) {
            (Ok(s), Ok(wanted)) => screen::views(s@) == wanted && s@.len() > 0,
            (Err(e), Err(wanted)) => e == wanted,
            _ => false,
        },
{
    let lines = text::split(&text::chars_of(information), '\n');
    let ghost all = text::pieces(information@, '\n');
    assert(text::texts(lines@) == all);
    let mut section: Option<(u32, String)> = None;
    let mut screens: Vec<ScreenInfo> = Vec::new();
    let mut i: usize = 0;
    assert(screen::views(screens@) =~= Seq::empty());
    while i < lines.len()
        invariant
            i <= lines@.len(),
            all == text::pieces(information@, '\n'),
            text::texts(lines@) == all,
            scan_lines(all.take(i as int)) == Some(
                Scan {
                    section: section_view(section),
                    screens: screen::views(screens@),
                },
            ),
        decreases lines.len() - i,
    {
        let ghost then = Scan {
            section: section_view(section),
            screens: screen::views(screens@),
        };
        let line = text::trim_chars(&lines[i]);
        proof {
            assert(text::texts(lines@)[i as int] == lines@[i as int]@);
            assert(all.take(i + 1).drop_last() == all.take(i as int));
            assert(all.take(i + 1).last() == lines@[i as int]@);
            assert(scan_lines(all.take(i + 1)) == scan_line(then, lines@[i as int]@));
        }
        let current = section;
        section = None;
        if let Some(index) = read_section_start(&line) {
            section = Some((index, String::new()));
        } else if let Some((index, name)) = current {
            if let Some(value) = read_value(&line, "Name:") {
                section = Some((index, text::text_of(&value)));
            } else if let Some(value) = read_value(&line, "Geometry:") {
                match read_geometry(&value) {
                    None => {
                        proof {
                            lemma_scan_stays_spoiled(all, i + 1);
                        }
                        return Err(SupportError::BadGeometry);
                    },
                    Some((x, y, width, height)) => {
                        let found = ScreenInfo { index, name, x, y, width, height };
                        screens.push(found);
                        assert(screen::views(screens@) =~= then.screens.push(found@));
                    },
                }
            } else {
                section = Some((index, name));
            }
        }
        i += 1;
    }
    assert(all.take(all.len() as int) == all);
    if screens.len() == 0 {
        Err(SupportError::NoScreens)
    } else {
        Ok(screens)
    }
}

/// Once a line has spoiled the reading, no later line mends it.
pub proof fn lemma_scan_stays_spoiled(lines: Seq<Seq<char>>, count: int)
    requires
        0 <= count <= lines.len(),
        scan_lines(lines.take(count)) is None,
    ensures
        scan_lines(lines) is None,
    decreases lines.len() - count,
{
    if count < lines.len() {
        assert(lines.take(count + 1).drop_last() == lines.take(count));
        lemma_scan_stays_spoiled(lines, count + 1);
    } else {
        assert(lines.take(count) == lines);
    }
}

} // verus!
