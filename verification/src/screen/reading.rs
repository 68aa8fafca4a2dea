//! What is read from the window manager's support information.

use crate::screen::support;
use crate::screen::support::{Scan, Section, SupportError};
use crate::screen::ScreenView;
use crate::text;
use crate::text::laws::signed;
use vstd::prelude::*;

verus! {

proof fn lemma_signed_holds_no(n: int, c: char)
    requires
        c == ',' || c == 'x',
    ensures
        forall|i: int| 0 <= i < signed(n).len() ==> #[trigger] signed(n)[i] != c,
{
    let size = if n < 0 {
        (-n) as nat
    } else {
        n as nat
    };
    text::lemma_decimal_reads_back(size);
    assert forall|i: int| 0 <= i < signed(n).len() implies #[trigger] signed(n)[i] != c by {
        if n < 0 {
            if i > 0 {
                assert(text::digit(text::decimal(size)[i - 1]));
            }
        } else {
            assert(text::digit(text::decimal(size)[i]));
        }
    }
}

/// A geometry as it is written.
pub open spec fn written_geometry(x: int, y: int, width: int, height: int) -> Seq<char> {
    signed(x) + seq![','] + (signed(y) + seq![','] + (signed(width) + seq!['x'] + signed(height)))
}

proof fn lemma_cut_in_two(a: Seq<char>, b: Seq<char>, sep: char)
    requires
        forall|i: int| 0 <= i < a.len() ==> #[trigger] a[i] != sep,
        forall|i: int| 0 <= i < b.len() ==> #[trigger] b[i] != sep,
    ensures
        text::pieces(a + seq![sep] + b, sep) == seq![a, b],
{
    text::laws::law_text_is_cut_at_each_separator(a, b, sep);
    text::laws::law_text_is_cut_at_each_separator(b, b, sep);
    assert(seq![a] + seq![b] =~= seq![a, b]);
}

proof fn lemma_cut_in_three(a: Seq<char>, b: Seq<char>, c: Seq<char>, sep: char)
    requires
        forall|i: int| 0 <= i < a.len() ==> #[trigger] a[i] != sep,
        forall|i: int| 0 <= i < b.len() ==> #[trigger] b[i] != sep,
        forall|i: int| 0 <= i < c.len() ==> #[trigger] c[i] != sep,
    ensures
        text::pieces(a + seq![sep] + (b + seq![sep] + c), sep) == seq![a, b, c],
{
    text::laws::law_text_is_cut_at_each_separator(a, b + seq![sep] + c, sep);
    lemma_cut_in_two(b, c, sep);
    assert(seq![a] + seq![b, c] =~= seq![a, b, c]);
}

proof fn lemma_size_holds_no_comma(width: int, height: int)
    ensures
        forall|i: int|
            0 <= i < (signed(width) + seq!['x'] + signed(height)).len() ==> #[trigger] (signed(width)
                + seq!['x'] + signed(height))[i] != ',',
{
    let size = signed(width) + seq!['x'] + signed(height);
    lemma_signed_holds_no(width, ',');
    lemma_signed_holds_no(height, ',');
    assert forall|i: int| 0 <= i < size.len() implies #[trigger] size[i] != ',' by {
        if i < signed(width).len() {
            assert(size[i] == signed(width)[i]);
        } else if i > signed(width).len() {
            assert(size[i] == signed(height)[i - signed(width).len() - 1]);
        }
    }
}

/// A geometry that is written as usual is read as its four numbers, each in its place.
pub proof fn law_geometry_is_read_back(x: i32, y: i32, width: i32, height: i32)
    ensures
        support::geometry_of(
            written_geometry(x as int, y as int, width as int, height as int),
        ) == Some((x, y, width, height)),
{
    let a = signed(x as int);
    let b = signed(y as int);
    let c = signed(width as int);
    let d = signed(height as int);
    let size = c + seq!['x'] + d;
    let whole = written_geometry(x as int, y as int, width as int, height as int);
    assert(text::pieces(whole, ',') == seq![a, b, size]) by {
        lemma_signed_holds_no(x as int, ',');
        lemma_signed_holds_no(y as int, ',');
        lemma_size_holds_no_comma(width as int, height as int);
        lemma_cut_in_three(a, b, size, ',');
    }
    assert(text::pieces(size, 'x') == seq![c, d]) by {
        lemma_signed_holds_no(width as int, 'x');
        lemma_signed_holds_no(height as int, 'x');
        lemma_cut_in_two(c, d, 'x');
    }
    assert(text::written_i32(a) == Some(x)) by {
        text::laws::law_numbers_are_read_back(x as int);
    }
    assert(text::written_i32(b) == Some(y)) by {
        text::laws::law_numbers_are_read_back(y as int);
    }
    assert(text::written_i32(c) == Some(width)) by {
        text::laws::law_numbers_are_read_back(width as int);
    }
    assert(text::written_i32(d) == Some(height)) by {
        text::laws::law_numbers_are_read_back(height as int);
    }
}

/// Some texts, joined by a separator.
pub open spec fn joined(parts: Seq<Seq<char>>, sep: char) -> Seq<char>
    decreases parts.len(),
{
    if parts.len() == 0 {
        Seq::empty()
    } else if parts.len() == 1 {
        parts[0]
    } else {
        joined(parts.drop_last(), sep) + seq![sep] + parts.last()
    }
}

/// The pieces of a text, joined again, are the text, and no piece holds the separator.
pub proof fn law_pieces_make_the_text(s: Seq<char>, sep: char)
    ensures
        text::pieces(s, sep).len() > 0,
        joined(text::pieces(s, sep), sep) == s,
        forall|i: int, j: int|
            0 <= i < text::pieces(s, sep).len() && 0 <= j < text::pieces(s, sep)[i].len()
                ==> #[trigger] text::pieces(s, sep)[i][j] != sep,
    decreases s.len(),
{
    reveal_with_fuel(joined, 2);
    let all = text::pieces(s, sep);
    if s.len() == 0 {
        assert(joined(all, sep) =~= s);
    } else {
        let before = text::pieces(s.drop_last(), sep);
        law_pieces_make_the_text(s.drop_last(), sep);
        if s.last() == sep {
            assert(all.drop_last() =~= before);
            assert(joined(all, sep) =~= s);
            assert forall|i: int, j: int|
                0 <= i < all.len() && 0 <= j < all[i].len() implies #[trigger] all[i][j] != sep by {
                if i < before.len() {
                    assert(all[i] == before[i]);
                    assert(before[i][j] != sep);
                }
            }
        } else {
            assert(all.drop_last() =~= before.drop_last());
            assert(all.len() == before.len());
            assert(s =~= s.drop_last() + seq![s.last()]);
            if all.len() == 1 {
                assert(all[0] =~= before[0] + seq![s.last()]);
            } else {
                let head = joined(before.drop_last(), sep) + seq![sep];
                assert(joined(before, sep) == head + before.last());
                assert(joined(all, sep) == head + all.last());
                assert(head + all.last() =~= head + before.last() + seq![s.last()]);
            }
            assert(joined(all, sep) == s);
            assert forall|i: int, j: int|
                0 <= i < all.len() && 0 <= j < all[i].len() implies #[trigger] all[i][j] != sep by {
                if i < before.len() - 1 {
                    assert(all[i] == before[i]);
                    assert(before[i][j] != sep);
                } else if j < before.last().len() {
                    assert(all[i][j] == before[i][j]);
                }
            }
        }
    }
}

/// Nothing is read as a geometry but two numbers with commas behind them and two more with a cross
/// between them.
pub proof fn law_geometry_is_four_numbers(s: Seq<char>, a: i32, b: i32, c: i32, d: i32)
    requires
        support::geometry_of(s) == Some((a, b, c, d)),
    ensures
        exists|x: Seq<char>, y: Seq<char>, width: Seq<char>, height: Seq<char>|
            s == #[trigger] (x + seq![','] + y + seq![','] + (width + seq!['x'] + height))
                && text::written_i32(x) == Some(a) && text::written_i32(y) == Some(b)
                && text::written_i32(width) == Some(c) && text::written_i32(height) == Some(d),
{
    let parts = text::pieces(s, ',');
    let size = text::pieces(parts[2], 'x');
    law_pieces_make_the_text(s, ',');
    law_pieces_make_the_text(parts[2], 'x');
    assert(parts =~= seq![parts[0], parts[1], parts[2]]);
    reveal_with_fuel(joined, 4);
    assert(parts.drop_last() =~= seq![parts[0], parts[1]]);
    assert(parts.drop_last().drop_last() =~= seq![parts[0]]);
    assert(joined(parts, ',') =~= parts[0] + seq![','] + parts[1] + seq![','] + parts[2]);
    assert(size.drop_last() =~= seq![size[0]]);
    assert(joined(size, 'x') =~= size[0] + seq!['x'] + size[1]);
    assert(s == parts[0] + seq![','] + parts[1] + seq![','] + (size[0] + seq!['x'] + size[1]));
}

/// A line with a screen's number begins its section, and what was begun before is given up. A name
/// in a section is the screen's, and a geometry completes the screen, behind those that are complete
/// already. Where a geometry cannot be read, nothing can.
pub proof fn law_section_describes_a_screen(
    scan: Scan,
    raw: Seq<char>,
    number: u32,
    rest: Seq<char>,
)
    requires
        number <= i32::MAX,
    ensures
        text::trimmed(raw) == "Screen "@ + text::decimal(number as nat) + ":"@
            ==> support::scan_line(scan, raw) == Some(
            Scan {
                section: Some(Section { index: number, name: Seq::empty() }),
                screens: scan.screens,
            },
        ),
        text::trimmed(raw) == "Name:"@ + rest ==> support::scan_line(scan, raw) == Some(
            match scan.section {
                Some(section) => Scan {
                    section: Some(Section { index: section.index, name: text::trimmed(rest) }),
                    screens: scan.screens,
                },
                None => scan,
            },
        ),
        text::trimmed(raw) == "Geometry:"@ + rest ==> support::scan_line(scan, raw)
            == match scan.section {
            Some(section) => match support::geometry_of(text::trimmed(rest)) {
                Some((x, y, width, height)) => Some(
                    Scan {
                        section: None,
                        screens: scan.screens.push(
                            ScreenView {
                                index: section.index,
                                name: section.name,
                                x,
                                y,
                                width,
                                height,
                            },
                        ),
                    },
                ),
                None => None,
            },
            None => Some(scan),
        },
{
    reveal_strlit("Screen ");
    reveal_strlit(":");
    reveal_strlit("Name:");
    reveal_strlit("Geometry:");
    let line = text::trimmed(raw);
    let digits = text::decimal(number as nat);
    if line == "Screen "@ + digits + ":"@ {
        let behind = line.skip("Screen "@.len() as int);
        assert(line.take("Screen "@.len() as int) =~= "Screen "@);
        assert(behind =~= digits + ":"@);
        assert(behind.skip(behind.len() - 1) =~= ":"@);
        assert(behind.take(behind.len() - 1) =~= digits);
        text::laws::law_numbers_are_read_back(number as int);
    }
    if line == "Name:"@ + rest {
        assert(line[0] == 'N');
        assert(line.take("Name:"@.len() as int) =~= "Name:"@);
        assert(line.skip("Name:"@.len() as int) =~= rest);
        assert(!text::starts_with(line, "Screen "@)) by {
            if text::starts_with(line, "Screen "@) {
                assert(line.take("Screen "@.len() as int)[0] == 'S');
            }
        }
    }
    if line == "Geometry:"@ + rest {
        assert(line[0] == 'G');
        assert(line.take("Geometry:"@.len() as int) =~= "Geometry:"@);
        assert(line.skip("Geometry:"@.len() as int) =~= rest);
        assert(!text::starts_with(line, "Screen "@)) by {
            if text::starts_with(line, "Screen "@) {
                assert(line.take("Screen "@.len() as int)[0] == 'S');
            }
        }
        assert(!text::starts_with(line, "Name:"@)) by {
            if text::starts_with(line, "Name:"@) {
                assert(line.take("Name:"@.len() as int)[0] == 'N');
            }
        }
    }
}

/// Nothing begins a section but a line with a number that is not negative between its words.
pub proof fn law_section_has_a_number(line: Seq<char>, number: u32)
    ensures
        support::section_start(line) == Some(number) ==> exists|written: Seq<char>|
            line == #[trigger] ("Screen "@ + written + ":"@) && text::written_i32(written) == Some(
                number as i32,
            ) && number <= i32::MAX,
{
    if support::section_start(line) == Some(number) {
        let behind = line.skip("Screen "@.len() as int);
        let written = behind.take(behind.len() - ":"@.len());
        assert(behind =~= written + ":"@);
        assert(line =~= line.take("Screen "@.len() as int) + behind);
        assert(line =~= "Screen "@ + written + ":"@);
    }
}

/// A line that neither begins a section nor gives a name or a geometry says nothing, and nothing is
/// said before the first section.
pub proof fn law_other_lines_say_nothing(scan: Scan, raw: Seq<char>)
    requires
        !text::starts_with(text::trimmed(raw), "Screen "@),
        scan.section is None || (!text::starts_with(text::trimmed(raw), "Name:"@)
            && !text::starts_with(text::trimmed(raw), "Geometry:"@)),
    ensures
        support::scan_line(scan, raw) == Some(scan),
{
}

/// The lines are read one after the other, from the first to the last. What they describe are the
/// screens that are complete at the end, of which there has to be one.
pub proof fn law_lines_are_read_in_order(lines: Seq<Seq<char>>, next: Seq<char>, text_read: Seq<char>)
    ensures
        support::scan_lines(Seq::empty()) == Some(
            Scan { section: None, screens: Seq::empty() },
        ),
        support::scan_lines(lines.push(next)) == match support::scan_lines(lines) {
            Some(scan) => support::scan_line(scan, next),
            None => None,
        },
        text::pieces(text_read, '\n') == lines ==> match support::scan_lines(lines) {
            None => support::screens_of(text_read) == Err::<Seq<ScreenView>, SupportError>(
                SupportError::BadGeometry,
            ),
            Some(scan) => support::screens_of(text_read) == if scan.screens.len() == 0 {
                Err::<Seq<ScreenView>, SupportError>(SupportError::NoScreens)
            } else {
                Ok(scan.screens)
            },
        },
{
    assert(lines.push(next).drop_last() =~= lines);
}

} // verus!
