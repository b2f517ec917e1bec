use vstd::prelude::*;

use crate::decimal::int_literal_val;
use crate::decimal::is_int_literal;
use crate::decimal::parse_i32;
use crate::resolution::Resolution;
use crate::text::contains_seq;
use crate::text::contains_str;
use crate::text::first_line;
use crate::text::remove_spaces;
use crate::text::split_char;
use crate::text::split_on;
use crate::text::without_spaces;

verus! {

/// The probe-report field whose extraction failed.
#[derive(Debug, Clone, Copy, PartialEq, Eq, Structural)]
pub enum ProbeField {
    ScreenResolution,
    WindowWidth,
    WindowHeight,
    WindowUpperLeftX,
    WindowUpperLeftY,
}

/// Why a run cannot proceed.
#[derive(Debug, Clone, Copy, PartialEq, Eq, Structural)]
pub enum ProbeError {
    /// An external query tool could not be run or ended abnormally.
    ToolUnavailable,
    /// A tool's report did not have the expected shape at this field.
    ParseError(ProbeField),
    /// The encoder binary failed its pre-flight check.
    EncoderUnavailable,
}

/// The `WIDTHxHEIGHT` token of a screen-query report: within the first
/// line, the second comma-delimited field is split on spaces, and its
/// third through fifth pieces are joined with every space dropped.
pub open spec fn screen_token(text: Seq<char>) -> Option<Seq<char>> {
    let cf = split_on(first_line(text), ',');
    if cf.len() < 2 {
        None
    } else {
        let sf = split_on(cf[1], ' ');
        if sf.len() < 3 {
            None
        } else {
            Some(
                sf[2] + (if sf.len() > 3 {
                    sf[3]
                } else {
                    Seq::empty()
                }) + (if sf.len() > 4 {
                    sf[4]
                } else {
                    Seq::empty()
                }),
            )
        }
    }
}

/// The screen resolution denoted by a screen-query report: its token
/// must be exactly two non-negative integers separated by one `x`.
pub open spec fn screen_resolution_of(text: Seq<char>) -> Option<Resolution> {
    match screen_token(text) {
        None => None,
        Some(tok) => {
            let parts = split_on(tok, 'x');
            if parts.len() == 2 && is_int_literal(parts[0]) && is_int_literal(parts[1]) && 0
                <= int_literal_val(parts[0]) <= i32::MAX && 0 <= int_literal_val(parts[1])
                <= i32::MAX {
                Some(
                    Resolution {
                        width: int_literal_val(parts[0]) as i32,
                        height: int_literal_val(parts[1]) as i32,
                    },
                )
            } else {
                None
            }
        },
    }
}

/// Reads the screen resolution out of a screen-query report.
/// Succeeds exactly on reports whose extracted token is
/// `WIDTHxHEIGHT` with both values non-negative 32-bit integers.
pub fn parse_screen_resolution(text: &str) -> (r: Result<Resolution, ProbeError>)
    ensures
        match screen_resolution_of(text@) {
            Some(res) => r == Ok::<Resolution, ProbeError>(res),
            None => r == Err::<Resolution, ProbeError>(
                ProbeError::ParseError(ProbeField::ScreenResolution),
            ),
        },
        r is Ok ==> r.unwrap().wf(),
{
    let parse_err = Err(ProbeError::ParseError(ProbeField::ScreenResolution));
    let lines = split_char(text, '\n');
    let cf = split_char(lines[0].as_str(), ',');
    proof {
        assert(lines.deep_view()[0] == lines@[0]@);
        assert(cf.deep_view() == split_on(first_line(text@), ','));
    }
    if cf.len() < 2 {
        return parse_err;
    }
    let sf = split_char(cf[1].as_str(), ' ');
    proof {
        assert(cf.deep_view()[1] == cf@[1]@);
    }
    if sf.len() < 3 {
        return parse_err;
    }
    let mut tok = String::new();
    tok.append(sf[2].as_str());
    if sf.len() > 3 {
        tok.append(sf[3].as_str());
    }
    if sf.len() > 4 {
        tok.append(sf[4].as_str());
    }
    proof {
        assert(sf.deep_view()[2] == sf@[2]@);
        assert(sf.deep_view().len() > 3 ==> sf.deep_view()[3] == sf@[3]@);
        assert(sf.deep_view().len() > 4 ==> sf.deep_view()[4] == sf@[4]@);
        assert(tok@ == screen_token(text@).unwrap());
    }
    let parts = split_char(tok.as_str(), 'x');
    if parts.len() != 2 {
        return parse_err;
    }
    proof {
        assert(parts.deep_view()[0] == parts@[0]@);
        assert(parts.deep_view()[1] == parts@[1]@);
    }
    let w = match parse_i32(parts[0].as_str()) {
        Some(v) => v,
        None => {
            return parse_err;
        },
    };
    let h = match parse_i32(parts[1].as_str()) {
        Some(v) => v,
        None => {
            return parse_err;
        },
    };
    if w < 0 || h < 0 {
        return parse_err;
    }
    Ok(Resolution::new(w, h))
}

/// The lines of a report that contain `label`, in order.
pub open spec fn matching_lines(ls: Seq<Seq<char>>, label: Seq<char>) -> Seq<Seq<char>>
    decreases ls.len(),
{
    if ls.len() == 0 {
        Seq::empty()
    } else if contains_seq(ls.last(), label) {
        matching_lines(ls.drop_last(), label).push(ls.last())
    } else {
        matching_lines(ls.drop_last(), label)
    }
}

/// The integer carried by the one line of `text` that contains `label`:
/// the part of that line between the first and second colon, with
/// spaces dropped, read as a signed 32-bit integer. Absent when no line
/// or more than one line carries the label, or the token is no integer.
pub open spec fn window_field_value(text: Seq<char>, label: Seq<char>) -> Option<int> {
    let m = matching_lines(split_on(text, '\n'), label);
    if m.len() != 1 {
        None
    } else {
        let fs = split_on(m[0], ':');
        if fs.len() < 2 {
            None
        } else {
            let tok = without_spaces(fs[1]);
            if is_int_literal(tok) && i32::MIN <= int_literal_val(tok) <= i32::MAX {
                Some(int_literal_val(tok))
            } else {
                None
            }
        }
    }
}

/// Collects the lines that contain `label`, in order.
fn find_matching_lines(lines: &Vec<String>, label: &str) -> (r: Vec<String>)
    ensures
        r.deep_view() == matching_lines(lines.deep_view(), label@),
{
    let mut r: Vec<String> = Vec::new();
    let mut i: usize = 0;
    proof {
        assert(lines.deep_view().take(0) =~= Seq::<Seq<char>>::empty());
        assert(r.deep_view() =~= matching_lines(lines.deep_view().take(0), label@));
    }
    while i < lines.len()
        invariant
            i <= lines.len(),
            r.deep_view() == matching_lines(lines.deep_view().take(i as int), label@),
        decreases lines.len() - i,
    {
        let ghost old_dv = r.deep_view();
        proof {
            assert(lines.deep_view().take(i + 1).drop_last() =~= lines.deep_view().take(i as int));
            assert(lines.deep_view().take(i + 1).last() == lines.deep_view()[i as int]);
        }
        if contains_str(lines[i].as_str(), label) {
            r.push(lines[i].clone());
            proof {
                assert(r.deep_view() =~= old_dv.push(lines.deep_view()[i as int]));
            }
        }
        i += 1;
    }
    proof {
        assert(lines.deep_view().take(lines@.len() as int) =~= lines.deep_view());
    }
    r
}

/// The diagnostic for a failed encoder pre-flight check; it names the
/// binary that could not be run.
pub fn encoder_unavailable_message(path: &str) -> (r: String)
    ensures
        r@ == "Cannot execute \""@ + path@ + "\"."@,
{
    let mut s = String::from_str("Cannot execute \"");
    s.append(path);
    s.append("\".");
    proof {
        assert(s@ =~= "Cannot execute \""@ + path@ + "\"."@);
    }
    s
}

/// Reads one labeled integer field out of a window-query report.
/// Succeeds exactly when one line carries the label and its token after
/// the first colon, spaces dropped, is a 32-bit integer.
pub fn window_field(text: &str, label: &str) -> (r: Option<i32>)
    ensures
        match window_field_value(text@, label@) {
            Some(v) => r == Some(v as i32),
            None => r is None,
        },
{
    let lines = split_char(text, '\n');
    let m = find_matching_lines(&lines, label);
    if m.len() != 1 {
        return None;
    }
    let fs = split_char(m[0].as_str(), ':');
    proof {
        assert(m.deep_view()[0] == m@[0]@);
    }
    if fs.len() < 2 {
        return None;
    }
    let tok = remove_spaces(fs[1].as_str());
    proof {
        assert(fs.deep_view()[1] == fs@[1]@);
    }
    parse_i32(tok.as_str())
}

} // verus!
