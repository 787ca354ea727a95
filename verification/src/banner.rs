//! What the command prints around its work: the banner and the box that
//! frames the URL.

use vstd::prelude::*;
use vstd::utf8::encode_utf8;
use crate::text::{append, from_chars, lines_of, push_line, to_chars};

verus! {

/// The width that the version is padded to in the banner.
pub const VERSION_WIDTH: usize = 32;

/// `n` times the character `c`.
pub open spec fn repeated(c: char, n: nat) -> Seq<char> {
    Seq::new(n, |i: int| c)
}

/// `s` followed by as many spaces as it takes to reach `width` characters;
/// `s` itself where it is that long already.
pub open spec fn pad_right(s: Seq<char>, width: nat) -> Seq<char> {
    if s.len() < width {
        s + repeated(' ', (width - s.len()) as nat)
    } else {
        s
    }
}

/// The lines of the banner for the given version: an empty line, then a box
/// of six lines with the name, the version and the tagline.
pub open spec fn banner_text(version: Seq<char>) -> Seq<Seq<char>> {
    seq![
        Seq::<char>::empty(),
        "  ╭─────────────────────────────────────────╮"@,
        "  │                                         │"@,
        "  │   tbl v"@ + pad_right(version, VERSION_WIDTH as nat) + " │"@,
        "  │   Tiny self-bootstrapping web launcher  │"@,
        "  │                                         │"@,
        "  ╰─────────────────────────────────────────╯"@,
    ]
}

/// The width of the frame round `url`: the bytes of the URL in UTF-8, and
/// four more on each side.
pub open spec fn box_width(url: Seq<char>) -> nat {
    encode_utf8(url).len() + 8
}

/// The three lines of the box round `url`.
pub open spec fn url_box_text(url: Seq<char>) -> Seq<Seq<char>> {
    seq![
        "  ╭"@ + repeated('─', box_width(url)) + "╮"@,
        "  │    "@ + url + "    │"@,
        "  ╰"@ + repeated('─', box_width(url)) + "╯"@,
    ]
}

/// Appends `n` times the character `c`.
fn push_repeated(out: &mut Vec<char>, c: char, n: usize)
    ensures
        final(out)@ == old(out)@ + repeated(c, n as nat),
{
    let mut i: usize = 0;
    while i < n
        invariant
            i <= n,
            out@ == old(out)@ + repeated(c, i as nat),
        decreases n - i,
    {
        out.push(c);
        i += 1;
        assert(out@ =~= old(out)@ + repeated(c, i as nat));
    }
}

/// Pads `s` with spaces on the right to `width` characters.
pub fn pad(s: &str, width: usize) -> (padded: Vec<char>)
    ensures
        padded@ == pad_right(s@, width as nat),
{
    let mut out = to_chars(s);
    if out.len() < width {
        let missing = width - out.len();
        push_repeated(&mut out, ' ', missing);
    }
    out
}

/// The lines of the banner.
pub fn banner_lines(version: &str) -> (lines: Vec<String>)
    ensures
        lines_of(lines@) == banner_text(version@),
{
    let mut lines: Vec<String> = Vec::new();
    assert(lines_of(lines@) =~= Seq::<Seq<char>>::empty());
    push_line(&mut lines, "");
    proof {
        reveal_strlit("");
        assert(""@ =~= Seq::<char>::empty());
    }
    push_line(&mut lines, "  ╭─────────────────────────────────────────╮");
    push_line(&mut lines, "  │                                         │");
    let mut row = to_chars("  │   tbl v");
    append(&mut row, &pad(version, VERSION_WIDTH));
    append(&mut row, &to_chars(" │"));
    push_line(&mut lines, from_chars(&row).as_str());
    push_line(&mut lines, "  │   Tiny self-bootstrapping web launcher  │");
    push_line(&mut lines, "  │                                         │");
    push_line(&mut lines, "  ╰─────────────────────────────────────────╯");
    assert(lines_of(lines@) =~= banner_text(version@));
    lines
}

/// One line of the frame: `left`, the rule, `right`.
fn frame_line(left: &str, rule: usize, right: &str) -> (line: String)
    requires
        rule + 8 <= usize::MAX,
    ensures
        line@ == left@ + repeated('─', (rule + 8) as nat) + right@,
{
    let mut out = to_chars(left);
    push_repeated(&mut out, '─', rule + 8);
    append(&mut out, &to_chars(right));
    from_chars(&out)
}

/// The lines of the box round `url`; `None` for a URL so long that the
/// frame's width is no machine number.
pub fn url_box_lines(url: &str) -> (lines: Option<Vec<String>>)
    ensures
        lines is Some <==> box_width(url@) <= usize::MAX,
        lines matches Some(l) ==> lines_of(l@) == url_box_text(url@),
{
    let width = url.as_bytes().len();
    assert(width == encode_utf8(url@).len());
    if width > usize::MAX - 8 {
        return None;
    }
    let mut lines: Vec<String> = Vec::new();
    assert(lines_of(lines@) =~= Seq::<Seq<char>>::empty());
    push_line(&mut lines, frame_line("  ╭", width, "╮").as_str());
    let mut row = to_chars("  │    ");
    append(&mut row, &to_chars(url));
    append(&mut row, &to_chars("    │"));
    push_line(&mut lines, from_chars(&row).as_str());
    push_line(&mut lines, frame_line("  ╰", width, "╯").as_str());
    assert(lines_of(lines@) =~= url_box_text(url@));
    Some(lines)
}

} // verus!
