//! Which badge a count stands for, and where its glyph is kept.

use vstd::prelude::*;
use vstd::string::StringExecFns;

verus! {

/// What a taskbar button shows on top of its icon.
#[derive(Clone, Copy, Debug, PartialEq, Eq, Structural)]
pub enum Badge {
    /// No overlay at all.
    NoBadge,
    /// One of the digits 1 to 9.
    NumericBadge(u8),
    /// The "9+" glyph, for every count above nine.
    OverflowBadge,
}

impl Badge {
    /// A numeric badge carries a digit from 1 to 9.
    pub open spec fn wf(self) -> bool {
        match self {
            Badge::NumericBadge(n) => 1 <= n <= 9,
            _ => true,
        }
    }
}

/// The largest count that has a glyph of its own.
pub const MAX_DIGIT: u32 = 9;

/// The count as used to pick a glyph: never more than nine.
pub open spec fn clamped(count: nat) -> nat {
    if count > 9 {
        9
    } else {
        count
    }
}

/// The badge that a count stands for.
pub open spec fn badge_of(count: nat) -> Badge {
    if count == 0 {
        Badge::NoBadge
    } else if count <= 9 {
        Badge::NumericBadge(count as u8)
    } else {
        Badge::OverflowBadge
    }
}

/// Clamps a count to at most nine.
pub fn clamp_count(count: u32) -> (c: u32)
    ensures
        c == clamped(count as nat),
{
    if count > MAX_DIGIT {
        MAX_DIGIT
    } else {
        count
    }
}

/// Chooses the badge for a count: none for zero, the digit itself up to nine,
/// and the overflow badge for anything larger.
pub fn badge_for_count(count: u32) -> (b: Badge)
    ensures
        b == badge_of(count as nat),
        b.wf(),
{
    let digit: u32 = clamp_count(count);
    if digit == 0 {
        Badge::NoBadge
    } else if count > MAX_DIGIT {
        Badge::OverflowBadge
    } else {
        Badge::NumericBadge(digit as u8)
    }
}

/// The directory that holds the badge glyphs, relative to a search base.
pub open spec fn glyph_dir() -> Seq<char> {
    "icons/badges/"@
}

/// What is put in front of a glyph's path to reach the packaged copy.
pub open spec fn packaged_prefix() -> Seq<char> {
    "resources/"@
}

/// The extension of a glyph file.
pub open spec fn glyph_ext() -> Seq<char> {
    ".ico"@
}

/// The decimal numeral of a single digit: `'0'` for 0 up to `'9'` for 9.
pub open spec fn digit_char(d: nat) -> char
    recommends
        d <= 9,
{
    (48 + d) as char
}

/// The name of a badge's glyph, without directory and extension: the decimal
/// numeral of a digit, `9+` for the overflow badge. The empty badge has none.
pub open spec fn glyph_stem(badge: Badge) -> Option<Seq<char>> {
    match badge {
        Badge::NoBadge => None,
        Badge::NumericBadge(n) => Some(seq![digit_char(n as nat)]),
        Badge::OverflowBadge => Some(seq!['9', '+']),
    }
}

/// The file name of a badge's glyph.
pub open spec fn glyph_file(badge: Badge) -> Option<Seq<char>> {
    match glyph_stem(badge) {
        None => None,
        Some(stem) => Some(stem + glyph_ext()),
    }
}

/// The glyph's path as first looked for.
pub open spec fn primary_path(file: Seq<char>) -> Seq<char> {
    glyph_dir() + file
}

/// The glyph's path in the packaged resources, looked for second.
pub open spec fn packaged_path(file: Seq<char>) -> Seq<char> {
    packaged_prefix() + primary_path(file)
}

/// The paths at which a badge's glyph is looked for, in order of preference:
/// the primary path, then the packaged one. The empty badge has no glyph and
/// so no paths.
pub open spec fn candidate_paths(badge: Badge) -> Seq<Seq<char>> {
    match glyph_file(badge) {
        None => Seq::empty(),
        Some(file) => seq![primary_path(file), packaged_path(file)],
    }
}

/// The numeral of a digit from 1 to 9 as a string, `9+` for anything else.
fn stem_text(badge: Badge) -> (text: &'static str)
    requires
        badge.wf(),
        badge != Badge::NoBadge,
    ensures
        Some(text@) == glyph_stem(badge),
{
    proof {
        reveal_strlit("1");
        reveal_strlit("2");
        reveal_strlit("3");
        reveal_strlit("4");
        reveal_strlit("5");
        reveal_strlit("6");
        reveal_strlit("7");
        reveal_strlit("8");
        reveal_strlit("9");
        reveal_strlit("9+");
    }
    let text = match badge {
        Badge::NumericBadge(1) => "1",
        Badge::NumericBadge(2) => "2",
        Badge::NumericBadge(3) => "3",
        Badge::NumericBadge(4) => "4",
        Badge::NumericBadge(5) => "5",
        Badge::NumericBadge(6) => "6",
        Badge::NumericBadge(7) => "7",
        Badge::NumericBadge(8) => "8",
        Badge::NumericBadge(9) => "9",
        _ => "9+",
    };
    assert(text@ =~= glyph_stem(badge).unwrap());
    text
}

/// The file name of the glyph for a count: `None` for zero, which shows no
/// glyph; the count's decimal numeral and `.ico` up to nine; `9+.ico` above.
pub fn glyph_file_name(count: u32) -> (name: Option<String>)
    ensures
        name is Some <==> count != 0,
        match name {
            Some(text) => Some(text@) == glyph_file(badge_of(count as nat)),
            None => glyph_file(badge_of(count as nat)) is None,
        },
        1 <= count <= 9 ==> name.unwrap()@ == seq![digit_char(count as nat)] + ".ico"@,
        count > 9 ==> name.unwrap()@ == "9+.ico"@,
{
    proof {
        reveal_strlit(".ico");
        reveal_strlit("9+.ico");
        assert(seq!['9', '+'] + ".ico"@ =~= "9+.ico"@);
    }
    let badge = badge_for_count(count);
    match badge {
        Badge::NoBadge => None,
        _ => {
            let mut text = String::from_str(stem_text(badge));
            text.append(".ico");
            Some(text)
        },
    }
}

/// The paths at which the glyph for a count is looked for, most preferred
/// first: `icons/badges/<glyph>` and then `resources/icons/badges/<glyph>`.
/// A count of zero has no glyph, and the list is empty.
pub fn glyph_paths(count: u32) -> (paths: Vec<String>)
    ensures
        paths@.len() == candidate_paths(badge_of(count as nat)).len(),
        forall|i: int|
            0 <= i < paths@.len() ==> (#[trigger] paths@[i])@ == candidate_paths(
                badge_of(count as nat),
            )[i],
        count == 0 ==> paths@.len() == 0,
        count != 0 ==> paths@.len() == 2,
        1 <= count <= 9 ==> paths@[0]@ == "icons/badges/"@ + seq![digit_char(count as nat)]
            + ".ico"@,
        count > 9 ==> paths@[0]@ == "icons/badges/9+.ico"@,
        count > 9 ==> paths@[1]@ == "resources/icons/badges/9+.ico"@,
        count != 0 ==> paths@[1]@ == "resources/"@ + paths@[0]@,
{
    proof {
        reveal_strlit("icons/badges/");
        reveal_strlit("resources/");
        reveal_strlit("9+.ico");
        reveal_strlit("icons/badges/9+.ico");
        reveal_strlit("resources/icons/badges/9+.ico");
        assert("icons/badges/"@ + "9+.ico"@ =~= "icons/badges/9+.ico"@);
        assert("resources/"@ + "icons/badges/9+.ico"@ =~= "resources/icons/badges/9+.ico"@);
    }
    let mut paths: Vec<String> = Vec::new();
    match glyph_file_name(count) {
        None => {},
        Some(file) => {
            let mut primary = String::from_str("icons/badges/");
            primary.append(file.as_str());
            let mut packaged = String::from_str("resources/");
            packaged.append(primary.as_str());
            paths.push(primary);
            paths.push(packaged);
        },
    }
    paths
}

/// Every count above nine is shown alike: the same badge, from the same
/// glyph, at the same paths, however large the count.
pub proof fn lemma_overflow_alike(m: nat, n: nat)
    requires
        m > 9,
        n > 9,
    ensures
        badge_of(m) == Badge::OverflowBadge,
        badge_of(m) == badge_of(n),
        glyph_file(badge_of(m)) == glyph_file(badge_of(n)),
        candidate_paths(badge_of(m)) == candidate_paths(badge_of(n)),
        clamped(m) == 9 && clamped(n) == 9,
{
}

/// Counts up to nine are told apart: two of them that are shown by the same
/// glyph are the same count.
pub proof fn lemma_digits_distinct(m: nat, n: nat)
    requires
        m <= 9,
        n <= 9,
        glyph_file(badge_of(m)) == glyph_file(badge_of(n)),
    ensures
        m == n,
{
    if m != n {
        if m == 0 || n == 0 {
        } else {
            let a = seq![digit_char(m)] + glyph_ext();
            let b = seq![digit_char(n)] + glyph_ext();
            assert(a[0] == digit_char(m));
            assert(b[0] == digit_char(n));
        }
    }
}

} // verus!
