//! Decimal rendering of integers and small string helpers used by the text builders.
use vstd::prelude::*;

verus! {

/// The character of decimal digit `d` (`d < 10`).
pub open spec fn digit_char(d: nat) -> char {
    (48 + d) as char
}

/// The decimal representation of `n`, most significant digit first, without leading zeros.
pub open spec fn dec(n: nat) -> Seq<char>
    decreases n,
{
    if n < 10 {
        seq![digit_char(n)]
    } else {
        dec(n / 10).push(digit_char(n % 10))
    }
}

/// A string literal holding the single digit `d`.
fn digit_str(d: u64) -> (s: &'static str)
    requires
        d < 10,
    ensures
        s@ == seq![digit_char(d as nat)],
{
    proof {
        reveal_strlit("0");
        reveal_strlit("1");
        reveal_strlit("2");
        reveal_strlit("3");
        reveal_strlit("4");
        reveal_strlit("5");
        reveal_strlit("6");
        reveal_strlit("7");
        reveal_strlit("8");
        reveal_strlit("9");
    }
    match d {
        0 => "0",
        1 => "1",
        2 => "2",
        3 => "3",
        4 => "4",
        5 => "5",
        6 => "6",
        7 => "7",
        8 => "8",
        _ => "9",
    }
}

/// Appends the decimal representation of `n` to `out`.
pub fn push_u64(out: &mut String, n: u64)
    ensures
        final(out)@ == old(out)@ + dec(n as nat),
    decreases n,
{
    if n < 10 {
        out.append(digit_str(n));
    } else {
        push_u64(out, n / 10);
        out.append(digit_str(n % 10));
        proof {
            assert(dec(n as nat) == dec((n / 10) as nat).push(digit_char((n % 10) as nat)));
        }
    }
}

/// The decimal representation of `n`.
pub fn u64_to_string(n: u64) -> (s: String)
    ensures
        s@ == dec(n as nat),
{
    let mut s = String::new();
    push_u64(&mut s, n);
    s
}

/// Appends `piece` to `out`.
pub fn push_str(out: &mut String, piece: &str)
    ensures
        final(out)@ == old(out)@ + piece@,
{
    out.append(piece);
}

/// A fresh `String` holding `s`.
pub fn string_of(s: &str) -> (r: String)
    ensures
        r@ == s@,
{
    String::from_str(s)
}

/// `n` spaces.
pub open spec fn spaces(n: nat) -> Seq<char> {
    Seq::new(n, |i: int| ' ')
}

/// `s` right-aligned in a field of `width` characters: spaces are put in front
/// of a shorter text, a longer one is kept whole.
pub open spec fn pad_left(s: Seq<char>, width: nat) -> Seq<char> {
    if s.len() < width {
        spaces((width - s.len()) as nat) + s
    } else {
        s
    }
}

/// `s` left-aligned in a field of `width` characters: spaces are put after a
/// shorter text, a longer one is kept whole.
pub open spec fn pad_right(s: Seq<char>, width: nat) -> Seq<char> {
    if s.len() < width {
        s + spaces((width - s.len()) as nat)
    } else {
        s
    }
}

/// Appends `n` spaces to `out`.
pub fn push_spaces(out: &mut String, n: usize)
    ensures
        final(out)@ == old(out)@ + spaces(n as nat),
{
    let ghost start = out@;
    let mut k: usize = 0;
    while k < n
        invariant
            k <= n,
            out@ == start + spaces(k as nat),
        decreases n - k,
    {
        out.append(" ");
        proof {
            reveal_strlit(" ");
            assert(spaces((k + 1) as nat) =~= spaces(k as nat) + " "@);
        }
        k = k + 1;
    }
}

/// Appends `piece` right-aligned in a field of `width` characters.
pub fn push_right(out: &mut String, piece: &str, width: usize)
    ensures
        final(out)@ == old(out)@ + pad_left(piece@, width as nat),
{
    let len = piece.unicode_len();
    if len < width {
        push_spaces(out, width - len);
    }
    out.append(piece);
    proof {
        assert(old(out)@ + pad_left(piece@, width as nat) =~= if len < width {
            old(out)@ + spaces((width - len) as nat) + piece@
        } else {
            old(out)@ + piece@
        });
    }
}

/// Appends `piece` left-aligned in a field of `width` characters.
pub fn push_left(out: &mut String, piece: &str, width: usize)
    ensures
        final(out)@ == old(out)@ + pad_right(piece@, width as nat),
{
    let len = piece.unicode_len();
    out.append(piece);
    if len < width {
        push_spaces(out, width - len);
    }
    proof {
        assert(old(out)@ + pad_right(piece@, width as nat) =~= if len < width {
            old(out)@ + piece@ + spaces((width - len) as nat)
        } else {
            old(out)@ + piece@
        });
    }
}

/// Appends the decimal representation of `n` right-aligned in a field of `width` characters.
pub fn push_u64_right(out: &mut String, n: u64, width: usize)
    ensures
        final(out)@ == old(out)@ + pad_left(dec(n as nat), width as nat),
{
    let s = u64_to_string(n);
    push_right(out, s.as_str(), width);
}

/// The pieces of `parts` joined with `sep` between consecutive pieces.
pub open spec fn join(parts: Seq<Seq<char>>, sep: Seq<char>) -> Seq<char>
    decreases parts.len(),
{
    if parts.len() == 0 {
        Seq::empty()
    } else if parts.len() == 1 {
        parts[0]
    } else {
        join(parts.drop_last(), sep) + sep + parts.last()
    }
}

/// The views of a vector of strings.
pub open spec fn views(v: Seq<String>) -> Seq<Seq<char>> {
    v.map_values(|s: String| s@)
}

/// Joins `parts` with `sep` between consecutive pieces.
pub fn join_strings(parts: &Vec<String>, sep: &str) -> (r: String)
    ensures
        r@ == join(views(parts@), sep@),
{
    let mut r = String::new();
    let ghost all = views(parts@);
    let mut i: usize = 0;
    while i < parts.len()
        invariant
            i <= parts.len(),
            all == views(parts@),
            r@ == join(all.take(i as int), sep@),
        decreases parts.len() - i,
    {
        proof {
            assert(all.take(i + 1).drop_last() =~= all.take(i as int));
        }
        if i > 0 {
            r.append(sep);
        }
        r.append(parts[i].as_str());
        i = i + 1;
    }
    proof {
        assert(all.take(parts.len() as int) =~= all);
    }
    r
}

/// Calls `String::push`, which appends `c` to `s`.
#[verifier::external_body]
pub(crate) fn string_push(s: &mut String, c: char)
    ensures
        final(s)@ == old(s)@.push(c),
{
    s.push(c);
}

/// Calls `String::pop`, which removes and returns the last character of `s`,
/// or returns `None` and leaves `s` alone when it is empty.
#[verifier::external_body]
pub(crate) fn string_pop(s: &mut String) -> (r: Option<char>)
    ensures
        old(s)@.len() == 0 ==> r is None && final(s)@ == old(s)@,
        old(s)@.len() > 0 ==> r == Some(old(s)@.last()) && final(s)@ == old(s)@.drop_last(),
{
    s.pop()
}

/// The characters of `s`.
pub fn chars_of(s: &str) -> (r: Vec<char>)
    ensures
        r@ == s@,
{
    let n = s.unicode_len();
    let mut r: Vec<char> = Vec::new();
    let mut i: usize = 0;
    while i < n
        invariant
            n == s@.len(),
            i <= n,
            r@ == s@.take(i as int),
        decreases n - i,
    {
        let c = s.get_char(i);
        r.push(c);
        proof {
            assert(s@.take(i + 1) =~= s@.take(i as int).push(c));
        }
        i = i + 1;
    }
    proof {
        assert(s@.take(n as int) =~= s@);
    }
    r
}

/// Unicode lower-case mapping of a string, as `str::to_lowercase` computes it.
pub uninterp spec fn lowercase(s: Seq<char>) -> Seq<char>;

/// Calls `str::to_lowercase`; its result is the lower-case mapping of `s`,
/// named [`lowercase`] here and otherwise left unstated.
#[verifier::external_body]
pub fn to_lowercase(s: &str) -> (r: String)
    ensures
        r@ == lowercase(s@),
{
    s.to_lowercase()
}

/// Whether `needle` occurs as a contiguous piece of `hay`.
pub open spec fn contains_seq(hay: Seq<char>, needle: Seq<char>) -> bool {
    exists|i: int|
        0 <= i && i + needle.len() <= hay.len() && #[trigger] hay.subrange(i, i + needle.len())
            == needle
}

/// Whether `needle` occurs in `hay`.
pub fn chars_contain(hay: &Vec<char>, needle: &Vec<char>) -> (r: bool)
    ensures
        r == contains_seq(hay@, needle@),
{
    let h = hay.len();
    let n = needle.len();
    if n > h {
        return false;
    }
    let mut i: usize = 0;
    while i <= h - n
        invariant
            n <= h,
            h == hay@.len(),
            n == needle@.len(),
            forall|k: int| 0 <= k < i ==> #[trigger] hay@.subrange(k, k + n) != needle@,
        decreases h - n + 1 - i,
    {
        let mut j: usize = 0;
        while j < n
            invariant
                n <= h,
                h == hay@.len(),
                n == needle@.len(),
                i <= h - n,
                j <= n,
                forall|t: int| 0 <= t < j ==> hay@[i + t] == needle@[t],
            ensures
                j <= n,
                j < n ==> hay@[i + j] != needle@[j as int],
            decreases n - j,
        {
            if hay[i + j] != needle[j] {
                break;
            }
            j = j + 1;
        }
        if j == n {
            proof {
                assert(hay@.subrange(i as int, i + n) =~= needle@);
            }
            return true;
        }
        proof {
            if hay@.subrange(i as int, i + n) == needle@ {
                assert(hay@.subrange(i as int, i + n)[j as int] == hay@[i + j]);
            }
        }
        i = i + 1;
    }
    proof {
        assert forall|k: int| 0 <= k && k + n <= h implies #[trigger] hay@.subrange(k, k + n) != needle@ by {
            assert(k < i);
        }
    }
    false
}

/// How a line of panel text is drawn.
#[derive(Debug, Clone, Copy, PartialEq, Eq, Structural)]
pub enum LineTone {
    /// Default style.
    Plain,
    /// The cursor row.
    Highlight,
    /// An entry that needs attention (critical, vetoed, failed, offline).
    Alert,
    /// A warning.
    Warning,
    /// A milder warning.
    Caution,
    /// A healthy or agreed state.
    Good,
    /// Neutral information set apart from the rest.
    Info,
    /// A second kind of information, set apart from [`LineTone::Info`].
    Accent,
    /// Text to be noticed first.
    Emphasis,
    /// A hint that asks for an action.
    Notice,
    /// Secondary text.
    Muted,
}

/// A line of panel text and how it is drawn.
#[derive(Debug, Clone, PartialEq)]
pub struct ToneLine {
    pub text: String,
    pub tone: LineTone,
}

/// The text and tone of each line.
pub open spec fn tone_views(v: Seq<ToneLine>) -> Seq<(Seq<char>, LineTone)> {
    v.map_values(|l: ToneLine| (l.text@, l.tone))
}

/// Appends a line with the given text and tone.
pub fn push_line(lines: &mut Vec<ToneLine>, text: String, tone: LineTone)
    ensures
        tone_views(final(lines)@) == tone_views(old(lines)@).push((text@, tone)),
{
    let ghost before = lines@;
    let ghost v = text@;
    lines.push(ToneLine { text, tone });
    proof {
        assert(tone_views(lines@) =~= tone_views(before).push((v, tone)));
    }
}

/// A copy of the lines.
pub fn clone_lines(v: &Vec<ToneLine>) -> (r: Vec<ToneLine>)
    ensures
        tone_views(r@) == tone_views(v@),
{
    let mut r: Vec<ToneLine> = Vec::new();
    let mut i: usize = 0;
    while i < v.len()
        invariant
            i <= v@.len(),
            tone_views(r@) == tone_views(v@).take(i as int),
        decreases v@.len() - i,
    {
        proof {
            assert(tone_views(v@).take(i + 1) =~= tone_views(v@).take(i as int).push((v@[i as int].text@, v@[i as int].tone)));
        }
        push_line(&mut r, v[i].text.clone(), v[i].tone);
        i = i + 1;
    }
    proof {
        assert(tone_views(v@).take(v@.len() as int) =~= tone_views(v@));
    }
    r
}

} // verus!
