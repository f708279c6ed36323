//! Text helpers: lossy decoding of process output, prefix tests, first
//! lines and whitespace trimming.

use vstd::prelude::*;

verus! {

/// The text that lossy UTF-8 decoding gives for a byte sequence.
pub uninterp spec fn lossy_text(b: Seq<u8>) -> Seq<char>;

/// Relies on `String::from_utf8_lossy`: the decoded text depends on the
/// bytes alone, and no bytes decode to no text.
#[verifier::external_body]
pub(crate) fn decode_lossy(b: &Vec<u8>) -> (r: String)
    ensures
        r@ == lossy_text(b@),
        b@.len() == 0 ==> r@.len() == 0,
{
    String::from_utf8_lossy(b).into_owned()
}

/// The characters of a string, in order.
pub fn chars_of(s: &str) -> (r: Vec<char>)
    ensures
        r@ == s@,
{
    let mut r: Vec<char> = Vec::new();
    for c in it: s.chars()
        invariant
            r@ == it.seq().take(it.index() as int),
    {
        r.push(c);
    }
    r
}

/// Whether `c` has the Unicode `White_Space` property, the set that
/// `char::is_whitespace` and `str::trim` go by.
pub open spec fn is_white(c: char) -> bool {
    let u = c as u32;
    ||| 0x09 <= u <= 0x0D
    ||| u == 0x20
    ||| u == 0x85
    ||| u == 0xA0
    ||| u == 0x1680
    ||| 0x2000 <= u <= 0x200A
    ||| u == 0x2028
    ||| u == 0x2029
    ||| u == 0x202F
    ||| u == 0x205F
    ||| u == 0x3000
}

/// Index of the first line break at or after `i`, or the length of `s`.
pub open spec fn line_break_from(s: Seq<char>, i: int) -> int
    decreases s.len() - i,
{
    if 0 <= i < s.len() && s[i] != '\n' {
        line_break_from(s, i + 1)
    } else {
        i
    }
}

/// The text before the first line break.
pub open spec fn first_line(s: Seq<char>) -> Seq<char> {
    s.take(line_break_from(s, 0))
}

/// Index of the first character at or after `i` that is not whitespace,
/// or the length of `s`.
pub open spec fn skip_white_from(s: Seq<char>, i: int) -> int
    decreases s.len() - i,
{
    if 0 <= i < s.len() && is_white(s[i]) {
        skip_white_from(s, i + 1)
    } else {
        i
    }
}

/// Index just past the last character before `j`, and not before `lo`,
/// that is not whitespace; `lo` where there is none.
pub open spec fn skip_white_back(s: Seq<char>, lo: int, j: int) -> int
    decreases j - lo,
{
    if lo < j <= s.len() && is_white(s[j - 1]) {
        skip_white_back(s, lo, j - 1)
    } else {
        j
    }
}

/// `s` without its leading and trailing whitespace.
pub open spec fn trimmed(s: Seq<char>) -> Seq<char> {
    let a = skip_white_from(s, 0);
    s.subrange(a, skip_white_back(s, a, s.len() as int))
}

/// No character from `i` up to the line break found from there is a
/// line break.
proof fn lemma_before_line_break(s: Seq<char>, i: int)
    requires
        0 <= i <= s.len(),
    ensures
        i <= line_break_from(s, i) <= s.len(),
        forall|j: int| i <= j < line_break_from(s, i) ==> s[j] != '\n',
    decreases s.len() - i,
{
    if i < s.len() && s[i] != '\n' {
        lemma_before_line_break(s, i + 1);
    }
}

/// The trimmed first line of a text holds no line break: it is one line.
pub proof fn trimmed_first_line_is_one_line(s: Seq<char>)
    ensures
        !trimmed(first_line(s)).contains('\n'),
{
    lemma_before_line_break(s, 0);
    let l = first_line(s);
    let t = trimmed(l);
    if t.contains('\n') {
        let k = choose|k: int| 0 <= k < t.len() && t[k] == '\n';
        lemma_skip_white_bounds(l);
        let a = skip_white_from(l, 0);
        assert(t[k] == l[a + k]);
        assert(l[a + k] == s[a + k]);
    }
}

/// The bounds of the trimmed part of a text.
proof fn lemma_skip_white_bounds(l: Seq<char>)
    ensures
        0 <= skip_white_from(l, 0) <= skip_white_back(l, skip_white_from(l, 0), l.len() as int)
            <= l.len(),
{
    lemma_skip_from_bounds(l, 0);
    lemma_skip_back_bounds(l, skip_white_from(l, 0), l.len() as int);
}

proof fn lemma_skip_from_bounds(l: Seq<char>, i: int)
    requires
        0 <= i <= l.len(),
    ensures
        i <= skip_white_from(l, i) <= l.len(),
    decreases l.len() - i,
{
    if i < l.len() && is_white(l[i]) {
        lemma_skip_from_bounds(l, i + 1);
    }
}

proof fn lemma_skip_back_bounds(l: Seq<char>, lo: int, j: int)
    requires
        0 <= lo <= j <= l.len(),
    ensures
        lo <= skip_white_back(l, lo, j) <= j,
    decreases j - lo,
{
    if lo < j && is_white(l[j - 1]) {
        lemma_skip_back_bounds(l, lo, j - 1);
    }
}

/// Executable test for the `White_Space` property.
pub fn is_white_char(c: char) -> (r: bool)
    ensures
        r == is_white(c),
{
    let u = c as u32;
    (0x09 <= u && u <= 0x0D) || u == 0x20 || u == 0x85 || u == 0xA0 || u == 0x1680 || (0x2000
        <= u && u <= 0x200A) || u == 0x2028 || u == 0x2029 || u == 0x202F || u == 0x205F || u
        == 0x3000
}

/// Whether `s` begins with `p`.
pub fn has_prefix(s: &str, p: &str) -> (r: bool)
    ensures
        r == p@.is_prefix_of(s@),
{
    let sc = chars_of(s);
    let pc = chars_of(p);
    if pc.len() > sc.len() {
        return false;
    }
    let mut i: usize = 0;
    while i < pc.len()
        invariant
            pc@ == p@,
            sc@ == s@,
            pc.len() <= sc.len(),
            i <= pc.len(),
            forall|k: int| 0 <= k < i ==> sc@[k] == pc@[k],
        decreases pc.len() - i,
    {
        if sc[i] != pc[i] {
            return false;
        }
        i += 1;
    }
    true
}

/// The text of `s` before its first line break, without leading and
/// trailing whitespace (so a carriage return before the break goes too).
pub fn first_line_trimmed(s: &str) -> (r: String)
    ensures
        r@ == trimmed(first_line(s@)),
{
    let c = chars_of(s);
    let ghost line = first_line(s@);
    let mut end: usize = 0;
    while end < c.len() && c[end] != '\n'
        invariant
            c@ == s@,
            end <= c.len(),
            line_break_from(s@, end as int) == line_break_from(s@, 0),
        decreases c.len() - end,
    {
        end += 1;
    }
    assert(line_break_from(s@, end as int) == end);
    let mut a: usize = 0;
    while a < end && is_white_char(c[a])
        invariant
            c@ == s@,
            a <= end <= c.len(),
            end == line_break_from(s@, 0),
            line == s@.take(end as int),
            skip_white_from(line, a as int) == skip_white_from(line, 0),
        decreases end - a,
    {
        a += 1;
    }
    assert(skip_white_from(line, a as int) == a);
    let mut b: usize = end;
    while b > a && is_white_char(c[b - 1])
        invariant
            c@ == s@,
            a <= b <= end <= c.len(),
            end == line_break_from(s@, 0),
            line == s@.take(end as int),
            a == skip_white_from(line, 0),
            skip_white_back(line, a as int, b as int) == skip_white_back(
                line,
                a as int,
                end as int,
            ),
        decreases b - a,
    {
        b -= 1;
    }
    assert(skip_white_back(line, a as int, b as int) == b);
    let r = String::from_str(s.substring_char(a, b));
    assert(r@ =~= trimmed(line));
    r
}

} // verus!
