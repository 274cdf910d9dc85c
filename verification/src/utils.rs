//! Utility helpers: path-text splitting, integer math, string handling,
//! time formatting and checksums.

use vstd::prelude::*;

use crate::error::{EmuliteError, EmuliteResult};

verus! {

broadcast use vstd::string::group_string_axioms;

/// Helpers that pick a path string apart.  They work on the text alone:
/// the part after the last separator is treated as the file name.
pub struct FileUtils;

/// The index just past the last `/` of `s`, or 0 if there is none.
pub open spec fn after_last_slash(s: Seq<char>) -> int
    decreases s.len(),
{
    if s.len() == 0 {
        0
    } else if s[s.len() - 1] == '/' {
        s.len() as int
    } else {
        after_last_slash(s.drop_last())
    }
}

/// The index of the last `.` of `s` at or after `from`, or `from - 1` if
/// there is none.
pub open spec fn last_dot_from(s: Seq<char>, from: int) -> int
    decreases s.len(),
{
    if s.len() <= from || s.len() == 0 {
        from - 1
    } else if s[s.len() - 1] == '.' {
        s.len() - 1
    } else {
        last_dot_from(s.drop_last(), from)
    }
}

/// The file-name part of a path: the text after the last `/`.
pub open spec fn file_part(s: Seq<char>) -> Seq<char> {
    s.subrange(after_last_slash(s), s.len() as int)
}

/// The extension of a path: the text after the last `.` of the file name,
/// provided that dot is not its first character; `None` otherwise.
pub open spec fn extension_part(s: Seq<char>) -> Option<Seq<char>> {
    let start = after_last_slash(s);
    let dot = last_dot_from(s, start);
    if dot > start {
        Some(s.subrange(dot + 1, s.len() as int))
    } else {
        None
    }
}

/// The stem of a path: the file name up to its last `.` (a leading dot
/// does not count); `None` for an empty file name.
pub open spec fn stem_part(s: Seq<char>) -> Option<Seq<char>> {
    let start = after_last_slash(s);
    let dot = last_dot_from(s, start);
    if start >= s.len() {
        None
    } else if dot > start {
        Some(s.subrange(start, dot))
    } else {
        Some(s.subrange(start, s.len() as int))
    }
}

/// The parent of a path: the text before the last `/`, or the empty string
/// if there is no separator; `None` for an empty path.
pub open spec fn parent_part(s: Seq<char>) -> Option<Seq<char>> {
    if s.len() == 0 {
        None
    } else {
        let start = after_last_slash(s);
        if start == 0 {
            Some(Seq::empty())
        } else {
            Some(s.subrange(0, start - 1))
        }
    }
}

/// Finds the index just past the last `/`, by scanning from the end.
fn find_after_last_slash(path: &str) -> (r: usize)
    ensures
        r as int == after_last_slash(path@),
        r <= path@.len(),
{
    let n = path.unicode_len();
    proof {
        assert(path@.subrange(0, n as int) =~= path@);
    }
    let mut j: usize = n;
    while j > 0
        invariant
            j <= n,
            n == path@.len(),
            after_last_slash(path@) == after_last_slash(path@.subrange(0, j as int)),
        decreases j,
    {
        proof {
            assert(path@.subrange(0, j as int).drop_last() =~= path@.subrange(0, j as int - 1));
        }
        if path.get_char(j - 1) == '/' {
            return j;
        }
        j = j - 1;
    }
    proof {
        assert(path@.subrange(0, 0) =~= Seq::<char>::empty());
    }
    0
}

/// Finds the index of the last `.` at or after `from`, by scanning from
/// the end; yields `None` when there is none.
fn find_last_dot_from(path: &str, from: usize) -> (r: Option<usize>)
    requires
        from <= path@.len(),
    ensures
        ({
            let dot = last_dot_from(path@, from as int);
            if dot >= from {
                r matches Some(u) && u as int == dot && dot < path@.len()
            } else {
                r is None
            }
        }),
{
    let n = path.unicode_len();
    proof {
        assert(path@.subrange(0, n as int) =~= path@);
    }
    let mut j: usize = n;
    while j > from
        invariant
            from <= j <= n,
            n == path@.len(),
            last_dot_from(path@, from as int) == last_dot_from(
                path@.subrange(0, j as int),
                from as int,
            ),
        decreases j,
    {
        proof {
            assert(path@.subrange(0, j as int).drop_last() =~= path@.subrange(0, j as int - 1));
        }
        if path.get_char(j - 1) == '.' {
            return Some(j - 1);
        }
        j = j - 1;
    }
    proof {
        assert(path@.subrange(0, from as int).len() <= from as int);
    }
    None
}

impl FileUtils {
    /// The extension of a path, lower-cased: the text after the last `.`
    /// of the file name, provided that dot is not its first character.
    pub fn get_extension(path: &str) -> (r: Option<String>)
        ensures
            match extension_part(path@) {
                Some(e) => r matches Some(x) && x@ == lower_of(e),
                None => r is None,
            },
    {
        let start = find_after_last_slash(path);
        let n = path.unicode_len();
        match find_last_dot_from(path, start) {
            Some(dot) => {
                if dot > start {
                    let ext = path.substring_char(dot + 1, n);
                    Some(to_lowercase_str(ext))
                } else {
                    None
                }
            },
            None => None,
        }
    }

    /// The stem of a path: the file name up to its last `.`.
    pub fn get_stem(path: &str) -> (r: Option<String>)
        ensures
            match stem_part(path@) {
                Some(e) => r matches Some(x) && x@ == e,
                None => r is None,
            },
    {
        let start = find_after_last_slash(path);
        let n = path.unicode_len();
        if start >= n {
            return None;
        }
        match find_last_dot_from(path, start) {
            Some(dot) => {
                if dot > start {
                    Some(String::from_str(path.substring_char(start, dot)))
                } else {
                    Some(String::from_str(path.substring_char(start, n)))
                }
            },
            None => Some(String::from_str(path.substring_char(start, n))),
        }
    }

    /// The parent of a path: the text before the last `/`, or the empty
    /// string if there is no separator.
    pub fn get_parent(path: &str) -> (r: Option<String>)
        ensures
            match parent_part(path@) {
                Some(e) => r matches Some(x) && x@ == e,
                None => r is None,
            },
    {
        let n = path.unicode_len();
        if n == 0 {
            return None;
        }
        let start = find_after_last_slash(path);
        if start == 0 {
            let empty = String::new();
            proof {
                assert(empty@ =~= Seq::<char>::empty());
            }
            Some(empty)
        } else {
            Some(String::from_str(path.substring_char(0, start - 1)))
        }
    }
}

/// Integer math helpers.
pub struct MathUtils;

/// The number of binary digits of `n`.
pub open spec fn bit_len(n: nat) -> nat
    decreases n,
{
    if n == 0 {
        0
    } else {
        1 + bit_len(n / 2)
    }
}

/// A number below the `k`-th power of two has `k` or fewer binary digits.
proof fn lemma_bit_len_le(n: nat, k: nat)
    requires
        n < vstd::arithmetic::power2::pow2(k),
    ensures
        bit_len(n) <= k,
    decreases n,
{
    vstd::arithmetic::power2::lemma2_to64();
    if n > 0 {
        assert(k > 0);
        vstd::arithmetic::power2::lemma_pow2_unfold(k);
        lemma_bit_len_le(n / 2, (k - 1) as nat);
    }
}

/// A number below 2^31 has 31 or fewer binary digits.
proof fn lemma_bit_len_bound(n: nat)
    requires
        n < 0x80000000,
    ensures
        bit_len(n) <= 31,
{
    vstd::arithmetic::power2::lemma2_to64();
    lemma_bit_len_le(n, 31);
}

impl MathUtils {
    /// `value` clamped into the inclusive range `[min, max]`.
    pub fn clamp(value: i64, min: i64, max: i64) -> (r: i64)
        ensures
            r == (if value < min {
                min
            } else if value > max {
                max
            } else {
                value
            }),
    {
        if value < min {
            min
        } else if value > max {
            max
        } else {
            value
        }
    }

    /// Whether `n` is a power of two.
    pub fn is_power_of_2(n: u32) -> (r: bool)
        ensures
            r == (n != 0 && n & ((n - 1) as u32) == 0),
    {
        n != 0 && (n & (n - 1)) == 0
    }

    /// The smallest power of two with more binary digits than `n`; 1 for
    /// an input of 0.  The input must leave that power representable.
    pub fn next_power_of_2(n: u32) -> (r: u32)
        requires
            n < 0x80000000,
        ensures
            n == 0 ==> r == 1,
            n != 0 ==> r == 1u32 << (bit_len(n as nat) as u32),
    {
        if n == 0 {
            return 1;
        }
        let mut m: u32 = n;
        let mut len: u32 = 0;
        proof {
            lemma_bit_len_bound(n as nat);
        }
        while m != 0
            invariant
                n < 0x80000000,
                bit_len(n as nat) == bit_len(m as nat) + len,
                len <= 31,
            decreases m,
        {
            proof {
                assert(m >> 1u32 == m / 2) by (bit_vector);
                assert(bit_len(m as nat) == 1 + bit_len((m / 2) as nat));
                lemma_bit_len_bound(n as nat);
            }
            m = m >> 1;
            len = len + 1;
        }
        proof {
            assert(len as nat == bit_len(n as nat));
        }
        1u32 << len
    }
}

/// String helpers.
pub struct StringUtils;

/// The lower-case folding `str::to_lowercase` performs; it depends on the
/// characters alone.
pub uninterp spec fn lower_of(s: Seq<char>) -> Seq<char>;

/// The upper-case folding `str::to_uppercase` performs; it depends on the
/// characters alone.
pub uninterp spec fn upper_of(s: Seq<char>) -> Seq<char>;

/// The split `str::split` performs with a literal separator; it depends on
/// the two texts alone.
pub uninterp spec fn split_of(s: Seq<char>, separator: Seq<char>) -> Seq<Seq<char>>;

/// The replacement `str::replace` performs; it depends on the three texts
/// alone.
pub uninterp spec fn replace_of(s: Seq<char>, from: Seq<char>, to: Seq<char>) -> Seq<char>;

/// Relies on str::to_lowercase: the Unicode lower-case mapping of the
/// text, a function of its characters alone; empty input stays empty.
#[verifier::external_body]
fn to_lowercase_str(s: &str) -> (r: String)
    ensures
        r@ == lower_of(s@),
        s@.len() == 0 ==> r@.len() == 0,
{
    s.to_lowercase()
}

/// Relies on str::to_uppercase: the Unicode upper-case mapping of the
/// text, a function of its characters alone; empty input stays empty.
#[verifier::external_body]
fn to_uppercase_str(s: &str) -> (r: String)
    ensures
        r@ == upper_of(s@),
        s@.len() == 0 ==> r@.len() == 0,
{
    s.to_uppercase()
}

/// Whether a character has the White_Space property `str::trim` strips.
pub open spec fn is_space(c: char) -> bool {
    let u = c as u32;
    u == 0x09 || u == 0x0A || u == 0x0B || u == 0x0C || u == 0x0D || u == 0x20 || u == 0x85 || u
        == 0xA0 || u == 0x1680 || (0x2000 <= u && u <= 0x200A) || u == 0x2028 || u == 0x2029 || u
        == 0x202F || u == 0x205F || u == 0x3000
}

/// The count of leading white-space characters.
pub open spec fn leading_spaces(s: Seq<char>) -> int
    decreases s.len(),
{
    if s.len() == 0 || !is_space(s[0]) {
        0
    } else {
        1 + leading_spaces(s.drop_first())
    }
}

/// The count of trailing white-space characters.
pub open spec fn trailing_spaces(s: Seq<char>) -> int
    decreases s.len(),
{
    if s.len() == 0 || !is_space(s[s.len() - 1]) {
        0
    } else {
        1 + trailing_spaces(s.drop_last())
    }
}

/// The count of trailing white-space characters is never negative.
proof fn lemma_trailing_nonneg(s: Seq<char>)
    ensures
        trailing_spaces(s) >= 0,
    decreases s.len(),
{
    if s.len() > 0 && is_space(s[s.len() - 1]) {
        lemma_trailing_nonneg(s.drop_last());
    }
}

/// The text with leading and trailing white space removed.
pub open spec fn trim_spec(s: Seq<char>) -> Seq<char> {
    let start = leading_spaces(s);
    let end = s.len() - trailing_spaces(s);
    if start >= end {
        Seq::empty()
    } else {
        s.subrange(start, end)
    }
}

/// The elements from index `i` on, each preceded by the separator.
pub open spec fn join_tail(parts: Seq<Seq<char>>, i: int, separator: Seq<char>) -> Seq<char>
    decreases parts.len() - i,
{
    if i < 0 || i >= parts.len() {
        Seq::empty()
    } else {
        separator + parts[i] + join_tail(parts, i + 1, separator)
    }
}

/// The strings joined with `separator` between consecutive elements.
pub open spec fn join_spec(parts: Seq<Seq<char>>, separator: Seq<char>) -> Seq<char> {
    if parts.len() == 0 {
        Seq::empty()
    } else {
        parts[0] + join_tail(parts, 1, separator)
    }
}

/// Whether a character has the stripped White_Space property.
fn is_space_char(c: char) -> (r: bool)
    ensures
        r == is_space(c),
{
    let u = c as u32;
    u == 0x09 || u == 0x0A || u == 0x0B || u == 0x0C || u == 0x0D || u == 0x20 || u == 0x85 || u
        == 0xA0 || u == 0x1680 || (0x2000 <= u && u <= 0x200A) || u == 0x2028 || u == 0x2029 || u
        == 0x202F || u == 0x205F || u == 0x3000
}

impl StringUtils {
    /// The Unicode lower-case mapping of the text.
    pub fn to_lowercase(s: &str) -> (r: String)
        ensures
            r@ == lower_of(s@),
    {
        to_lowercase_str(s)
    }

    /// The Unicode upper-case mapping of the text.
    pub fn to_uppercase(s: &str) -> (r: String)
        ensures
            r@ == upper_of(s@),
    {
        to_uppercase_str(s)
    }

    /// The text with leading and trailing white space removed.
    pub fn trim(s: &str) -> (r: String)
        ensures
            r@ == trim_spec(s@),
    {
        let n = s.unicode_len();
        proof {
            assert(s@.subrange(0, n as int) =~= s@);
        }
        let mut i: usize = 0;
        while i < n && is_space_char(s.get_char(i))
            invariant
                i <= n,
                n == s@.len(),
                leading_spaces(s@) == i + leading_spaces(s@.subrange(i as int, n as int)),
                forall|k: int| 0 <= k < i ==> is_space(s@[k]),
            decreases n - i,
        {
            proof {
                assert(s@.subrange(i as int, n as int).drop_first() =~= s@.subrange(
                    i as int + 1,
                    n as int,
                ));
            }
            i = i + 1;
        }
        proof {
            if i < n {
                assert(leading_spaces(s@.subrange(i as int, n as int)) == 0);
            } else {
                assert(s@.subrange(n as int, n as int) =~= Seq::<char>::empty());
            }
            assert(leading_spaces(s@) == i as int);
        }
        proof {
            assert(s@.subrange(0, n as int) =~= s@);
        }
        let mut j: usize = n;
        while j > i && is_space_char(s.get_char(j - 1))
            invariant
                i <= j <= n,
                n == s@.len(),
                i as int == leading_spaces(s@),
                trailing_spaces(s@) == (n - j) + trailing_spaces(s@.subrange(0, j as int)),
                forall|k: int| j <= k < n ==> is_space(s@[k]),
            decreases j,
        {
            proof {
                assert(s@.subrange(0, j as int).drop_last() =~= s@.subrange(0, j as int - 1));
            }
            j = j - 1;
        }
        proof {
            if j > i {
                assert(trailing_spaces(s@.subrange(0, j as int)) == 0);
                assert(trailing_spaces(s@) == (n - j) as int);
            } else {
                assert(j == i);
                if i as int == 0 {
                    assert(s@.subrange(0, 0) =~= Seq::<char>::empty());
                    assert(trailing_spaces(s@) == n - j + trailing_spaces(s@.subrange(0, 0)));
                } else {
                    lemma_trailing_nonneg(s@.subrange(0, j as int));
                    assert(trailing_spaces(s@) >= (n - j) as int);
                }
            }
        }
        if j <= i {
            let empty = String::new();
            proof {
                assert(empty@ =~= Seq::<char>::empty());
                assert(leading_spaces(s@) >= s@.len() - trailing_spaces(s@));
                assert(trim_spec(s@) =~= Seq::<char>::empty());
            }
            empty
        } else {
            let out = String::from_str(s.substring_char(i, j));
            proof {
                assert(trim_spec(s@) =~= s@.subrange(i as int, j as int));
            }
            out
        }
    }

    /// Relies on str::split with a literal separator: the pieces of the
    /// text between occurrences of the separator, a function of the two
    /// texts alone.
    #[verifier::external_body]
    pub fn split(s: &str, delimiter: &str) -> (r: Vec<String>)
        ensures
            r@.map(|i: int, e: String| e@) == split_of(s@, delimiter@),
    {
        s.split(delimiter).map(|p| p.to_string()).collect()
    }

    /// The strings joined with `delimiter` between consecutive elements.
    pub fn join(strings: &Vec<String>, delimiter: &str) -> (r: String)
        ensures
            r@ == join_spec(strings@.map(|i: int, e: String| e@), delimiter@),
    {
        let ghost parts = strings@.map(|i: int, e: String| e@);
        let mut out = String::new();
        let n = strings.len();
        if n == 0 {
            proof {
                assert(out@ =~= join_spec(parts, delimiter@));
            }
            return out;
        }
        out.append(strings[0].as_str());
        let mut i: usize = 1;
        while i < n
            invariant
                1 <= i <= n,
                n == strings@.len(),
                parts == strings@.map(|k: int, e: String| e@),
                join_spec(parts, delimiter@) =~= out@ + join_tail(parts, i as int, delimiter@),
            decreases n - i,
        {
            out.append(delimiter);
            out.append(strings[i].as_str());
            proof {
                assert(strings@[i as int]@ == parts[i as int]);
            }
            i = i + 1;
        }
        proof {
            assert(out@ =~= out@ + Seq::<char>::empty());
        }
        out
    }

    /// Whether `s` starts with `prefix`.
    pub fn starts_with(s: &str, prefix: &str) -> (r: bool)
        ensures
            r == (prefix@.len() <= s@.len() && s@.subrange(0, prefix@.len() as int) == prefix@),
    {
        let np = prefix.unicode_len();
        let ns = s.unicode_len();
        if np > ns {
            proof {
                assert(!(prefix@.len() <= s@.len()));
            }
            return false;
        }
        let mut i: usize = 0;
        while i < np
            invariant
                i <= np,
                np == prefix@.len(),
                ns == s@.len(),
                np <= ns,
                forall|k: int| 0 <= k < i ==> s@[k] == prefix@[k],
            decreases np - i,
        {
            if s.get_char(i) != prefix.get_char(i) {
                proof {
                    assert(s@.subrange(0, np as int)[i as int] != prefix@[i as int]);
                }
                return false;
            }
            i = i + 1;
        }
        proof {
            assert(s@.subrange(0, np as int) =~= prefix@);
        }
        true
    }

    /// Whether `s` ends with `suffix`.
    pub fn ends_with(s: &str, suffix: &str) -> (r: bool)
        ensures
            r == (suffix@.len() <= s@.len() && s@.subrange(
                s@.len() - suffix@.len(),
                s@.len() as int,
            ) == suffix@),
    {
        let np = suffix.unicode_len();
        let ns = s.unicode_len();
        if np > ns {
            return false;
        }
        let off = ns - np;
        let mut i: usize = 0;
        while i < np
            invariant
                i <= np,
                np == suffix@.len(),
                ns == s@.len(),
                np <= ns,
                off == ns - np,
                forall|k: int| 0 <= k < i ==> s@[off + k] == suffix@[k],
            decreases np - i,
        {
            if s.get_char(off + i) != suffix.get_char(i) {
                proof {
                    assert(s@.subrange(off as int, ns as int)[i as int] != suffix@[i as int]);
                }
                return false;
            }
            i = i + 1;
        }
        proof {
            assert(s@.subrange(off as int, ns as int) =~= suffix@);
        }
        true
    }

    /// Relies on str::replace: the text with every occurrence of `from`
    /// replaced by `to`, a function of the three texts alone.
    #[verifier::external_body]
    pub fn replace_all(s: &str, from: &str, to: &str) -> (r: String)
        ensures
            r@ == replace_of(s@, from@, to@),
    {
        s.replace(from, to)
    }
}

/// Wall-clock helpers.
pub struct TimeUtils;

/// The decimal digit character for a value below ten.
pub open spec fn digit_char(d: int) -> char {
    if d == 0 {
        '0'
    } else if d == 1 {
        '1'
    } else if d == 2 {
        '2'
    } else if d == 3 {
        '3'
    } else if d == 4 {
        '4'
    } else if d == 5 {
        '5'
    } else if d == 6 {
        '6'
    } else if d == 7 {
        '7'
    } else if d == 8 {
        '8'
    } else {
        '9'
    }
}

/// The decimal digits of `n`, most significant first.
pub open spec fn dec_str(n: nat) -> Seq<char>
    decreases n,
{
    if n < 10 {
        seq![digit_char(n as int)]
    } else {
        dec_str(n / 10) + seq![digit_char((n % 10) as int)]
    }
}

/// The decimal digits of `n`, zero-padded on the left to two places.
pub open spec fn dec_pad2(n: nat) -> Seq<char> {
    if n < 10 {
        seq!['0'] + dec_str(n)
    } else {
        dec_str(n)
    }
}

/// The digit character for a value below ten.
fn digit_str(d: u64) -> (r: &'static str)
    requires
        d < 10,
    ensures
        r@ =~= seq![digit_char(d as int)],
{
    let r: &'static str = match d {
        0 => "0",
        1 => "1",
        2 => "2",
        3 => "3",
        4 => "4",
        5 => "5",
        6 => "6",
        7 => "7",
        8 => "8",
        _ => "9",
    };
    proof {
        reveal_strlit("0");
        reveal_strlit("1");
        reveal_strlit("2");
        reveal_strlit("3");
        reveal_strlit("4");
        reveal_strlit("5");
        reveal_strlit("6");
        reveal_strlit("7");
        reveal_strlit("8");
        reveal_strlit("9");
    }
    r
}

/// Formats `n` in decimal.
pub fn format_u64(n: u64) -> (r: String)
    ensures
        r@ == dec_str(n as nat),
    decreases n,
{
    if n < 10 {
        String::from_str(digit_str(n))
    } else {
        let mut out = format_u64(n / 10);
        out.append(digit_str(n % 10));
        proof {
            assert(out@ =~= dec_str(n as nat));
        }
        out
    }
}

/// Formats `n` in decimal, zero-padded on the left to two places.
fn format_u64_pad2(n: u64) -> (r: String)
    ensures
        r@ == dec_pad2(n as nat),
{
    if n < 10 {
        let mut out = String::from_str("0");
        proof {
            reveal_strlit("0");
        }
        out.append(digit_str(n));
        proof {
            assert(out@ =~= dec_pad2(n as nat));
        }
        out
    } else {
        format_u64(n)
    }
}

/// The text `format_duration` yields: hours, minutes and seconds each
/// zero-padded to two places, the hour field only when it is non-zero.
pub open spec fn duration_text(seconds: nat) -> Seq<char> {
    let hours = seconds / 3600;
    let minutes = (seconds % 3600) / 60;
    let secs = seconds % 60;
    if hours > 0 {
        dec_pad2(hours) + seq![':'] + dec_pad2(minutes) + seq![':'] + dec_pad2(secs)
    } else {
        dec_pad2(minutes) + seq![':'] + dec_pad2(secs)
    }
}

impl TimeUtils {
    /// Relies on std::time::SystemTime::now: the seconds since the Unix
    /// epoch at the moment of the call.  Nothing is claimed of the value.
    #[verifier::external_body]
    pub fn current_timestamp() -> u64 {
        std::time::SystemTime::now().duration_since(std::time::UNIX_EPOCH).map(
            |d| d.as_secs(),
        ).unwrap_or(0)
    }

    /// Relies on std::time::SystemTime::now: the milliseconds since the
    /// Unix epoch at the moment of the call.  Nothing is claimed of the
    /// value.
    #[verifier::external_body]
    pub fn current_timestamp_ms() -> u128 {
        std::time::SystemTime::now().duration_since(std::time::UNIX_EPOCH).map(
            |d| d.as_millis(),
        ).unwrap_or(0)
    }

    /// Formats a duration in seconds as `MM:SS`, or `HH:MM:SS` once it
    /// reaches an hour.
    pub fn format_duration(seconds: u64) -> (r: String)
        ensures
            r@ == duration_text(seconds as nat),
    {
        let hours = seconds / 3600;
        let minutes = (seconds % 3600) / 60;
        let secs = seconds % 60;
        proof {
            reveal_strlit(":");
        }
        if hours > 0 {
            let mut out = format_u64_pad2(hours);
            out.append(":");
            out.append(format_u64_pad2(minutes).as_str());
            out.append(":");
            out.append(format_u64_pad2(secs).as_str());
            proof {
                assert(":"@ =~= seq![':']);
                assert(out@ =~= duration_text(seconds as nat));
            }
            out
        } else {
            let mut out = format_u64_pad2(minutes);
            out.append(":");
            out.append(format_u64_pad2(secs).as_str());
            proof {
                assert(":"@ =~= seq![':']);
                assert(out@ =~= duration_text(seconds as nat));
            }
            out
        }
    }
}

/// Checksum helpers.
pub struct HashUtils;

/// One shift-and-conditional-xor round of the reflected CRC-32.
pub open spec fn crc_round(crc: u32) -> u32 {
    if crc & 1 != 0 {
        (crc >> 1) ^ 0xEDB88320
    } else {
        crc >> 1
    }
}

/// `k` rounds of the reflected CRC-32.
pub open spec fn crc_rounds(crc: u32, k: nat) -> u32
    decreases k,
{
    if k == 0 {
        crc
    } else {
        crc_rounds(crc_round(crc), (k - 1) as nat)
    }
}

/// The CRC-32 state after absorbing one byte.
pub open spec fn crc_byte(crc: u32, byte: u8) -> u32 {
    crc_rounds(crc ^ (byte as u32), 8)
}

/// The CRC-32 state after absorbing a byte sequence, from the all-ones
/// initial state.
pub open spec fn crc_fold(crc: u32, data: Seq<u8>) -> u32
    decreases data.len(),
{
    if data.len() == 0 {
        crc
    } else {
        crc_fold(crc_byte(crc, data[0]), data.drop_first())
    }
}

/// The CRC-32 checksum of a byte sequence.
pub open spec fn crc32_spec(data: Seq<u8>) -> u32 {
    !crc_fold(0xFFFFFFFFu32, data)
}

/// The multiply-by-31-and-add folding hash of a byte sequence.
pub open spec fn simple_hash_fold(hash: u32, data: Seq<u8>) -> u32
    decreases data.len(),
{
    if data.len() == 0 {
        hash
    } else {
        simple_hash_fold(
            vstd::wrapping::u32_specs::wrapping_add(
                vstd::wrapping::u32_specs::wrapping_mul(hash, 31),
                data[0] as u32,
            ),
            data.drop_first(),
        )
    }
}

impl HashUtils {
    /// The CRC-32 checksum (reflected, polynomial 0xEDB88320) of the data.
    pub fn crc32(data: &[u8]) -> (r: u32)
        ensures
            r == crc32_spec(data@),
    {
        let mut crc: u32 = 0xFFFFFFFF;
        let n = data.len();
        proof {
            assert(data@.subrange(0, n as int) =~= data@);
        }
        let mut i: usize = 0;
        while i < n
            invariant
                i <= n,
                n == data@.len(),
                crc_fold(crc, data@.subrange(i as int, n as int)) == crc_fold(
                    0xFFFFFFFFu32,
                    data@,
                ),
            decreases n - i,
        {
            proof {
                assert(data@.subrange(i as int, n as int).drop_first() =~= data@.subrange(
                    i as int + 1,
                    n as int,
                ));
            }
            let ghost pre = crc;
            crc = crc ^ (data[i] as u32);
            let ghost absorbed = crc;
            let mut k: usize = 0;
            while k < 8
                invariant
                    k <= 8,
                    crc_rounds(crc, (8 - k) as nat) == crc_rounds(absorbed, 8),
                decreases 8 - k,
            {
                if crc & 1 != 0 {
                    crc = (crc >> 1) ^ 0xEDB88320;
                } else {
                    crc = crc >> 1;
                }
                k = k + 1;
            }
            proof {
                assert(crc == crc_byte(pre, data@[i as int]));
            }
            i = i + 1;
        }
        proof {
            assert(data@.subrange(n as int, n as int) =~= Seq::<u8>::empty());
        }
        !crc
    }

    /// The multiply-by-31-and-add folding hash of the data.
    pub fn simple_hash(data: &[u8]) -> (r: u32)
        ensures
            r == simple_hash_fold(0, data@),
    {
        let mut hash: u32 = 0;
        let n = data.len();
        proof {
            assert(data@.subrange(0, n as int) =~= data@);
        }
        let mut i: usize = 0;
        while i < n
            invariant
                i <= n,
                n == data@.len(),
                simple_hash_fold(hash, data@.subrange(i as int, n as int)) == simple_hash_fold(
                    0,
                    data@,
                ),
            decreases n - i,
        {
            proof {
                assert(data@.subrange(i as int, n as int).drop_first() =~= data@.subrange(
                    i as int + 1,
                    n as int,
                ));
            }
            hash = hash.wrapping_mul(31).wrapping_add(data[i] as u32);
            i = i + 1;
        }
        proof {
            assert(data@.subrange(n as int, n as int) =~= Seq::<u8>::empty());
        }
        hash
    }

    /// A stand-in digest: thirty-two zero digits, whatever the data.
    pub fn md5(_data: &[u8]) -> (r: String)
        ensures
            r@ == "00000000000000000000000000000000"@,
            r@.len() == 32,
    {
        proof {
            reveal_strlit("00000000000000000000000000000000");
        }
        String::from_str("00000000000000000000000000000000")
    }
}

/// Validation helpers.
pub struct ValidationUtils;

impl ValidationUtils {
    /// Accepts an address at or below the maximum; a larger one fails with
    /// a violation carrying the address.
    pub fn validate_address(address: u32, max_address: u32) -> (r: EmuliteResult<()>)
        ensures
            address <= max_address ==> r is Ok,
            address > max_address ==> r == Err::<(), EmuliteError>(
                EmuliteError::MemoryAccessViolation(address),
            ),
    {
        if address > max_address {
            return Err(EmuliteError::MemoryAccessViolation(address));
        }
        Ok(())
    }
}

} // verus!
