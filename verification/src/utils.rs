//! Small string, number and process-status helpers shared across the crate.

use vstd::prelude::*;
use vstd::string::StrSliceExecFns;
use vstd::string::StringExecFns;

verus! {

/// A yes/no answer given at a confirmation prompt.
pub enum Confirmed {
    Yes,
    No,
}

/// If `input` starts with `prefix`, the rest of `input` after it; otherwise
/// nothing.
pub fn strip_prefix(prefix: &str, input: &str) -> (r: Option<String>)
    ensures
        match r {
            Some(rest) => input@ == prefix@ + rest@,
            None => !(exists|rest: Seq<char>| input@ == prefix@ + rest),
        },
{
    let p_len = prefix.unicode_len();
    let i_len = input.unicode_len();
    if p_len > i_len {
        assert(forall|rest: Seq<char>| (prefix@ + rest).len() >= prefix@.len());
        return None;
    }
    let mut i: usize = 0;
    while i < p_len
        invariant
            0 <= i <= p_len,
            p_len == prefix@.len(),
            i_len == input@.len(),
            p_len <= i_len,
            forall|j: int| 0 <= j < i ==> input@[j] == prefix@[j],
        decreases p_len - i,
    {
        if input.get_char(i) != prefix.get_char(i) {
            assert(forall|rest: Seq<char>| input@ == prefix@ + rest ==> input@[i as int]
                == prefix@[i as int]);
            return None;
        }
        i += 1;
    }
    let rest = input.substring_char(p_len, i_len);
    let owned = rest.to_owned();
    proof {
        assert(input@ =~= prefix@ + owned@);
    }
    Some(owned)
}

/// Whether two strings hold the same characters.
pub fn str_eq(a: &str, b: &str) -> (r: bool)
    ensures
        r == (a@ == b@),
{
    let a_len = a.unicode_len();
    let b_len = b.unicode_len();
    if a_len != b_len {
        return false;
    }
    let mut i: usize = 0;
    while i < a_len
        invariant
            0 <= i <= a_len,
            a_len == a@.len(),
            a_len == b@.len(),
            forall|j: int| 0 <= j < i ==> a@[j] == b@[j],
        decreases a_len - i,
    {
        if a.get_char(i) != b.get_char(i) {
            return false;
        }
        i += 1;
    }
    proof {
        assert(a@ =~= b@);
    }
    true
}

/// Whether `s` ends with `suffix`.
pub fn ends_with(s: &str, suffix: &str) -> (r: bool)
    ensures
        r == (s@.len() >= suffix@.len() && s@.subrange(
            s@.len() - suffix@.len(),
            s@.len() as int,
        ) == suffix@),
{
    let s_len = s.unicode_len();
    let f_len = suffix.unicode_len();
    if f_len > s_len {
        return false;
    }
    let tail = s.substring_char(s_len - f_len, s_len);
    let mut i: usize = 0;
    while i < f_len
        invariant
            0 <= i <= f_len,
            f_len == suffix@.len(),
            s_len == s@.len(),
            f_len <= s_len,
            tail@ == s@.subrange(s@.len() - suffix@.len(), s@.len() as int),
            forall|j: int| 0 <= j < i ==> tail@[j] == suffix@[j],
        decreases f_len - i,
    {
        if tail.get_char(i) != suffix.get_char(i) {
            assert(tail@ != suffix@);
            return false;
        }
        i += 1;
    }
    proof {
        assert(tail@ =~= suffix@);
    }
    true
}

/// The decimal digit character for `d`.
pub open spec fn digit_char(d: int) -> char {
    if d == 0 {
        '0'
    } else if d == 1 {
        '1'
    } else if d == 2 {
        '2'
    } else if d == 3 {
        '3'
    } else if d == 4 {
        '4'
    } else if d == 5 {
        '5'
    } else if d == 6 {
        '6'
    } else if d == 7 {
        '7'
    } else if d == 8 {
        '8'
    } else {
        '9'
    }
}

/// The decimal representation of `n`, without sign or leading zeros.
pub open spec fn dec_str(n: nat) -> Seq<char>
    decreases n,
{
    if n < 10 {
        seq![digit_char(n as int)]
    } else {
        dec_str(n / 10) + seq![digit_char((n % 10) as int)]
    }
}

/// A one-character string for the digit `d`.
fn digit_str(d: u64) -> (r: &'static str)
    requires
        d < 10,
    ensures
        r@ =~= seq![digit_char(d as int)],
{
    proof {
        reveal_strlit("0");
        reveal_strlit("1");
        reveal_strlit("2");
        reveal_strlit("3");
        reveal_strlit("4");
        reveal_strlit("5");
        reveal_strlit("6");
        reveal_strlit("7");
        reveal_strlit("8");
        reveal_strlit("9");
    }
    match d {
        0 => "0",
        1 => "1",
        2 => "2",
        3 => "3",
        4 => "4",
        5 => "5",
        6 => "6",
        7 => "7",
        8 => "8",
        _ => "9",
    }
}

/// Formats `n` in decimal.
pub fn fmt_u64(n: u64) -> (r: String)
    ensures
        r@ == dec_str(n as nat),
    decreases n,
{
    if n < 10 {
        digit_str(n).to_owned()
    } else {
        let mut s = fmt_u64(n / 10);
        s.append(digit_str(n % 10));
        s
    }
}

/// Whether `c` is a decimal digit.
pub open spec fn is_dec_digit(c: char) -> bool {
    48 <= c as u32 <= 57
}

/// The numeric value of a digit character.
pub open spec fn digit_val(c: char) -> int {
    c as u32 - 48
}

/// Whether every character of `s` is a decimal digit.
pub open spec fn all_dec_digits(s: Seq<char>) -> bool {
    forall|i: int| 0 <= i < s.len() ==> is_dec_digit(#[trigger] s[i])
}

/// The numeric value of a digit string (most significant digit first).
pub open spec fn dec_value(s: Seq<char>) -> int
    decreases s.len(),
{
    if s.len() == 0 {
        0
    } else {
        dec_value(s.drop_last()) * 10 + digit_val(s.last())
    }
}

/// A digit string's value is nonnegative.
pub proof fn lemma_dec_value_nonneg(s: Seq<char>)
    requires
        all_dec_digits(s),
    ensures
        dec_value(s) >= 0,
    decreases s.len(),
{
    if s.len() > 0 {
        assert(all_dec_digits(s.drop_last()));
        lemma_dec_value_nonneg(s.drop_last());
    }
}

/// A digit string's value only grows as digits are appended on the right.
pub proof fn lemma_dec_value_prefix(s: Seq<char>, k: int)
    requires
        all_dec_digits(s),
        0 <= k <= s.len(),
    ensures
        dec_value(s.subrange(0, k)) <= dec_value(s),
    decreases s.len() - k,
{
    if k < s.len() {
        let t = s.subrange(0, k + 1);
        assert(t.drop_last() =~= s.subrange(0, k));
        assert(all_dec_digits(s.subrange(0, k)));
        lemma_dec_value_nonneg(s.subrange(0, k));
        assert(dec_value(t) == dec_value(s.subrange(0, k)) * 10 + digit_val(t.last()));
        lemma_dec_value_prefix(s, k + 1);
    } else {
        assert(s.subrange(0, k) =~= s);
    }
}

/// Digit characters carry their digit's value.
pub proof fn lemma_digit_char_val(d: int)
    requires
        0 <= d < 10,
    ensures
        is_dec_digit(digit_char(d)),
        digit_val(digit_char(d)) == d,
{
}

/// A number's decimal representation is nonempty and all digits.
pub proof fn lemma_dec_str_digits(n: nat)
    ensures
        all_dec_digits(dec_str(n)),
        dec_str(n).len() >= 1,
    decreases n,
{
    if n < 10 {
        lemma_digit_char_val(n as int);
    } else {
        lemma_dec_str_digits(n / 10);
        lemma_digit_char_val((n % 10) as int);
        let a = dec_str(n / 10);
        let s = a + seq![digit_char((n % 10) as int)];
        assert(forall|i: int| 0 <= i < a.len() ==> s[i] == a[i]);
        assert(s[s.len() - 1] == digit_char((n % 10) as int));
        assert(all_dec_digits(s));
    }
}

/// Reading a number's decimal representation gives the number back.
pub proof fn lemma_dec_value_of_dec_str(n: nat)
    ensures
        dec_value(dec_str(n)) == n,
    decreases n,
{
    if n < 10 {
        lemma_digit_char_val(n as int);
        assert(seq![digit_char(n as int)].drop_last() =~= Seq::<char>::empty());
        assert(dec_value(Seq::<char>::empty()) == 0);
        assert(seq![digit_char(n as int)].last() == digit_char(n as int));
    } else {
        lemma_dec_value_of_dec_str(n / 10);
        lemma_digit_char_val((n % 10) as int);
        let a = dec_str(n / 10);
        let s = a + seq![digit_char((n % 10) as int)];
        assert(s.drop_last() =~= a);
        assert(s.last() == digit_char((n % 10) as int));
        assert(dec_value(s) == dec_value(a) * 10 + (n % 10));
        assert((n / 10) * 10 + (n % 10) == n) by (nonlinear_arith);
    }
}

/// Whether `s` has the shape of a decimal integer: an optional `+` or `-`
/// sign followed by at least one digit.
pub open spec fn int_shape(s: Seq<char>) -> bool {
    if s.len() == 0 {
        false
    } else if s[0] == '+' || s[0] == '-' {
        s.len() > 1 && all_dec_digits(s.subrange(1, s.len() as int))
    } else {
        all_dec_digits(s)
    }
}

/// The signed value of a decimal integer string of `int_shape`.
pub open spec fn int_value(s: Seq<char>) -> int {
    if s.len() > 0 && s[0] == '-' {
        -dec_value(s.subrange(1, s.len() as int))
    } else if s.len() > 0 && s[0] == '+' {
        dec_value(s.subrange(1, s.len() as int))
    } else {
        dec_value(s)
    }
}

/// Parses the digit run `s[start..]` into a magnitude, refusing values above
/// `i32`'s range.
pub(crate) fn parse_digits(s: &str, start: usize) -> (r: Option<i64>)
    requires
        start <= s@.len(),
    ensures
        match r {
            Some(v) => all_dec_digits(s@.subrange(start as int, s@.len() as int)) && s@.len()
                > start && v == dec_value(s@.subrange(start as int, s@.len() as int)) && 0 <= v
                <= 0x8000_0000,
            None => !all_dec_digits(s@.subrange(start as int, s@.len() as int)) || s@.len() == start
                || dec_value(s@.subrange(start as int, s@.len() as int)) > 0x8000_0000,
        },
{
    let len = s.unicode_len();
    if start == len {
        return None;
    }
    let ghost digits = s@.subrange(start as int, s@.len() as int);
    let mut acc: i64 = 0;
    let mut i: usize = start;
    while i < len
        invariant
            start <= i <= len,
            len == s@.len(),
            digits == s@.subrange(start as int, s@.len() as int),
            all_dec_digits(s@.subrange(start as int, i as int)),
            acc == dec_value(s@.subrange(start as int, i as int)),
            0 <= acc <= 0x8000_0000,
        decreases len - i,
    {
        let c = s.get_char(i);
        let v = c as u32;
        if v < 48 || v > 57 {
            assert(s@.subrange(start as int, s@.len() as int)[i - start] == s@[i as int]);
            return None;
        }
        let d = (v - 48) as i64;
        let next = acc * 10 + d;
        proof {
            assert(s@.subrange(start as int, i + 1).drop_last() =~= s@.subrange(
                start as int,
                i as int,
            ));
        }
        if next > 0x8000_0000 {
            proof {
                let whole = s@.subrange(start as int, s@.len() as int);
                if all_dec_digits(whole) {
                    let rel = i + 1 - start;
                    assert(whole.subrange(0, rel) =~= s@.subrange(start as int, i + 1));
                    lemma_dec_value_prefix(whole, rel);
                }
            }
            return None;
        }
        acc = next;
        i += 1;
    }
    proof {
        assert(s@.subrange(start as int, i as int) =~= digits);
    }
    Some(acc)
}

/// Parses a decimal integer with an optional sign, exactly when `s` has
/// `int_shape` and its value fits in an `i32`.
pub fn parse_i32(s: &str) -> (r: Option<i32>)
    ensures
        match r {
            Some(v) => int_shape(s@) && v == int_value(s@),
            None => !int_shape(s@) || int_value(s@) > i32::MAX || int_value(s@) < i32::MIN,
        },
{
    let len = s.unicode_len();
    if len == 0 {
        return None;
    }
    let first = s.get_char(0);
    let neg = first == '-';
    let signed = neg || first == '+';
    let start: usize = if signed {
        1
    } else {
        0
    };
    match parse_digits(s, start) {
        None => {
            proof {
                if !signed {
                    assert(s@.subrange(0, s@.len() as int) =~= s@);
                }
                if int_shape(s@) {
                    let digits = s@.subrange(start as int, s@.len() as int);
                    lemma_dec_value_nonneg(digits);
                }
            }
            None
        },
        Some(mag) => {
            proof {
                if !signed {
                    assert(s@.subrange(0, s@.len() as int) =~= s@);
                }
            }
            if neg {
                if mag > 0x8000_0000 {
                    None
                } else {
                    Some((-mag) as i32)
                }
            } else {
                if mag > 0x7fff_ffff {
                    None
                } else {
                    Some(mag as i32)
                }
            }
        },
    }
}

/// Parses the contents of a pid file: a decimal process id.
pub fn parse_pid(s: &str) -> (r: Option<i32>)
    ensures
        match r {
            Some(v) => int_shape(s@) && v == int_value(s@),
            None => !int_shape(s@) || int_value(s@) > i32::MAX || int_value(s@) < i32::MIN,
        },
{
    parse_i32(s)
}

/// `p` with trailing separators removed; a path names the same directory
/// with or without them.
pub open spec fn trim_slashes(p: Seq<char>) -> Seq<char>
    decreases p.len(),
{
    if p.len() > 0 && p.last() == '/' {
        trim_slashes(p.drop_last())
    } else {
        p
    }
}

/// The characters after the last separator of `p`.
pub open spec fn after_last_slash(p: Seq<char>) -> Seq<char>
    decreases p.len(),
{
    if p.len() == 0 {
        p
    } else if p.last() == '/' {
        Seq::empty()
    } else {
        after_last_slash(p.drop_last()).push(p.last())
    }
}

/// The file name of `p`: its last component, with trailing separators
/// ignored.
pub open spec fn file_name_of(p: Seq<char>) -> Seq<char> {
    after_last_slash(trim_slashes(p))
}

/// A path whose file name can take a suffix: the last component must exist
/// and must not be one of the relative segments `.` and `..`.
pub open spec fn suffixable(p: Seq<char>) -> bool {
    &&& file_name_of(p).len() > 0
    &&& file_name_of(p) != "."@
    &&& file_name_of(p) != ".."@
}

/// The position right after the trailing separators of `path` are dropped.
fn slash_trimmed_end(path: &str) -> (end: usize)
    ensures
        end <= path@.len(),
        path@.subrange(0, end as int) == trim_slashes(path@),
{
    let len = path.unicode_len();
    let mut end = len;
    proof {
        assert(path@.subrange(0, len as int) =~= path@);
    }
    while end > 0 && path.get_char(end - 1) == '/'
        invariant
            0 <= end <= len,
            len == path@.len(),
            trim_slashes(path@) == trim_slashes(path@.subrange(0, end as int)),
        decreases end,
    {
        proof {
            assert(path@.subrange(0, end as int).drop_last() =~= path@.subrange(0, end - 1));
        }
        end -= 1;
    }
    proof {
        if end > 0 {
            assert(trim_slashes(path@.subrange(0, end as int)) == path@.subrange(0, end as int));
        } else {
            assert(path@.subrange(0, 0) =~= Seq::<char>::empty());
        }
    }
    end
}

/// The start of the file name: the position after the last separator before
/// `end`.
fn component_start(path: &str, end: usize) -> (start: usize)
    requires
        end <= path@.len(),
        path@.subrange(0, end as int) == trim_slashes(path@),
    ensures
        start <= end,
        file_name_of(path@) == path@.subrange(start as int, end as int),
{
    let ghost trimmed = path@.subrange(0, end as int);
    let mut start = end;
    proof {
        assert(path@.subrange(end as int, end as int) =~= Seq::<char>::empty());
        assert(after_last_slash(trimmed) + Seq::<char>::empty() =~= after_last_slash(trimmed));
    }
    while start > 0 && path.get_char(start - 1) != '/'
        invariant
            0 <= start <= end,
            end <= path@.len(),
            trimmed == path@.subrange(0, end as int),
            after_last_slash(trimmed) == after_last_slash(path@.subrange(0, start as int))
                + path@.subrange(start as int, end as int),
        decreases start,
    {
        proof {
            let a = path@.subrange(0, start as int);
            assert(a.drop_last() =~= path@.subrange(0, start - 1));
            assert(a.last() == path@[start - 1]);
            assert(after_last_slash(path@.subrange(0, start - 1)).push(path@[start - 1])
                + path@.subrange(start as int, end as int) =~= after_last_slash(
                path@.subrange(0, start - 1),
            ) + path@.subrange(start - 1, end as int));
        }
        start -= 1;
    }
    proof {
        if start > 0 {
            assert(path@.subrange(0, start as int).last() == path@[start - 1]);
            assert(after_last_slash(path@.subrange(0, start as int)) =~= Seq::<char>::empty());
        } else {
            assert(path@.subrange(0, 0) =~= Seq::<char>::empty());
        }
        assert(file_name_of(path@) =~= path@.subrange(start as int, end as int));
    }
    start
}

/// Whether `path`'s file name can take a suffix.
pub fn is_suffixable(path: &str) -> (r: bool)
    ensures
        r == suffixable(path@),
{
    proof {
        reveal_strlit(".");
        reveal_strlit("..");
    }
    let end = slash_trimmed_end(path);
    let start = component_start(path, end);
    let ghost name = file_name_of(path@);
    if start == end {
        return false;
    }
    if end - start == 1 && path.get_char(start) == '.' {
        proof {
            assert(name =~= "."@);
        }
        return false;
    }
    if end - start == 2 && path.get_char(start) == '.' && path.get_char(start + 1) == '.' {
        proof {
            assert(name =~= ".."@);
        }
        return false;
    }
    proof {
        assert(name[0] == path@[start as int]);
        if name.len() == 2 {
            assert(name[1] == path@[start + 1]);
        }
    }
    true
}

/// Appends `suffix` to the file name of `path`, ignoring trailing
/// separators, as replacing the file name with itself plus the suffix does.
pub fn add_suffix_to_path(path: &str, suffix: &str) -> (r: String)
    requires
        suffixable(path@),
    ensures
        r@ == trim_slashes(path@) + suffix@,
{
    let end = slash_trimmed_end(path);
    let kept = path.substring_char(0, end);
    proof {
        assert(kept@ =~= path@.subrange(0, end as int));
    }
    let mut s = kept.to_owned();
    s.append(suffix);
    s
}

/// `path` with the leading `prefix` removed: empty when the two are equal,
/// the remainder when `path` continues under `prefix` with a separator, and
/// `path` unchanged otherwise.
pub open spec fn strip_prefix_path_spec(prefix: Seq<char>, path: Seq<char>) -> Seq<char> {
    if path == prefix {
        Seq::empty()
    } else if path.len() >= prefix.len() + 1 && path.subrange(0, prefix.len() + 1int) == prefix + "/"@ {
        path.subrange(prefix.len() + 1int, path.len() as int)
    } else {
        path
    }
}

/// Removes the leading `prefix` from `path` where it is a path prefix,
/// leaving `path` unchanged otherwise.
pub fn maybe_strip_prefix(prefix: &str, path: &str) -> (r: String)
    ensures
        r@ == strip_prefix_path_spec(prefix@, path@),
{
    proof {
        reveal_strlit("/");
    }
    let p_len = prefix.unicode_len();
    let t_len = path.unicode_len();
    match strip_prefix(prefix, path) {
        None => {
            proof {
                assert(path@ != prefix@) by {
                    if path@ == prefix@ {
                        assert(path@ == prefix@ + Seq::<char>::empty());
                    }
                }
                if path@.len() >= prefix@.len() + 1int && path@.subrange(0, prefix@.len() + 1int)
                    == prefix@ + "/"@ {
                    let pl = prefix@.len() as int;
                    let rest = path@.subrange(pl, path@.len() as int);
                    assert forall|i: int| 0 <= i < pl implies path@[i] == prefix@[i] by {
                        assert(path@.subrange(0, pl + 1)[i] == path@[i]);
                        assert((prefix@ + "/"@)[i] == prefix@[i]);
                    }
                    assert(path@ =~= prefix@ + rest);
                }
            }
            path.to_owned()
        },
        Some(rest) => {
            let r_len = rest.unicode_len();
            if r_len == 0 {
                proof {
                    assert(path@ =~= prefix@);
                }
                String::new()
            } else if rest.as_str().get_char(0) == '/' {
                let out = rest.as_str().substring_char(1, r_len);
                proof {
                    assert(path@.subrange(0, prefix@.len() + 1int) =~= prefix@ + "/"@);
                    assert(out@ =~= path@.subrange(prefix@.len() + 1int, path@.len() as int));
                    assert(path@ != prefix@);
                }
                out.to_owned()
            } else {
                proof {
                    assert(path@ != prefix@);
                    if path@.len() >= prefix@.len() + 1int && path@.subrange(0, prefix@.len() + 1int)
                        == prefix@ + "/"@ {
                        let pl = prefix@.len() as int;
                        assert(path@.subrange(0, pl + 1)[pl] == path@[pl]);
                        assert((prefix@ + "/"@)[pl] == "/"@[0]);
                        assert(path@[pl] == '/');
                        assert(rest@[0] == path@[pl]);
                    }
                }
                path.to_owned()
            }
        },
    }
}

/// Whether `c` is blank: a space, tab, carriage return or newline.
pub open spec fn is_blank(c: char) -> bool {
    c == ' ' || c == '\t' || c == '\r' || c == '\n'
}

/// `s` with leading blanks removed.
pub open spec fn trim_front(s: Seq<char>) -> Seq<char>
    decreases s.len(),
{
    if s.len() > 0 && is_blank(s[0]) {
        trim_front(s.subrange(1, s.len() as int))
    } else {
        s
    }
}

/// `s` with trailing blanks removed.
pub open spec fn trim_back(s: Seq<char>) -> Seq<char>
    decreases s.len(),
{
    if s.len() > 0 && is_blank(s.last()) {
        trim_back(s.drop_last())
    } else {
        s
    }
}

/// `s` with blanks removed from both ends.
pub open spec fn trim_spec(s: Seq<char>) -> Seq<char> {
    trim_back(trim_front(s))
}

/// Whether `c` is blank.
fn is_blank_char(c: char) -> (r: bool)
    ensures
        r == is_blank(c),
{
    c == ' ' || c == '\t' || c == '\r' || c == '\n'
}

/// Removes leading and trailing blanks.
pub fn trim(s: &str) -> (r: String)
    ensures
        r@ == trim_spec(s@),
{
    let len = s.unicode_len();
    let mut start: usize = 0;
    proof {
        assert(s@.subrange(0, len as int) =~= s@);
    }
    while start < len && is_blank_char(s.get_char(start))
        invariant
            0 <= start <= len,
            len == s@.len(),
            trim_front(s@) == trim_front(s@.subrange(start as int, len as int)),
        decreases len - start,
    {
        proof {
            assert(s@.subrange(start as int, len as int).subrange(
                1,
                s@.subrange(start as int, len as int).len() as int,
            ) =~= s@.subrange(start + 1, len as int));
        }
        start += 1;
    }
    let ghost front = s@.subrange(start as int, len as int);
    proof {
        if start < len {
            assert(!is_blank(front[0]));
        }
        assert(trim_front(front) == front);
    }
    let mut end = len;
    while end > start && is_blank_char(s.get_char(end - 1))
        invariant
            start <= end <= len,
            len == s@.len(),
            trim_front(s@) == front,
            front == s@.subrange(start as int, len as int),
            trim_front(front) == front,
            trim_back(front) == trim_back(s@.subrange(start as int, end as int)),
        decreases end,
    {
        proof {
            assert(s@.subrange(start as int, end as int).drop_last() =~= s@.subrange(
                start as int,
                end - 1,
            ));
        }
        end -= 1;
    }
    let kept = s.substring_char(start, end);
    proof {
        let mid = s@.subrange(start as int, end as int);
        assert(kept@ =~= mid);
        if end > start {
            assert(!is_blank(mid.last()));
            assert(trim_back(mid) == mid);
        } else {
            assert(mid =~= Seq::<char>::empty());
            assert(trim_back(mid) == mid);
        }
    }
    kept.to_owned()
}

/// `s` with every trailing newline removed.
pub open spec fn trim_newlines(s: Seq<char>) -> Seq<char>
    decreases s.len(),
{
    if s.len() > 0 && s.last() == '\n' {
        trim_newlines(s.drop_last())
    } else {
        s
    }
}

/// Removes trailing newlines from `s`.
pub fn trim_trailing_newlines(s: &str) -> (r: String)
    ensures
        r@ == trim_newlines(s@),
{
    let len = s.unicode_len();
    let mut end = len;
    proof {
        assert(s@.subrange(0, len as int) =~= s@);
    }
    while end > 0 && s.get_char(end - 1) == '\n'
        invariant
            0 <= end <= len,
            len == s@.len(),
            trim_newlines(s@) == trim_newlines(s@.subrange(0, end as int)),
        decreases end,
    {
        proof {
            assert(s@.subrange(0, end as int).drop_last() =~= s@.subrange(0, end - 1));
        }
        end -= 1;
    }
    let kept = s.substring_char(0, end);
    proof {
        assert(kept@ =~= s@.subrange(0, end as int));
        if end > 0 {
            assert(trim_newlines(s@.subrange(0, end as int)) == s@.subrange(0, end as int));
        } else {
            assert(s@.subrange(0, 0) =~= Seq::<char>::empty());
        }
    }
    kept.to_owned()
}

/// Interprets the answer typed at a yes/no prompt: `y` or `n`, up to
/// trailing newlines. Any other answer is handed back trimmed.
pub fn parse_confirm(input: &str) -> (r: Result<Confirmed, String>)
    ensures
        match r {
            Ok(Confirmed::Yes) => trim_newlines(input@) == "y"@,
            Ok(Confirmed::No) => trim_newlines(input@) == "n"@,
            Err(other) => other@ == trim_newlines(input@) && trim_newlines(input@) != "y"@
                && trim_newlines(input@) != "n"@,
        },
{
    proof {
        reveal_strlit("y");
        reveal_strlit("n");
    }
    let t = trim_trailing_newlines(input);
    let t_len = t.as_str().unicode_len();
    if t_len == 1 {
        let c = t.as_str().get_char(0);
        if c == 'y' {
            proof {
                assert(t@ =~= "y"@);
            }
            return Ok(Confirmed::Yes);
        }
        if c == 'n' {
            proof {
                assert(t@ =~= "n"@);
            }
            return Ok(Confirmed::No);
        }
    }
    Err(t)
}

/// The exit code to use when mirroring a child process's exit status:
/// `0` on success, the child's own code when it has one, and `128` plus the
/// signal number when the child was killed by a signal.
pub fn exit_code_of(success: bool, code: Option<i32>, signal: Option<i32>) -> (r: i32)
    requires
        !success ==> code is Some || (signal matches Some(s) && 0 <= s <= 125),
    ensures
        success ==> r == 0,
        !success ==> match (code, signal) {
            (Some(c), _) => r == c,
            (None, Some(s)) => r == 128 + s,
            (None, None) => true,
        },
{
    if success {
        0
    } else {
        match code {
            Some(c) => c,
            None => match signal {
                Some(s) => 128 + s,
                None => 0,
            },
        }
    }
}

} // verus!
