//! Text rules: cleaning a typed path and recognising the file kinds that are sorted.

use vstd::prelude::*;
use vstd::string::StrSliceExecFns;

verus! {

/// A character with the Unicode `White_Space` property.
pub open spec fn is_white_space(c: char) -> bool {
    let u = c as u32;
    (0x9 <= u && u <= 0xd) || u == 0x20 || u == 0x85 || u == 0xa0 || u == 0x1680 || (0x2000 <= u
        && u <= 0x200a) || u == 0x2028 || u == 0x2029 || u == 0x202f || u == 0x205f || u == 0x3000
}

/// `s` without its leading white space.
pub open spec fn trim_start(s: Seq<char>) -> Seq<char>
    decreases s.len(),
{
    if s.len() > 0 && is_white_space(s[0]) {
        trim_start(s.drop_first())
    } else {
        s
    }
}

/// `s` without its trailing white space.
pub open spec fn trim_end(s: Seq<char>) -> Seq<char>
    decreases s.len(),
{
    if s.len() > 0 && is_white_space(s.last()) {
        trim_end(s.drop_last())
    } else {
        s
    }
}

/// `s` without leading and trailing white space.
pub open spec fn trimmed(s: Seq<char>) -> Seq<char> {
    trim_end(trim_start(s))
}

/// `s` is wrapped in one pair of single quotes.
pub open spec fn is_quoted(s: Seq<char>) -> bool {
    s.len() >= 2 && s[0] == '\'' && s.last() == '\''
}

/// The path that a typed line stands for: trimmed, then stripped of one outer
/// pair of single quotes if it has one.
pub open spec fn cleaned_input(s: Seq<char>) -> Seq<char> {
    let t = trimmed(s);
    if is_quoted(t) {
        t.subrange(1, t.len() - 1)
    } else {
        t
    }
}

/// Relies on `str::trim`: leading and trailing `White_Space` characters removed.
#[verifier::external_body]
fn trim_str(s: &str) -> (r: &str)
    ensures
        r@ == trimmed(s@),
{
    s.trim()
}

/// Turns a typed line into a folder path: surrounding white space is removed,
/// then one pair of single quotes around the rest, if both ends hold one.
/// Nothing inside is unescaped.
pub fn remove_quotes(input: &str) -> (r: String)
    ensures
        r@ == cleaned_input(input@),
{
    let t = trim_str(input);
    let n = t.unicode_len();
    if n >= 2 && t.get_char(0) == '\'' && t.get_char(n - 1) == '\'' {
        t.substring_char(1, n - 1).to_owned()
    } else {
        t.to_owned()
    }
}

/// What `str::to_uppercase` makes of a text.
pub uninterp spec fn upper_of(s: Seq<char>) -> Seq<char>;

/// `needle` stands in `hay` from position `i` on.
pub open spec fn occurs_at(hay: Seq<char>, needle: Seq<char>, i: int) -> bool {
    0 <= i && i + needle.len() <= hay.len() && hay.subrange(i, i + needle.len()) == needle
}

/// `needle` stands somewhere in `hay`.
pub open spec fn contains_seq(hay: Seq<char>, needle: Seq<char>) -> bool {
    exists|i: int| occurs_at(hay, needle, i)
}

/// The upper-case markers of the file kinds that are sorted.
pub open spec fn sorted_markers() -> Seq<Seq<char>> {
    seq![
        seq!['.', 'J', 'P', 'G'],
        seq!['.', 'J', 'P', 'E', 'G'],
        seq!['.', 'P', 'N', 'G'],
        seq!['.', 'P', 'D', 'F'],
        seq!['.', 'J', 'S'],
    ]
}

/// An upper-case text holds one of the markers anywhere, not only at its end.
pub open spec fn has_marker(upper: Seq<char>) -> bool {
    exists|k: int| 0 <= k < sorted_markers().len() && contains_seq(upper, #[trigger] sorted_markers()[k])
}

/// Relies on `str::to_uppercase`: the upper-case form depends on the text alone.
#[verifier::external_body]
fn upper_case(s: &str) -> (r: String)
    ensures
        r@ == upper_of(s@),
{
    s.to_uppercase()
}

/// The characters of `s`, in order.
pub fn chars_of(s: &str) -> (r: Vec<char>)
    ensures
        r@ == s@,
{
    let n = s.unicode_len();
    let mut r: Vec<char> = Vec::new();
    let mut i: usize = 0;
    while i < n
        invariant
            n == s@.len(),
            i <= n,
            r@ == s@.subrange(0, i as int),
        decreases n - i,
    {
        r.push(s.get_char(i));
        i += 1;
    }
    assert(r@ =~= s@);
    r
}

/// Whether `needle` stands somewhere in `hay`.
pub fn contains_chars(hay: &Vec<char>, needle: &Vec<char>) -> (r: bool)
    ensures
        r == contains_seq(hay@, needle@),
{
    let h = hay.len();
    let n = needle.len();
    if n > h {
        assert forall|k: int| !occurs_at(hay@, needle@, k) by {}
        return false;
    }
    let mut i: usize = 0;
    while i <= h - n
        invariant
            n <= h,
            h == hay@.len(),
            n == needle@.len(),
            i <= h - n + 1,
            forall|k: int| 0 <= k < i ==> !occurs_at(hay@, needle@, k),
        decreases h - n + 1 - i,
    {
        let mut j: usize = 0;
        while j < n && hay[i + j] == needle[j]
            invariant
                i + n <= h,
                h == hay@.len(),
                n == needle@.len(),
                j <= n,
                forall|m: int| 0 <= m < j ==> hay@[i + m] == needle@[m],
            decreases n - j,
        {
            j += 1;
        }
        if j == n {
            assert(hay@.subrange(i as int, i + n) =~= needle@);
            assert(occurs_at(hay@, needle@, i as int));
            return true;
        }
        assert(hay@.subrange(i as int, i + n)[j as int] != needle@[j as int]);
        i += 1;
    }
    assert forall|k: int| !occurs_at(hay@, needle@, k) by {
        if 0 <= k < i {
        }
    }
    false
}

/// Whether an upper-case path holds one of `.JPG`, `.JPEG`, `.PNG`, `.PDF`,
/// `.JS` anywhere in it.
pub fn has_sorted_marker(upper: &str) -> (r: bool)
    ensures
        r == has_marker(upper@),
{
    let u = chars_of(upper);
    let markers: Vec<Vec<char>> = vec![
        vec!['.', 'J', 'P', 'G'],
        vec!['.', 'J', 'P', 'E', 'G'],
        vec!['.', 'P', 'N', 'G'],
        vec!['.', 'P', 'D', 'F'],
        vec!['.', 'J', 'S'],
    ];
    let mut k: usize = 0;
    while k < markers.len()
        invariant
            u@ == upper@,
            markers.len() == sorted_markers().len(),
            forall|m: int| 0 <= m < markers.len() ==> (#[trigger] markers@[m])@ == sorted_markers()[m],
            k <= markers.len(),
            forall|m: int| 0 <= m < k ==> !contains_seq(upper@, #[trigger] sorted_markers()[m]),
        decreases markers.len() - k,
    {
        if contains_chars(&u, &markers[k]) {
            return true;
        }
        k += 1;
    }
    false
}

/// Whether a file is sorted: its path, in upper case, holds one of the
/// markers `.JPG`, `.JPEG`, `.PNG`, `.PDF`, `.JS` anywhere, so that case does
/// not matter and a marker inside a folder name counts too.
pub fn check_extension(file_name: &str) -> (r: bool)
    ensures
        r == has_marker(upper_of(file_name@)),
{
    let upper = upper_case(file_name);
    has_sorted_marker(upper.as_str())
}

} // verus!
