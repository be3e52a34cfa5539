//! File names and extensions of Windows paths, where both `\` and `/`
//! separate the components.
use crate::text::{ascii_lower_seq, chars_of, decimal, decimal_chars, push_chars, push_str, string_from_chars};
use vstd::prelude::*;

verus! {

pub open spec fn is_separator(c: char) -> bool {
    c == '/' || c == '\\'
}

/// What follows the last separator of `path`.
pub open spec fn last_component(path: Seq<char>) -> Seq<char>
    decreases path.len(),
{
    if path.len() == 0 {
        path
    } else if is_separator(path.last()) {
        seq![]
    } else {
        last_component(path.drop_last()).push(path.last())
    }
}

/// The path ends with a `.` component.
pub open spec fn ends_with_dot_component(path: Seq<char>) -> bool {
    path.len() > 0 && path.last() == '.' && (path.len() == 1 || is_separator(path[path.len() - 2]))
}

/// `path` without its trailing separators and `.` components, which do not
/// name a file.
pub open spec fn trim_tail(path: Seq<char>) -> Seq<char>
    decreases path.len(),
{
    if path.len() == 0 {
        path
    } else if is_separator(path.last()) || ends_with_dot_component(path) {
        trim_tail(path.drop_last())
    } else {
        path
    }
}

/// Length of a drive prefix such as `C:` at the start of `path`.
pub open spec fn drive_len(path: Seq<char>) -> int {
    if path.len() >= 2 && path[1] == ':' && (('a' <= path[0] && path[0] <= 'z') || ('A' <= path[0]
        && path[0] <= 'Z')) {
        2
    } else {
        0
    }
}

/// The file name of `path` (`Path::file_name`): after any drive prefix,
/// its last component once trailing separators and `.` components are set
/// aside; empty where there is none, as for `..` or a bare drive.
pub open spec fn file_name_spec(path: Seq<char>) -> Seq<char> {
    let c = last_component(trim_tail(path.skip(drive_len(path))));
    if c == seq!['.', '.'] {
        seq![]
    } else {
        c
    }
}

/// Position of the last `.` in `name`.
pub open spec fn last_dot(name: Seq<char>) -> Option<int>
    decreases name.len(),
{
    if name.len() == 0 {
        None
    } else if name.last() == '.' {
        Some(name.len() - 1)
    } else {
        last_dot(name.drop_last())
    }
}

/// The extension of `path` (`Path::extension`): what follows the last `.` of
/// the file name, unless the name only starts with a dot or is `..`.
pub open spec fn extension_spec(path: Seq<char>) -> Option<Seq<char>> {
    let name = file_name_spec(path);
    match last_dot(name) {
        Some(i) => if i > 0 {
            Some(name.skip(i + 1))
        } else {
            None
        },
        None => None,
    }
}

proof fn lemma_last_dot_facts(name: Seq<char>)
    ensures
        match last_dot(name) {
            Some(i) => 0 <= i < name.len() && name[i] == '.' && forall|j: int|
                i < j < name.len() ==> name[j] != '.',
            None => forall|j: int| 0 <= j < name.len() ==> name[j] != '.',
        },
    decreases name.len(),
{
    if name.len() > 0 && name.last() != '.' {
        lemma_last_dot_facts(name.drop_last());
        assert forall|j: int| 0 <= j < name.len() - 1 implies name.drop_last()[j] == name[j] by {}
    }
}

/// Index just after the last separator of `path`.
fn file_name_start(path: &[char]) -> (k: usize)
    ensures
        k <= path@.len(),
        last_component(path@) == path@.skip(k as int),
{
    let mut k = path.len();
    proof {
        assert(path@.skip(k as int) =~= seq![]);
        assert(path@.take(k as int) =~= path@);
    }
    while k > 0 && !(path[k - 1] == '/' || path[k - 1] == '\\')
        invariant
            k <= path@.len(),
            last_component(path@) == last_component(path@.take(k as int)) + path@.skip(k as int),
        decreases k,
    {
        let ghost before = path@.take(k as int);
        assert(before.drop_last() =~= path@.take(k - 1));
        assert(path@.skip(k - 1) =~= seq![path@[k - 1]] + path@.skip(k as int));
        assert(last_component(before) == last_component(path@.take(k - 1)).push(path@[k - 1]));
        k = k - 1;
    }
    if k == 0 {
        assert(path@.take(0) =~= seq![]);
    } else {
        assert(is_separator(path@.take(k as int).last()));
    }
    assert(last_component(path@.take(k as int)) =~= seq![]);
    assert(last_component(path@) =~= path@.skip(k as int));
    k
}

pub fn file_name_chars(path: &str) -> (r: Vec<char>)
    ensures
        r@ == file_name_spec(path@),
{
    let all = chars_of(path);
    let d: usize = if all.len() >= 2 && all[1] == ':' && (('a' <= all[0] && all[0] <= 'z') || ('A'
        <= all[0] && all[0] <= 'Z')) {
        2
    } else {
        0
    };
    let chars = crate::text::slice_to_vec(&all, d, all.len());
    assert(chars@ =~= all@.skip(drive_len(all@)));
    let mut end = chars.len();
    assert(chars@.take(end as int) =~= chars@);
    while end > 0 && (chars[end - 1] == '/' || chars[end - 1] == '\\' || (chars[end - 1] == '.' && (
    end == 1 || chars[end - 2] == '/' || chars[end - 2] == '\\')))
        invariant
            end <= chars@.len(),
            trim_tail(chars@) == trim_tail(chars@.take(end as int)),
        decreases end,
    {
        let ghost before = chars@.take(end as int);
        assert(before.drop_last() =~= chars@.take(end - 1));
        end = end - 1;
    }
    let kept = crate::text::slice_to_vec(&chars, 0, end);
    assert(kept@ =~= chars@.take(end as int));
    assert(trim_tail(kept@) == kept@);
    let k = file_name_start(&kept);
    let name = crate::text::slice_to_vec(&kept, k, kept.len());
    if name.len() == 2 && name[0] == '.' && name[1] == '.' {
        assert(name@ =~= seq!['.', '.']);
        return Vec::new();
    }
    assert(name@ != seq!['.', '.']) by {
        if name@ == seq!['.', '.'] {
            assert(name@.len() == 2);
        }
    }
    name
}

/// The extension of `path`, as characters.
pub fn extension_chars(path: &str) -> (r: Option<Vec<char>>)
    ensures
        match r {
            Some(e) => extension_spec(path@) == Some(e@),
            None => extension_spec(path@) is None,
        },
{
    let name = file_name_chars(path);
    let mut i = name.len();
    while i > 0 && name[i - 1] != '.'
        invariant
            i <= name@.len(),
            forall|j: int| i <= j < name@.len() ==> name@[j] != '.',
        decreases i,
    {
        i = i - 1;
    }
    proof {
        lemma_last_dot_facts(name@);
    }
    if i == 0 {
        assert(last_dot(name@) is None) by {
            match last_dot(name@) {
                Some(d) => {
                    assert(name@[d] != '.');
                },
                None => {},
            }
        }
        None
    } else if i == 1 {
        assert(last_dot(name@) == Some(0int)) by {
            match last_dot(name@) {
                Some(d) => {
                    if d > 0 {
                        assert(name@[d] != '.');
                    }
                },
                None => {
                    assert(name@[0] == '.');
                },
            }
        }
        None
    } else {
        assert(last_dot(name@) == Some(i - 1)) by {
            match last_dot(name@) {
                Some(d) => {
                    if d > i - 1 {
                        assert(name@[d] != '.');
                    }
                    if d < i - 1 {
                        assert(name@[i - 1] == '.');
                    }
                },
                None => {
                    assert(name@[i - 1] == '.');
                },
            }
        }
        let e = crate::text::slice_to_vec(&name, i, name.len());
        assert(e@ =~= name@.skip(i as int));
        Some(e)
    }
}

/// The extension of `path` compared without regard to ASCII case.
pub open spec fn has_extension_ignoring_case(path: Seq<char>, lower: Seq<char>) -> bool {
    extension_spec(path) matches Some(e) && ascii_lower_seq(e) == lower
}

pub fn has_extension(path: &str, lower: &str) -> (r: bool)
    requires
        ascii_lower_seq(lower@) == lower@,
    ensures
        r == has_extension_ignoring_case(path@, lower@),
{
    match extension_chars(path) {
        Some(e) => {
            let l = crate::text::ascii_lower_chars(&e);
            let want = chars_of(lower);
            crate::text::chars_eq(&l, &want)
        },
        None => false,
    }
}

/// `{stem}.ogg` for the first attempt, `{stem}_{n}.ogg` for attempt `n`.
pub open spec fn candidate_file_name_spec(stem: Seq<char>, attempt: u32) -> Seq<char> {
    if attempt <= 1 {
        stem + ".ogg"@
    } else {
        stem + seq!['_'] + decimal(attempt as nat) + ".ogg"@
    }
}

/// A name for a new recording file: the stem alone first, then numbered.
pub fn candidate_file_name(stem: &str, attempt: u32) -> (r: String)
    ensures
        r@ == candidate_file_name_spec(stem@, attempt),
{
    let mut out = chars_of(stem);
    if attempt > 1 {
        out.push('_');
        let digits = decimal_chars(attempt as u64);
        push_chars(&mut out, &digits);
    }
    push_str(&mut out, ".ogg");
    string_from_chars(&out)
}

/// The stem of a new recording's file, from the local time it starts:
/// `YYYY-MM-DD_HH-MM_会议录音`.
pub open spec fn recording_stem_spec(year: u32, month: u32, day: u32, hour: u32, minute: u32) -> Seq<char> {
    crate::text::zero_padded(year as nat, 4) + seq!['-'] + crate::text::zero_padded(month as nat, 2)
        + seq!['-'] + crate::text::zero_padded(day as nat, 2) + seq!['_'] + crate::text::zero_padded(
        hour as nat,
        2,
    ) + seq!['-'] + crate::text::zero_padded(minute as nat, 2) + "_会议录音"@
}

pub fn recording_stem(year: u32, month: u32, day: u32, hour: u32, minute: u32) -> (r: String)
    ensures
        r@ == recording_stem_spec(year, month, day, hour, minute),
{
    let mut out = crate::text::zero_padded_chars(year as u64, 4);
    out.push('-');
    push_chars(&mut out, &crate::text::zero_padded_chars(month as u64, 2));
    out.push('-');
    push_chars(&mut out, &crate::text::zero_padded_chars(day as u64, 2));
    out.push('_');
    push_chars(&mut out, &crate::text::zero_padded_chars(hour as u64, 2));
    out.push('-');
    push_chars(&mut out, &crate::text::zero_padded_chars(minute as u64, 2));
    push_str(&mut out, "_会议录音");
    string_from_chars(&out)
}

} // verus!
