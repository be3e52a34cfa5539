//! Recordings left behind by a crash: which files in the recovery folder
//! are such recordings, under which id, and in which order they are
//! offered.
use crate::file_names::{extension_chars, extension_spec, file_name_chars, file_name_spec};
use crate::text::{chars_of, ends_with_chars, has_suffix, string_from_chars};
use vstd::prelude::*;

verus! {

/// `s` without every trailing occurrence of `suffix` (`trim_end_matches`).
pub open spec fn trim_end_matches(s: Seq<char>, suffix: Seq<char>) -> Seq<char>
    decreases s.len(),
{
    if suffix.len() > 0 && has_suffix(s, suffix) {
        trim_end_matches(s.take(s.len() - suffix.len()), suffix)
    } else {
        s
    }
}

pub open spec fn partial_suffix() -> Seq<char> {
    ".partial.ogg"@
}

/// A recording left behind is an `.ogg` file whose name ends in
/// `.partial.ogg`; its id is the name without that ending.
pub open spec fn recoverable_id_spec(path: Seq<char>) -> Option<Seq<char>> {
    let name = file_name_spec(path);
    if extension_spec(path) == Some("ogg"@) && has_suffix(name, partial_suffix()) {
        Some(trim_end_matches(name, partial_suffix()))
    } else {
        None
    }
}

pub fn recoverable_id(path: &str) -> (r: Option<String>)
    ensures
        match recoverable_id_spec(path@) {
            Some(id) => r is Some && r->0@ == id,
            None => r is None,
        },
{
    let is_ogg = match extension_chars(path) {
        Some(e) => crate::text::chars_eq(&e, &chars_of("ogg")),
        None => false,
    };
    let name = file_name_chars(path);
    let suffix = chars_of(".partial.ogg");
    if !is_ogg || !ends_with_chars(&name, &suffix) {
        return None;
    }
    proof {
        reveal_strlit(".partial.ogg");
    }
    let mut id = name;
    while ends_with_chars(&id, &suffix)
        invariant
            suffix@ == partial_suffix(),
            suffix@.len() == 12,
            trim_end_matches(id@, suffix@) == trim_end_matches(file_name_spec(path@), suffix@),
        decreases id@.len(),
    {
        let cut = id.len() - suffix.len();
        let shorter = crate::text::slice_to_vec(&id, 0, cut);
        assert(shorter@ =~= id@.take(id@.len() - suffix@.len()));
        id = shorter;
    }
    Some(string_from_chars(&id))
}

/// A recording left behind, as offered for recovery.
#[derive(Debug, Clone)]
pub struct RecoverableFile {
    pub id: String,
    pub path: String,
    /// When the file was created, in nanoseconds since the Unix epoch.
    pub created_at_nanos: i128,
    pub size_bytes: u64,
}

/// Where `x` goes in a list ordered newest first: after the last file
/// created no earlier, so that files of the same time keep their order.
pub open spec fn newest_position(sorted: Seq<RecoverableFile>, x: RecoverableFile) -> int
    decreases sorted.len(),
{
    if sorted.len() == 0 {
        0
    } else if sorted.last().created_at_nanos >= x.created_at_nanos {
        sorted.len() as int
    } else {
        newest_position(sorted.drop_last(), x)
    }
}

/// The files stably ordered newest first.
pub open spec fn newest_first_spec(s: Seq<RecoverableFile>) -> Seq<RecoverableFile>
    decreases s.len(),
{
    if s.len() == 0 {
        s
    } else {
        let sorted = newest_first_spec(s.drop_last());
        sorted.insert(newest_position(sorted, s.last()), s.last())
    }
}

/// The files newest first; files created at the same time keep their
/// order.
pub fn newest_first(files: Vec<RecoverableFile>) -> (r: Vec<RecoverableFile>)
    ensures
        r@ == newest_first_spec(files@),
{
    let mut input = files;
    let ghost all = input@;
    let n = input.len();
    let mut out: Vec<RecoverableFile> = Vec::new();
    let mut i: usize = 0;
    assert(all.take(0) =~= seq![]);
    assert(all.skip(0) =~= all);
    while input.len() > 0
        invariant
            i + input@.len() == n,
            all.len() == n,
            input@ == all.skip(i as int),
            out@ == newest_first_spec(all.take(i as int)),
        decreases input@.len(),
    {
        let ghost before_input = input@;
        let x = input.remove(0);
        assert(all.skip(i as int)[0] == x);
        let mut j = out.len();
        let ghost sorted = out@;
        assert(sorted.take(j as int) =~= sorted);
        while j > 0 && out[j - 1].created_at_nanos < x.created_at_nanos
            invariant
                j <= out@.len(),
                sorted == out@,
                newest_position(sorted, x) == newest_position(sorted.take(j as int), x),
            decreases j,
        {
            assert(sorted.take(j as int).drop_last() =~= sorted.take(j - 1));
            j = j - 1;
        }
        proof {
            if j == 0 {
                assert(sorted.take(0).len() == 0);
            }
        }
        out.insert(j, x);
        assert(all.take(i + 1).drop_last() =~= all.take(i as int));
        assert(all.skip(i + 1) =~= all.skip(i as int).drop_first());
        assert(input@ =~= before_input.drop_first());
        i = i + 1;
    }
    assert(all.take(n as int) =~= all);
    out
}

/// Recordings are offered newest first.
pub proof fn lemma_recoverable_files_newest_first(s: Seq<RecoverableFile>)
    ensures
        newest_first_spec(s).len() == s.len(),
        forall|i: int, j: int|
            0 <= i < j < s.len() ==> #[trigger] newest_first_spec(s)[i].created_at_nanos
                >= #[trigger] newest_first_spec(s)[j].created_at_nanos,
    decreases s.len(),
{
    if s.len() > 0 {
        let prev = s.drop_last();
        lemma_recoverable_files_newest_first(prev);
        let sorted = newest_first_spec(prev);
        let x = s.last();
        lemma_newest_position(sorted, x);
        let p = newest_position(sorted, x);
        let r = sorted.insert(p, x);
        assert forall|i: int, j: int| 0 <= i < j < r.len() implies #[trigger] r[i].created_at_nanos
            >= #[trigger] r[j].created_at_nanos by {
            if j < p {
                assert(r[i] == sorted[i] && r[j] == sorted[j]);
            } else if j == p {
                assert(r[i] == sorted[i]);
            } else if i < p {
                assert(r[i] == sorted[i] && r[j] == sorted[j - 1]);
            } else if i == p {
                assert(r[j] == sorted[j - 1]);
            } else {
                assert(r[i] == sorted[i - 1] && r[j] == sorted[j - 1]);
            }
        }
    }
}

proof fn lemma_newest_position(sorted: Seq<RecoverableFile>, x: RecoverableFile)
    requires
        forall|i: int, j: int|
            0 <= i < j < sorted.len() ==> #[trigger] sorted[i].created_at_nanos
                >= #[trigger] sorted[j].created_at_nanos,
    ensures
        0 <= newest_position(sorted, x) <= sorted.len(),
        forall|i: int|
            0 <= i < newest_position(sorted, x) ==> #[trigger] sorted[i].created_at_nanos
                >= x.created_at_nanos,
        forall|i: int|
            newest_position(sorted, x) <= i < sorted.len() ==> #[trigger] sorted[i].created_at_nanos
                < x.created_at_nanos,
    decreases sorted.len(),
{
    if sorted.len() > 0 {
        let init = sorted.drop_last();
        assert forall|i: int, j: int| 0 <= i < j < init.len() implies #[trigger] init[i].created_at_nanos
            >= #[trigger] init[j].created_at_nanos by {
            assert(init[i] == sorted[i] && init[j] == sorted[j]);
        }
        lemma_newest_position(init, x);
        let last = sorted.len() - 1;
        if sorted[last].created_at_nanos >= x.created_at_nanos {
            assert forall|i: int| 0 <= i < sorted.len() implies #[trigger] sorted[i].created_at_nanos
                >= x.created_at_nanos by {
                if i < last {
                    assert(sorted[i].created_at_nanos >= sorted[last].created_at_nanos);
                }
            }
        } else {
            assert forall|i: int| newest_position(sorted, x) <= i < sorted.len() implies #[trigger] sorted[i].created_at_nanos
                < x.created_at_nanos by {
                if i < last {
                    assert(init[i] == sorted[i]);
                }
            }
            assert forall|i: int| 0 <= i < newest_position(sorted, x) implies #[trigger] sorted[i].created_at_nanos
                >= x.created_at_nanos by {
                assert(init[i] == sorted[i]);
            }
        }
    }
}

} // verus!
