use vstd::prelude::*;
use crate::errors::LaunchError;
use crate::text::{
    count_char, find_char, find_idx, lemma_count_after_first, lemma_count_zero_iff_absent,
    lemma_find_idx_bounds, trim_str, trimmed,
};

verus! {

/// The entries of an environment specification: the text split on `;`,
/// every piece kept, order preserved. An empty text is one empty entry.
pub open spec fn entries(s: Seq<char>) -> Seq<Seq<char>>
    decreases s.len(),
{
    let k = find_idx(s, ';');
    if 0 <= k < s.len() {
        seq![s.take(k)] + entries(s.skip(k + 1))
    } else {
        seq![s]
    }
}

/// An entry is well formed when it holds exactly one `=`.
pub open spec fn entry_ok(e: Seq<char>) -> bool {
    count_char(e, '=') == 1
}

/// The pair a well-formed entry yields: the text on each side of its one
/// `=`, each side trimmed of surrounding ASCII whitespace.
pub open spec fn entry_pair(e: Seq<char>) -> (Seq<char>, Seq<char>) {
    let k = find_idx(e, '=');
    (trimmed(e.take(k)), trimmed(e.skip(k + 1)))
}

/// A specification parses exactly when every entry is well formed.
pub open spec fn env_ok(s: Seq<char>) -> bool {
    forall|i: int| 0 <= i < entries(s).len() ==> entry_ok(#[trigger] entries(s)[i])
}

/// The parsed pairs, one per entry, order preserved.
pub open spec fn env_pairs(s: Seq<char>) -> Seq<(Seq<char>, Seq<char>)> {
    entries(s).map_values(|e: Seq<char>| entry_pair(e))
}

/// A text without `;` is one single entry.
proof fn lemma_entries_single(s: Seq<char>)
    requires
        find_idx(s, ';') == -1,
    ensures
        entries(s) == seq![s],
        env_ok(s) <==> entry_ok(s),
        env_pairs(s) == seq![entry_pair(s)],
{
    assert(entries(s)[0] == s);
    assert(env_pairs(s) =~= seq![entry_pair(s)]);
    if entry_ok(s) {
        assert forall|i: int| 0 <= i < entries(s).len() implies entry_ok(
            #[trigger] entries(s)[i],
        ) by {
            assert(entries(s)[i] == s);
        }
    }
}

/// Splitting at the first `;` cuts one entry off the front and leaves the
/// entries of the rest.
proof fn lemma_entries_split(s: Seq<char>)
    requires
        0 <= find_idx(s, ';') < s.len(),
    ensures
        entries(s) == seq![s.take(find_idx(s, ';'))] + entries(s.skip(find_idx(s, ';') + 1)),
        env_ok(s) <==> (entry_ok(s.take(find_idx(s, ';'))) && env_ok(
            s.skip(find_idx(s, ';') + 1),
        )),
        env_pairs(s) == seq![entry_pair(s.take(find_idx(s, ';')))] + env_pairs(
            s.skip(find_idx(s, ';') + 1),
        ),
{
    let k = find_idx(s, ';');
    let head = s.take(k);
    let tail = s.skip(k + 1);
    assert(entries(s) == seq![head] + entries(tail));
    assert(entries(s)[0] == head);
    assert(forall|i: int|
        0 <= i < entries(tail).len() ==> #[trigger] entries(tail)[i] == entries(s)[i + 1]);
    if entry_ok(head) && env_ok(tail) {
        assert forall|i: int| 0 <= i < entries(s).len() implies entry_ok(
            #[trigger] entries(s)[i],
        ) by {
            if i > 0 {
                assert(entries(s)[i] == entries(tail)[i - 1]);
            }
        }
    }
    if env_ok(s) {
        assert(entry_ok(entries(s)[0]));
    }
    assert(env_pairs(s) =~= seq![entry_pair(head)] + env_pairs(tail));
}

/// Parses one entry: exactly one `=`, a trimmed key on its left and a
/// trimmed value on its right. Every other entry is a malformed
/// specification — a fatal caller error, detected before any socket work.
pub fn parse_entry(e: &str) -> (r: Result<(String, String), LaunchError>)
    ensures
        r is Ok <==> entry_ok(e@),
        r matches Ok(p) ==> p.0@ == entry_pair(e@).0 && p.1@ == entry_pair(e@).1,
        r is Err ==> r == Err::<(String, String), LaunchError>(LaunchError::MalformedEnvSpec),
{
    let n = e.unicode_len();
    proof {
        lemma_find_idx_bounds(e@, '=');
    }
    match find_char(e, '=') {
        None => {
            proof {
                lemma_count_zero_iff_absent(e@, '=');
            }
            Err(LaunchError::MalformedEnvSpec)
        },
        Some(k) => {
            let rest = e.substring_char(k + 1, n);
            proof {
                assert(rest@ =~= e@.skip(k + 1));
                lemma_count_after_first(e@, '=');
                lemma_count_zero_iff_absent(rest@, '=');
            }
            match find_char(rest, '=') {
                Some(_) => Err(LaunchError::MalformedEnvSpec),
                None => {
                    let key = trim_str(e.substring_char(0, k));
                    let value = trim_str(rest);
                    proof {
                        assert(e@.subrange(0, k as int) =~= e@.take(k as int));
                    }
                    Ok((key, value))
                },
            }
        },
    }
}

/// Parses a whole environment specification into its key/value pairs,
/// order preserved. Returns the malformed-specification error — and no
/// pairs at all — as soon as any entry lacks exactly one `=`.
pub fn parse_env_spec(s: &str) -> (r: Result<Vec<(String, String)>, LaunchError>)
    ensures
        r is Ok <==> env_ok(s@),
        r matches Ok(v) ==> {
            &&& v@.len() == env_pairs(s@).len()
            &&& forall|i: int|
                0 <= i < v@.len() ==> (#[trigger] v@[i]).0@ == env_pairs(s@)[i].0 && v@[i].1@
                    == env_pairs(s@)[i].1
        },
        r is Err ==> r == Err::<Vec<(String, String)>, LaunchError>(LaunchError::MalformedEnvSpec),
    decreases s@.len(),
{
    let n = s.unicode_len();
    proof {
        lemma_find_idx_bounds(s@, ';');
    }
    match find_char(s, ';') {
        None => {
            proof {
                lemma_entries_single(s@);
            }
            match parse_entry(s) {
                Ok(p) => {
                    let mut v: Vec<(String, String)> = Vec::new();
                    v.push(p);
                    Ok(v)
                },
                Err(e) => Err(e),
            }
        },
        Some(k) => {
            let head = s.substring_char(0, k);
            let tail = s.substring_char(k + 1, n);
            proof {
                lemma_entries_split(s@);
                assert(head@ =~= s@.take(k as int));
                assert(tail@ =~= s@.skip(k + 1));
            }
            match parse_entry(head) {
                Err(e) => Err(e),
                Ok(p) => {
                    match parse_env_spec(tail) {
                        Err(e) => Err(e),
                        Ok(mut v) => {
                            v.insert(0, p);
                            proof {
                                assert(env_pairs(s@)[0] == entry_pair(head@));
                                assert(forall|i: int|
                                    0 <= i < env_pairs(tail@).len()
                                        ==> #[trigger] env_pairs(tail@)[i] == env_pairs(s@)[i + 1]);
                            }
                            Ok(v)
                        },
                    }
                },
            }
        },
    }
}

} // verus!
