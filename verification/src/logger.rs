//! The run log: an append-only sequence of failure entries, flushed at most
//! once, to a timestamped file, and only when it is non-empty.

use vstd::prelude::*;
use vstd::string::*;
use crate::naming::{log_file_name, spec_log_file_name};
use crate::time::Timestamp;

verus! {

/// The view of each string in a sequence of strings.
pub open spec fn seq_views(ss: Seq<String>) -> Seq<Seq<char>> {
    Seq::new(ss.len(), |i: int| ss[i]@)
}

/// All entries concatenated in append order.
pub open spec fn spec_concat_entries(entries: Seq<Seq<char>>) -> Seq<char>
    decreases entries.len(),
{
    if entries.len() == 0 {
        Seq::empty()
    } else {
        entries[0] + spec_concat_entries(entries.drop_first())
    }
}

/// Concatenation of entries distributes over appending one entry.
pub proof fn lemma_concat_entries_push(entries: Seq<Seq<char>>, entry: Seq<char>)
    ensures
        spec_concat_entries(entries.push(entry)) == spec_concat_entries(entries) + entry,
    decreases entries.len(),
{
    if entries.len() == 0 {
        assert(entries.push(entry).drop_first() =~= Seq::<Seq<char>>::empty());
        assert(entries.push(entry)[0] == entry);
        assert(spec_concat_entries(entries.push(entry)) == entry + spec_concat_entries(
            Seq::<Seq<char>>::empty(),
        ));
        assert(spec_concat_entries(entries.push(entry)) =~= spec_concat_entries(entries) + entry);
    } else {
        assert(entries.push(entry).drop_first() =~= entries.drop_first().push(entry));
        lemma_concat_entries_push(entries.drop_first(), entry);
        assert(spec_concat_entries(entries.push(entry)) =~= spec_concat_entries(entries) + entry);
    }
}

/// Concatenates the accumulated entries in append order.
pub fn concat_entries(entries: &Vec<String>) -> (r: String)
    ensures
        r@ == spec_concat_entries(seq_views(entries@)),
{
    let mut acc = String::new();
    let mut i: usize = 0;
    while i < entries.len()
        invariant
            i <= entries@.len(),
            acc@ == spec_concat_entries(seq_views(entries@).take(i as int)),
        decreases entries@.len() - i,
    {
        acc.append(entries[i].as_str());
        proof {
            assert(seq_views(entries@).take(i + 1) =~= seq_views(entries@).take(i as int).push(
                entries@[i as int]@,
            ));
            lemma_concat_entries_push(seq_views(entries@).take(i as int), entries@[i as int]@);
        }
        i += 1;
    }
    proof {
        assert(seq_views(entries@).take(entries@.len() as int) =~= seq_views(entries@));
    }
    acc
}

/// Decides the one flush at end of run: no file when the buffer is empty;
/// otherwise exactly one file, named by the timestamp, holding every
/// accumulated entry in append order.
pub fn flush_if_non_empty(entries: &Vec<String>, ts: &Timestamp) -> (r: Option<(String, String)>)
    requires
        ts.wf(),
    ensures
        r is None <==> entries@.len() == 0,
        r matches Some(f) ==> f.0@ == spec_log_file_name(*ts) && f.1@ == spec_concat_entries(
            seq_views(entries@),
        ),
{
    if entries.len() == 0 {
        None
    } else {
        let name = log_file_name(ts);
        let content = concat_entries(entries);
        Some((name, content))
    }
}

} // verus!
