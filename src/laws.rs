use vstd::prelude::*;

use crate::decimal::{decimal, nat_digits};
use crate::geometry::Detection;
use crate::marker_detection::{
    apply_detection, apply_frame, encode, origin_table, pair_text, position_of, MarkerDetector,
};

verus! {

/// `s` written `n` times in a row.
pub open spec fn repeat_text(s: Seq<char>, n: nat) -> Seq<char>
    decreases n,
{
    if n == 0 {
        Seq::empty()
    } else {
        repeat_text(s, (n - 1) as nat) + s
    }
}

/// Processing a frame never changes the number of entries.
pub proof fn frame_keeps_capacity(t: Seq<(i32, i32)>, ds: Seq<Detection>)
    ensures
        apply_frame(t, ds).len() == t.len(),
    decreases ds.len(),
{
    if ds.len() > 0 {
        frame_keeps_capacity(t, ds.drop_last());
    }
}

/// A fresh table of `n` entries encodes to `n` copies of "0 0 ".
pub proof fn fresh_table_encoding(n: nat)
    ensures
        encode(origin_table(n)) == repeat_text(seq!['0', ' ', '0', ' '], n),
    decreases n,
{
    if n > 0 {
        let t = origin_table(n);
        assert(t.drop_last() =~= origin_table((n - 1) as nat));
        fresh_table_encoding((n - 1) as nat);
        assert(decimal(0) == seq!['0']) by {
            reveal_with_fuel(nat_digits, 1);
        }
        assert(pair_text(t.last()) =~= seq!['0', ' ', '0', ' ']);
    }
}

/// Detections whose identifiers all lie outside the table leave every entry
/// as it was.
pub proof fn out_of_range_detections_ignored(t: Seq<(i32, i32)>, ds: Seq<Detection>)
    requires
        forall|k: int| 0 <= k < ds.len() ==> (#[trigger] ds[k]).id < 0 || ds[k].id >= t.len(),
    ensures
        apply_frame(t, ds) == t,
    decreases ds.len(),
{
    if ds.len() > 0 {
        out_of_range_detections_ignored(t, ds.drop_last());
    }
}

/// A detection with an identifier inside the table sets that entry to the
/// floored midpoint of its first and third corners, and no other entry.
pub proof fn detection_sets_its_entry(t: Seq<(i32, i32)>, d: Detection)
    requires
        0 <= d.id < t.len(),
    ensures
        apply_frame(t, seq![d])[d.id as int] == position_of(d),
        forall|i: int|
            0 <= i < t.len() && i != d.id ==> #[trigger] apply_frame(t, seq![d])[i] == t[i],
{
    let ds = seq![d];
    assert(ds.drop_last() =~= Seq::<Detection>::empty());
    assert(apply_frame(t, ds.drop_last()) == t);
    assert(apply_frame(t, ds) == apply_detection(t, d));
}

/// An entry that no detection of a frame names keeps its last value; in
/// particular a frame without detections changes nothing.
pub proof fn unnamed_entries_persist(t: Seq<(i32, i32)>, ds: Seq<Detection>, i: int)
    requires
        0 <= i < t.len(),
        forall|k: int| 0 <= k < ds.len() ==> (#[trigger] ds[k]).id != i,
    ensures
        apply_frame(t, ds)[i] == t[i],
        apply_frame(t, Seq::empty()) == t,
    decreases ds.len(),
{
    if ds.len() > 0 {
        unnamed_entries_persist(t, ds.drop_last(), i);
        frame_keeps_capacity(t, ds.drop_last());
    }
}

/// Two tables with the same contents encode to the same text.
pub proof fn encoding_is_deterministic(a: &MarkerDetector, b: &MarkerDetector)
    requires
        a@ == b@,
    ensures
        encode(a@) == encode(b@),
{
}

} // verus!
