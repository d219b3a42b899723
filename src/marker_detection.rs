use vstd::prelude::*;

use crate::decimal::{decimal, push_decimal};
use crate::geometry::{centroid, Detection};
use crate::laws::frame_keeps_capacity;

verus! {

/// The number of markers that the deployed tracker follows.
pub const MARKER_COUNT: usize = 8;

/// A marker's identifier together with its last known position.
#[derive(Clone, Copy, Debug, PartialEq, Eq, Structural)]
pub struct MarkerInfo {
    pub id: usize,
    pub x: i32,
    pub y: i32,
}

impl MarkerInfo {
    pub fn x(&self) -> (r: i32)
        ensures
            r == self.x,
    {
        self.x
    }

    pub fn y(&self) -> (r: i32)
        ensures
            r == self.y,
    {
        self.y
    }

    pub fn id(&self) -> (r: usize)
        ensures
            r == self.id,
    {
        self.id
    }
}

/// The fixed-capacity table of last known marker positions, indexed by
/// marker identifier.
pub struct MarkerDetector {
    marker_array: Vec<(i32, i32)>,
}

impl View for MarkerDetector {
    type V = Seq<(i32, i32)>;

    closed spec fn view(&self) -> Seq<(i32, i32)> {
        self.marker_array@
    }
}

/// A table of `n` entries, all at the origin.
pub open spec fn origin_table(n: nat) -> Seq<(i32, i32)> {
    Seq::new(n, |i: int| (0i32, 0i32))
}

/// The table entry that a detection writes: its centroid.
pub open spec fn position_of(d: Detection) -> (i32, i32) {
    (centroid(d).0 as i32, centroid(d).1 as i32)
}

/// One detection applied to a table: an identifier inside the table
/// overwrites its entry with the centroid; any other leaves the table as it is.
pub open spec fn apply_detection(t: Seq<(i32, i32)>, d: Detection) -> Seq<(i32, i32)> {
    if 0 <= d.id < t.len() {
        t.update(d.id as int, position_of(d))
    } else {
        t
    }
}

/// A frame's detections applied to a table in order, so that the last
/// detection of an identifier wins.
pub open spec fn apply_frame(t: Seq<(i32, i32)>, ds: Seq<Detection>) -> Seq<(i32, i32)>
    decreases ds.len(),
{
    if ds.len() == 0 {
        t
    } else {
        apply_detection(apply_frame(t, ds.drop_last()), ds.last())
    }
}

/// The wire text of one entry: x, a space, y, a space.
pub open spec fn pair_text(p: (i32, i32)) -> Seq<char> {
    decimal(p.0 as int) + seq![' '] + decimal(p.1 as int) + seq![' ']
}

/// The wire text of a table: the text of each entry, in identifier order.
pub open spec fn encode(t: Seq<(i32, i32)>) -> Seq<char>
    decreases t.len(),
{
    if t.len() == 0 {
        Seq::empty()
    } else {
        encode(t.drop_last()) + pair_text(t.last())
    }
}

fn zeroed(capacity: usize) -> (r: Vec<(i32, i32)>)
    ensures
        r@ == origin_table(capacity as nat),
{
    let mut v: Vec<(i32, i32)> = Vec::new();
    let mut i: usize = 0;
    while i < capacity
        invariant
            i <= capacity,
            v@ == origin_table(i as nat),
        decreases capacity - i,
    {
        v.push((0, 0));
        i = i + 1;
        assert(v@ =~= origin_table(i as nat));
    }
    v
}

/// The tracker of the deployment: a table of `MARKER_COUNT` entries at the
/// origin.
pub fn create_marker_detector() -> (r: MarkerDetector)
    ensures
        r.wf(),
        r@ == origin_table(MARKER_COUNT as nat),
{
    MarkerDetector { marker_array: zeroed(MARKER_COUNT) }
}

impl MarkerDetector {
    /// The table holds at least one entry.
    pub open spec fn wf(&self) -> bool {
        self@.len() > 0
    }

    /// A table of `capacity` entries at the origin; `None` where the capacity
    /// is zero.
    pub fn new(capacity: usize) -> (r: Option<MarkerDetector>)
        ensures
            capacity == 0 <==> r is None,
            r matches Some(t) ==> t.wf() && t@ == origin_table(capacity as nat),
    {
        if capacity == 0 {
            None
        } else {
            Some(MarkerDetector { marker_array: zeroed(capacity) })
        }
    }

    /// Puts every entry at the origin. An empty table is filled with
    /// `MARKER_COUNT` entries; any other keeps its capacity.
    pub fn initialize_vector(&mut self)
        ensures
            old(self)@.len() == 0 ==> final(self)@ == origin_table(MARKER_COUNT as nat),
            old(self)@.len() > 0 ==> final(self)@ == origin_table(old(self)@.len()),
            final(self).wf(),
    {
        let n = self.marker_array.len();
        let capacity = if n == 0 {
            MARKER_COUNT
        } else {
            n
        };
        self.marker_array = zeroed(capacity);
    }

    /// The number of entries, fixed when the table was made.
    pub fn len(&self) -> (r: usize)
        ensures
            r == self@.len(),
    {
        self.marker_array.len()
    }

    /// Overwrites the entry of marker `id`.
    pub fn set(&mut self, id: usize, x: i32, y: i32)
        requires
            id < old(self)@.len(),
        ensures
            final(self)@ == old(self)@.update(id as int, (x, y)),
    {
        self.marker_array.set(id, (x, y));
    }

    /// Every entry with its identifier, in identifier order.
    pub fn snapshot(&self) -> (r: Vec<MarkerInfo>)
        ensures
            r@.len() == self@.len(),
            forall|i: int|
                0 <= i < r@.len() ==> (#[trigger] r@[i]) == (MarkerInfo {
                    id: i as usize,
                    x: self@[i].0,
                    y: self@[i].1,
                }),
    {
        let mut r: Vec<MarkerInfo> = Vec::new();
        let mut i: usize = 0;
        while i < self.marker_array.len()
            invariant
                i <= self@.len(),
                r@.len() == i,
                forall|j: int|
                    0 <= j < i ==> (#[trigger] r@[j]) == (MarkerInfo {
                        id: j as usize,
                        x: self@[j].0,
                        y: self@[j].1,
                    }),
            decreases self@.len() - i,
        {
            let p = self.marker_array[i];
            r.push(MarkerInfo { id: i, x: p.0, y: p.1 });
            i = i + 1;
        }
        r
    }

    /// Applies one frame's detections in order: each identifier inside the
    /// table has its entry overwritten with the detection's centroid, any other
    /// is skipped, and entries that no detection names keep their value.
    pub fn observation_loop(&mut self, detections: &Vec<Detection>)
        ensures
            final(self)@ == apply_frame(old(self)@, detections@),
            final(self)@.len() == old(self)@.len(),
    {
        let ghost start = self@;
        let mut i: usize = 0;
        while i < detections.len()
            invariant
                i <= detections@.len(),
                self@ == apply_frame(start, detections@.subrange(0, i as int)),
            decreases detections@.len() - i,
        {
            let d = detections[i];
            proof {
                let pre = detections@.subrange(0, i as int + 1);
                assert(pre.drop_last() =~= detections@.subrange(0, i as int));
                assert(pre.last() == d);
            }
            if d.id >= 0 && (d.id as usize) < self.marker_array.len() {
                let c = d.centroid();
                self.marker_array.set(d.id as usize, c);
            }
            i = i + 1;
        }
        assert(detections@.subrange(0, detections@.len() as int) =~= detections@);
        proof {
            frame_keeps_capacity(start, detections@);
        }
    }

    /// The wire message of the table: for each entry in identifier order, x,
    /// a space, y, a space.
    pub fn print_markers(&self) -> (r: String)
        ensures
            r@ == encode(self@),
    {
        let mut s = String::new();
        let mut i: usize = 0;
        while i < self.marker_array.len()
            invariant
                i <= self@.len(),
                s@ == encode(self@.subrange(0, i as int)),
            decreases self@.len() - i,
        {
            let p = self.marker_array[i];
            proof {
                let pre = self@.subrange(0, i as int + 1);
                assert(pre.drop_last() =~= self@.subrange(0, i as int));
                assert(pre.last() == p);
                reveal_strlit(" ");
            }
            push_decimal(&mut s, p.0);
            s.append(" ");
            push_decimal(&mut s, p.1);
            s.append(" ");
            assert(s@ =~= encode(self@.subrange(0, i as int)) + pair_text(p));
            i = i + 1;
        }
        assert(self@.subrange(0, self@.len() as int) =~= self@);
        s
    }
}

} // verus!
