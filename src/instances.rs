//! Bookkeeping of the per-instance vertex buffer of the quad renderer.
//!
//! The buffer has a fixed capacity. An upload overwrites its first slots with
//! the first items of a sequence (as many as fit) and leaves the slots after
//! them as they were; an empty upload changes nothing. The number of live
//! instances decides whether, and how many, instances are drawn.

use vstd::prelude::*;

verus! {

/// Vertices of the quad that every instance draws (a triangle strip).
pub const QUAD_VERTEX_COUNT: u32 = 4;

/// One instanced draw: vertices `0..vertex_count` of the geometry for
/// instances `0..instance_count`.
#[derive(Clone, Copy, Debug, PartialEq, Eq, Structural)]
pub struct DrawCall {
    pub vertex_count: u32,
    pub instance_count: u32,
}

/// The instance buffer: its capacity, the number of live instances, and what
/// its slots hold (slots never written are left out, so `contents` only grows).
pub struct InstanceBuffer<T> {
    max_instances: usize,
    instance_count: usize,
    contents: Vec<T>,
}

/// What an `InstanceBuffer` holds, as mathematical values.
pub struct BufferModel<T> {
    pub max: nat,
    pub count: nat,
    pub contents: Seq<T>,
}

/// How many of `len` items an upload into a buffer of capacity `max` takes:
/// the first `max` of them at most.
pub open spec fn upload_len(max: nat, len: nat) -> nat {
    if len <= max {
        len
    } else {
        max
    }
}

impl<T> BufferModel<T> {
    /// No more live instances than written slots, no more written slots than
    /// the capacity, and a capacity that a draw call can count.
    pub open spec fn wf(self) -> bool {
        &&& self.count <= self.contents.len()
        &&& self.contents.len() <= self.max
        &&& self.max <= u32::MAX
    }

    /// The buffer after `items` are copied into its first slots and become
    /// the live instances; the slots after them keep what they held.
    pub open spec fn written(self, items: Seq<T>) -> BufferModel<T> {
        let n = if items.len() >= self.contents.len() {
            items.len()
        } else {
            self.contents.len()
        };
        BufferModel {
            max: self.max,
            count: items.len(),
            contents: Seq::new(n, |i: int| if i < items.len() { items[i] } else { self.contents[i] }),
        }
    }

    /// The live instances, in order.
    pub open spec fn live(self) -> Seq<T> {
        self.contents.take(self.count as int)
    }

    /// The draw that this buffer asks for, if any.
    pub open spec fn draw_call(self) -> Option<DrawCall> {
        if self.count == 0 {
            None
        } else {
            Some(DrawCall { vertex_count: QUAD_VERTEX_COUNT, instance_count: self.count as u32 })
        }
    }
}

/// An upload of a non-empty sequence of length `L` leaves `min(L, max)` live
/// instances, and they are the first ones of the sequence, in order.
pub proof fn lemma_upload_keeps_prefix<T>(m: BufferModel<T>, items: Seq<T>)
    requires
        m.wf(),
        items.len() > 0,
    ensures
        ({
            let n = upload_len(m.max, items.len());
            let after = m.written(items.take(n as int));
            &&& items.len() <= m.max ==> after.count == items.len()
            &&& items.len() > m.max ==> after.count == m.max
            &&& after.live() == items.take(n as int)
            &&& after.wf()
        }),
{
    let n = upload_len(m.max, items.len());
    let after = m.written(items.take(n as int));
    assert(after.live() =~= items.take(n as int));
}

impl<T> View for InstanceBuffer<T> {
    type V = BufferModel<T>;

    closed spec fn view(&self) -> BufferModel<T> {
        BufferModel {
            max: self.max_instances as nat,
            count: self.instance_count as nat,
            contents: self.contents@,
        }
    }
}

impl<T: Copy> InstanceBuffer<T> {
    /// An empty buffer with room for `max_instances` instances.
    pub fn new(max_instances: usize) -> (r: InstanceBuffer<T>)
        requires
            max_instances <= u32::MAX,
        ensures
            r@.max == max_instances,
            r@.count == 0,
            r@.contents == Seq::<T>::empty(),
            r@.wf(),
    {
        InstanceBuffer { max_instances, instance_count: 0, contents: Vec::new() }
    }

    /// Capacity, in instances.
    pub fn max_instances(&self) -> (r: usize)
        ensures
            r == self@.max,
    {
        self.max_instances
    }

    /// Number of live instances.
    pub fn instance_count(&self) -> (r: usize)
        ensures
            r == self@.count,
    {
        self.instance_count
    }

    /// Number of slots written so far.
    pub fn written_len(&self) -> (r: usize)
        ensures
            r == self@.contents.len(),
    {
        self.contents.len()
    }

    /// What slot `i` holds.
    pub fn slot(&self, i: usize) -> (r: T)
        requires
            i < self@.contents.len(),
        ensures
            r == self@.contents[i as int],
    {
        self.contents[i]
    }

    /// Uploads `instances`, cut to the capacity: the first
    /// `min(max_instances, instances.len())` of them are copied into the first
    /// slots and become the live instances. Nothing happens when that number
    /// is zero. Returns the number of instances copied, which is also the
    /// length of the prefix of `instances` that goes to the GPU.
    pub fn update(&mut self, instances: &[T]) -> (uploaded: usize)
        requires
            old(self)@.wf(),
        ensures
            uploaded == upload_len(old(self)@.max, instances@.len()),
            uploaded == 0 ==> final(self)@ == old(self)@,
            uploaded > 0 ==> final(self)@ == old(self)@.written(instances@.take(uploaded as int)),
            final(self)@.wf(),
    {
        let n: usize = if instances.len() <= self.max_instances {
            instances.len()
        } else {
            self.max_instances
        };
        if n == 0 {
            return 0;
        }
        let ghost before = self.contents@;
        let mut i: usize = 0;
        while i < n
            invariant
                n <= instances@.len(),
                n <= self.max_instances,
                self.max_instances == old(self).max_instances,
                self.instance_count == old(self).instance_count,
                before == old(self).contents@,
                before.len() <= self.max_instances,
                i <= n,
                self.contents@.len() == if i >= before.len() { i as int } else { before.len() as int },
                forall|j: int| 0 <= j < i ==> self.contents@[j] == instances@[j],
                forall|j: int| i <= j < before.len() ==> self.contents@[j] == before[j],
            decreases n - i,
        {
            let item = instances[i];
            if i < self.contents.len() {
                self.contents.set(i, item);
            } else {
                self.contents.push(item);
            }
            i = i + 1;
        }
        self.instance_count = n;
        proof {
            let items = instances@.take(n as int);
            assert(self.contents@ =~= old(self)@.written(items).contents);
        }
        n
    }

    /// The draw for this frame: none while no instance is live, else one
    /// instanced draw of the quad for every live instance.
    pub fn draw(&self) -> (r: Option<DrawCall>)
        requires
            self@.wf(),
        ensures
            r == self@.draw_call(),
    {
        if self.instance_count == 0 {
            None
        } else {
            Some(DrawCall { vertex_count: QUAD_VERTEX_COUNT, instance_count: self.instance_count as u32 })
        }
    }
}

} // verus!
