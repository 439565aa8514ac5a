//! The instance store: the boxes to draw, and the size of the GPU buffer that
//! holds their packed form.
use vstd::prelude::*;
use crate::layout::BOX_RAW_SIZE;

verus! {

/// What an upload asks of the GPU instance buffer.
#[derive(Clone, Copy, Debug, PartialEq, Eq, Structural)]
pub enum InstanceUpload {
    /// The count changed: allocate a new buffer of `size` bytes.
    Rebuild { size: u64 },
    /// The count is the same: write `size` bytes over the existing buffer.
    Overwrite { size: u64 },
}

/// Holds the boxes in drawing order. The buffer size always matches the
/// count: `count * BOX_RAW_SIZE` bytes.
pub struct InstanceStore<B> {
    boxes: Vec<B>,
    buffer_size: u64,
}

/// Bytes taken by `n` packed boxes.
pub open spec fn instance_bytes(n: nat) -> nat {
    (n * BOX_RAW_SIZE) as nat
}

impl<B> InstanceStore<B> {
    pub closed spec fn spec_boxes(&self) -> Seq<B> {
        self.boxes@
    }

    pub closed spec fn spec_buffer_size(&self) -> nat {
        self.buffer_size as nat
    }

    pub open spec fn spec_count(&self) -> nat {
        self.spec_boxes().len()
    }

    pub closed spec fn wf(&self) -> bool {
        &&& self.boxes@.len() <= u32::MAX
        &&& self.buffer_size == instance_bytes(self.boxes@.len())
    }

    /// A store holding `boxes`, with a buffer sized for them.
    pub fn new(boxes: Vec<B>) -> (r: Self)
        requires
            boxes@.len() <= u32::MAX,
        ensures
            r.wf(),
            r.spec_boxes() == boxes@,
    {
        let size = boxes.len() as u64 * BOX_RAW_SIZE;
        InstanceStore { boxes, buffer_size: size }
    }

    /// Replaces the boxes. The buffer is rebuilt when the count changes and
    /// overwritten in place when it does not.
    pub fn upload(&mut self, boxes: Vec<B>) -> (r: InstanceUpload)
        requires
            old(self).wf(),
            boxes@.len() <= u32::MAX,
        ensures
            final(self).wf(),
            final(self).spec_boxes() == boxes@,
            r == (if boxes@.len() == old(self).spec_count() {
                InstanceUpload::Overwrite { size: instance_bytes(boxes@.len()) as u64 }
            } else {
                InstanceUpload::Rebuild { size: instance_bytes(boxes@.len()) as u64 }
            }),
    {
        let same = boxes.len() == self.boxes.len();
        let size = boxes.len() as u64 * BOX_RAW_SIZE;
        self.boxes = boxes;
        self.buffer_size = size;
        if same {
            InstanceUpload::Overwrite { size }
        } else {
            InstanceUpload::Rebuild { size }
        }
    }

    /// The boxes, in drawing order.
    pub fn boxes(&self) -> (r: &Vec<B>)
        ensures
            r@ == self.spec_boxes(),
    {
        &self.boxes
    }

    /// Number of instances a draw covers.
    pub fn instance_count(&self) -> (r: u32)
        requires
            self.wf(),
        ensures
            r == self.spec_count(),
    {
        self.boxes.len() as u32
    }

    /// Size in bytes of the instance buffer.
    pub fn buffer_size(&self) -> (r: u64)
        requires
            self.wf(),
        ensures
            r == self.spec_buffer_size(),
    {
        self.buffer_size
    }
}

/// The instance buffer always holds exactly `count * BOX_RAW_SIZE` bytes, so
/// two stores with the same count, such as one before and after the same list
/// is uploaded again, have buffers of the same size.
pub proof fn lemma_buffer_matches_count<B>(s: InstanceStore<B>, t: InstanceStore<B>)
    requires
        s.wf(),
        t.wf(),
        s.spec_count() == t.spec_count(),
    ensures
        s.spec_buffer_size() == s.spec_count() * BOX_RAW_SIZE,
        t.spec_buffer_size() == s.spec_buffer_size(),
{
}

} // verus!
