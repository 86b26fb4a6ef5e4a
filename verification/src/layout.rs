//! How the bytes of a vertex buffer are cut into shader inputs.

use vstd::prelude::*;

verus! {

/// Whether the buffer advances once per vertex or once per instance.
#[derive(Clone, Copy, Debug, PartialEq, Eq, Structural)]
pub enum StepMode {
    Vertex,
    Instance,
}

/// The shape of one shader input: two, three or four 32-bit numbers.
#[derive(Clone, Copy, Debug, PartialEq, Eq, Structural)]
pub enum VertexFormat {
    Float32x2,
    Float32x3,
    Float32x4,
}

impl VertexFormat {
    /// Bytes that one input of this shape occupies.
    pub open spec fn spec_size(self) -> nat {
        match self {
            VertexFormat::Float32x2 => 8,
            VertexFormat::Float32x3 => 12,
            VertexFormat::Float32x4 => 16,
        }
    }

    /// Bytes that one input of this shape occupies.
    pub fn size(&self) -> (bytes: u64)
        ensures
            bytes == self.spec_size(),
    {
        match self {
            VertexFormat::Float32x2 => 8,
            VertexFormat::Float32x3 => 12,
            VertexFormat::Float32x4 => 16,
        }
    }
}

/// One shader input: where it starts within an element, the slot the shader
/// reads it from, and its shape.
#[derive(Clone, Copy, Debug, PartialEq, Eq, Structural)]
pub struct VertexAttribute {
    pub offset: u64,
    pub shader_location: u32,
    pub format: VertexFormat,
}

impl VertexAttribute {
    /// The first byte after this input.
    pub open spec fn end(self) -> nat {
        self.offset as nat + self.format.spec_size()
    }
}

/// The layout of one buffer: the distance between two elements and the inputs
/// cut from each element.
#[derive(Clone, Debug)]
pub struct VertexBufferLayout {
    pub array_stride: u64,
    pub step_mode: StepMode,
    pub attributes: Vec<VertexAttribute>,
}

/// A layout as a plain value.
pub struct LayoutView {
    pub array_stride: u64,
    pub step_mode: StepMode,
    pub attributes: Seq<VertexAttribute>,
}

impl LayoutView {
    /// The inputs follow one another without sharing a byte, none reaches
    /// past the stride, and no two are read from the same slot.
    pub open spec fn well_formed(self) -> bool {
        let a = self.attributes;
        &&& forall|i: int| 0 <= i < a.len() ==> (#[trigger] a[i]).end() <= self.array_stride
        &&& forall|i: int, j: int|
            0 <= i < j < a.len() ==> (#[trigger] a[i]).end() <= (#[trigger] a[j]).offset
        &&& forall|i: int, j: int|
            0 <= i < j < a.len() ==> (#[trigger] a[i]).shader_location != (
            #[trigger] a[j]).shader_location
    }

    /// Some input is read from `slot`.
    pub open spec fn reads(self, slot: u32) -> bool {
        exists|i: int|
            0 <= i < self.attributes.len() && (#[trigger] self.attributes[i]).shader_location
                == slot
    }
}

impl View for VertexBufferLayout {
    type V = LayoutView;

    open spec fn view(&self) -> LayoutView {
        LayoutView {
            array_stride: self.array_stride,
            step_mode: self.step_mode,
            attributes: self.attributes@,
        }
    }
}

impl VertexBufferLayout {
    /// The inputs follow one another without sharing a byte, none reaches
    /// past the stride, and no two are read from the same slot.
    pub open spec fn well_formed(&self) -> bool {
        self@.well_formed()
    }

    /// Tests `well_formed`.
    pub fn is_well_formed(&self) -> (ok: bool)
        ensures
            ok == self.well_formed(),
    {
        let n: usize = self.attributes.len();
        let mut i: usize = 0;
        while i < n
            invariant
                n == self.attributes@.len(),
                i <= n,
                forall|k: int| 0 <= k < i ==> (#[trigger] self.attributes@[k]).end() <= self.array_stride,
                forall|k: int, j: int|
                    0 <= k < j < n && k < i ==> (#[trigger] self.attributes@[k]).end() <= (
                    #[trigger] self.attributes@[j]).offset,
                forall|k: int, j: int|
                    0 <= k < j < n && k < i ==> (#[trigger] self.attributes@[k]).shader_location != (
                    #[trigger] self.attributes@[j]).shader_location,
            decreases n - i,
        {
            let a: VertexAttribute = self.attributes[i];
            let size: u64 = a.format.size();
            if a.offset > self.array_stride || self.array_stride - a.offset < size {
                return false;
            }
            let end: u64 = a.offset + size;
            let mut j: usize = i + 1;
            while j < n
                invariant
                    n == self.attributes@.len(),
                    i < j <= n,
                    a == self.attributes@[i as int],
                    end == a.end(),
                    forall|m: int| i < m < j ==> a.end() <= (#[trigger] self.attributes@[m]).offset,
                    forall|m: int|
                        i < m < j ==> a.shader_location != (
                        #[trigger] self.attributes@[m]).shader_location,
                decreases n - j,
            {
                let b: VertexAttribute = self.attributes[j];
                if b.offset < end || b.shader_location == a.shader_location {
                    return false;
                }
                j = j + 1;
            }
            i = i + 1;
        }
        true
    }
}

} // verus!
