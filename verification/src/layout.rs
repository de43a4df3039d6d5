//! Vertex buffer layouts.
//!
//! A layout describes how one buffer's bytes are split into shader inputs:
//! the stride of one element, whether the buffer advances per vertex or per
//! instance, and the offset/location/format of each attribute.  A pipeline
//! variant declares the layouts it expects, and a geometry set may only be
//! drawn with a pipeline whose declared vertex layout matches its own.

use vstd::prelude::*;

verus! {

/// Attribute data format.  Only the formats the core actually uses.
#[derive(Clone, Copy, Debug, PartialEq, Eq, Structural)]
pub enum AttributeFormat {
    Float32x3,
    Float32x4,
}

impl AttributeFormat {
    /// Size of one attribute of this format, in bytes.
    pub open spec fn spec_size(self) -> int {
        match self {
            AttributeFormat::Float32x3 => 12,
            AttributeFormat::Float32x4 => 16,
        }
    }

    pub fn size(self) -> (r: u64)
        ensures
            r == self.spec_size(),
    {
        match self {
            AttributeFormat::Float32x3 => 12,
            AttributeFormat::Float32x4 => 16,
        }
    }
}

/// Whether a buffer advances once per vertex or once per instance.
#[derive(Clone, Copy, Debug, PartialEq, Eq, Structural)]
pub enum StepMode {
    Vertex,
    Instance,
}

/// One shader input attribute inside a buffer element.
#[derive(Clone, Copy, Debug, PartialEq, Eq, Structural)]
pub struct LayoutAttribute {
    pub offset: u64,
    pub shader_location: u32,
    pub format: AttributeFormat,
}

/// The layout of one vertex or instance buffer.
pub struct BufferLayout {
    pub array_stride: u64,
    pub step_mode: StepMode,
    pub attributes: Vec<LayoutAttribute>,
}

impl BufferLayout {
    /// Attributes lie in order, do not overlap, and fit inside the stride.
    pub open spec fn wf(self) -> bool {
        &&& forall|i: int|
            0 <= i < self.attributes@.len() ==> #[trigger] self.attributes@[i].offset
                + self.attributes@[i].format.spec_size() <= self.array_stride
        &&& forall|i: int, j: int|
            0 <= i < j < self.attributes@.len() ==> #[trigger] self.attributes@[i].offset
                + self.attributes@[i].format.spec_size() <= #[trigger] self.attributes@[j].offset
    }

    /// Two layouts describe the same byte interpretation.
    pub open spec fn spec_matches(self, other: BufferLayout) -> bool {
        &&& self.array_stride == other.array_stride
        &&& self.step_mode == other.step_mode
        &&& self.attributes@ == other.attributes@
    }

    /// Decide whether `self` and `other` describe the same layout.
    pub fn matches(&self, other: &BufferLayout) -> (r: bool)
        ensures
            r == self.spec_matches(*other),
    {
        if self.array_stride != other.array_stride {
            proof {
                assert(!self.spec_matches(*other));
            }
            return false;
        }
        if self.step_mode != other.step_mode {
            return false;
        }
        if self.attributes.len() != other.attributes.len() {
            proof {
                assert(self.attributes@.len() != other.attributes@.len());
            }
            return false;
        }
        let n = self.attributes.len();
        let mut i: usize = 0;
        while i < n
            invariant
                n == self.attributes@.len(),
                n == other.attributes@.len(),
                0 <= i <= n,
                forall|k: int| 0 <= k < i ==> self.attributes@[k] == other.attributes@[k],
            decreases n - i,
        {
            if self.attributes[i] != other.attributes[i] {
                proof {
                    assert(self.attributes@[i as int] != other.attributes@[i as int]);
                }
                return false;
            }
            i += 1;
        }
        proof {
            assert(self.attributes@ =~= other.attributes@);
        }
        true
    }
}

/// The attribute list of the per-vertex layout: position at offset 0,
/// color at offset 12, shader locations 0 and 1.
pub open spec fn spec_vertex_attributes() -> Seq<LayoutAttribute> {
    seq![
        LayoutAttribute { offset: 0, shader_location: 0, format: AttributeFormat::Float32x3 },
        LayoutAttribute { offset: 12, shader_location: 1, format: AttributeFormat::Float32x3 },
    ]
}

/// `l` is the canonical per-vertex layout every geometry set uses.
pub open spec fn spec_is_vertex_layout(l: BufferLayout) -> bool {
    &&& l.array_stride == 24
    &&& l.step_mode == StepMode::Vertex
    &&& l.attributes@ == spec_vertex_attributes()
}

/// The layout of the vertex buffer: two tightly packed three-float
/// attributes, stride 24, advancing per vertex.
pub fn vertex_layout() -> (r: BufferLayout)
    ensures
        r.array_stride == 24,
        r.step_mode == StepMode::Vertex,
        r.attributes@ == spec_vertex_attributes(),
        r.wf(),
{
    let attributes = vec![
        LayoutAttribute { offset: 0, shader_location: 0, format: AttributeFormat::Float32x3 },
        LayoutAttribute { offset: 12, shader_location: 1, format: AttributeFormat::Float32x3 },
    ];
    let r = BufferLayout { array_stride: 24, step_mode: StepMode::Vertex, attributes };
    proof {
        assert(r.attributes@ =~= spec_vertex_attributes());
    }
    r
}

/// The attribute list of the per-instance layout: a 4x4 matrix passed as
/// four four-float columns at offsets 0, 16, 32, 48, shader locations 5-8.
pub open spec fn spec_instance_attributes() -> Seq<LayoutAttribute> {
    seq![
        LayoutAttribute { offset: 0, shader_location: 5, format: AttributeFormat::Float32x4 },
        LayoutAttribute { offset: 16, shader_location: 6, format: AttributeFormat::Float32x4 },
        LayoutAttribute { offset: 32, shader_location: 7, format: AttributeFormat::Float32x4 },
        LayoutAttribute { offset: 48, shader_location: 8, format: AttributeFormat::Float32x4 },
    ]
}

/// The layout of the instance buffer: one 4x4 transform per instance,
/// stride 64, advancing per instance.
pub fn instance_layout() -> (r: BufferLayout)
    ensures
        r.array_stride == 64,
        r.step_mode == StepMode::Instance,
        r.attributes@ == spec_instance_attributes(),
        r.wf(),
{
    let attributes = vec![
        LayoutAttribute { offset: 0, shader_location: 5, format: AttributeFormat::Float32x4 },
        LayoutAttribute { offset: 16, shader_location: 6, format: AttributeFormat::Float32x4 },
        LayoutAttribute { offset: 32, shader_location: 7, format: AttributeFormat::Float32x4 },
        LayoutAttribute { offset: 48, shader_location: 8, format: AttributeFormat::Float32x4 },
    ];
    let r = BufferLayout { array_stride: 64, step_mode: StepMode::Instance, attributes };
    proof {
        assert(r.attributes@ =~= spec_instance_attributes());
    }
    r
}

} // verus!
