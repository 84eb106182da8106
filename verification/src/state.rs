//! The fixed-function state of the render pipeline.

use vstd::prelude::*;

verus! {

/// Specifies which primitives to render.
#[derive(Debug, Clone, Copy, PartialEq, Eq, Structural)]
pub enum Primitive {
    Points,
    Lines,
    LineLoop,
    LineStrip,
    Triangles,
    TriangleStrip,
    TriangleFan,
}

/// Specify whether front- or back-facing polygons can be culled.
#[derive(Debug, PartialEq, Eq, Clone, Copy, Structural)]
pub enum CullFace {
    Nothing,
    Front,
    Back,
}

/// Define front- and back-facing polygons.
#[derive(Debug, PartialEq, Eq, Clone, Copy, Structural)]
pub enum FrontFaceOrder {
    Clockwise,
    CounterClockwise,
}

/// A pixel-wise comparison function.
#[derive(Debug, PartialEq, Eq, Clone, Copy, Structural)]
pub enum Comparison {
    Never,
    Less,
    LessOrEqual,
    Greater,
    GreaterOrEqual,
    Equal,
    NotEqual,
    Always,
}

/// Specifies how incoming RGBA values (source) and the RGBA in framebuffer
/// (destination) are combined.
#[derive(Debug, PartialEq, Eq, Clone, Copy, Structural)]
pub enum Equation {
    /// Adds source and destination. Source and destination are multiplied
    /// by blending parameters before addition.
    Add,
    /// Subtracts destination from source. Source and destination are
    /// multiplied by blending parameters before subtraction.
    Subtract,
    /// Subtracts source from destination. Source and destination are
    /// multiplied by blending parameters before subtraction.
    ReverseSubtract,
}

/// Blend values.
#[derive(Debug, PartialEq, Eq, Clone, Copy, Structural)]
pub enum BlendValue {
    SourceColor,
    SourceAlpha,
    DestinationColor,
    DestinationAlpha,
}

/// Blend factors.
#[derive(Debug, PartialEq, Eq, Clone, Copy, Structural)]
pub enum BlendFactor {
    Zero,
    One,
    Value(BlendValue),
    OneMinusValue(BlendValue),
}

/// A struct that encapsulates all the necessary render states. The two parts
/// of the depth write offset are kept as the bit patterns of single-precision
/// numbers.
#[derive(Debug, Clone, Copy, PartialEq, Eq)]
pub struct RenderState {
    pub cull_face: CullFace,
    pub front_face_order: FrontFaceOrder,
    pub depth_test: Comparison,
    pub depth_write: bool,
    pub depth_write_offset: Option<(u32, u32)>,
    pub color_blend: Option<(Equation, BlendFactor, BlendFactor)>,
    pub color_write: (bool, bool, bool, bool),
}

impl Default for RenderState {
    /// Back faces culled, counter-clockwise fronts, no depth test, no depth
    /// write, no blending, and no colour channel written.
    fn default() -> (s: Self)
        ensures
            s == (RenderState {
                cull_face: CullFace::Back,
                front_face_order: FrontFaceOrder::CounterClockwise,
                depth_test: Comparison::Always,
                depth_write: false,
                depth_write_offset: None,
                color_blend: None,
                color_write: (false, false, false, false),
            }),
    {
        RenderState {
            cull_face: CullFace::Back,
            front_face_order: FrontFaceOrder::CounterClockwise,
            depth_test: Comparison::Always,
            depth_write: false,
            depth_write_offset: None,
            color_blend: None,
            color_write: (false, false, false, false),
        }
    }
}

impl RenderState {
    /// Sets which faces are culled and leaves the rest as it is.
    #[inline]
    pub fn with_cull_face(&mut self, cull_face: CullFace) -> (r: &mut Self)
        ensures
            *r == (RenderState { cull_face, ..*old(self) }),
            *final(self) == *final(r),
    {
        self.cull_face = cull_face;
        self
    }

    /// Sets the winding of front faces and leaves the rest as it is.
    #[inline]
    pub fn with_front_face_order(&mut self, front_face_order: FrontFaceOrder) -> (r: &mut Self)
        ensures
            *r == (RenderState { front_face_order, ..*old(self) }),
            *final(self) == *final(r),
    {
        self.front_face_order = front_face_order;
        self
    }

    /// Sets whether depth is written and leaves the rest as it is.
    #[inline]
    pub fn with_depth_write(&mut self, write: bool) -> (r: &mut Self)
        ensures
            *r == (RenderState { depth_write: write, ..*old(self) }),
            *final(self) == *final(r),
    {
        self.depth_write = write;
        self
    }

    /// Sets the depth test and leaves the rest as it is.
    #[inline]
    pub fn with_depth_test(&mut self, test: Comparison) -> (r: &mut Self)
        ensures
            *r == (RenderState { depth_test: test, ..*old(self) }),
            *final(self) == *final(r),
    {
        self.depth_test = test;
        self
    }

    /// Sets the blending of colours and leaves the rest as it is.
    #[inline]
    pub fn with_color_blend(
        &mut self,
        blend: Option<(Equation, BlendFactor, BlendFactor)>,
    ) -> (r: &mut Self)
        ensures
            *r == (RenderState { color_blend: blend, ..*old(self) }),
            *final(self) == *final(r),
    {
        self.color_blend = blend;
        self
    }

    /// Sets which colour channels are written and leaves the rest as it is.
    #[inline]
    pub fn with_color_write(&mut self, red: bool, green: bool, blue: bool, alpha: bool) -> (r:
        &mut Self)
        ensures
            *r == (RenderState { color_write: (red, green, blue, alpha), ..*old(self) }),
            *final(self) == *final(r),
    {
        self.color_write = (red, green, blue, alpha);
        self
    }
}

} // verus!
