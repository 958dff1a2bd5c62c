//! Requests to map a tool's position onto an extent in pixels.
//!
//! The device library computes a transformed coordinate from its own
//! calibration data, with one operation for each axis. An event therefore
//! answers a request for a transformed coordinate with the operation to run:
//! on which event, along which axis, over which extent.

use vstd::prelude::*;

verus! {

/// The axis along which the device library transforms a coordinate.
#[derive(Debug, Clone, Copy, PartialEq, Eq, Hash, Structural)]
pub enum TransformAxis {
    /// The horizontal axis, transformed onto a width.
    X,
    /// The vertical axis, transformed onto a height.
    Y,
}

/// One operation of the device library: transform the position of the event
/// at `handle` along `axis` onto `extent` pixels.
#[derive(Debug, Clone, Copy, PartialEq, Eq, Hash, Structural)]
pub struct TransformRequest {
    /// Address of the event whose position is transformed.
    pub handle: usize,
    /// The axis to transform along.
    pub axis: TransformAxis,
    /// Width for the x axis, height for the y axis, in pixels.
    pub extent: u32,
}

impl TransformRequest {
    /// The operation that transforms the x coordinate of the event at `handle`
    /// onto `width` pixels.
    pub open spec fn spec_x(handle: usize, width: u32) -> TransformRequest {
        TransformRequest { handle, axis: TransformAxis::X, extent: width }
    }

    /// The operation that transforms the y coordinate of the event at `handle`
    /// onto `height` pixels.
    pub open spec fn spec_y(handle: usize, height: u32) -> TransformRequest {
        TransformRequest { handle, axis: TransformAxis::Y, extent: height }
    }

    /// Asks for the x coordinate of the event at `handle` on `width` pixels.
    #[verifier::when_used_as_spec(spec_x)]
    pub fn x(handle: usize, width: u32) -> (request: TransformRequest)
        ensures
            request == Self::spec_x(handle, width),
    {
        TransformRequest { handle, axis: TransformAxis::X, extent: width }
    }

    /// Asks for the y coordinate of the event at `handle` on `height` pixels.
    #[verifier::when_used_as_spec(spec_y)]
    pub fn y(handle: usize, height: u32) -> (request: TransformRequest)
        ensures
            request == Self::spec_y(handle, height),
    {
        TransformRequest { handle, axis: TransformAxis::Y, extent: height }
    }
}

/// The two transforms are independent. The request for a y coordinate runs the
/// operation of the y axis over the height it was given and over nothing else,
/// so no width can alter it; likewise the request for an x coordinate runs the
/// operation of the x axis over its width, whatever the height. Requests along
/// different axes are never the same operation, even over equal extents.
pub proof fn lemma_transforms_are_independent(handle: usize, width: u32, height: u32)
    ensures
        TransformRequest::spec_x(handle, width).axis == TransformAxis::X,
        TransformRequest::spec_x(handle, width).extent == width,
        TransformRequest::spec_x(handle, width).handle == handle,
        TransformRequest::spec_y(handle, height).axis == TransformAxis::Y,
        TransformRequest::spec_y(handle, height).extent == height,
        TransformRequest::spec_y(handle, height).handle == handle,
        TransformRequest::spec_x(handle, width) != TransformRequest::spec_y(handle, height),
        forall|other: u32| #[trigger]
            TransformRequest::spec_x(handle, other) == TransformRequest::spec_x(handle, width)
                <==> other == width,
        forall|other: u32| #[trigger]
            TransformRequest::spec_y(handle, other) == TransformRequest::spec_y(handle, height)
                <==> other == height,
{
}

} // verus!
