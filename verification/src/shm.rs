//! Shared-memory buffer manager.
//!
//! A pool is a span of shared memory of a registered byte size; buffers are
//! fixed-format rectangular views carved out of it. The backing descriptor
//! itself (an anonymous file truncated to the pool size) is supplied by the
//! surrounding application; the core only decides geometry and rejects any
//! rectangle that would not fit before the creation request is issued.
//!
//! Buffers are write-once: the backing region is fully written before a
//! buffer is first attached, and the compositor's release back-channel is not
//! tracked, so a buffer is only ever reused by re-attaching it unchanged.

use vstd::prelude::*;

use crate::error::BufferError;

verus! {

/// The one pixel format this client uses: 32-bit packed ARGB, four bytes per
/// pixel.
#[derive(PartialEq, Eq, Structural, Clone, Copy, Debug)]
pub enum PixelFormat {
    Argb8888,
}

/// How many bytes one pixel of the format occupies.
pub open spec fn spec_bytes_per_pixel(f: PixelFormat) -> u32 {
    match f {
        PixelFormat::Argb8888 => 4,
    }
}

/// How many bytes one pixel of the format occupies.
pub fn bytes_per_pixel(f: PixelFormat) -> (r: u32)
    ensures
        r == spec_bytes_per_pixel(f),
{
    match f {
        PixelFormat::Argb8888 => 4,
    }
}

/// The geometry of a buffer: where it sits in its pool and what rectangle it
/// describes. Immutable once created.
#[derive(PartialEq, Eq, Structural, Clone, Copy, Debug)]
pub struct BufferGeometry {
    pub offset: u32,
    pub width: u32,
    pub height: u32,
    pub stride: u32,
    pub format: PixelFormat,
}

/// A buffer: a protocol object id together with its fixed geometry.
#[derive(PartialEq, Eq, Structural, Clone, Copy, Debug)]
pub struct BufferHandle {
    pub id: u32,
    pub geometry: BufferGeometry,
}

/// A registered pool of shared memory: a protocol object id and the byte size
/// the backing region was registered with. The region must stay valid and at
/// least this large for the pool's lifetime.
#[derive(PartialEq, Eq, Structural, Clone, Copy, Debug)]
pub struct ShmPool {
    pub id: u32,
    pub size: u32,
}

/// The buffer geometry invariant: each row is wide enough for its pixels, and
/// the whole rectangle lies inside the pool.
pub open spec fn geometry_fits(g: BufferGeometry, pool_size: u32) -> bool {
    &&& g.stride >= g.width * spec_bytes_per_pixel(g.format)
    &&& g.offset + g.stride * g.height <= pool_size
}

impl ShmPool {
    /// Check a proposed buffer rectangle against this pool. Accepts exactly
    /// the geometries that fit; a violating geometry is rejected before any
    /// creation request could be issued, the row check first.
    pub fn validate_geometry(&self, g: BufferGeometry) -> (r: Result<(), BufferError>)
        ensures
            r is Ok <==> geometry_fits(g, self.size),
            r == Err::<(), BufferError>(BufferError::StrideTooSmall) <==> (g.stride as int) < g.width
                * spec_bytes_per_pixel(g.format),
            r == Err::<(), BufferError>(BufferError::OutOfPoolBounds) <==> ((g.stride as int) >= g.width
                * spec_bytes_per_pixel(g.format) && g.offset + g.stride * g.height > self.size),
    {
        let bpp = bytes_per_pixel(g.format);
        if (g.stride as u64) < (g.width as u64) * (bpp as u64) {
            return Err(BufferError::StrideTooSmall);
        }
        proof {
            assert((g.stride as u64) * (g.height as u64) <= 0xFFFF_FFFF * 0xFFFF_FFFF) by (nonlinear_arith)
                requires
                    g.stride as u64 <= 0xFFFF_FFFF,
                    g.height as u64 <= 0xFFFF_FFFF,
            ;
        }
        let end: u64 = (g.offset as u64) + (g.stride as u64) * (g.height as u64);
        if end > (self.size as u64) {
            return Err(BufferError::OutOfPoolBounds);
        }
        Ok(())
    }
}

} // verus!
