use vstd::prelude::*;
use vstd::assert_seqs_equal;

verus! {

/// Why a byte buffer was rejected as a planar frame.
#[derive(Debug, Clone, Copy, PartialEq, Eq, Structural)]
pub enum FrameError {
    /// The buffer holds fewer than `3 * width * height` bytes.
    TooShort,
}

/// Number of bytes in one plane of a `width x height` planar frame:
/// one byte per sample, row-major, no padding between rows.
pub open spec fn plane_len(width: nat, height: nat) -> nat {
    width * height
}

/// Total length of a planar YUV444 frame: three consecutive planes,
/// in the fixed order Y, then U, then V.
pub open spec fn frame_len(width: nat, height: nat) -> nat {
    3 * plane_len(width, height)
}

/// A buffer is an acceptable frame when it holds at least one full
/// `3 * width * height`-byte Y/U/V payload.
pub open spec fn frame_fits(data: Seq<u8>, width: nat, height: nat) -> bool {
    data.len() >= frame_len(width, height)
}

/// The Y plane of a frame: bytes `[0, width*height)`.
pub open spec fn y_plane(data: Seq<u8>, width: nat, height: nat) -> Seq<u8>
    recommends frame_fits(data, width, height),
{
    data.subrange(0, plane_len(width, height) as int)
}

/// The U plane of a frame: bytes `[width*height, 2*width*height)`.
pub open spec fn u_plane(data: Seq<u8>, width: nat, height: nat) -> Seq<u8>
    recommends frame_fits(data, width, height),
{
    data.subrange(plane_len(width, height) as int, 2 * plane_len(width, height) as int)
}

/// The V plane of a frame: bytes `[2*width*height, 3*width*height)`.
pub open spec fn v_plane(data: Seq<u8>, width: nat, height: nat) -> Seq<u8>
    recommends frame_fits(data, width, height),
{
    data.subrange(2 * plane_len(width, height) as int, 3 * plane_len(width, height) as int)
}

/// Model of the GPU-visible contents of the three plane textures.
pub ghost struct PlaneContents {
    pub y: Seq<u8>,
    pub u: Seq<u8>,
    pub v: Seq<u8>,
}

/// The plane contents that a frame buffer denotes.
pub open spec fn planes_of(data: Seq<u8>, width: nat, height: nat) -> PlaneContents {
    PlaneContents {
        y: y_plane(data, width, height),
        u: u_plane(data, width, height),
        v: v_plane(data, width, height),
    }
}

/// What one frame upload does to the GPU-visible plane contents: every
/// plane is replaced in full by the slice of the new buffer that belongs
/// to it. Nothing of the previous contents survives, and nothing is
/// blended or accumulated.
pub open spec fn apply_update(
    prev: PlaneContents,
    data: Seq<u8>,
    width: nat,
    height: nat,
) -> PlaneContents {
    planes_of(data, width, height)
}

/// Law: uploading the same buffer twice leaves the plane contents exactly
/// as one upload does — uploads replace, they never accumulate.
pub proof fn lemma_update_idempotent(prev: PlaneContents, data: Seq<u8>, width: nat, height: nat)
    ensures
        apply_update(apply_update(prev, data, width, height), data, width, height)
            == apply_update(prev, data, width, height),
{
}

/// Law: plane isolation. A frame whose Y segment is one constant, U segment
/// another and V segment a third leaves each plane uniformly equal to its
/// own constant; no segment leaks into a neighbouring plane.
pub proof fn lemma_plane_isolation(
    data: Seq<u8>,
    width: nat,
    height: nat,
    vy: u8,
    vu: u8,
    vv: u8,
)
    requires
        frame_fits(data, width, height),
        forall|i: int| 0 <= i < plane_len(width, height)
            ==> data[i] == vy,
        forall|i: int| plane_len(width, height) <= i < 2 * plane_len(width, height)
            ==> data[i] == vu,
        forall|i: int| 2 * plane_len(width, height) <= i < 3 * plane_len(width, height)
            ==> data[i] == vv,
    ensures
        forall|i: int| 0 <= i < plane_len(width, height)
            ==> y_plane(data, width, height)[i] == vy,
        forall|i: int| 0 <= i < plane_len(width, height)
            ==> u_plane(data, width, height)[i] == vu,
        forall|i: int| 0 <= i < plane_len(width, height)
            ==> v_plane(data, width, height)[i] == vv,
{
    let n = plane_len(width, height) as int;
    assert forall|i: int| 0 <= i < n implies y_plane(data, width, height)[i] == vy by {
        assert(y_plane(data, width, height)[i] == data[i]);
    }
    assert forall|i: int| 0 <= i < n implies u_plane(data, width, height)[i] == vu by {
        assert(u_plane(data, width, height)[i] == data[n + i]);
    }
    assert forall|i: int| 0 <= i < n implies v_plane(data, width, height)[i] == vv by {
        assert(v_plane(data, width, height)[i] == data[2 * n + i]);
    }
}

/// Law: plane offsets. The three planes are read at byte offsets `0`,
/// `width*height` and `2*width*height`; in particular the V plane begins
/// at `2*width*height`, and the three reads together cover exactly the
/// first `3*width*height` bytes of the buffer.
pub proof fn lemma_plane_offsets(data: Seq<u8>, width: nat, height: nat)
    requires
        frame_fits(data, width, height),
    ensures
        forall|i: int| 0 <= i < plane_len(width, height)
            ==> y_plane(data, width, height)[i] == data[i],
        forall|i: int| 0 <= i < plane_len(width, height)
            ==> u_plane(data, width, height)[i] == data[plane_len(width, height) + i],
        forall|i: int| 0 <= i < plane_len(width, height)
            ==> v_plane(data, width, height)[i] == data[2 * plane_len(width, height) + i],
        y_plane(data, width, height) + u_plane(data, width, height)
            + v_plane(data, width, height)
            == data.subrange(0, frame_len(width, height) as int),
        forall|p: Plane| #[trigger] plane_of(data, p, width, height) == data.subrange(
            plane_offset(p, width, height) as int,
            plane_offset(p, width, height) + plane_len(width, height) as int,
        ),
{
    assert forall|p: Plane| #[trigger] plane_of(data, p, width, height) == data.subrange(
        plane_offset(p, width, height) as int,
        plane_offset(p, width, height) + plane_len(width, height) as int,
    ) by {
        match p {
            Plane::Y => {},
            Plane::U => {},
            Plane::V => {},
        }
    }
    let n = plane_len(width, height) as int;
    let whole = y_plane(data, width, height) + u_plane(data, width, height)
        + v_plane(data, width, height);
    assert_seqs_equal!(whole == data.subrange(0, 3 * n));
}

/// Law: a buffer of exactly `3 * width * height` bytes — one full frame,
/// nothing more — is accepted.
pub proof fn lemma_exact_frame_fits(data: Seq<u8>, width: nat, height: nat)
    requires
        data.len() == frame_len(width, height),
    ensures
        frame_fits(data, width, height),
{
}

/// Checks the layout precondition of an upload: the buffer must hold at
/// least `3 * width * height` bytes. Accepts exactly the buffers that
/// `frame_fits` accepts and reports every shorter one as malformed.
pub fn validate_frame(data: &[u8], width: u32, height: u32) -> (r: Result<(), FrameError>)
    ensures
        r is Ok <==> frame_fits(data@, width as nat, height as nat),
        r is Err ==> r == Err::<(), FrameError>(FrameError::TooShort),
{
    proof {
        assert((width as int) * (height as int) <= 0xffff_ffff * 0xffff_ffff)
            by (nonlinear_arith)
            requires width <= 0xffff_ffffu64, height <= 0xffff_ffffu64;
    }
    let wh: u128 = (width as u128) * (height as u128);
    let need: u128 = 3 * wh;
    if (data.len() as u128) >= need {
        Ok(())
    } else {
        Err(FrameError::TooShort)
    }
}

/// Which of the three color planes is meant.
#[derive(Debug, Clone, Copy, PartialEq, Eq, Structural)]
pub enum Plane {
    Y,
    U,
    V,
}

/// The byte offset at which a plane's segment begins inside a frame.
pub open spec fn plane_offset(plane: Plane, width: nat, height: nat) -> nat {
    match plane {
        Plane::Y => 0,
        Plane::U => plane_len(width, height),
        Plane::V => 2 * plane_len(width, height),
    }
}

/// The segment of a frame that belongs to one plane.
pub open spec fn plane_of(data: Seq<u8>, plane: Plane, width: nat, height: nat) -> Seq<u8> {
    match plane {
        Plane::Y => y_plane(data, width, height),
        Plane::U => u_plane(data, width, height),
        Plane::V => v_plane(data, width, height),
    }
}

/// Copies one plane's segment out of a planar frame buffer, or rejects the
/// buffer when it is too short to hold all three planes.
pub fn plane_slice(data: &[u8], width: u32, height: u32, plane: Plane) -> (r: Result<
    Vec<u8>,
    FrameError,
>)
    ensures
        r is Ok <==> frame_fits(data@, width as nat, height as nat),
        r is Err ==> r == Err::<Vec<u8>, FrameError>(FrameError::TooShort),
        r is Ok ==> r->Ok_0@ == plane_of(data@, plane, width as nat, height as nat),
{
    validate_frame(data, width, height)?;
    let n: usize = data.len();
    proof {
        assert(3 * ((width as int) * (height as int)) <= n as int);
        assert((width as int) * (height as int) >= 0) by (nonlinear_arith);
    }
    let wh: usize = (width as usize) * (height as usize);
    let start: usize = match plane {
        Plane::Y => 0,
        Plane::U => wh,
        Plane::V => 2 * wh,
    };
    let part = vstd::slice::slice_subrange(data, start, start + wh);
    Ok(vstd::slice::slice_to_vec(part))
}

} // verus!
