//! Density-field encoding: lattice indexing, occupancy thresholding and the
//! byte layout of the volumetric texture.
use vstd::arithmetic::div_mod::{lemma_div_denominator, lemma_div_multiples_vanish_fancy};
use vstd::prelude::*;

verus! {

/// Largest accepted lattice edge: the greatest `n` with `4 * n^3 <= u32::MAX`, so
/// that every voxel index and every byte offset of a four-channel texture fits
/// in 32 bits.
pub const MAX_EDGE: u32 = 1023;

/// Bit pattern of `f64::INFINITY`; every larger pattern without the sign bit is a NaN.
pub const F64_POSITIVE_INFINITY_BITS: u64 = 0x7FF0_0000_0000_0000;

/// Whether the `f64` with bit pattern `bits` compares greater than `0.0`:
/// the sign bit is clear, the value is not `+0.0`, and it is not a NaN.
pub open spec fn f64_bits_positive(bits: u64) -> bool {
    0 < bits && bits <= F64_POSITIVE_INFINITY_BITS
}

/// Occupancy byte of one density sample: 255 where the sample is above zero.
pub open spec fn occupancy_spec(bits: u64) -> u8 {
    if f64_bits_positive(bits) {
        255
    } else {
        0
    }
}

/// Thresholds one density sample, given as the bit pattern of an `f64`.
pub fn occupancy(bits: u64) -> (r: u8)
    ensures
        r == occupancy_spec(bits),
{
    if 0 < bits && bits <= F64_POSITIVE_INFINITY_BITS {
        255
    } else {
        0
    }
}

/// Reasons a volume configuration, a density field or a texture layout is refused.
#[derive(Clone, Copy, Debug, PartialEq, Eq, Structural)]
pub enum VolumeError {
    /// The lattice edge is zero.
    ZeroEdge,
    /// The lattice edge exceeds `MAX_EDGE`.
    EdgeTooLarge,
    /// The sample scale is not a positive finite number.
    NonPositiveScale,
    /// A field was offered with a sample count other than `edge^3`.
    SampleCountMismatch,
    /// A declared texture layout does not describe the buffer handed with it.
    LayoutMismatch,
}

/// Texel format of the encoded volume: one or four 8-bit channels per voxel.
#[derive(Clone, Copy, Debug, PartialEq, Eq, Structural)]
pub enum ChannelMode {
    Single8,
    Quad8,
}

impl ChannelMode {
    /// Number of bytes written per voxel.
    pub open spec fn count(self) -> nat {
        match self {
            ChannelMode::Single8 => 1,
            ChannelMode::Quad8 => 4,
        }
    }

    pub fn channels(&self) -> (r: u32)
        ensures
            r == self.count(),
    {
        match self {
            ChannelMode::Single8 => 1,
            ChannelMode::Quad8 => 4,
        }
    }
}

/// Address mode of the volume sampler on all three axes; filtering is always nearest.
#[derive(Clone, Copy, Debug, PartialEq, Eq, Structural)]
pub enum WrapMode {
    ClampToEdge,
    MirrorRepeat,
}

/// Whether the `f64` with bit pattern `bits` is a positive finite number.
pub open spec fn f64_bits_positive_finite(bits: u64) -> bool {
    0 < bits && bits < F64_POSITIVE_INFINITY_BITS
}

/// Number of lattice points of a cube with edge `n`.
pub open spec fn lattice_len(n: nat) -> nat {
    n * n * n
}

/// Number of lattice points of a cube with an accepted edge.
pub fn lattice_count(n: u32) -> (r: u32)
    requires
        n <= MAX_EDGE,
    ensures
        r == lattice_len(n as nat),
{
    assert(n * n <= MAX_EDGE * MAX_EDGE && n * n * n <= MAX_EDGE * MAX_EDGE * MAX_EDGE)
        by (nonlinear_arith)
        requires
            n <= MAX_EDGE,
    ;
    n * n * n
}

/// Integer position of one lattice point.
#[derive(Clone, Copy, Debug, PartialEq, Eq, Structural)]
pub struct VoxelCoordinate {
    pub x: u32,
    pub y: u32,
    pub z: u32,
}

/// Lattice point of linear index `i` in a cube of edge `n`, x varying fastest.
pub open spec fn coordinate_spec(i: int, n: int) -> VoxelCoordinate {
    VoxelCoordinate {
        x: (i % n) as u32,
        y: ((i / n) % n) as u32,
        z: ((i / (n * n)) % n) as u32,
    }
}

/// The lattice of edge `n` listed in sampling order.
pub open spec fn is_lattice(points: Seq<VoxelCoordinate>, n: nat) -> bool {
    &&& points.len() == lattice_len(n)
    &&& forall|i: int| 0 <= i < points.len() ==> #[trigger] points[i] == coordinate_spec(i, n as int)
}

/// Recovers the lattice point of linear index `i` in a cube of edge `n`.
pub fn voxel_coordinate(i: u32, n: u32) -> (r: VoxelCoordinate)
    requires
        n >= 1,
    ensures
        r == coordinate_spec(i as int, n as int),
{
    let q = i / n;
    proof {
        lemma_div_denominator(i as int, n as int, n as int);
    }
    VoxelCoordinate { x: i % n, y: q % n, z: (q / n) % n }
}

/// Generator configuration: lattice edge, sample scale (bit pattern of a
/// positive `f64`), noise seed, texel format and sampler address mode.
#[derive(Clone, Copy, Debug)]
pub struct VolumeConfig {
    pub edge: u32,
    pub scale_bits: u64,
    pub seed: u32,
    pub channels: ChannelMode,
    pub wrap: WrapMode,
}

impl VolumeConfig {
    /// The first problem found with the configuration, if any.
    pub open spec fn config_error(self) -> Option<VolumeError> {
        if self.edge == 0 {
            Some(VolumeError::ZeroEdge)
        } else if self.edge > MAX_EDGE {
            Some(VolumeError::EdgeTooLarge)
        } else if !f64_bits_positive_finite(self.scale_bits) {
            Some(VolumeError::NonPositiveScale)
        } else {
            None
        }
    }

    /// Checks the configuration before anything is allocated for it.
    pub fn validate(&self) -> (r: Result<(), VolumeError>)
        ensures
            match self.config_error() {
                Some(e) => r == Err::<(), VolumeError>(e),
                None => r is Ok,
            },
    {
        if self.edge == 0 {
            Err(VolumeError::ZeroEdge)
        } else if self.edge > MAX_EDGE {
            Err(VolumeError::EdgeTooLarge)
        } else if !(0 < self.scale_bits && self.scale_bits < F64_POSITIVE_INFINITY_BITS) {
            Err(VolumeError::NonPositiveScale)
        } else {
            Ok(())
        }
    }

    /// Lists the lattice points to sample, in order: x fastest, then y, then z.
    /// The caller samples the noise at `(x / S, y / S, z / S)` for each point.
    pub fn sample_points(&self) -> (r: Result<Vec<VoxelCoordinate>, VolumeError>)
        ensures
            match self.config_error() {
                Some(e) => r == Err::<Vec<VoxelCoordinate>, VolumeError>(e),
                None => r is Ok && is_lattice(r->Ok_0@, self.edge as nat),
            },
    {
        match self.validate() {
            Err(e) => Err(e),
            Ok(()) => {
                let n = self.edge;
                let total = lattice_count(n);
                let mut points: Vec<VoxelCoordinate> = Vec::new();
                let mut i: u32 = 0;
                while i < total
                    invariant
                        n == self.edge,
                        n >= 1,
                        total == lattice_len(n as nat),
                        i <= total,
                        points@.len() == i,
                        forall|j: int| 0 <= j < i ==> #[trigger] points@[j] == coordinate_spec(j, n as int),
                    decreases total - i,
                {
                    points.push(voxel_coordinate(i, n));
                    i += 1;
                }
                Ok(points)
            },
        }
    }
}

/// Bytes of the encoded volume: each sample's occupancy byte repeated `c` times.
pub open spec fn encoded_occupancy(samples: Seq<u64>, c: nat) -> Seq<u8> {
    Seq::new(samples.len() * c, |j: int| occupancy_spec(samples[j / c as int]))
}

/// One scalar sample (bit pattern of an `f64`) per lattice point of a cube,
/// in sampling order.
pub struct DensityField {
    edge: u32,
    samples: Vec<u64>,
}

impl DensityField {
    #[verifier::type_invariant]
    spec fn well_formed(self) -> bool {
        &&& 1 <= self.edge <= MAX_EDGE
        &&& self.samples@.len() == lattice_len(self.edge as nat)
    }

    pub closed spec fn edge_spec(self) -> nat {
        self.edge as nat
    }

    pub closed spec fn samples_spec(self) -> Seq<u64> {
        self.samples@
    }

    /// Takes the samples drawn at `sample_points`, checking that there is one per point.
    pub fn from_samples(edge: u32, samples: Vec<u64>) -> (r: Result<DensityField, VolumeError>)
        ensures
            edge == 0 ==> r == Err::<DensityField, VolumeError>(VolumeError::ZeroEdge),
            edge > MAX_EDGE ==> r == Err::<DensityField, VolumeError>(VolumeError::EdgeTooLarge),
            1 <= edge <= MAX_EDGE && samples@.len() != lattice_len(edge as nat) ==> r
                == Err::<DensityField, VolumeError>(VolumeError::SampleCountMismatch),
            1 <= edge <= MAX_EDGE && samples@.len() == lattice_len(edge as nat) ==> {
                &&& r is Ok
                &&& r->Ok_0.edge_spec() == edge
                &&& r->Ok_0.samples_spec() == samples@
            },
    {
        if edge == 0 {
            return Err(VolumeError::ZeroEdge);
        }
        if edge > MAX_EDGE {
            return Err(VolumeError::EdgeTooLarge);
        }
        let total = lattice_count(edge);
        if samples.len() != total as usize {
            return Err(VolumeError::SampleCountMismatch);
        }
        Ok(DensityField { edge, samples })
    }

    pub fn edge(&self) -> (r: u32)
        ensures
            r == self.edge_spec(),
            1 <= r <= MAX_EDGE,
    {
        proof {
            use_type_invariant(self);
        }
        self.edge
    }

    pub fn samples(&self) -> (r: &Vec<u64>)
        ensures
            r@ == self.samples_spec(),
            r@.len() == lattice_len(self.edge_spec()),
    {
        proof {
            use_type_invariant(self);
        }
        &self.samples
    }
}

/// Declared layout of a 3D texture upload.
#[derive(Clone, Copy, Debug, PartialEq, Eq, Structural)]
pub struct TextureLayout {
    pub width: u32,
    pub height: u32,
    pub depth: u32,
    pub bytes_per_row: u32,
    pub rows_per_image: u32,
    pub mode: ChannelMode,
}

/// Whether a buffer of `len` bytes is exactly what `layout` describes.
pub open spec fn layout_matches(len: nat, layout: TextureLayout) -> bool {
    &&& layout.bytes_per_row == layout.width * layout.mode.count()
    &&& layout.rows_per_image == layout.height
    &&& len == layout.bytes_per_row * layout.rows_per_image * layout.depth
}

/// Refuses an upload whose declared pitches do not describe its buffer.
pub fn check_upload(len: usize, layout: &TextureLayout) -> (r: Result<(), VolumeError>)
    ensures
        r is Ok <==> layout_matches(len as nat, *layout),
        r is Err ==> r == Err::<(), VolumeError>(VolumeError::LayoutMismatch),
{
    let row = layout.width as u64 * layout.mode.channels() as u64;
    if row != layout.bytes_per_row as u64 || layout.rows_per_image != layout.height {
        return Err(VolumeError::LayoutMismatch);
    }
    let row_bytes = layout.bytes_per_row as u64;
    let rows = layout.rows_per_image as u64;
    assert(row_bytes * rows <= u32::MAX as int * u32::MAX as int) by (nonlinear_arith)
        requires
            row_bytes <= u32::MAX,
            rows <= u32::MAX,
    ;
    let image = row_bytes * rows;
    match image.checked_mul(layout.depth as u64) {
        Some(total) => {
            if total == len as u64 {
                Ok(())
            } else {
                Err(VolumeError::LayoutMismatch)
            }
        },
        None => Err(VolumeError::LayoutMismatch),
    }
}

/// Occupancy bytes of a density field, laid out as rows of `edge` voxels,
/// `edge` rows per slice and `edge` slices.
pub struct EncodedVolume {
    bytes: Vec<u8>,
    edge: u32,
    mode: ChannelMode,
}

impl EncodedVolume {
    #[verifier::type_invariant]
    spec fn well_formed(self) -> bool {
        &&& 1 <= self.edge <= MAX_EDGE
        &&& self.bytes@.len() == lattice_len(self.edge as nat) * self.mode.count()
    }

    pub closed spec fn bytes_spec(self) -> Seq<u8> {
        self.bytes@
    }

    pub closed spec fn edge_spec(self) -> nat {
        self.edge as nat
    }

    pub closed spec fn mode_spec(self) -> ChannelMode {
        self.mode
    }

    /// Bytes from the start of one row to the start of the next.
    pub open spec fn row_pitch_spec(self) -> nat {
        self.edge_spec() * self.mode_spec().count()
    }

    pub fn bytes(&self) -> (r: &Vec<u8>)
        ensures
            r@ == self.bytes_spec(),
    {
        &self.bytes
    }

    pub fn into_bytes(self) -> (r: Vec<u8>)
        ensures
            r@ == self.bytes_spec(),
    {
        self.bytes
    }

    pub fn edge(&self) -> (r: u32)
        ensures
            r == self.edge_spec(),
            1 <= r <= MAX_EDGE,
    {
        proof {
            use_type_invariant(self);
        }
        self.edge
    }

    pub fn mode(&self) -> (r: ChannelMode)
        ensures
            r == self.mode_spec(),
    {
        self.mode
    }

    pub fn bytes_per_row(&self) -> (r: u32)
        ensures
            r == self.row_pitch_spec(),
    {
        proof {
            use_type_invariant(self);
        }
        self.edge * self.mode.channels()
    }

    /// The layout to declare when uploading these bytes.
    pub fn layout(&self) -> (r: TextureLayout)
        ensures
            r.width == self.edge_spec(),
            r.height == self.edge_spec(),
            r.depth == self.edge_spec(),
            r.bytes_per_row == self.row_pitch_spec(),
            r.rows_per_image == self.edge_spec(),
            r.mode == self.mode_spec(),
            layout_matches(self.bytes_spec().len(), r),
    {
        proof {
            use_type_invariant(self);
            let n = self.edge as int;
            let c = self.mode.count() as int;
            assert(n * n * n * c == (n * c) * n * n) by (nonlinear_arith);
        }
        TextureLayout {
            width: self.edge,
            height: self.edge,
            depth: self.edge,
            bytes_per_row: self.bytes_per_row(),
            rows_per_image: self.edge,
            mode: self.mode,
        }
    }

    /// Byte range `[start, end)` of slice `z`.
    pub fn slice_range(&self, z: u32) -> (r: (usize, usize))
        requires
            z < self.edge_spec(),
        ensures
            r.0 == z * self.row_pitch_spec() * self.edge_spec(),
            r.1 == (z + 1) * self.row_pitch_spec() * self.edge_spec(),
            r.1 <= self.bytes_spec().len(),
    {
        proof {
            use_type_invariant(self);
        }
        let n = self.edge as usize;
        let row = self.bytes_per_row() as usize;
        proof {
            let c = self.mode.count() as int;
            assert((z + 1) * (n * c) * n <= n * n * n * c && n * n * n * c <= MAX_EDGE * MAX_EDGE
                * MAX_EDGE * 4 && z * (n * c) * n <= (z + 1) * (n * c) * n && (n * c) * n <= (z
                + 1) * (n * c) * n) by (nonlinear_arith)
                requires
                    z < n,
                    1 <= n <= MAX_EDGE,
                    1 <= c <= 4,
            ;
        }
        let slice = row * n;
        proof {
            assert(z * slice <= (z + 1) * slice && (z + 1) * slice == (z + 1) * row * n && z * slice
                == z * row * n) by (
            nonlinear_arith)
                requires
                    slice == row * n,
            ;
            assert(MAX_EDGE * MAX_EDGE * MAX_EDGE * 4 <= u32::MAX);
        }
        (z as usize * slice, (z as usize + 1) * slice)
    }
}

/// Thresholds every sample into `mode.count()` identical occupancy bytes.
pub fn encode(field: DensityField, mode: ChannelMode) -> (r: EncodedVolume)
    ensures
        r.edge_spec() == field.edge_spec(),
        r.mode_spec() == mode,
        r.bytes_spec() == encoded_occupancy(field.samples_spec(), mode.count()),
        r.bytes_spec().len() == lattice_len(field.edge_spec()) * mode.count(),
        forall|j: int| 0 <= j < r.bytes_spec().len() ==> #[trigger] r.bytes_spec()[j] == 0
            || r.bytes_spec()[j] == 255,
{
    proof {
        use_type_invariant(&field);
    }
    let c = mode.channels() as usize;
    let n = field.samples.len();
    let ghost samples = field.samples@;
    let mut bytes: Vec<u8> = Vec::new();
    let mut i: usize = 0;
    while i < n
        invariant
            samples == field.samples@,
            n == samples.len(),
            c == mode.count(),
            1 <= c <= 4,
            i <= n,
            bytes@ =~= Seq::new(
                (i * c) as nat,
                |j: int| occupancy_spec(samples[j / c as int]),
            ),
        decreases n - i,
    {
        let b = occupancy(field.samples[i]);
        let mut k: usize = 0;
        while k < c
            invariant
                samples == field.samples@,
                n == samples.len(),
                c == mode.count(),
                1 <= c <= 4,
                i < n,
                k <= c,
                b == occupancy_spec(samples[i as int]),
                bytes@ =~= Seq::new(
                    (i * c + k) as nat,
                    |j: int| occupancy_spec(samples[j / c as int]),
                ),
            decreases c - k,
        {
            proof {
                lemma_div_multiples_vanish_fancy(i as int, k as int, c as int);
                assert((c * i + k) == i * c + k) by (nonlinear_arith);
            }
            bytes.push(b);
            k += 1;
        }
        proof {
            assert(i * c + c == (i + 1) * c) by (nonlinear_arith);
        }
        i += 1;
    }
    EncodedVolume { bytes, edge: field.edge, mode }
}

/// The encoded buffer holds `channels` bytes per lattice point, each of them 0 or 255.
pub proof fn lemma_encoded_size_and_values(samples: Seq<u64>, n: nat, c: nat)
    requires
        samples.len() == lattice_len(n),
        c == 1 || c == 4,
    ensures
        encoded_occupancy(samples, c).len() == n * n * n * c,
        forall|j: int|
            0 <= j < encoded_occupancy(samples, c).len() ==> #[trigger] encoded_occupancy(
                samples,
                c,
            )[j] == 0 || encoded_occupancy(samples, c)[j] == 255,
{
}

/// The sampling order is fully determined by the edge: two runs with the same
/// configuration sample the same points in the same order.
pub proof fn lemma_lattice_is_unique(a: Seq<VoxelCoordinate>, b: Seq<VoxelCoordinate>, n: nat)
    requires
        is_lattice(a, n),
        is_lattice(b, n),
    ensures
        a == b,
{
    assert(a =~= b);
}

/// Within the buffer, slice `z`, the bytes `[z * row_pitch * n, (z + 1) * row_pitch * n)`,
/// holds exactly the voxels whose z coordinate is `z`.
pub proof fn lemma_slice_holds_layer(n: nat, c: nat, z: nat, j: nat)
    requires
        n >= 1,
        c >= 1,
        z < n,
        n <= MAX_EDGE,
        j < n * n * n * c,
    ensures
        z * (n * c) * n <= j < (z + 1) * (n * c) * n <==> coordinate_spec(j as int / c as int, n as int).z
            == z,
        (z + 1) * (n * c) * n <= n * n * n * c,
{
    let nn = n * n;
    assert((z + 1) * (n * c) * n <= n * n * n * c) by (nonlinear_arith)
        requires
            z < n,
    ;
    assert(z * (n * c) * n == (z * nn) * c && (z + 1) * (n * c) * n == ((z + 1) * nn) * c)
        by (nonlinear_arith)
        requires
            nn == n * n,
    ;
    assert(nn >= 1) by (nonlinear_arith)
        requires
            n >= 1,
            nn == n * n,
    ;
    let v = j as int / c as int;
    let r = j as int % c as int;
    vstd::arithmetic::div_mod::lemma_fundamental_div_mod(j as int, c as int);
    vstd::arithmetic::div_mod::lemma_mod_bound(j as int, c as int);
    vstd::arithmetic::div_mod::lemma_div_pos_is_pos(j as int, c as int);
    assert(j == v * c + r) by (nonlinear_arith)
        requires
            j == c * v + r,
    ;
    assert(v < nn * n) by (nonlinear_arith)
        requires
            j == v * c + r,
            0 <= r,
            j < n * n * n * c,
            nn == n * n,
            c >= 1,
    ;
    let q = v / nn as int;
    let r2 = v % nn as int;
    vstd::arithmetic::div_mod::lemma_fundamental_div_mod(v, nn as int);
    vstd::arithmetic::div_mod::lemma_mod_bound(v, nn as int);
    vstd::arithmetic::div_mod::lemma_div_pos_is_pos(v, nn as int);
    assert(q < n) by (nonlinear_arith)
        requires
            v == nn * q + r2,
            0 <= r2,
            v < nn * n,
            nn >= 1,
    ;
    vstd::arithmetic::div_mod::lemma_small_mod(q as nat, n);
    assert(coordinate_spec(v, n as int).z == q);
    assert((z * nn) * c <= j < ((z + 1) * nn) * c <==> z * nn <= v < (z + 1) * nn)
        by (nonlinear_arith)
        requires
            j == v * c + r,
            0 <= r < c,
            c >= 1,
    ;
    assert(z * nn <= v < (z + 1) * nn <==> q == z) by (nonlinear_arith)
        requires
            v == nn * q + r2,
            0 <= r2 < nn,
            0 <= q,
    ;
}

} // verus!
