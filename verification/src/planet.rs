//! A planet's shape: its checked configuration and the layout of its mesh.
//!
//! A shape is made from generator data and holds what the layout of the
//! mesh depends on: the resolution of the grid on each face and the order
//! and masking of the noise layers. From it come the record of every vertex
//! and the index buffer. Elevation, positions and normals are real-valued and
//! are computed by the caller from these records.

use vstd::prelude::*;
use crate::face::CubeFace;
use crate::face::Point3;
use crate::grid::VertexSite;
use crate::grid::flat_index;
use crate::grid::index_count;
use crate::grid::index_entry;
use crate::grid::lemma_flat_index_in_bounds;
use crate::grid::lemma_index_entry_in_bounds;
use crate::grid::lemma_index_entry_steps;
use crate::grid::lemma_index_recomposes;
use crate::grid::lemma_neighbors_stay_on_face;
use crate::grid::lemma_quad_in_range;
use crate::grid::lemma_site_is_unique;
use crate::grid::on_grid;
use crate::grid::quad_anchor;
use crate::grid::quads_per_face;
use crate::grid::vertex_count;

verus! {

/// The least resolution: two vertices along each side of a face, one square.
pub const MIN_RESOLUTION: i32 = 2;

/// The greatest resolution: the greatest for which the number of every
/// vertex fits the 32 bits of an index.
pub const MAX_RESOLUTION: i32 = 26754;

/// One layer of noise, as far as the order of evaluation depends on it.
#[derive(Clone, Copy, Debug, PartialEq, Eq, Structural)]
pub struct NoiseSettings {
    /// Seed of the layer's noise.
    pub seed: u64,
    /// Whether the layer adds only where the layers before it have left an
    /// elevation other than zero.
    pub mask_by_previous: bool,
}

impl NoiseSettings {
    /// Whether the layer is passed over, given whether the elevation
    /// accumulated so far is exactly zero.
    pub open spec fn skipped(self, accumulated_is_zero: bool) -> bool {
        self.mask_by_previous && accumulated_is_zero
    }

    /// Whether the layer is passed over, given whether the elevation
    /// accumulated so far is exactly zero.
    pub fn is_skipped(&self, accumulated_is_zero: bool) -> (r: bool)
        ensures
            r == self.skipped(accumulated_is_zero),
    {
        self.mask_by_previous && accumulated_is_zero
    }

    /// The seed for a noise source that takes 32 bits: the low 32 bits of
    /// the layer's seed.
    pub fn primitive_seed(&self) -> (r: u32)
        ensures
            r == self.seed % 0x1_0000_0000,
    {
        (self.seed % 0x1_0000_0000) as u32
    }
}

/// What a caller asks for: the resolution of each face's grid and the noise
/// layers in the order in which they are applied.
#[derive(Clone, Debug)]
pub struct PlanetGeneratorData {
    pub noise_settings: Vec<NoiseSettings>,
    pub resolution: i32,
}

impl Default for PlanetGeneratorData {
    /// Resolution 32 and three unmasked layers with the seeds 0, 1 and 2.
    fn default() -> (r: Self)
        ensures
            r.resolution == 32,
            r.noise_settings@ == seq![
                (NoiseSettings { seed: 0, mask_by_previous: false }),
                (NoiseSettings { seed: 1, mask_by_previous: false }),
                (NoiseSettings { seed: 2, mask_by_previous: false }),
            ],
    {
        let mut noise_settings: Vec<NoiseSettings> = Vec::new();
        noise_settings.push(NoiseSettings { seed: 0, mask_by_previous: false });
        noise_settings.push(NoiseSettings { seed: 1, mask_by_previous: false });
        noise_settings.push(NoiseSettings { seed: 2, mask_by_previous: false });
        assert(noise_settings@ =~= seq![
            (NoiseSettings { seed: 0, mask_by_previous: false }),
            (NoiseSettings { seed: 1, mask_by_previous: false }),
            (NoiseSettings { seed: 2, mask_by_previous: false }),
        ]);
        PlanetGeneratorData { noise_settings, resolution: 32 }
    }
}

/// Why generator data was turned down.
#[derive(Clone, Copy, Debug, PartialEq, Eq, Structural)]
pub enum ConfigError {
    /// The resolution is below 2, so a face would have no square.
    ResolutionTooSmall,
    /// The resolution is so high that vertex numbers would not fit 32 bits.
    ResolutionTooLarge,
}

/// The layout of a mesh: the record of every vertex, in the order of their
/// numbers, and the index buffer, three entries to a triangle.
#[derive(Clone, Debug)]
pub struct MeshLayout {
    pub sites: Vec<VertexSite>,
    pub indices: Vec<u32>,
}

impl MeshLayout {
    /// Whether this is the layout of a mesh of resolution `res`.
    pub open spec fn is_layout(self, res: int) -> bool {
        &&& self.sites@.len() == vertex_count(res)
        &&& forall|i: int| 0 <= i < self.sites@.len() ==> (#[trigger] self.sites@[i]).is_site(res, i)
        &&& self.indices@.len() == index_count(res)
        &&& forall|k: int|
            0 <= k < self.indices@.len() ==> #[trigger] self.indices@[k] == index_entry(res, k)
    }
}

/// The index of the first layer at or after `from` that is not passed over,
/// if there is one.
pub open spec fn next_applied(layers: Seq<NoiseSettings>, from: int, accumulated_is_zero: bool)
    -> Option<int>
    decreases layers.len() - from,
{
    if from < 0 || from >= layers.len() {
        None
    } else if !layers[from].skipped(accumulated_is_zero) {
        Some(from)
    } else {
        next_applied(layers, from + 1, accumulated_is_zero)
    }
}

/// A planet's shape, made from generator data that passed the checks.
pub struct PlanetShape {
    resolution: u32,
    noise_settings: Vec<NoiseSettings>,
}

impl PlanetShape {
    #[verifier::type_invariant]
    spec fn in_range(&self) -> bool {
        MIN_RESOLUTION <= self.resolution <= MAX_RESOLUTION
    }

    /// The resolution of each face's grid.
    pub closed spec fn spec_resolution(&self) -> int {
        self.resolution as int
    }

    /// The noise layers, in the order in which they are applied.
    pub closed spec fn spec_layers(&self) -> Seq<NoiseSettings> {
        self.noise_settings@
    }

    /// Checks generator data and makes the shape it describes. The data is
    /// turned down where its resolution is below `MIN_RESOLUTION` or above
    /// `MAX_RESOLUTION`, and taken as it is otherwise.
    pub fn new(data: &PlanetGeneratorData) -> (r: Result<PlanetShape, ConfigError>)
        ensures
            match r {
                Ok(shape) => {
                    &&& MIN_RESOLUTION <= data.resolution <= MAX_RESOLUTION
                    &&& shape.spec_resolution() == data.resolution
                    &&& shape.spec_layers() == data.noise_settings@
                },
                Err(ConfigError::ResolutionTooSmall) => data.resolution < MIN_RESOLUTION,
                Err(ConfigError::ResolutionTooLarge) => data.resolution > MAX_RESOLUTION,
            },
    {
        if data.resolution < MIN_RESOLUTION {
            return Err(ConfigError::ResolutionTooSmall);
        }
        if data.resolution > MAX_RESOLUTION {
            return Err(ConfigError::ResolutionTooLarge);
        }
        let mut noise_settings: Vec<NoiseSettings> = Vec::new();
        let mut i: usize = 0;
        while i < data.noise_settings.len()
            invariant
                i <= data.noise_settings.len(),
                noise_settings@ == data.noise_settings@.take(i as int),
            decreases data.noise_settings.len() - i,
        {
            noise_settings.push(data.noise_settings[i]);
            assert(noise_settings@ =~= data.noise_settings@.take(i + 1));
            i += 1;
        }
        assert(data.noise_settings@.take(i as int) =~= data.noise_settings@);
        Ok(PlanetShape { resolution: data.resolution as u32, noise_settings })
    }

    /// The resolution of each face's grid.
    pub fn resolution(&self) -> (r: u32)
        ensures
            r == self.spec_resolution(),
            MIN_RESOLUTION <= r <= MAX_RESOLUTION,
    {
        proof {
            use_type_invariant(self);
        }
        self.resolution
    }

    /// The noise layers, in the order in which they are applied.
    pub fn layers(&self) -> (r: &Vec<NoiseSettings>)
        ensures
            r@ == self.spec_layers(),
    {
        &self.noise_settings
    }

    /// Number of vertices of the mesh: six faces of `resolution` rows and
    /// columns.
    pub fn vertex_count(&self) -> (r: u32)
        ensures
            r == vertex_count(self.spec_resolution()),
            r == 6 * self.spec_resolution() * self.spec_resolution(),
    {
        proof {
            use_type_invariant(self);
        }
        let res = self.resolution;
        assert(res * res <= 26754 * 26754 && 6 * (res * res) == 6 * res * res) by (nonlinear_arith)
            requires
                0 <= res <= 26754,
        ;
        6 * (res * res)
    }

    /// Number of entries of the index buffer: three for each of the two
    /// triangles of every square.
    pub fn index_count(&self) -> (r: u64)
        ensures
            r == index_count(self.spec_resolution()),
            r == 6 * (self.spec_resolution() - 1) * (self.spec_resolution() - 1) * 6,
    {
        proof {
            use_type_invariant(self);
        }
        let side: u64 = (self.resolution - 1) as u64;
        assert(side * side <= 26753 * 26753 && 6 * (side * side) * 6 == 6 * side * side * 6)
            by (nonlinear_arith)
            requires
                0 <= side <= 26753,
        ;
        6 * (side * side) * 6
    }

    /// The number of the vertex at a row and column of a face, if the face
    /// has such a vertex.
    pub fn vertex_index(&self, face: CubeFace, row: u32, col: u32) -> (r: Option<u32>)
        ensures
            r.is_some() <==> on_grid(self.spec_resolution(), row as int, col as int),
            r matches Some(i) ==> i == flat_index(
                self.spec_resolution(),
                face.ordinal(),
                row as int,
                col as int,
            ) && i < vertex_count(self.spec_resolution()),
    {
        proof {
            use_type_invariant(self);
        }
        let res = self.resolution;
        if row >= res || col >= res {
            return None;
        }
        let f = face.index();
        proof {
            lemma_flat_index_in_bounds(res as int, f as int, row as int, col as int);
            assert(res * res <= 26754 * 26754) by (nonlinear_arith)
                requires
                    0 <= res <= 26754,
            ;
            assert(0 <= f * (res * res) <= 5 * (res * res)) by (nonlinear_arith)
                requires
                    0 <= f <= 5,
                    0 <= res,
            ;
            assert(0 <= row * res <= res * res) by (nonlinear_arith)
                requires
                    0 <= row < res,
            ;
        }
        Some(f * (res * res) + row * res + col)
    }

    /// The record of the vertex with a given number, if the mesh has such a
    /// vertex.
    pub fn site(&self, index: u32) -> (r: Option<VertexSite>)
        ensures
            r.is_some() <==> index < vertex_count(self.spec_resolution()),
            r matches Some(s) ==> s.is_site(self.spec_resolution(), index as int),
    {
        proof {
            use_type_invariant(self);
        }
        let res = self.resolution;
        let count = self.vertex_count();
        if index >= count {
            return None;
        }
        proof {
            lemma_index_recomposes(res as int, index as int);
            lemma_neighbors_stay_on_face(res as int, index as int);
            assert(2 <= res * res <= 26754 * 26754) by (nonlinear_arith)
                requires
                    2 <= res <= 26754,
            ;
        }
        let face_number = index / (res * res);
        let row = (index / res) % res;
        let col = index % res;
        let face = CubeFace::from_index(face_number).unwrap();
        let side: i32 = (res - 1) as i32;
        let local = Point3 { x: 2 * (col as i32) - side, y: 2 * (row as i32) - side, z: side };
        let point = face.rotate(local);
        let horizontal_neighbor = if col == res - 1 {
            index - 1
        } else {
            index + 1
        };
        let vertical_neighbor = if row == res - 1 {
            index - res
        } else {
            index + res
        };
        Some(VertexSite { face, row, col, point, horizontal_neighbor, vertical_neighbor })
    }

    /// The records of all vertices, in the order of their numbers.
    pub fn generate_sites(&self) -> (r: Vec<VertexSite>)
        ensures
            r@.len() == vertex_count(self.spec_resolution()),
            forall|i: int|
                0 <= i < r@.len() ==> (#[trigger] r@[i]).is_site(self.spec_resolution(), i),
    {
        let count = self.vertex_count();
        let mut sites: Vec<VertexSite> = Vec::new();
        let mut index: u32 = 0;
        while index < count
            invariant
                index <= count,
                count == vertex_count(self.spec_resolution()),
                sites@.len() == index,
                forall|i: int|
                    0 <= i < sites@.len() ==> (#[trigger] sites@[i]).is_site(
                        self.spec_resolution(),
                        i,
                    ),
            decreases count - index,
        {
            let site = self.site(index).unwrap();
            sites.push(site);
            index += 1;
        }
        sites
    }

    /// The index buffer: for every square, face by face, row by row and
    /// column by column, the corners of its two triangles.
    pub fn generate_indices(&self) -> (r: Vec<u32>)
        ensures
            r@.len() == index_count(self.spec_resolution()),
            forall|k: int|
                0 <= k < r@.len() ==> #[trigger] r@[k] == index_entry(self.spec_resolution(), k),
            forall|k: int|
                0 <= k < r@.len() ==> #[trigger] r@[k] < vertex_count(self.spec_resolution()),
    {
        proof {
            use_type_invariant(self);
        }
        let res = self.resolution;
        let side = res - 1;
        assert(1 <= side * side <= 26753 * 26753 && 2 <= res * res <= 26754 * 26754)
            by (nonlinear_arith)
            requires
                side == res - 1,
                2 <= res <= 26754,
        ;
        let per_face = side * side;
        let quads = 6 * per_face;
        let mut indices: Vec<u32> = Vec::new();
        let mut q: u32 = 0;
        while q < quads
            invariant
                q <= quads,
                quads == 6 * quads_per_face(res as int),
                per_face == quads_per_face(res as int),
                per_face >= 1,
                side == res - 1,
                2 <= res <= 26754,
                res == self.spec_resolution(),
                res * res <= 26754 * 26754,
                indices@.len() == 6 * q,
                forall|k: int|
                    0 <= k < indices@.len() ==> #[trigger] indices@[k] == index_entry(
                        res as int,
                        k,
                    ),
            decreases quads - q,
        {
            let ghost before = indices@;
            proof {
                lemma_quad_in_range(res as int, q as int);
                assert forall|c: int| 0 <= c < 6 implies {
                    &&& (6 * q + c) / 6 == q
                    &&& (6 * q + c) % 6 == c
                    &&& 0 <= #[trigger] index_entry(res as int, 6 * q + c) < vertex_count(
                        res as int,
                    )
                    &&& index_entry(res as int, 6 * q + c) == quad_anchor(res as int, q as int)
                        + crate::grid::corner_row(c) * res + crate::grid::corner_col(c)
                } by {
                    lemma_index_entry_in_bounds(res as int, 6 * q + c);
                    lemma_index_entry_steps(res as int, 6 * q + c);
                }
                assert(index_entry(res as int, 6 * q + 0) == quad_anchor(res as int, q as int));
                assert(index_entry(res as int, 6 * q + 4) == quad_anchor(res as int, q as int)
                    + res + 1);
                assert(0 * res == 0 && 1 * res == res) by (nonlinear_arith);
            }
            let quad_face = q / per_face;
            let quad_row = (q / side) % side;
            let quad_col = q % side;
            assert(0 <= quad_face * (res * res) <= 5 * (res * res) && 0 <= quad_row * res <= res
                * res) by (nonlinear_arith)
                requires
                    0 <= quad_face <= 5,
                    0 <= quad_row < res,
                    0 <= res,
            ;
            let anchor = quad_face * (res * res) + quad_row * res + quad_col;
            assert(anchor == quad_anchor(res as int, q as int));
            indices.push(anchor);
            indices.push(anchor + res);
            indices.push(anchor + 1);
            indices.push(anchor + res);
            indices.push(anchor + res + 1);
            indices.push(anchor + 1);
            proof {
                assert forall|k: int| 0 <= k < indices@.len() implies #[trigger] indices@[k]
                    == index_entry(res as int, k) by {
                    if k < 6 * q {
                        assert(indices@[k] == before[k]);
                    } else {
                        let c = k - 6 * q;
                        assert(0 <= c < 6);
                        assert(index_entry(res as int, 6 * q + c) == quad_anchor(
                            res as int,
                            q as int,
                        ) + crate::grid::corner_row(c) * res + crate::grid::corner_col(c));
                    }
                }
            }
            q += 1;
        }
        proof {
            assert forall|k: int| 0 <= k < indices@.len() implies #[trigger] indices@[k]
                < vertex_count(res as int) by {
                lemma_index_entry_in_bounds(res as int, k);
            }
        }
        indices
    }

    /// The layout of the whole mesh: every vertex's record and the index
    /// buffer. There are `6 * resolution * resolution` vertices and
    /// `6 * (resolution - 1) * (resolution - 1) * 6` entries of the index
    /// buffer, and every entry is the number of a vertex.
    pub fn generate_mesh(&self) -> (r: MeshLayout)
        ensures
            r.is_layout(self.spec_resolution()),
            r.sites@.len() == 6 * self.spec_resolution() * self.spec_resolution(),
            r.indices@.len() == 6 * (self.spec_resolution() - 1) * (self.spec_resolution() - 1)
                * 6,
            forall|k: int| 0 <= k < r.indices@.len() ==> #[trigger] r.indices@[k] < r.sites@.len(),
    {
        let sites = self.generate_sites();
        let indices = self.generate_indices();
        proof {
            let res = self.spec_resolution();
            assert(vertex_count(res) == 6 * res * res) by (nonlinear_arith)
                requires
                    vertex_count(res) == 6 * (res * res),
            ;
            assert(index_count(res) == 6 * (res - 1) * (res - 1) * 6) by (nonlinear_arith)
                requires
                    index_count(res) == 6 * ((res - 1) * (res - 1)) * 6,
            ;
        }
        MeshLayout { sites, indices }
    }

    /// The next layer to evaluate when sampling the elevation at one
    /// direction: the first layer at or after `from` that is not passed over,
    /// given whether the elevation accumulated before it is exactly zero. A
    /// layer that is passed over leaves the elevation as it was, so one answer
    /// covers the whole run of layers up to the one returned.
    pub fn next_layer(&self, from: usize, accumulated_is_zero: bool) -> (r: Option<usize>)
        ensures
            match r {
                Some(k) => {
                    &&& from <= k < self.spec_layers().len()
                    &&& !self.spec_layers()[k as int].skipped(accumulated_is_zero)
                    &&& forall|j: int|
                        from <= j < k ==> (#[trigger] self.spec_layers()[j]).skipped(
                            accumulated_is_zero,
                        )
                },
                None => forall|j: int|
                    from <= j < self.spec_layers().len() ==> (#[trigger] self.spec_layers()[j]).skipped(
                        accumulated_is_zero,
                    ),
            },
            r matches Some(k) ==> next_applied(self.spec_layers(), from as int, accumulated_is_zero)
                == Some(k as int),
            r.is_none() ==> next_applied(self.spec_layers(), from as int, accumulated_is_zero)
                .is_none(),
    {
        let mut k: usize = from;
        while k < self.noise_settings.len()
            invariant
                from <= k,
                forall|j: int|
                    from <= j < k && j < self.noise_settings@.len() ==> (
                    #[trigger] self.noise_settings@[j]).skipped(accumulated_is_zero),
                next_applied(self.noise_settings@, from as int, accumulated_is_zero)
                    == next_applied(self.noise_settings@, k as int, accumulated_is_zero),
            decreases self.noise_settings.len() - k,
        {
            if !self.noise_settings[k].is_skipped(accumulated_is_zero) {
                return Some(k);
            }
            k += 1;
        }
        None
    }
}

/// The layout of a mesh is fixed by the resolution: two layouts of one
/// resolution hold the same records and the same index buffer, whatever else
/// the shapes they were made from hold.
pub proof fn lemma_layout_is_unique(res: int, a: MeshLayout, b: MeshLayout)
    requires
        a.is_layout(res),
        b.is_layout(res),
    ensures
        a.sites@ == b.sites@,
        a.indices@ == b.indices@,
{
    assert forall|i: int| 0 <= i < a.sites@.len() implies a.sites@[i] == b.sites@[i] by {
        assert(a.sites@[i].is_site(res, i));
        assert(b.sites@[i].is_site(res, i));
        lemma_site_is_unique(res, i, a.sites@[i], b.sites@[i]);
    }
    assert(a.sites@ =~= b.sites@);
    assert(a.indices@ =~= b.indices@);
}

/// A masked layer is never chosen while the accumulated elevation is zero:
/// the layer that sampling then turns to next is an unmasked one.
pub proof fn lemma_masked_layers_wait(layers: Seq<NoiseSettings>, from: int, k: int)
    requires
        next_applied(layers, from, true) == Some(k),
    ensures
        from <= k < layers.len(),
        !layers[k].mask_by_previous,
    decreases layers.len() - from,
{
    if 0 <= from < layers.len() && layers[from].skipped(true) {
        lemma_masked_layers_wait(layers, from + 1, k);
    }
}

/// While the accumulated elevation is not zero no layer is passed over.
pub proof fn lemma_nonzero_elevation_passes_none(layers: Seq<NoiseSettings>, from: int)
    requires
        0 <= from < layers.len(),
    ensures
        next_applied(layers, from, false) == Some(from),
{
}

} // verus!
