//! The terrain: one mesh instance for each cell of a square grid, raised to
//! the level that a height map gives.

use crate::bytes::{bytes_of_u32, holds_u32};
use crate::fixed::{plus, product, sum, times, Vector3, UNIT};
use crate::layout::{LayoutView, StepMode, VertexAttribute, VertexBufferLayout, VertexFormat};
use vstd::arithmetic::div_mod::lemma_fundamental_div_mod_converse;
use vstd::prelude::*;

verus! {

/// Cells along one side of the terrain as it is shown.
pub const INST_PER_ROW: usize = 1414;

/// Bytes of one instance in its buffer: a four-by-four matrix of 32-bit
/// numbers.
pub const INSTANCE_SIZE: u64 = 64;

/// A place on the grid: `x` and `z` count cells, `y` counts levels.
#[derive(Clone, Copy, Debug, PartialEq, Eq, Structural)]
pub struct Cell {
    pub x: u32,
    pub y: u32,
    pub z: u32,
}

/// A turn by `angle` (radians, fixed-point) about `axis`. Only the direction
/// of the axis counts, not its length.
#[derive(Clone, Copy, Debug, PartialEq, Eq, Structural)]
pub struct Rotation {
    pub axis: Vector3,
    pub angle: i64,
}

/// One placement of the mesh.
#[derive(Clone, Copy, Debug, PartialEq, Eq, Structural)]
pub struct Instance {
    pub pos: Cell,
    pub rot: Rotation,
}

/// One instance as the GPU reads it: the bit patterns of the sixteen
/// single-precision entries of its model matrix, column by column.
#[derive(Clone, Copy, Debug)]
pub struct InstanceRaw {
    pub model: [[u32; 4]; 4],
}

/// Samples of a height function over a square of cells, row by row, as
/// fixed-point numbers.
#[derive(Debug)]
pub struct HeightMap {
    size: usize,
    samples: Vec<i64>,
}

/// How a sample becomes a level: `offset` is added, the sum is multiplied by
/// `scale`, and the whole part of that is the level.
#[derive(Clone, Copy, Debug, PartialEq, Eq, Structural)]
pub struct Placement {
    pub offset: i64,
    pub scale: i64,
}

/// The whole part of a fixed-point number, kept within `u32`: nothing for a
/// negative number.
pub open spec fn whole_part(v: i64) -> u32 {
    if v <= 0 {
        0
    } else if v / UNIT > u32::MAX {
        u32::MAX
    } else {
        (v / UNIT) as u32
    }
}

impl Cell {
    /// The corner of the grid at level nothing.
    pub open spec fn is_origin(self) -> bool {
        self.x == 0 && self.y == 0 && self.z == 0
    }

    /// The direction from the origin to this place.
    pub open spec fn direction(self) -> Vector3 {
        Vector3 { x: self.x as i64, y: self.y as i64, z: self.z as i64 }
    }
}

impl Rotation {
    /// The axis has a direction, so the turn is a rotation and not a collapse
    /// to a point.
    pub open spec fn well_formed(self) -> bool {
        self.axis != (Vector3 { x: 0, y: 0, z: 0 })
    }
}

impl Placement {
    /// The placement of the terrain as it is shown.
    pub open spec fn spec_terrain() -> Placement {
        Placement { offset: 1_006_000, scale: 100_000_000 }
    }

    /// The placement of the terrain as it is shown: a hundred levels for each
    /// unit of height, from a floor a little over one unit below nothing.
    pub fn terrain() -> (p: Placement)
        ensures
            p == Self::spec_terrain(),
    {
        Placement { offset: 1_006_000, scale: 100_000_000 }
    }

    /// The level for a sample.
    pub open spec fn spec_level(self, sample: i64) -> u32 {
        whole_part(product(sum(sample, self.offset), self.scale))
    }

    /// The level for a sample.
    pub fn level(&self, sample: i64) -> (level: u32)
        ensures
            level == self.spec_level(sample),
    {
        let scaled: i64 = times(plus(sample, self.offset), self.scale);
        if scaled <= 0 {
            0
        } else {
            let whole: i64 = scaled / 1_000_000;
            if whole > 0xffff_ffff {
                0xffff_ffff
            } else {
                whole as u32
            }
        }
    }
}

impl HeightMap {
    #[verifier::type_invariant]
    spec fn inv(self) -> bool {
        self.samples@.len() == self.size * self.size
    }

    /// Cells along one side.
    pub closed spec fn spec_size(&self) -> nat {
        self.size as nat
    }

    /// The samples, row by row: the one for `(x, z)` stands at `x + z * size`.
    pub closed spec fn view(&self) -> Seq<i64> {
        self.samples@
    }

    /// The sample for the cell `(x, z)`; a cell outside the map reads as
    /// nothing.
    pub open spec fn spec_get_value(&self, x: int, z: int) -> i64 {
        if 0 <= x < self.spec_size() && 0 <= z < self.spec_size() {
            self@[x + z * self.spec_size()]
        } else {
            0
        }
    }

    /// The map of `size` by `size` cells with `samples`, row by row; none if
    /// their number is not `size` times `size`.
    pub fn new(size: usize, samples: Vec<i64>) -> (map: Option<HeightMap>)
        ensures
            map is Some <==> samples@.len() == size * size,
            map is Some ==> map->0.spec_size() == size && map->0@ == samples@,
    {
        let given: usize = samples.len();
        match size.checked_mul(size) {
            Some(cells) => {
                if given == cells {
                    Some(HeightMap { size, samples })
                } else {
                    None
                }
            },
            None => None,
        }
    }

    /// The map of `size` by `size` cells with the same sample everywhere;
    /// none if that many cells cannot be held.
    pub fn flat(size: usize, sample: i64) -> (map: Option<HeightMap>)
        ensures
            map is Some <==> size * size <= usize::MAX,
            map is Some ==> map->0.spec_size() == size && map->0@ == Seq::new(
                (size * size) as nat,
                |i: int| sample,
            ),
    {
        match size.checked_mul(size) {
            Some(cells) => {
                let mut samples: Vec<i64> = Vec::new();
                let mut i: usize = 0;
                while i < cells
                    invariant
                        i <= cells,
                        samples@ == Seq::new(i as nat, |k: int| sample),
                    decreases cells - i,
                {
                    samples.push(sample);
                    i = i + 1;
                    assert(samples@ =~= Seq::new(i as nat, |k: int| sample));
                }
                Some(HeightMap { size, samples })
            },
            None => None,
        }
    }

    /// Cells along one side.
    pub fn size(&self) -> (size: usize)
        ensures
            size == self.spec_size(),
            self@.len() == size * size,
            size * size <= usize::MAX,
    {
        proof {
            use_type_invariant(self);
        }
        let cells: usize = self.samples.len();
        self.size
    }

    /// The sample for the cell `(x, z)`; a cell outside the map reads as
    /// nothing.
    pub fn get_value(&self, x: usize, z: usize) -> (sample: i64)
        ensures
            sample == self.spec_get_value(x as int, z as int),
    {
        proof {
            use_type_invariant(self);
        }
        let cells: usize = self.samples.len();
        if x < self.size && z < self.size {
            proof {
                let n = self.size as int;
                assert(cells == n * n);
                assert(0 <= z * n && x + z * n < n * n) by (nonlinear_arith)
                    requires
                        0 <= x < n,
                        0 <= z < n,
                ;
            }
            self.samples[x + z * self.size]
        } else {
            0
        }
    }
}

impl Instance {
    /// The instance at `pos`, turned by `angle` about the direction from the
    /// origin to `pos`. At the origin there is no such direction, and the
    /// axis is the z axis.
    pub open spec fn placed(pos: Cell, angle: i64) -> Instance {
        Instance {
            pos,
            rot: Rotation {
                axis: if pos.is_origin() {
                    Vector3 { x: 0, y: 0, z: 1 }
                } else {
                    pos.direction()
                },
                angle,
            },
        }
    }

    /// The instance for the cell at index `i` of a terrain, cells counted row
    /// by row: it stands at its cell, at the level of its sample, unturned.
    pub open spec fn of_cell(terrain: &HeightMap, placement: Placement, i: int) -> Instance {
        let n = terrain.spec_size() as int;
        Self::placed(
            Cell { x: (i % n) as u32, y: placement.spec_level(terrain@[i]), z: (i / n) as u32 },
            0,
        )
    }

    /// The instances of a terrain: one for each cell, row by row.
    pub open spec fn grid(terrain: &HeightMap, placement: Placement) -> Seq<Instance> {
        Seq::new(
            terrain.spec_size() * terrain.spec_size(),
            |i: int| Self::of_cell(terrain, placement, i),
        )
    }

    /// The instance at `pos`, turned by `angle` about the direction from the
    /// origin to `pos`, or about the z axis at the origin. Its axis always
    /// has a direction.
    pub fn new(pos: Cell, angle: i64) -> (instance: Instance)
        ensures
            instance == Self::placed(pos, angle),
            instance.rot.well_formed(),
            pos.is_origin() ==> instance.rot.axis == (Vector3 { x: 0, y: 0, z: 1 }),
    {
        let axis: Vector3 = if pos.x == 0 && pos.y == 0 && pos.z == 0 {
            Vector3 { x: 0, y: 0, z: 1 }
        } else {
            Vector3 { x: pos.x as i64, y: pos.y as i64, z: pos.z as i64 }
        };
        Instance { pos, rot: Rotation { axis, angle } }
    }

    /// One instance for each cell of `terrain`, row by row: the cell
    /// `(x, z)` gives the instance at index `x + z * size`, which stands at
    /// `x`, `z` and the level of its sample.
    pub fn create_instances(terrain: &HeightMap, placement: &Placement) -> (instances: Vec<
        Instance,
    >)
        ensures
            instances@ == Self::grid(terrain, *placement),
            instances@.len() == terrain.spec_size() * terrain.spec_size(),
            forall|i: int| 0 <= i < instances@.len() ==> (#[trigger] instances@[i]).rot.well_formed(),
    {
        let n: usize = terrain.size();
        proof {
            assert(n <= 0xffff_ffff) by (nonlinear_arith)
                requires
                    0 <= n,
                    n * n <= 0xffff_ffff_ffff_ffff,
            ;
        }
        let mut instances: Vec<Instance> = Vec::new();
        let mut z: usize = 0;
        while z < n
            invariant
                n == terrain.spec_size(),
                terrain@.len() == n * n,
                n <= 0xffff_ffff,
                z <= n,
                instances@.len() == z * n,
                forall|i: int|
                    0 <= i < instances@.len() ==> #[trigger] instances@[i] == Self::of_cell(
                        terrain,
                        *placement,
                        i,
                    ),
                forall|i: int|
                    0 <= i < instances@.len() ==> (#[trigger] instances@[i]).rot.well_formed(),
            decreases n - z,
        {
            let mut x: usize = 0;
            while x < n
                invariant
                    n == terrain.spec_size(),
                    terrain@.len() == n * n,
                    n <= 0xffff_ffff,
                    z < n,
                    x <= n,
                    instances@.len() == z * n + x,
                    forall|i: int|
                        0 <= i < instances@.len() ==> #[trigger] instances@[i] == Self::of_cell(
                            terrain,
                            *placement,
                            i,
                        ),
                    forall|i: int|
                        0 <= i < instances@.len() ==> (#[trigger] instances@[i]).rot.well_formed(),
                decreases n - x,
            {
                proof {
                    let i = x + z * n;
                    assert(0 <= z * n && i < n * n) by (nonlinear_arith)
                        requires
                            0 <= x < n,
                            0 <= z < n,
                            i == x + z * n,
                    ;
                    lemma_fundamental_div_mod_converse(i, n as int, z as int, x as int);
                }
                let level: u32 = placement.level(terrain.get_value(x, z));
                instances.push(Instance::new(Cell { x: x as u32, y: level, z: z as u32 }, 0));
                x = x + 1;
            }
            z = z + 1;
            assert(z * n == (z - 1) * n + n) by (nonlinear_arith);
        }
        assert(instances@ =~= Self::grid(terrain, *placement));
        instances
    }
}

/// A terrain gives one instance for each of its cells, and the cell `(x, z)`
/// gives the one that stands at `x`, `z` and the level of its sample.
pub proof fn grid_covers_each_cell(terrain: &HeightMap, placement: Placement, x: int, z: int)
    requires
        terrain@.len() == terrain.spec_size() * terrain.spec_size(),
        terrain.spec_size() <= u32::MAX,
        0 <= x < terrain.spec_size(),
        0 <= z < terrain.spec_size(),
    ensures
        Instance::grid(terrain, placement).len() == terrain.spec_size() * terrain.spec_size(),
        0 <= x + z * terrain.spec_size() < Instance::grid(terrain, placement).len(),
        Instance::grid(terrain, placement)[x + z * terrain.spec_size()].pos == (Cell {
            x: x as u32,
            y: placement.spec_level(terrain.spec_get_value(x, z)),
            z: z as u32,
        }),
{
    let n = terrain.spec_size() as int;
    let i = x + z * n;
    assert(0 <= z * n && i < n * n) by (nonlinear_arith)
        requires
            0 <= x < n,
            0 <= z < n,
            i == x + z * n,
    ;
    lemma_fundamental_div_mod_converse(i, n, z, x);
}

/// The instances depend on nothing but the samples and the placement: two
/// terrains with the same samples give the same instances.
pub proof fn same_samples_same_instances(a: &HeightMap, b: &HeightMap, placement: Placement)
    requires
        a.spec_size() == b.spec_size(),
        a@ == b@,
    ensures
        Instance::grid(a, placement) == Instance::grid(b, placement),
{
    assert(Instance::grid(a, placement) =~= Instance::grid(b, placement));
}

/// No instance of a terrain has an axis without a direction, and one at the
/// origin turns about the z axis.
pub proof fn every_axis_has_a_direction(terrain: &HeightMap, placement: Placement, i: int)
    requires
        0 <= i < Instance::grid(terrain, placement).len(),
    ensures
        Instance::grid(terrain, placement)[i].rot.well_formed(),
        Instance::grid(terrain, placement)[i].pos.is_origin() ==> Instance::grid(
            terrain,
            placement,
        )[i].rot.axis == (Vector3 { x: 0, y: 0, z: 1 }),
{
}

/// The layout of the instance buffer: one matrix for each instance, its
/// column `i` at byte `16 i` for the shader's slot `5 + i`.
pub open spec fn instance_layout() -> LayoutView {
    LayoutView {
        array_stride: INSTANCE_SIZE,
        step_mode: StepMode::Instance,
        attributes: Seq::new(
            4,
            |i: int|
                VertexAttribute {
                    offset: (16 * i) as u64,
                    shader_location: (5 + i) as u32,
                    format: VertexFormat::Float32x4,
                },
        ),
    }
}

impl InstanceRaw {
    /// The layout of the instance buffer: one matrix for each instance, its
    /// column `i` at byte `16 i` for the shader's slot `5 + i`.
    pub fn desc() -> (layout: VertexBufferLayout)
        ensures
            layout@ == instance_layout(),
            layout.well_formed(),
    {
        let mut attributes: Vec<VertexAttribute> = Vec::new();
        attributes.push(
            VertexAttribute { offset: 0, shader_location: 5, format: VertexFormat::Float32x4 },
        );
        attributes.push(
            VertexAttribute { offset: 16, shader_location: 6, format: VertexFormat::Float32x4 },
        );
        attributes.push(
            VertexAttribute { offset: 32, shader_location: 7, format: VertexFormat::Float32x4 },
        );
        attributes.push(
            VertexAttribute { offset: 48, shader_location: 8, format: VertexFormat::Float32x4 },
        );
        assert(attributes@ =~= instance_layout().attributes);
        VertexBufferLayout { array_stride: INSTANCE_SIZE, step_mode: StepMode::Instance, attributes }
    }

    /// The entries of the matrices one after the other: instance by
    /// instance, column by column.
    pub open spec fn words(raws: Seq<InstanceRaw>) -> Seq<u32> {
        Seq::new(16 * raws.len(), |i: int| raws[i / 16].model[(i % 16) / 4][i % 4])
    }

    /// The contents of the instance buffer: the matrices as they lie in
    /// memory, 64 bytes for each instance.
    pub fn pack(raws: &Vec<InstanceRaw>) -> (bytes: Vec<u8>)
        ensures
            holds_u32(bytes@, Self::words(raws@)),
            bytes@.len() == INSTANCE_SIZE * raws@.len(),
    {
        let n: usize = raws.len();
        let mut words: Vec<u32> = Vec::new();
        let mut i: usize = 0;
        while i < n
            invariant
                n == raws@.len(),
                i <= n,
                words@.len() == 16 * i,
                forall|k: int| 0 <= k < words@.len() ==> #[trigger] words@[k] == Self::words(raws@)[k],
            decreases n - i,
        {
            let raw: InstanceRaw = raws[i];
            let mut c: usize = 0;
            while c < 4
                invariant
                    n == raws@.len(),
                    i < n,
                    c <= 4,
                    raw == raws@[i as int],
                    words@.len() == 16 * i + 4 * c,
                    forall|k: int|
                        0 <= k < words@.len() ==> #[trigger] words@[k] == Self::words(raws@)[k],
                decreases 4 - c,
            {
                let column: [u32; 4] = raw.model[c];
                words.push(column[0]);
                words.push(column[1]);
                words.push(column[2]);
                words.push(column[3]);
                c = c + 1;
            }
            i = i + 1;
        }
        assert(words@ =~= Self::words(raws@));
        bytes_of_u32(&words)
    }
}

} // verus!
