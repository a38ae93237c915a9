use vstd::prelude::*;

use crate::buildings::Building;
use crate::buildings::BuildingColor;
use crate::buildings::BuildingMesh;
use crate::buildings::BuildingSize;

verus! {

/// Base visual size of an inventory item, in world units.
pub const ITEM_VISUAL_SIZE: u64 = 64;

/// Largest scale factor a registry entry may carry, in hundredths. Keeps the
/// resolved scale inside a 64-bit word.
pub const MAX_SCALE_HUNDREDTHS: u64 = 1_000_000;

/// First value bound to `key` in an association list, if any.
pub open spec fn spec_lookup<T>(entries: Seq<(T, u64)>, key: T) -> Option<u64>
    decreases entries.len(),
{
    if entries.len() == 0 {
        None
    } else if entries[0].0 == key {
        Some(entries[0].1)
    } else {
        spec_lookup(entries.skip(1), key)
    }
}

/// Why a registry could not be built: a completeness defect in one of the
/// three association lists.
#[derive(Clone, Copy, Debug, PartialEq, Eq, Structural)]
pub enum RegistryError {
    /// A shape has no mesh entry.
    MissingMesh(BuildingMesh),
    /// A size has no scale entry.
    MissingSize(BuildingSize),
    /// A color has no material entry.
    MissingColor(BuildingColor),
    /// A size's scale factor is zero or too large to resolve.
    ScaleOutOfRange(BuildingSize),
}

/// Startup-built lookup registry: three independent mappings, each total
/// over its axis's enumeration. Mesh and material entries carry opaque
/// renderable handle identifiers; size entries carry a scale factor in
/// hundredths (100 is the base size).
pub struct VisualAssets {
    /// Shape to mesh handle.
    pub mesh_def: Vec<(BuildingMesh, u64)>,
    /// Size to scale factor, in hundredths.
    pub size_def: Vec<(BuildingSize, u64)>,
    /// Color to material handle.
    pub color_def: Vec<(BuildingColor, u64)>,
}

impl VisualAssets {
    /// Totality invariant: every member of every axis enumeration has an
    /// entry, and every scale factor is positive and bounded.
    pub open spec fn wf(self) -> bool {
        &&& (forall|m: BuildingMesh| (#[trigger] spec_lookup(self.mesh_def@, m)) is Some)
        &&& (forall|s: BuildingSize|
            (#[trigger] spec_lookup(self.size_def@, s)) matches Some(v) && 0 < v
                <= MAX_SCALE_HUNDREDTHS)
        &&& (forall|c: BuildingColor| (#[trigger] spec_lookup(self.color_def@, c)) is Some)
    }

    /// Mesh handle registered for a shape, if any.
    pub fn mesh_for(&self, mesh: BuildingMesh) -> (found: Option<u64>)
        ensures
            found == spec_lookup(self.mesh_def@, mesh),
    {
        let n = self.mesh_def.len();
        let mut i: usize = 0;
        proof {
            assert(self.mesh_def@.skip(0) =~= self.mesh_def@);
        }
        while i < n
            invariant
                i <= n,
                self.mesh_def@.len() == n,
                spec_lookup(self.mesh_def@, mesh) == spec_lookup(
                    self.mesh_def@.skip(i as int),
                    mesh,
                ),
            decreases n - i,
        {
            proof {
                assert(self.mesh_def@.skip(i as int)[0] == self.mesh_def@[i as int]);
                assert(self.mesh_def@.skip(i as int).skip(1) =~= self.mesh_def@.skip(i as int + 1));
            }
            let entry = self.mesh_def[i];
            if entry.0 == mesh {
                return Some(entry.1);
            }
            i = i + 1;
        }
        None
    }

    /// Scale factor registered for a size, in hundredths, if any.
    pub fn scale_for(&self, size: BuildingSize) -> (found: Option<u64>)
        ensures
            found == spec_lookup(self.size_def@, size),
    {
        let n = self.size_def.len();
        let mut i: usize = 0;
        proof {
            assert(self.size_def@.skip(0) =~= self.size_def@);
        }
        while i < n
            invariant
                i <= n,
                self.size_def@.len() == n,
                spec_lookup(self.size_def@, size) == spec_lookup(
                    self.size_def@.skip(i as int),
                    size,
                ),
            decreases n - i,
        {
            proof {
                assert(self.size_def@.skip(i as int)[0] == self.size_def@[i as int]);
                assert(self.size_def@.skip(i as int).skip(1) =~= self.size_def@.skip(i as int + 1));
            }
            let entry = self.size_def[i];
            if entry.0 == size {
                return Some(entry.1);
            }
            i = i + 1;
        }
        None
    }

    /// Material handle registered for a color, if any.
    pub fn material_for(&self, color: BuildingColor) -> (found: Option<u64>)
        ensures
            found == spec_lookup(self.color_def@, color),
    {
        let n = self.color_def.len();
        let mut i: usize = 0;
        proof {
            assert(self.color_def@.skip(0) =~= self.color_def@);
        }
        while i < n
            invariant
                i <= n,
                self.color_def@.len() == n,
                spec_lookup(self.color_def@, color) == spec_lookup(
                    self.color_def@.skip(i as int),
                    color,
                ),
            decreases n - i,
        {
            proof {
                assert(self.color_def@.skip(i as int)[0] == self.color_def@[i as int]);
                assert(self.color_def@.skip(i as int).skip(1) =~= self.color_def@.skip(
                    i as int + 1,
                ));
            }
            let entry = self.color_def[i];
            if entry.0 == color {
                return Some(entry.1);
            }
            i = i + 1;
        }
        None
    }
}

/// The first completeness defect of three association lists, walking the
/// axis enumerations in declaration order: a missing shape, size or color
/// entry, then an out-of-range scale factor. `None` means the lists form a
/// total, well-bounded registry.
pub open spec fn spec_registry_defect(
    mesh_def: Seq<(BuildingMesh, u64)>,
    size_def: Seq<(BuildingSize, u64)>,
    color_def: Seq<(BuildingColor, u64)>,
) -> Option<RegistryError> {
    if spec_lookup(mesh_def, BuildingMesh::Triangle) is None {
        Some(RegistryError::MissingMesh(BuildingMesh::Triangle))
    } else if spec_lookup(mesh_def, BuildingMesh::Circle) is None {
        Some(RegistryError::MissingMesh(BuildingMesh::Circle))
    } else if spec_lookup(mesh_def, BuildingMesh::Quad) is None {
        Some(RegistryError::MissingMesh(BuildingMesh::Quad))
    } else if spec_lookup(size_def, BuildingSize::Small) is None {
        Some(RegistryError::MissingSize(BuildingSize::Small))
    } else if spec_lookup(size_def, BuildingSize::Medium) is None {
        Some(RegistryError::MissingSize(BuildingSize::Medium))
    } else if spec_lookup(size_def, BuildingSize::Big) is None {
        Some(RegistryError::MissingSize(BuildingSize::Big))
    } else if !scale_in_range(spec_lookup(size_def, BuildingSize::Small).unwrap()) {
        Some(RegistryError::ScaleOutOfRange(BuildingSize::Small))
    } else if !scale_in_range(spec_lookup(size_def, BuildingSize::Medium).unwrap()) {
        Some(RegistryError::ScaleOutOfRange(BuildingSize::Medium))
    } else if !scale_in_range(spec_lookup(size_def, BuildingSize::Big).unwrap()) {
        Some(RegistryError::ScaleOutOfRange(BuildingSize::Big))
    } else if spec_lookup(color_def, BuildingColor::Black) is None {
        Some(RegistryError::MissingColor(BuildingColor::Black))
    } else if spec_lookup(color_def, BuildingColor::White) is None {
        Some(RegistryError::MissingColor(BuildingColor::White))
    } else if spec_lookup(color_def, BuildingColor::Pink) is None {
        Some(RegistryError::MissingColor(BuildingColor::Pink))
    } else if spec_lookup(color_def, BuildingColor::Blue) is None {
        Some(RegistryError::MissingColor(BuildingColor::Blue))
    } else {
        None
    }
}

/// A usable scale factor: positive and small enough to resolve.
pub open spec fn scale_in_range(v: u64) -> bool {
    0 < v <= MAX_SCALE_HUNDREDTHS
}

/// A registry with no completeness defect satisfies the totality invariant.
pub proof fn lemma_defect_none_implies_wf(a: VisualAssets)
    requires
        spec_registry_defect(a.mesh_def@, a.size_def@, a.color_def@) is None,
    ensures
        a.wf(),
{
    assert forall|m: BuildingMesh| (#[trigger] spec_lookup(a.mesh_def@, m)) is Some by {
        match m {
            BuildingMesh::Triangle => assert(spec_lookup(a.mesh_def@, BuildingMesh::Triangle)
                is Some),
            BuildingMesh::Circle => assert(spec_lookup(a.mesh_def@, BuildingMesh::Circle) is Some),
            BuildingMesh::Quad => assert(spec_lookup(a.mesh_def@, BuildingMesh::Quad) is Some),
        }
    }
    assert forall|s: BuildingSize|
        (#[trigger] spec_lookup(a.size_def@, s)) matches Some(v) && 0 < v
            <= MAX_SCALE_HUNDREDTHS by {
        match s {
            BuildingSize::Small => assert(spec_lookup(a.size_def@, BuildingSize::Small) is Some),
            BuildingSize::Medium => assert(spec_lookup(a.size_def@, BuildingSize::Medium) is Some),
            BuildingSize::Big => assert(spec_lookup(a.size_def@, BuildingSize::Big) is Some),
        }
    }
    assert forall|c: BuildingColor| (#[trigger] spec_lookup(a.color_def@, c)) is Some by {
        match c {
            BuildingColor::Black => assert(spec_lookup(a.color_def@, BuildingColor::Black)
                is Some),
            BuildingColor::White => assert(spec_lookup(a.color_def@, BuildingColor::White)
                is Some),
            BuildingColor::Pink => assert(spec_lookup(a.color_def@, BuildingColor::Pink) is Some),
            BuildingColor::Blue => assert(spec_lookup(a.color_def@, BuildingColor::Blue) is Some),
        }
    }
}

impl VisualAssets {
    /// Build a registry from three association lists, refusing any list set
    /// with a completeness defect. On success the lists are kept as given.
    pub fn new(
        mesh_def: Vec<(BuildingMesh, u64)>,
        size_def: Vec<(BuildingSize, u64)>,
        color_def: Vec<(BuildingColor, u64)>,
    ) -> (built: Result<VisualAssets, RegistryError>)
        ensures
            match built {
                Ok(a) => {
                    &&& a.mesh_def@ == mesh_def@
                    &&& a.size_def@ == size_def@
                    &&& a.color_def@ == color_def@
                    &&& a.wf()
                    &&& spec_registry_defect(mesh_def@, size_def@, color_def@) is None
                },
                Err(e) => spec_registry_defect(mesh_def@, size_def@, color_def@) == Some(e),
            },
    {
        let a = VisualAssets { mesh_def, size_def, color_def };
        if a.mesh_for(BuildingMesh::Triangle).is_none() {
            return Err(RegistryError::MissingMesh(BuildingMesh::Triangle));
        }
        if a.mesh_for(BuildingMesh::Circle).is_none() {
            return Err(RegistryError::MissingMesh(BuildingMesh::Circle));
        }
        if a.mesh_for(BuildingMesh::Quad).is_none() {
            return Err(RegistryError::MissingMesh(BuildingMesh::Quad));
        }
        let small = match a.scale_for(BuildingSize::Small) {
            Some(v) => v,
            None => {
                return Err(RegistryError::MissingSize(BuildingSize::Small));
            },
        };
        let medium = match a.scale_for(BuildingSize::Medium) {
            Some(v) => v,
            None => {
                return Err(RegistryError::MissingSize(BuildingSize::Medium));
            },
        };
        let big = match a.scale_for(BuildingSize::Big) {
            Some(v) => v,
            None => {
                return Err(RegistryError::MissingSize(BuildingSize::Big));
            },
        };
        if small == 0 || small > MAX_SCALE_HUNDREDTHS {
            return Err(RegistryError::ScaleOutOfRange(BuildingSize::Small));
        }
        if medium == 0 || medium > MAX_SCALE_HUNDREDTHS {
            return Err(RegistryError::ScaleOutOfRange(BuildingSize::Medium));
        }
        if big == 0 || big > MAX_SCALE_HUNDREDTHS {
            return Err(RegistryError::ScaleOutOfRange(BuildingSize::Big));
        }
        if a.material_for(BuildingColor::Black).is_none() {
            return Err(RegistryError::MissingColor(BuildingColor::Black));
        }
        if a.material_for(BuildingColor::White).is_none() {
            return Err(RegistryError::MissingColor(BuildingColor::White));
        }
        if a.material_for(BuildingColor::Pink).is_none() {
            return Err(RegistryError::MissingColor(BuildingColor::Pink));
        }
        if a.material_for(BuildingColor::Blue).is_none() {
            return Err(RegistryError::MissingColor(BuildingColor::Blue));
        }
        proof {
            lemma_defect_none_implies_wf(a);
        }
        Ok(a)
    }

    /// The totality check of a built registry: true exactly when every axis
    /// member has an entry and every scale factor is usable.
    pub fn is_total(&self) -> (total: bool)
        ensures
            total == self.wf(),
    {
        let meshes_ok = self.mesh_for(BuildingMesh::Triangle).is_some() && self.mesh_for(
            BuildingMesh::Circle,
        ).is_some() && self.mesh_for(BuildingMesh::Quad).is_some();
        let sizes_ok = match (
            self.scale_for(BuildingSize::Small),
            self.scale_for(BuildingSize::Medium),
            self.scale_for(BuildingSize::Big),
        ) {
            (Some(s), Some(m), Some(b)) => {
                0 < s && s <= MAX_SCALE_HUNDREDTHS && 0 < m && m <= MAX_SCALE_HUNDREDTHS && 0 < b
                    && b <= MAX_SCALE_HUNDREDTHS
            },
            _ => false,
        };
        let colors_ok = self.material_for(BuildingColor::Black).is_some() && self.material_for(
            BuildingColor::White,
        ).is_some() && self.material_for(BuildingColor::Pink).is_some() && self.material_for(
            BuildingColor::Blue,
        ).is_some();
        let total = meshes_ok && sizes_ok && colors_ok;
        proof {
            if total {
                lemma_defect_none_implies_wf(*self);
            }
        }
        total
    }
}

/// Scale factor of a big building, in hundredths: the full base size.
pub const SCALE_BIG_HUNDREDTHS: u64 = 100;

/// Scale factor of a medium building, in hundredths: three quarters.
pub const SCALE_MEDIUM_HUNDREDTHS: u64 = 75;

/// Scale factor of a small building, in hundredths: one half.
pub const SCALE_SMALL_HUNDREDTHS: u64 = 50;

/// Build the default registry from one renderable handle per shape and per
/// color: every axis member entered exactly once, the big size at full
/// scale, medium at three quarters and small at half.
pub fn create_assets(
    triangle_mesh: u64,
    circle_mesh: u64,
    quad_mesh: u64,
    black_material: u64,
    white_material: u64,
    pink_material: u64,
    blue_material: u64,
) -> (a: VisualAssets)
    ensures
        a.mesh_def@ == seq![
            (BuildingMesh::Triangle, triangle_mesh),
            (BuildingMesh::Circle, circle_mesh),
            (BuildingMesh::Quad, quad_mesh),
        ],
        a.size_def@ == seq![
            (BuildingSize::Big, SCALE_BIG_HUNDREDTHS),
            (BuildingSize::Medium, SCALE_MEDIUM_HUNDREDTHS),
            (BuildingSize::Small, SCALE_SMALL_HUNDREDTHS),
        ],
        a.color_def@ == seq![
            (BuildingColor::Black, black_material),
            (BuildingColor::White, white_material),
            (BuildingColor::Pink, pink_material),
            (BuildingColor::Blue, blue_material),
        ],
        a.wf(),
{
    let mut mesh_def: Vec<(BuildingMesh, u64)> = Vec::new();
    mesh_def.push((BuildingMesh::Triangle, triangle_mesh));
    mesh_def.push((BuildingMesh::Circle, circle_mesh));
    mesh_def.push((BuildingMesh::Quad, quad_mesh));
    let mut size_def: Vec<(BuildingSize, u64)> = Vec::new();
    size_def.push((BuildingSize::Big, SCALE_BIG_HUNDREDTHS));
    size_def.push((BuildingSize::Medium, SCALE_MEDIUM_HUNDREDTHS));
    size_def.push((BuildingSize::Small, SCALE_SMALL_HUNDREDTHS));
    let mut color_def: Vec<(BuildingColor, u64)> = Vec::new();
    color_def.push((BuildingColor::Black, black_material));
    color_def.push((BuildingColor::White, white_material));
    color_def.push((BuildingColor::Pink, pink_material));
    color_def.push((BuildingColor::Blue, blue_material));
    let a = VisualAssets { mesh_def, size_def, color_def };
    proof {
        let md = a.mesh_def@;
        assert(md =~= seq![
            (BuildingMesh::Triangle, triangle_mesh),
            (BuildingMesh::Circle, circle_mesh),
            (BuildingMesh::Quad, quad_mesh),
        ]);
        assert(md.skip(1) =~= seq![(BuildingMesh::Circle, circle_mesh), (BuildingMesh::Quad, quad_mesh)]);
        assert(md.skip(1).skip(1) =~= seq![(BuildingMesh::Quad, quad_mesh)]);
        assert(spec_lookup(md, BuildingMesh::Triangle) == Some(triangle_mesh));
        assert(spec_lookup(md.skip(1), BuildingMesh::Circle) == Some(circle_mesh));
        assert(spec_lookup(md, BuildingMesh::Circle) == Some(circle_mesh));
        assert(spec_lookup(md.skip(1).skip(1), BuildingMesh::Quad) == Some(quad_mesh));
        assert(spec_lookup(md.skip(1), BuildingMesh::Quad) == Some(quad_mesh));
        assert(spec_lookup(md, BuildingMesh::Quad) == Some(quad_mesh));

        let sd = a.size_def@;
        assert(sd =~= seq![
            (BuildingSize::Big, SCALE_BIG_HUNDREDTHS),
            (BuildingSize::Medium, SCALE_MEDIUM_HUNDREDTHS),
            (BuildingSize::Small, SCALE_SMALL_HUNDREDTHS),
        ]);
        assert(sd.skip(1) =~= seq![
            (BuildingSize::Medium, SCALE_MEDIUM_HUNDREDTHS),
            (BuildingSize::Small, SCALE_SMALL_HUNDREDTHS),
        ]);
        assert(sd.skip(1).skip(1) =~= seq![(BuildingSize::Small, SCALE_SMALL_HUNDREDTHS)]);
        assert(spec_lookup(sd, BuildingSize::Big) == Some(SCALE_BIG_HUNDREDTHS));
        assert(spec_lookup(sd.skip(1), BuildingSize::Medium) == Some(SCALE_MEDIUM_HUNDREDTHS));
        assert(spec_lookup(sd, BuildingSize::Medium) == Some(SCALE_MEDIUM_HUNDREDTHS));
        assert(spec_lookup(sd.skip(1).skip(1), BuildingSize::Small) == Some(
            SCALE_SMALL_HUNDREDTHS,
        ));
        assert(spec_lookup(sd.skip(1), BuildingSize::Small) == Some(SCALE_SMALL_HUNDREDTHS));
        assert(spec_lookup(sd, BuildingSize::Small) == Some(SCALE_SMALL_HUNDREDTHS));

        let cd = a.color_def@;
        assert(cd =~= seq![
            (BuildingColor::Black, black_material),
            (BuildingColor::White, white_material),
            (BuildingColor::Pink, pink_material),
            (BuildingColor::Blue, blue_material),
        ]);
        assert(cd.skip(1) =~= seq![
            (BuildingColor::White, white_material),
            (BuildingColor::Pink, pink_material),
            (BuildingColor::Blue, blue_material),
        ]);
        assert(cd.skip(1).skip(1) =~= seq![
            (BuildingColor::Pink, pink_material),
            (BuildingColor::Blue, blue_material),
        ]);
        assert(cd.skip(1).skip(1).skip(1) =~= seq![(BuildingColor::Blue, blue_material)]);
        assert(spec_lookup(cd, BuildingColor::Black) == Some(black_material));
        assert(spec_lookup(cd.skip(1), BuildingColor::White) == Some(white_material));
        assert(spec_lookup(cd, BuildingColor::White) == Some(white_material));
        assert(spec_lookup(cd.skip(1).skip(1), BuildingColor::Pink) == Some(pink_material));
        assert(spec_lookup(cd.skip(1), BuildingColor::Pink) == Some(pink_material));
        assert(spec_lookup(cd, BuildingColor::Pink) == Some(pink_material));
        assert(spec_lookup(cd.skip(1).skip(1).skip(1), BuildingColor::Blue) == Some(blue_material));
        assert(spec_lookup(cd.skip(1).skip(1), BuildingColor::Blue) == Some(blue_material));
        assert(spec_lookup(cd.skip(1), BuildingColor::Blue) == Some(blue_material));
        assert(spec_lookup(cd, BuildingColor::Blue) == Some(blue_material));

        lemma_defect_none_implies_wf(a);
    }
    a
}

/// The renderable representation of one descriptor: the registered mesh and
/// material handles, and a uniform scale in hundredths of a world unit
/// (the base visual size times the size axis's scale factor).
#[derive(Clone, Copy, Debug, PartialEq, Eq, Structural)]
pub struct RenderableSpec {
    /// Mesh handle of the descriptor's shape.
    pub mesh: u64,
    /// Uniform scale, in hundredths of a world unit.
    pub scale_hundredths: u64,
    /// Material handle of the descriptor's color.
    pub material: u64,
}

/// Registry totality: in a well-formed registry every lookup on every axis
/// member succeeds, and every size maps to a positive scale factor. Any
/// descriptor therefore resolves without a fallback or a default.
pub proof fn lemma_registry_totality(a: VisualAssets)
    requires
        a.wf(),
    ensures
        forall|m: BuildingMesh| (#[trigger] spec_lookup(a.mesh_def@, m)) is Some,
        forall|s: BuildingSize|
            (#[trigger] spec_lookup(a.size_def@, s)) matches Some(v) && 0 < v,
        forall|c: BuildingColor| (#[trigger] spec_lookup(a.color_def@, c)) is Some,
{
}

/// The renderable representation a registry assigns to a descriptor.
pub open spec fn spec_resolve(b: Building, a: VisualAssets) -> RenderableSpec {
    RenderableSpec {
        mesh: spec_lookup(a.mesh_def@, b.mesh).unwrap(),
        scale_hundredths: (ITEM_VISUAL_SIZE * spec_lookup(a.size_def@, b.size).unwrap()) as u64,
        material: spec_lookup(a.color_def@, b.color).unwrap(),
    }
}

/// Resolve a descriptor against a total registry: look up each of its three
/// fields and scale the base visual size by the size entry. A pure function
/// of its two arguments.
pub fn resolve(building: Building, assets: &VisualAssets) -> (r: RenderableSpec)
    requires
        assets.wf(),
    ensures
        r == spec_resolve(building, *assets),
{
    let mesh = assets.mesh_for(building.mesh).unwrap();
    let scale = assets.scale_for(building.size).unwrap();
    let material = assets.material_for(building.color).unwrap();
    RenderableSpec { mesh, scale_hundredths: ITEM_VISUAL_SIZE * scale, material }
}

/// Deferred visual attachment for one building: carries the descriptor from
/// spawn time until the registry exists and the visual can be resolved.
pub struct BuildingItemSpriteBuilder {
    /// The descriptor whose visual is still to be resolved.
    pub building: Building,
}

impl Building {
    /// Package this descriptor for deferred visual resolution.
    pub fn build_sprite(&self) -> (r: BuildingItemSpriteBuilder)
        ensures
            r.building == *self,
    {
        BuildingItemSpriteBuilder { building: *self }
    }
}

impl BuildingItemSpriteBuilder {
    /// The resolution step of the deferred attachment: compute the
    /// renderable representation of the carried descriptor. The registry
    /// must be fully built by the time this runs.
    pub fn apply(&self, assets: &VisualAssets) -> (r: RenderableSpec)
        requires
            assets.wf(),
        ensures
            r == spec_resolve(self.building, *assets),
    {
        resolve(self.building, assets)
    }
}

} // verus!
