use vstd::prelude::*;

use crate::random::RandomDeterministic;
use crate::random::next_generator_state;
use crate::random::state_after;
use crate::random::lemma_state_after_add;
use crate::sampler::draw_from;
use crate::sampler::total_weight;
use crate::sampler::valid_table;

verus! {

/// Shape axis of a building's visual identity: a closed enumeration.
#[derive(Clone, Copy, Debug, Hash, PartialEq, Eq, Structural)]
pub enum BuildingMesh {
    /// A triangle mesh.
    Triangle,
    /// A circle mesh.
    Circle,
    /// A quad mesh.
    Quad,
}

/// Size axis of a building's visual identity: a closed enumeration.
#[derive(Clone, Copy, Debug, Hash, PartialEq, Eq, Structural)]
pub enum BuildingSize {
    /// Half of the base visual size.
    Small,
    /// Three quarters of the base visual size.
    Medium,
    /// The full base visual size.
    Big,
}

/// Color axis of a building's visual identity: a closed enumeration.
#[derive(Clone, Copy, Debug, Hash, PartialEq, Eq, Structural)]
pub enum BuildingColor {
    /// Black material.
    Black,
    /// White material.
    White,
    /// Pink material.
    Pink,
    /// Blue material.
    Blue,
}

/// Immutable descriptor of one generated building: one value per trait axis.
/// Hashable and comparable, so it can serve as a lookup or deduplication key.
#[derive(Clone, Copy, Debug, Hash, PartialEq, Eq, Structural)]
pub struct Building {
    /// The drawn shape.
    pub mesh: BuildingMesh,
    /// The drawn size.
    pub size: BuildingSize,
    /// The drawn color.
    pub color: BuildingColor,
}

/// Every member of every axis enumeration, spelled out. A descriptor never
/// holds anything outside these closed sets.
pub open spec fn descriptor_in_domain(b: Building) -> bool {
    &&& (b.mesh is Triangle || b.mesh is Circle || b.mesh is Quad)
    &&& (b.size is Small || b.size is Medium || b.size is Big)
    &&& (b.color is Black || b.color is White || b.color is Pink || b.color is Blue)
}

/// The default weighted table of the shape axis: every shape equally likely.
pub open spec fn default_mesh_table() -> Seq<(BuildingMesh, u64)> {
    seq![
        (BuildingMesh::Triangle, 2u64),
        (BuildingMesh::Circle, 2u64),
        (BuildingMesh::Quad, 2u64),
    ]
}

/// The default weighted table of the size axis: medium twice as likely as
/// either extreme.
pub open spec fn default_size_table() -> Seq<(BuildingSize, u64)> {
    seq![(BuildingSize::Big, 1u64), (BuildingSize::Medium, 2u64), (BuildingSize::Small, 1u64)]
}

/// The default weighted table of the color axis: black and white common,
/// pink and blue rare.
pub open spec fn default_color_table() -> Seq<(BuildingColor, u64)> {
    seq![
        (BuildingColor::Black, 5u64),
        (BuildingColor::White, 5u64),
        (BuildingColor::Pink, 1u64),
        (BuildingColor::Blue, 1u64),
    ]
}

/// Build the default shape table.
pub fn mesh_choices() -> (table: Vec<(BuildingMesh, u64)>)
    ensures
        table@ == default_mesh_table(),
{
    let mut table: Vec<(BuildingMesh, u64)> = Vec::new();
    table.push((BuildingMesh::Triangle, 2));
    table.push((BuildingMesh::Circle, 2));
    table.push((BuildingMesh::Quad, 2));
    proof {
        assert(table@ =~= default_mesh_table());
    }
    table
}

/// Build the default size table.
pub fn size_choices() -> (table: Vec<(BuildingSize, u64)>)
    ensures
        table@ == default_size_table(),
{
    let mut table: Vec<(BuildingSize, u64)> = Vec::new();
    table.push((BuildingSize::Big, 1));
    table.push((BuildingSize::Medium, 2));
    table.push((BuildingSize::Small, 1));
    proof {
        assert(table@ =~= default_size_table());
    }
    table
}

/// Build the default color table.
pub fn color_choices() -> (table: Vec<(BuildingColor, u64)>)
    ensures
        table@ == default_color_table(),
{
    let mut table: Vec<(BuildingColor, u64)> = Vec::new();
    table.push((BuildingColor::Black, 5));
    table.push((BuildingColor::White, 5));
    table.push((BuildingColor::Pink, 1));
    table.push((BuildingColor::Blue, 1));
    proof {
        assert(table@ =~= default_color_table());
    }
    table
}

/// The default tables are well formed, with weight sums 6, 4 and 12.
pub proof fn lemma_default_tables_valid()
    ensures
        valid_table(default_mesh_table()),
        total_weight(default_mesh_table()) == 6,
        valid_table(default_size_table()),
        total_weight(default_size_table()) == 4,
        valid_table(default_color_table()),
        total_weight(default_color_table()) == 12,
{
    let m = default_mesh_table();
    assert(m.skip(1) =~= seq![(BuildingMesh::Circle, 2u64), (BuildingMesh::Quad, 2u64)]);
    assert(m.skip(1).skip(1) =~= seq![(BuildingMesh::Quad, 2u64)]);
    assert(m.skip(1).skip(1).skip(1) =~= Seq::<(BuildingMesh, u64)>::empty());
    assert(total_weight(m.skip(1).skip(1).skip(1)) == 0);
    assert(total_weight(m.skip(1).skip(1)) == 2);
    assert(total_weight(m.skip(1)) == 4);
    assert(total_weight(m) == 6);

    let s = default_size_table();
    assert(s.skip(1) =~= seq![(BuildingSize::Medium, 2u64), (BuildingSize::Small, 1u64)]);
    assert(s.skip(1).skip(1) =~= seq![(BuildingSize::Small, 1u64)]);
    assert(s.skip(1).skip(1).skip(1) =~= Seq::<(BuildingSize, u64)>::empty());
    assert(total_weight(s.skip(1).skip(1).skip(1)) == 0);
    assert(total_weight(s.skip(1).skip(1)) == 1);
    assert(total_weight(s.skip(1)) == 3);
    assert(total_weight(s) == 4);

    let c = default_color_table();
    assert(c.skip(1) =~= seq![
        (BuildingColor::White, 5u64),
        (BuildingColor::Pink, 1u64),
        (BuildingColor::Blue, 1u64),
    ]);
    assert(c.skip(1).skip(1) =~= seq![(BuildingColor::Pink, 1u64), (BuildingColor::Blue, 1u64)]);
    assert(c.skip(1).skip(1).skip(1) =~= seq![(BuildingColor::Blue, 1u64)]);
    assert(c.skip(1).skip(1).skip(1).skip(1) =~= Seq::<(BuildingColor, u64)>::empty());
    assert(total_weight(c.skip(1).skip(1).skip(1).skip(1)) == 0);
    assert(total_weight(c.skip(1).skip(1).skip(1)) == 1);
    assert(total_weight(c.skip(1).skip(1)) == 2);
    assert(total_weight(c.skip(1)) == 7);
    assert(total_weight(c) == 12);
}

/// The descriptor a generator in state `s` draws from the given tables, one
/// axis at a time in the fixed order shape, size, color.
pub open spec fn spec_sample_building(
    s: u64,
    mesh_table: Seq<(BuildingMesh, u64)>,
    size_table: Seq<(BuildingSize, u64)>,
    color_table: Seq<(BuildingColor, u64)>,
) -> Building {
    Building {
        mesh: draw_from(mesh_table, s),
        size: draw_from(size_table, next_generator_state(s)),
        color: draw_from(color_table, next_generator_state(next_generator_state(s))),
    }
}

/// Draw one descriptor from the given per-axis tables, in the fixed axis
/// order shape, then size, then color. Exactly three units of randomness are
/// consumed, one per axis, whatever the table sizes.
pub fn sample_building(
    rng: &mut RandomDeterministic,
    mesh_table: &Vec<(BuildingMesh, u64)>,
    size_table: &Vec<(BuildingSize, u64)>,
    color_table: &Vec<(BuildingColor, u64)>,
) -> (b: Building)
    requires
        valid_table(mesh_table@),
        valid_table(size_table@),
        valid_table(color_table@),
    ensures
        b == spec_sample_building(old(rng)@, mesh_table@, size_table@, color_table@),
        final(rng)@ == state_after(old(rng)@, 3),
{
    let mesh = rng.draw_weighted(mesh_table);
    let size = rng.draw_weighted(size_table);
    let color = rng.draw_weighted(color_table);
    proof {
        assert(state_after(old(rng)@, 0) == old(rng)@);
        assert(state_after(old(rng)@, 1) == next_generator_state(old(rng)@));
        assert(state_after(old(rng)@, 2) == next_generator_state(state_after(old(rng)@, 1)));
        assert(state_after(old(rng)@, 3) == next_generator_state(state_after(old(rng)@, 2)));
    }
    Building { mesh, size, color }
}

/// The descriptor drawn from the default tables by a generator in state `s`.
pub open spec fn spec_random_building(s: u64) -> Building {
    spec_sample_building(s, default_mesh_table(), default_size_table(), default_color_table())
}

/// Draw one building descriptor from the default weighted tables.
pub fn get_random_building(rng: &mut RandomDeterministic) -> (b: Building)
    ensures
        b == spec_random_building(old(rng)@),
        final(rng)@ == state_after(old(rng)@, 3),
{
    proof {
        lemma_default_tables_valid();
    }
    let mesh_table = mesh_choices();
    let size_table = size_choices();
    let color_table = color_choices();
    sample_building(rng, &mesh_table, &size_table, &color_table)
}

/// The ordered descriptor sequence of a generation pass: `n` draws from the
/// default tables, the generator seeded with `seed`.
pub open spec fn spec_inventory(seed: u64, n: nat) -> Seq<Building>
    decreases n,
{
    if n == 0 {
        Seq::empty()
    } else {
        spec_inventory(seed, (n - 1) as nat).push(
            spec_random_building(state_after(seed, 3 * ((n - 1) as nat))),
        )
    }
}

/// One inventory generation pass: seed a fresh generator and draw `n`
/// descriptors in order. The result is a pure function of the seed and the
/// count, which is the whole reproducibility contract.
pub fn generate_inventory(seed: u64, n: usize) -> (inventory: Vec<Building>)
    ensures
        inventory@ == spec_inventory(seed, n as nat),
        inventory@.len() == n,
{
    let mut rng = RandomDeterministic::new_from_seed(seed);
    let mut inventory: Vec<Building> = Vec::new();
    let mut i: usize = 0;
    while i < n
        invariant
            i <= n,
            inventory@.len() == i,
            inventory@ == spec_inventory(seed, i as nat),
            rng@ == state_after(seed, 3 * (i as nat)),
        decreases n - i,
    {
        let ghost before = rng@;
        let b = get_random_building(&mut rng);
        proof {
            lemma_state_after_add(seed, 3 * (i as nat), 3);
        }
        inventory.push(b);
        i = i + 1;
    }
    inventory
}

/// A generation pass of `n` draws yields exactly `n` descriptors.
pub proof fn lemma_inventory_len(seed: u64, n: nat)
    ensures
        spec_inventory(seed, n).len() == n,
    decreases n,
{
    if n > 0 {
        lemma_inventory_len(seed, (n - 1) as nat);
    }
}

/// The per-slot formula of a generation pass: slot `i` holds the descriptor
/// drawn from generator state `3 * i`, three units of randomness having been
/// consumed by each earlier slot.
pub proof fn lemma_inventory_index(seed: u64, n: nat, i: int)
    requires
        0 <= i < n,
    ensures
        spec_inventory(seed, n)[i] == spec_random_building(state_after(seed, (3 * i) as nat)),
    decreases n,
{
    lemma_inventory_len(seed, (n - 1) as nat);
    if i < n - 1 {
        lemma_inventory_index(seed, (n - 1) as nat, i);
    }
}

/// Determinism of the generation pass: two independent passes with the same
/// seed and the same count yield identical ordered descriptor sequences,
/// because each pass's result equals the one sequence `spec_inventory`
/// assigns to that seed and count.
pub proof fn lemma_generation_deterministic(
    seed: u64,
    n: nat,
    first: Seq<Building>,
    second: Seq<Building>,
)
    requires
        first == spec_inventory(seed, n),
        second == spec_inventory(seed, n),
    ensures
        first == second,
{
}

/// Every descriptor lies in the closed trait domain: each field is one of
/// its axis's declared members.
pub proof fn lemma_building_domain(b: Building)
    ensures
        descriptor_in_domain(b),
{
    match b.mesh {
        BuildingMesh::Triangle => {},
        BuildingMesh::Circle => {},
        BuildingMesh::Quad => {},
    }
    match b.size {
        BuildingSize::Small => {},
        BuildingSize::Medium => {},
        BuildingSize::Big => {},
    }
    match b.color {
        BuildingColor::Black => {},
        BuildingColor::White => {},
        BuildingColor::Pink => {},
        BuildingColor::Blue => {},
    }
}

/// Domain closure of the generation pass: every descriptor a pass draws has
/// each field inside its axis's closed enumeration.
pub proof fn lemma_descriptor_domain_closure(seed: u64, n: nat)
    ensures
        forall|i: int|
            0 <= i < spec_inventory(seed, n).len() ==> descriptor_in_domain(
                #[trigger] spec_inventory(seed, n)[i],
            ),
{
    assert forall|i: int|
        0 <= i < spec_inventory(seed, n).len() implies descriptor_in_domain(
        #[trigger] spec_inventory(seed, n)[i],
    ) by {
        lemma_building_domain(spec_inventory(seed, n)[i]);
    }
}

/// Axis independence: what one axis draws depends only on the generator
/// state and that axis's own table. Swapping the other two axes' tables
/// never changes the drawn value, because each axis consumes its own fixed
/// unit of the stream and the state advances by a table-independent step.
pub proof fn lemma_axis_independence(
    s: u64,
    mesh_a: Seq<(BuildingMesh, u64)>,
    mesh_b: Seq<(BuildingMesh, u64)>,
    size_a: Seq<(BuildingSize, u64)>,
    size_b: Seq<(BuildingSize, u64)>,
    color_a: Seq<(BuildingColor, u64)>,
    color_b: Seq<(BuildingColor, u64)>,
)
    ensures
        spec_sample_building(s, mesh_a, size_a, color_a).mesh == spec_sample_building(
            s,
            mesh_a,
            size_b,
            color_b,
        ).mesh,
        spec_sample_building(s, mesh_a, size_a, color_a).size == spec_sample_building(
            s,
            mesh_b,
            size_a,
            color_b,
        ).size,
        spec_sample_building(s, mesh_a, size_a, color_a).color == spec_sample_building(
            s,
            mesh_b,
            size_b,
            color_a,
        ).color,
{
}

} // verus!
