use buildings::buildings::Building;
use buildings::buildings::BuildingColor;
use buildings::buildings::BuildingMesh;
use buildings::buildings::BuildingSize;
use buildings::buildings::color_choices;
use buildings::buildings::generate_inventory;
use buildings::buildings::get_random_building;
use buildings::buildings::mesh_choices;
use buildings::buildings::sample_building;
use buildings::buildings::size_choices;
use buildings::random::RandomDeterministic;
use buildings::sampler::TableError;
use buildings::sampler::pick_weighted;
use buildings::sampler::table_total_weight;

#[test]
fn generation_is_deterministic() {
    let first = generate_inventory(12345, 20);
    let second = generate_inventory(12345, 20);
    assert_eq!(first, second);
}

#[test]
fn concrete_scenario_six_items() {
    let first = generate_inventory(0, 6);
    assert_eq!(first.len(), 6);
    let second = generate_inventory(0, 6);
    assert_eq!(first, second);

    // The pass is six plain draws from one freshly seeded generator.
    let mut rng = RandomDeterministic::new_from_seed(0);
    let mut by_hand: Vec<Building> = Vec::new();
    for _ in 0..6 {
        by_hand.push(get_random_building(&mut rng));
    }
    assert_eq!(first, by_hand);
}

#[test]
fn different_seeds_may_differ() {
    // Not a contract, but 64 seeds all mapping to one sequence would mean
    // the stream ignores its seed.
    let mut distinct = 0;
    let base = generate_inventory(0, 6);
    for seed in 1..64u64 {
        if generate_inventory(seed, 6) != base {
            distinct += 1;
        }
    }
    assert!(distinct > 0);
}

#[test]
fn split_mix_known_vector() {
    // First outputs of the SplitMix64 reference stream for seed 0.
    let mut rng = RandomDeterministic::new_from_seed(0);
    assert_eq!(rng.next_u64(), 0xE220A8397B1DCDAF);
    assert_eq!(rng.next_u64(), 0x6E789E6AA1B965F4);
    assert_eq!(rng.next_u64(), 0x06C45D188009454F);
}

#[test]
fn weighted_distribution_convergence() {
    // Table [(A,2),(B,2),(C,2)]: each value should come up in about a third
    // of 100,000 draws, within two percentage points.
    let table = mesh_choices();
    let mut rng = RandomDeterministic::new_from_seed(42);
    let mut counts = [0u32; 3];
    for _ in 0..100_000 {
        match rng.draw_weighted(&table) {
            BuildingMesh::Triangle => counts[0] += 1,
            BuildingMesh::Circle => counts[1] += 1,
            BuildingMesh::Quad => counts[2] += 1,
        }
    }
    for &c in counts.iter() {
        assert!(c >= 31_333, "count {} below tolerance", c);
        assert!(c <= 35_333, "count {} above tolerance", c);
    }
}

#[test]
fn axis_independence_shape_marginal() {
    // The shape draws of a pass are identical whatever the size and color
    // tables, seed for seed.
    let mesh_table = mesh_choices();
    let size_a = size_choices();
    let color_a = color_choices();
    let mut size_b: Vec<(BuildingSize, u64)> = Vec::new();
    size_b.push((BuildingSize::Big, 10));
    size_b.push((BuildingSize::Medium, 1));
    size_b.push((BuildingSize::Small, 1));
    let mut color_b: Vec<(BuildingColor, u64)> = Vec::new();
    color_b.push((BuildingColor::Black, 1));
    color_b.push((BuildingColor::White, 1));
    color_b.push((BuildingColor::Pink, 1));
    color_b.push((BuildingColor::Blue, 10));

    let mut rng_a = RandomDeterministic::new_from_seed(7);
    let mut rng_b = RandomDeterministic::new_from_seed(7);
    for _ in 0..1000 {
        let a = sample_building(&mut rng_a, &mesh_table, &size_a, &color_a);
        let b = sample_building(&mut rng_b, &mesh_table, &size_b, &color_b);
        assert_eq!(a.mesh, b.mesh);
    }
}

#[test]
fn draw_consumes_one_unit_per_axis() {
    // A weighted draw advances the generator by exactly one step, whatever
    // the table size: after one draw from a three-entry table and one draw
    // from a four-entry table, two generators with equal seeds agree again.
    let mesh_table = mesh_choices();
    let color_table = color_choices();
    let mut rng_a = RandomDeterministic::new_from_seed(99);
    let mut rng_b = RandomDeterministic::new_from_seed(99);
    let _ = rng_a.draw_weighted(&mesh_table);
    let _ = rng_b.draw_weighted(&color_table);
    assert_eq!(rng_a.next_u64(), rng_b.next_u64());
}

#[test]
fn empty_table_is_refused() {
    let empty: Vec<(BuildingMesh, u64)> = Vec::new();
    let mut rng = RandomDeterministic::new_from_seed(3);
    assert_eq!(rng.try_draw_weighted(&empty), Err(TableError::EmptyTable));
    // The refused draw left the generator untouched.
    let mut fresh = RandomDeterministic::new_from_seed(3);
    assert_eq!(rng.next_u64(), fresh.next_u64());
}

#[test]
fn zero_weights_are_refused() {
    let mut table: Vec<(BuildingMesh, u64)> = Vec::new();
    table.push((BuildingMesh::Triangle, 0));
    table.push((BuildingMesh::Circle, 0));
    let mut rng = RandomDeterministic::new_from_seed(3);
    assert_eq!(rng.try_draw_weighted(&table), Err(TableError::ZeroTotalWeight));
}

#[test]
fn valid_table_draw_succeeds() {
    let table = color_choices();
    let mut rng = RandomDeterministic::new_from_seed(11);
    let mut expect = RandomDeterministic::new_from_seed(11);
    let drawn = rng.try_draw_weighted(&table);
    let expected = expect.draw_weighted(&table);
    assert_eq!(drawn, Ok(expected));
}

#[test]
fn cumulative_selection_exact_values() {
    let mesh_table = mesh_choices();
    assert_eq!(pick_weighted(&mesh_table, 0), BuildingMesh::Triangle);
    assert_eq!(pick_weighted(&mesh_table, 1), BuildingMesh::Triangle);
    assert_eq!(pick_weighted(&mesh_table, 2), BuildingMesh::Circle);
    assert_eq!(pick_weighted(&mesh_table, 3), BuildingMesh::Circle);
    assert_eq!(pick_weighted(&mesh_table, 4), BuildingMesh::Quad);
    assert_eq!(pick_weighted(&mesh_table, 5), BuildingMesh::Quad);

    let size_table = size_choices();
    assert_eq!(pick_weighted(&size_table, 0), BuildingSize::Big);
    assert_eq!(pick_weighted(&size_table, 1), BuildingSize::Medium);
    assert_eq!(pick_weighted(&size_table, 2), BuildingSize::Medium);
    assert_eq!(pick_weighted(&size_table, 3), BuildingSize::Small);

    let color_table = color_choices();
    assert_eq!(pick_weighted(&color_table, 0), BuildingColor::Black);
    assert_eq!(pick_weighted(&color_table, 4), BuildingColor::Black);
    assert_eq!(pick_weighted(&color_table, 5), BuildingColor::White);
    assert_eq!(pick_weighted(&color_table, 9), BuildingColor::White);
    assert_eq!(pick_weighted(&color_table, 10), BuildingColor::Pink);
    assert_eq!(pick_weighted(&color_table, 11), BuildingColor::Blue);
}

#[test]
fn default_table_totals() {
    assert_eq!(table_total_weight(&mesh_choices()), 6);
    assert_eq!(table_total_weight(&size_choices()), 4);
    assert_eq!(table_total_weight(&color_choices()), 12);
}
