use buildings::buildings::Building;
use buildings::buildings::BuildingColor;
use buildings::buildings::BuildingMesh;
use buildings::buildings::BuildingSize;
use buildings::buildings::generate_inventory;
use buildings::layout::LayoutError;
use buildings::layout::SlotPosition;
use buildings::layout::inventory_positions;
use buildings::layout::pair_slots;
use buildings::layout::spawn_layout;
use buildings::registry::RegistryError;
use buildings::registry::RenderableSpec;
use buildings::registry::VisualAssets;
use buildings::registry::create_assets;
use buildings::registry::resolve;

fn default_assets() -> VisualAssets {
    create_assets(10, 11, 12, 20, 21, 22, 23)
}

#[test]
fn registry_totality() {
    let assets = default_assets();
    assert!(assets.is_total());

    for mesh in [BuildingMesh::Triangle, BuildingMesh::Circle, BuildingMesh::Quad] {
        assert!(assets.mesh_for(mesh).is_some());
    }
    for size in [BuildingSize::Small, BuildingSize::Medium, BuildingSize::Big] {
        let scale = assets.scale_for(size);
        assert!(scale.is_some());
        assert!(scale.unwrap() > 0);
    }
    for color in [
        BuildingColor::Black,
        BuildingColor::White,
        BuildingColor::Pink,
        BuildingColor::Blue,
    ] {
        assert!(assets.material_for(color).is_some());
    }
}

#[test]
fn resolution_correctness() {
    // {Triangle, Big, Black}: the triangle mesh handle, the base visual
    // size at full scale (64.00 units), the black material handle.
    let assets = default_assets();
    let descriptor = Building {
        mesh: BuildingMesh::Triangle,
        size: BuildingSize::Big,
        color: BuildingColor::Black,
    };
    let spec = resolve(descriptor, &assets);
    assert_eq!(
        spec,
        RenderableSpec { mesh: 10, scale_hundredths: 6400, material: 20 }
    );
}

#[test]
fn resolution_scales_by_size() {
    let assets = default_assets();
    let mut descriptor = Building {
        mesh: BuildingMesh::Quad,
        size: BuildingSize::Big,
        color: BuildingColor::Pink,
    };
    assert_eq!(resolve(descriptor, &assets).scale_hundredths, 6400);
    descriptor.size = BuildingSize::Medium;
    assert_eq!(resolve(descriptor, &assets).scale_hundredths, 4800);
    descriptor.size = BuildingSize::Small;
    assert_eq!(resolve(descriptor, &assets).scale_hundredths, 3200);
    assert_eq!(resolve(descriptor, &assets).mesh, 12);
    assert_eq!(resolve(descriptor, &assets).material, 22);
}

#[test]
fn deferred_sprite_resolution_matches() {
    let assets = default_assets();
    let descriptor = Building {
        mesh: BuildingMesh::Circle,
        size: BuildingSize::Medium,
        color: BuildingColor::Blue,
    };
    let deferred = descriptor.build_sprite();
    assert_eq!(deferred.building, descriptor);
    assert_eq!(deferred.apply(&assets), resolve(descriptor, &assets));
}

#[test]
fn missing_mesh_entry_is_refused() {
    let assets = default_assets();
    let mut mesh_def = assets.mesh_def;
    mesh_def.retain(|e| e.0 != BuildingMesh::Quad);
    let built = VisualAssets::new(mesh_def, assets.size_def, assets.color_def);
    match built {
        Err(RegistryError::MissingMesh(BuildingMesh::Quad)) => {}
        _ => panic!("expected the missing quad mesh to be reported"),
    }
}

#[test]
fn missing_size_entry_is_refused() {
    let assets = default_assets();
    let mut size_def = assets.size_def;
    size_def.retain(|e| e.0 != BuildingSize::Medium);
    let built = VisualAssets::new(assets.mesh_def, size_def, assets.color_def);
    match built {
        Err(RegistryError::MissingSize(BuildingSize::Medium)) => {}
        _ => panic!("expected the missing medium scale to be reported"),
    }
}

#[test]
fn missing_color_entry_is_refused() {
    let assets = default_assets();
    let mut color_def = assets.color_def;
    color_def.retain(|e| e.0 != BuildingColor::White);
    let built = VisualAssets::new(assets.mesh_def, assets.size_def, color_def);
    match built {
        Err(RegistryError::MissingColor(BuildingColor::White)) => {}
        _ => panic!("expected the missing white material to be reported"),
    }
}

#[test]
fn zero_scale_is_refused() {
    let assets = default_assets();
    let mut size_def: Vec<(BuildingSize, u64)> = Vec::new();
    size_def.push((BuildingSize::Big, 100));
    size_def.push((BuildingSize::Medium, 0));
    size_def.push((BuildingSize::Small, 50));
    let built = VisualAssets::new(assets.mesh_def, size_def, assets.color_def);
    match built {
        Err(RegistryError::ScaleOutOfRange(BuildingSize::Medium)) => {}
        _ => panic!("expected the zero scale to be reported"),
    }
}

#[test]
fn oversized_scale_is_refused() {
    let assets = default_assets();
    let mut size_def: Vec<(BuildingSize, u64)> = Vec::new();
    size_def.push((BuildingSize::Big, 2_000_000));
    size_def.push((BuildingSize::Medium, 75));
    size_def.push((BuildingSize::Small, 50));
    let built = VisualAssets::new(assets.mesh_def, size_def, assets.color_def);
    match built {
        Err(RegistryError::ScaleOutOfRange(BuildingSize::Big)) => {}
        _ => panic!("expected the oversized scale to be reported"),
    }
}

#[test]
fn complete_lists_are_accepted() {
    let assets = default_assets();
    let built = VisualAssets::new(assets.mesh_def, assets.size_def, assets.color_def);
    assert!(built.is_ok());
    assert!(built.unwrap().is_total());
}

#[test]
fn incomplete_registry_detected() {
    let assets = default_assets();
    let mut mesh_def = assets.mesh_def;
    mesh_def.retain(|e| e.0 != BuildingMesh::Triangle);
    let partial = VisualAssets {
        mesh_def,
        size_def: assets.size_def,
        color_def: assets.color_def,
    };
    assert!(!partial.is_total());
    assert_eq!(partial.mesh_for(BuildingMesh::Triangle), None);
}

#[test]
fn generated_descriptors_stay_in_domain() {
    let assets = default_assets();
    for descriptor in generate_inventory(0, 6) {
        assert!(matches!(
            descriptor.mesh,
            BuildingMesh::Triangle | BuildingMesh::Circle | BuildingMesh::Quad
        ));
        assert!(matches!(
            descriptor.size,
            BuildingSize::Small | BuildingSize::Medium | BuildingSize::Big
        ));
        assert!(matches!(
            descriptor.color,
            BuildingColor::Black | BuildingColor::White | BuildingColor::Pink
                | BuildingColor::Blue
        ));
        // Every generated descriptor resolves against the default registry.
        let spec = resolve(descriptor, &assets);
        assert!(spec.scale_hundredths > 0);
    }
}

#[test]
fn slot_positions_form_a_column() {
    let positions = inventory_positions(6);
    assert_eq!(positions.len(), 6);
    for (i, p) in positions.iter().enumerate() {
        assert_eq!(*p, SlotPosition { x: -350, y: 74 * i as i64, z: 0 });
    }
}

#[test]
fn pairing_requires_equal_lengths() {
    let entities: Vec<u64> = vec![101, 102, 103];
    let positions = inventory_positions(3);
    let pairs = pair_slots(&entities, &positions).unwrap();
    assert_eq!(pairs.len(), 3);
    for (i, (entity, position)) in pairs.iter().enumerate() {
        assert_eq!(*entity, entities[i]);
        assert_eq!(*position, positions[i]);
    }

    let short = inventory_positions(2);
    assert_eq!(pair_slots(&entities, &short), Err(LayoutError::LengthMismatch));
}

#[test]
fn layout_plan_is_complete() {
    let plan = spawn_layout(0, 6);
    assert_eq!(plan.buildings.len(), 6);
    assert_eq!(plan.positions.len(), 6);
    assert_eq!(plan.buildings, generate_inventory(0, 6));
    assert_eq!(plan.positions, inventory_positions(6));
}
