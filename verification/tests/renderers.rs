use lbflow_case_builder::config::domain;
use lbflow_case_builder::config::momentum;
use lbflow_case_builder::config::passive_scalar;
use lbflow_case_builder::config::{
    BoundaryFaceGui, CargoGuiConfig, CollisionOperatorGui, Dimensionality, VelocitySetGui,
};

#[test]
fn face_literals() {
    assert_eq!(BoundaryFaceGui::West.to_literal(), "West");
    assert_eq!(BoundaryFaceGui::East.to_literal(), "East");
    assert_eq!(BoundaryFaceGui::South.to_literal(), "South");
    assert_eq!(BoundaryFaceGui::North.to_literal(), "North");
    assert_eq!(BoundaryFaceGui::Bottom.to_literal(), "Bottom");
    assert_eq!(BoundaryFaceGui::Top.to_literal(), "Top");
}

#[test]
fn velocity_set_literals() {
    assert_eq!(VelocitySetGui::D2Q9.to_literal(), "D2Q9");
    assert_eq!(VelocitySetGui::D3Q15.to_literal(), "D3Q15");
    assert_eq!(VelocitySetGui::D3Q19.to_literal(), "D3Q19");
    assert_eq!(VelocitySetGui::D3Q27.to_literal(), "D3Q27");
}

#[test]
fn bgk_literal_exact() {
    let op = CollisionOperatorGui::BGK { tau: String::from("0.5") };
    assert_eq!(op.to_literal(), "BGK(0.5_f64)");
}

#[test]
fn bgk_literals_differ_only_in_numeral() {
    let a = CollisionOperatorGui::BGK { tau: String::from("0") };
    let b = CollisionOperatorGui::BGK { tau: String::from("0.5") };
    assert_eq!(a.to_literal(), "BGK(0_f64)");
    assert_eq!(b.to_literal(), "BGK(0.5_f64)");
}

#[test]
fn trt_literal_exact() {
    let op = CollisionOperatorGui::TRT {
        omega_plus: String::from("0.6"),
        omega_minus: String::from("0.7"),
    };
    assert_eq!(op.to_literal(), "TRT(0.6_f64, 0.7_f64)");
}

#[test]
fn mrt_literal_is_the_placeholder() {
    let rendered = CollisionOperatorGui::MRT.to_literal();
    assert_eq!(rendered, "MRT(vec![todo!(\"Insert parameters\")])");
}

#[test]
fn cargo_toml_default_exact() {
    let c = CargoGuiConfig::default();
    let expected = "[package]
name = \"case_000\"
version = \"0.1.0\"
edition = \"2024\"

[dependencies]
lbflow = { version = \"0.1.0\", git = \"https://github.com/gilberto-ribeiro/lbflow.git\" }
";
    assert_eq!(c.get_cargo_toml(), expected);
}

#[test]
fn cargo_toml_with_revision_pin() {
    let c = CargoGuiConfig {
        case_name: String::from("lid_driven_cavity"),
        commit_hash: String::from("abc123"),
    };
    assert_eq!(c.get_commit_hash_literal(), ", rev = \"abc123\"");
    let toml = c.get_cargo_toml();
    assert!(toml.contains("name = \"lid_driven_cavity\""));
    assert!(toml.contains(
        "lbflow = { version = \"0.1.0\", git = \"https://github.com/gilberto-ribeiro/lbflow.git\", rev = \"abc123\" }"
    ));
}

#[test]
fn cargo_toml_without_pin_has_no_rev() {
    let c = CargoGuiConfig::default();
    assert_eq!(c.get_commit_hash_literal(), "");
    assert!(!c.get_cargo_toml().contains("rev"));
}

#[test]
fn domain_content_exact() {
    let d = domain::GuiConfig::default();
    let expected = "    let domain = DomainParams {
        grid: vec![10_usize, 10_usize],
        node_type_mask: OnlyFluidNodes,
    };
";
    assert_eq!(d.get_domain_content(), expected);
}

#[test]
fn domain_grid_literal_by_dimensionality() {
    let mut d = domain::GuiConfig::default();
    assert_eq!(d.get_grid_literal(), "vec![10_usize, 10_usize]");
    d.dim = Dimensionality::D3;
    d.grid = [4, 5, 6];
    assert_eq!(d.get_grid_literal(), "vec![4_usize, 5_usize, 6_usize]");
}

#[test]
fn momentum_n_literal_by_dimensionality() {
    let mut m = momentum::GuiConfig::default();
    assert_eq!(m.get_n_literal(), "vec![10_usize, 10_usize]");
    m.set_dim(Dimensionality::D3);
    assert_eq!(m.get_n_literal(), "vec![10_usize, 10_usize, 1_usize]");
}

#[test]
fn bounce_back_literal_two_components() {
    let bc = momentum::BoundaryConditionGui::BounceBack {
        rho: String::from("1"),
        ux: String::from("0.1"),
        uy: String::from("0.2"),
        uz: String::from("0.3"),
    };
    assert_eq!(
        bc.to_literal(Dimensionality::D2),
        "m::bc::BounceBack { density: 1_f64, velocity: vec![0.1_f64, 0.2_f64] }"
    );
}

#[test]
fn bounce_back_literal_three_components() {
    let bc = momentum::BoundaryConditionGui::BounceBack {
        rho: String::from("1"),
        ux: String::from("0.1"),
        uy: String::from("0.2"),
        uz: String::from("0.3"),
    };
    assert_eq!(
        bc.to_literal(Dimensionality::D3),
        "m::bc::BounceBack { density: 1_f64, velocity: vec![0.1_f64, 0.2_f64, 0.3_f64] }"
    );
}

#[test]
fn momentum_boundary_condition_literals() {
    assert_eq!(
        momentum::BoundaryConditionGui::NoSlip.to_literal(Dimensionality::D2),
        "m::bc::NoSlip"
    );
    assert_eq!(
        momentum::BoundaryConditionGui::Periodic.to_literal(Dimensionality::D2),
        "m::bc::Periodic"
    );
    let abb = momentum::BoundaryConditionGui::AntiBounceBack { rho: String::from("1.2") };
    assert_eq!(
        abb.to_literal(Dimensionality::D2),
        "m::bc::AntiBounceBack { density: 1.2_f64 }"
    );
}

#[test]
fn momentum_default_boundary_conditions_literal() {
    let m = momentum::GuiConfig::default();
    assert_eq!(
        m.get_boundary_conditions_literal(),
        "vec![(West, m::bc::NoSlip), (East, m::bc::NoSlip), (South, m::bc::NoSlip), (North, m::bc::NoSlip)]"
    );
}

#[test]
fn initial_density_literals() {
    let mut m = momentum::GuiConfig::default();
    assert_eq!(
        m.get_initial_density_literal(),
        "functions::uniform_density(1_f64, n.clone())"
    );
    m.initial_density = momentum::InitialDensityGui::FromTimeStep { time_step: 100 };
    assert_eq!(
        m.get_initial_density_literal(),
        "functions::density_from_time_step(100_usize)"
    );
    m.initial_density = momentum::InitialDensityGui::FromFile {
        file_path: String::from("./pre_processing/density.csv"),
    };
    assert_eq!(
        m.get_initial_density_literal(),
        "functions::from_density_file(\"./pre_processing/density.csv\")"
    );
}

#[test]
fn initial_velocity_arity_two_in_two_dimensions() {
    let m = momentum::GuiConfig::default();
    let rendered = m.get_initial_velocity_literal();
    assert_eq!(
        rendered,
        "functions::uniform_velocity(vec![0_f64, 0_f64], n.clone())"
    );
    assert_eq!(rendered.matches("_f64").count(), 2);
}

#[test]
fn initial_velocity_arity_three_in_three_dimensions() {
    let mut m = momentum::GuiConfig::default();
    m.set_dim(Dimensionality::D3);
    let rendered = m.get_initial_velocity_literal();
    assert_eq!(
        rendered,
        "functions::uniform_velocity(vec![0_f64, 0_f64, 0_f64], n.clone())"
    );
    assert_eq!(rendered.matches("_f64").count(), 3);
}

#[test]
fn initial_velocity_other_sources() {
    let mut m = momentum::GuiConfig::default();
    m.initial_velocity = momentum::InitialVelocityGui::FromTimeStep { time_step: 42 };
    assert_eq!(
        m.get_initial_velocity_literal(),
        "functions::velocity_from_time_step(42_usize)"
    );
    m.initial_velocity = momentum::InitialVelocityGui::FromFile {
        file_path: String::from("./pre_processing/velocity.csv"),
    };
    assert_eq!(
        m.get_initial_velocity_literal(),
        "functions::from_velocity_file(\"./pre_processing/velocity.csv\")"
    );
}

#[test]
fn node_types_literals() {
    let mut m = momentum::GuiConfig::default();
    assert_eq!(m.get_node_types_literal(), "functions::only_fluid_nodes(n.clone())");
    m.node_types = lbflow_case_builder::config::NodeTypesGui::FromBounceBackMapFile;
    assert_eq!(m.get_node_types_literal(), "functions::from_bounce_back_map_file()");
}

#[test]
fn m_params_content_carries_exact_literals() {
    let m = momentum::GuiConfig::default();
    let content = m.get_m_params_content();
    assert!(content.contains("delta_x: 0.001_f64,"));
    assert!(content.contains("delta_t: 0.001_f64,"));
    assert!(content.contains("physical_density: 998_f64,"));
    assert!(content.contains("reference_pressure: 101325_f64,"));
    assert!(content.contains("collision_operator: BGK(0.5_f64),"));
    assert!(content.contains("force: None,"));
}

#[test]
fn scalar_boundary_condition_literals() {
    let abb = passive_scalar::BoundaryConditionGui::AntiBounceBack { value: String::from("0.3") };
    assert_eq!(
        abb.to_literal(),
        "ps::bc::AntiBounceBack { scalar_value: 0.3_f64 }"
    );
    assert_eq!(
        passive_scalar::BoundaryConditionGui::AntiBBNoFlux.to_literal(),
        "ps::bc::AntiBBNoFlux"
    );
    assert_eq!(
        passive_scalar::BoundaryConditionGui::BBNoFlux.to_literal(),
        "ps::bc::BBNoFlux"
    );
    assert_eq!(
        passive_scalar::BoundaryConditionGui::Periodic.to_literal(),
        "ps::bc::Periodic"
    );
}

#[test]
fn scalar_initial_value_literals() {
    let mut ps = passive_scalar::GuiConfig::default();
    assert_eq!(
        ps.get_initial_scalar_value_literal(),
        "InitialScalarValue::Uniform(0_f64)"
    );
    ps.initial_scalar_value = passive_scalar::InitialScalarValueGui::FromTimeStep { time_step: 9 };
    assert_eq!(
        ps.get_initial_scalar_value_literal(),
        "InitialScalarValue::FromTimeStep(9_usize)"
    );
    ps.initial_scalar_value = passive_scalar::InitialScalarValueGui::FromFile {
        file_path: String::from("./pre_processing/oxygen.csv"),
    };
    assert_eq!(
        ps.get_initial_scalar_value_literal(),
        "InitialScalarValue::FromFile(\"./pre_processing/oxygen.csv\")"
    );
}

#[test]
fn scalar_inner_boundary_condition_literals() {
    let mut ps = passive_scalar::GuiConfig::default();
    assert_eq!(
        ps.get_inner_boundary_condition_literal(),
        "ps::bc::InnerBounceBack"
    );
    ps.inner_boundary_condition = passive_scalar::InnerBoundaryConditionGui::InnerAntiBounceBack;
    assert_eq!(
        ps.get_inner_boundary_condition_literal(),
        "ps::bc::InnerAntiBounceBack"
    );
}

#[test]
fn scalar_params_content_exact() {
    let mut ps = passive_scalar::GuiConfig::default();
    ps.scalar_name = String::from("oxygen");
    let expected = "    let ps_params_oxygen = ps::Parameters {
        scalar_name: \"oxygen\",
        collision_operator: BGK(0.9_f64),
        velocity_set: D2Q9,
        initial_scalar_value: InitialScalarValue::Uniform(0_f64),
        boundary_conditions: vec![(West, ps::bc::AntiBBNoFlux), (East, ps::bc::AntiBBNoFlux), (South, ps::bc::AntiBBNoFlux), (North, ps::bc::AntiBBNoFlux)],
        inner_boundary_condition: ps::bc::InnerBounceBack,
        source_value: None,
        adsorption_parameters: None,
    };
";
    assert_eq!(ps.get_ps_params_content(), expected);
}
