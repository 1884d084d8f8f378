use lbflow_case_builder::config::Dimensionality;
use lbflow_case_builder::ui::GuiApp;

#[test]
fn default_program_text_exact() {
    let app = GuiApp::new();
    let expected = "use lbflow::prelude::*;

fn main() {
    let n = vec![10_usize, 10_usize];

    let m_params = m::Parameters {
        n: n.clone(),
        node_types: functions::only_fluid_nodes(n.clone()),
        velocity_set: D2Q9,
        collision_operator: BGK(0.5_f64),
        delta_x: 0.001_f64,
        delta_t: 0.001_f64,
        physical_density: 998_f64,
        reference_pressure: 101325_f64,
        initial_density: functions::uniform_density(1_f64, n.clone()),
        initial_velocity: functions::uniform_velocity(vec![0_f64, 0_f64], n.clone()),
        boundary_conditions: vec![(West, m::bc::NoSlip), (East, m::bc::NoSlip), (South, m::bc::NoSlip), (North, m::bc::NoSlip)],
        force: None,
        multiphase_parameters: None,
        post_functions: None,
    };



    m::solve(m_params);

}
";
    assert_eq!(app.get_main_rs_content(), expected);
}

#[test]
fn rendering_twice_is_byte_identical() {
    let mut app = GuiApp::new();
    app.set_dimensionality(Dimensionality::D3);
    app.set_n_passive_scalars(2);
    app.ps_cfg_vec[0].scalar_name = String::from("oxygen");
    app.ps_cfg_vec[1].scalar_name = String::from("nitrogen");
    let program_one = app.get_main_rs_content();
    let program_two = app.get_main_rs_content();
    assert_eq!(program_one, program_two);
    let manifest_one = app.c_cfg.get_cargo_toml();
    let manifest_two = app.c_cfg.get_cargo_toml();
    assert_eq!(manifest_one, manifest_two);
}

#[test]
fn zero_scalars_single_solve_invocation() {
    let app = GuiApp::new();
    assert_eq!(app.get_ps_solve_content(), "");
    let program = app.get_main_rs_content();
    assert!(program.contains("    m::solve(m_params);\n"));
    assert!(!program.contains("ps::solve"));
    assert_eq!(program.matches("solve(").count(), 1);
}

#[test]
fn one_scalar_adds_one_solve_call() {
    let mut app = GuiApp::new();
    app.set_n_passive_scalars(1);
    app.ps_cfg_vec[0].scalar_name = String::from("temp");
    assert_eq!(
        app.get_ps_solve_content(),
        "    // ps::solve(m_params, ps_params_temp);"
    );
    let program = app.get_main_rs_content();
    assert!(program.contains("    m::solve(m_params);\n"));
    assert!(program.contains("    // ps::solve(m_params, ps_params_temp);"));
    assert!(!program.contains("solve_vec"));
}

#[test]
fn many_scalars_use_one_batched_call_in_order() {
    let mut app = GuiApp::new();
    app.set_n_passive_scalars(3);
    app.ps_cfg_vec[0].scalar_name = String::from("a");
    app.ps_cfg_vec[1].scalar_name = String::from("b");
    app.ps_cfg_vec[2].scalar_name = String::from("c");
    assert_eq!(
        app.get_ps_solve_content(),
        "    // ps::solve_vec(m_params, vec![ps_params_a, ps_params_b, ps_params_c]);"
    );
    let program = app.get_main_rs_content();
    assert!(program.contains("    m::solve(m_params);\n"));
    assert!(program.contains(
        "    // ps::solve_vec(m_params, vec![ps_params_a, ps_params_b, ps_params_c]);"
    ));
}

#[test]
fn scalar_declarations_emitted_in_list_order() {
    let mut app = GuiApp::new();
    app.set_n_passive_scalars(2);
    app.ps_cfg_vec[0].scalar_name = String::from("oxygen");
    app.ps_cfg_vec[1].scalar_name = String::from("nitrogen");
    let declarations = app.get_ps_params_vec_content();
    let first = declarations.find("let ps_params_oxygen").unwrap();
    let second = declarations.find("let ps_params_nitrogen").unwrap();
    assert!(first < second);
}

#[test]
fn scalar_name_binding_is_derived_and_quoted() {
    let mut app = GuiApp::new();
    app.set_n_passive_scalars(1);
    app.ps_cfg_vec[0].scalar_name = String::from("oxygen");
    assert_eq!(app.ps_cfg_vec[0].get_ps_params_literal(), "ps_params_oxygen");
    assert_eq!(app.ps_cfg_vec[0].get_scalar_name_literal(), "\"oxygen\"");
    let program = app.get_main_rs_content();
    assert!(program.contains("let ps_params_oxygen = ps::Parameters {"));
    assert!(program.contains("scalar_name: \"oxygen\","));
}

#[test]
fn duplicate_scalar_names_collide_unchecked() {
    let mut app = GuiApp::new();
    app.set_n_passive_scalars(2);
    app.ps_cfg_vec[0].scalar_name = String::from("same");
    app.ps_cfg_vec[1].scalar_name = String::from("same");
    let declarations = app.get_ps_params_vec_content();
    assert_eq!(declarations.matches("let ps_params_same").count(), 2);
}

#[test]
fn three_dimensional_program_renders_three_component_vectors() {
    let mut app = GuiApp::new();
    app.set_dimensionality(Dimensionality::D3);
    let program = app.get_main_rs_content();
    assert!(program.contains("let n = vec![10_usize, 10_usize, 1_usize];"));
    assert!(program.contains(
        "initial_velocity: functions::uniform_velocity(vec![0_f64, 0_f64, 0_f64], n.clone()),"
    ));
    assert!(program.contains("(Bottom, m::bc::NoSlip)"));
    assert!(program.contains("(Top, m::bc::NoSlip)"));
}

#[test]
fn new_matches_default() {
    let a = GuiApp::new();
    let b = GuiApp::default();
    assert_eq!(a.get_main_rs_content(), b.get_main_rs_content());
    assert_eq!(a.c_cfg.get_cargo_toml(), b.c_cfg.get_cargo_toml());
    assert_eq!(a.parent_dir, "./cases");
    assert_eq!(a.status, "");
    assert_eq!(a.n_passive_scalars, 0);
}
