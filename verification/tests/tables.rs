use lbflow_case_builder::config::momentum;
use lbflow_case_builder::config::passive_scalar;
use lbflow_case_builder::config::{BoundaryFaceGui, Dimensionality};
use lbflow_case_builder::ui::GuiApp;

#[test]
fn growth_preserves_entered_conditions() {
    let mut m = momentum::GuiConfig::default();
    m.boundary_conditions[1].boundary_condition = momentum::BoundaryConditionGui::Periodic;
    m.set_dim(Dimensionality::D3);
    assert_eq!(m.boundary_conditions.len(), 6);
    assert!(matches!(
        m.boundary_conditions[0].boundary_condition,
        momentum::BoundaryConditionGui::NoSlip
    ));
    assert!(matches!(
        m.boundary_conditions[1].boundary_condition,
        momentum::BoundaryConditionGui::Periodic
    ));
    assert!(matches!(
        m.boundary_conditions[2].boundary_condition,
        momentum::BoundaryConditionGui::NoSlip
    ));
    assert!(matches!(
        m.boundary_conditions[3].boundary_condition,
        momentum::BoundaryConditionGui::NoSlip
    ));
    assert!(matches!(m.boundary_conditions[4].boundary_face, BoundaryFaceGui::Bottom));
    assert!(matches!(
        m.boundary_conditions[4].boundary_condition,
        momentum::BoundaryConditionGui::NoSlip
    ));
    assert!(matches!(m.boundary_conditions[5].boundary_face, BoundaryFaceGui::Top));
    assert!(matches!(
        m.boundary_conditions[5].boundary_condition,
        momentum::BoundaryConditionGui::NoSlip
    ));
}

#[test]
fn shrink_truncates_and_keeps_first_four() {
    let mut m = momentum::GuiConfig::default();
    m.set_dim(Dimensionality::D3);
    m.boundary_conditions[1].boundary_condition = momentum::BoundaryConditionGui::Periodic;
    m.boundary_conditions[5].boundary_condition =
        momentum::BoundaryConditionGui::AntiBounceBack { rho: String::from("1.1") };
    m.set_dim(Dimensionality::D2);
    assert_eq!(m.boundary_conditions.len(), 4);
    assert!(matches!(m.boundary_conditions[0].boundary_face, BoundaryFaceGui::West));
    assert!(matches!(
        m.boundary_conditions[1].boundary_condition,
        momentum::BoundaryConditionGui::Periodic
    ));
    assert!(matches!(
        m.boundary_conditions[3].boundary_condition,
        momentum::BoundaryConditionGui::NoSlip
    ));
}

#[test]
fn growth_after_shrink_rederives_faces() {
    let mut m = momentum::GuiConfig::default();
    m.set_dim(Dimensionality::D3);
    m.set_dim(Dimensionality::D2);
    m.set_dim(Dimensionality::D3);
    assert_eq!(m.boundary_conditions.len(), 6);
    assert!(matches!(m.boundary_conditions[4].boundary_face, BoundaryFaceGui::Bottom));
    assert!(matches!(m.boundary_conditions[5].boundary_face, BoundaryFaceGui::Top));
}

#[test]
fn scalar_table_growth_uses_no_flux_default() {
    let mut app = GuiApp::new();
    app.set_n_passive_scalars(1);
    app.ps_cfg_vec[0].boundary_conditions[2].boundary_condition =
        passive_scalar::BoundaryConditionGui::Periodic;
    app.set_dimensionality(Dimensionality::D3);
    let table = &app.ps_cfg_vec[0].boundary_conditions;
    assert_eq!(table.len(), 6);
    assert!(matches!(
        table[2].boundary_condition,
        passive_scalar::BoundaryConditionGui::Periodic
    ));
    assert!(matches!(table[4].boundary_face, BoundaryFaceGui::Bottom));
    assert!(matches!(
        table[4].boundary_condition,
        passive_scalar::BoundaryConditionGui::AntiBBNoFlux
    ));
    assert!(matches!(table[5].boundary_face, BoundaryFaceGui::Top));
    assert!(matches!(
        table[5].boundary_condition,
        passive_scalar::BoundaryConditionGui::AntiBBNoFlux
    ));
}

#[test]
fn every_table_sized_by_dimensionality() {
    let mut app = GuiApp::new();
    app.set_n_passive_scalars(2);
    assert_eq!(app.m_cfg.boundary_conditions.len(), 4);
    assert_eq!(app.ps_cfg_vec[0].boundary_conditions.len(), 4);
    assert_eq!(app.ps_cfg_vec[1].boundary_conditions.len(), 4);
    app.set_dimensionality(Dimensionality::D3);
    assert_eq!(app.m_cfg.boundary_conditions.len(), 6);
    assert_eq!(app.ps_cfg_vec[0].boundary_conditions.len(), 6);
    assert_eq!(app.ps_cfg_vec[1].boundary_conditions.len(), 6);
    app.set_dimensionality(Dimensionality::D2);
    assert_eq!(app.m_cfg.boundary_conditions.len(), 4);
    assert_eq!(app.ps_cfg_vec[0].boundary_conditions.len(), 4);
    assert_eq!(app.ps_cfg_vec[1].boundary_conditions.len(), 4);
}

#[test]
fn scalar_appended_in_three_dimensions_gets_six_slots() {
    let mut app = GuiApp::new();
    app.set_dimensionality(Dimensionality::D3);
    app.set_n_passive_scalars(1);
    assert_eq!(app.ps_cfg_vec[0].boundary_conditions.len(), 6);
}

#[test]
fn scalar_count_grows_and_shrinks_from_the_tail() {
    let mut app = GuiApp::new();
    app.set_n_passive_scalars(3);
    assert_eq!(app.n_passive_scalars, 3);
    assert_eq!(app.ps_cfg_vec.len(), 3);
    app.ps_cfg_vec[0].scalar_name = String::from("first");
    app.ps_cfg_vec[1].scalar_name = String::from("second");
    app.set_n_passive_scalars(1);
    assert_eq!(app.ps_cfg_vec.len(), 1);
    assert_eq!(app.ps_cfg_vec[0].scalar_name, "first");
}
