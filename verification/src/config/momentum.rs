//! The momentum (primary flow field) parameter block: lattice parameters,
//! initial fields and the per-face boundary-condition table, rendered as one
//! `m::Parameters` declaration.

use vstd::prelude::*;
use vstd::string::StringExecFns;

use super::{
    face_at, face_count, spec_collision_operator_literal, spec_face_at, spec_face_count,
    spec_face_literal, spec_velocity_set_literal, CollisionOperatorGui, Dimensionality,
    NodeTypesGui, VelocitySetGui,
};
use crate::literal::{
    float_literal, float_vec_literal, join_all, nats_of, quoted, spec_float_literal,
    spec_float_vec_literal, spec_join, spec_quoted, spec_usize_literal, spec_usize_vec_literal,
    usize_literal, usize_vec_literal, views_of,
};

verus! {

/// A boundary condition of the momentum field.  This vocabulary is closed
/// and distinct from the passive-scalar one: the two never mix.  Numeric
/// payloads are decimal numerals; the bounce-back velocity keeps all three
/// components and renders only as many as the dimensionality asks for.
#[derive(Clone)]
pub enum BoundaryConditionGui {
    NoSlip,
    BounceBack { rho: String, ux: String, uy: String, uz: String },
    AntiBounceBack { rho: String },
    Periodic,
}

/// The velocity components the dimensionality exposes: x and y in two
/// dimensions, x, y and z in three.
pub open spec fn spec_velocity_components(
    dim: Dimensionality,
    ux: Seq<char>,
    uy: Seq<char>,
    uz: Seq<char>,
) -> Seq<Seq<char>> {
    match dim {
        Dimensionality::D2 => seq![ux, uy],
        Dimensionality::D3 => seq![ux, uy, uz],
    }
}

/// The boundary-condition expression of the momentum field, in the
/// `m::bc` namespace of the solver library.
pub open spec fn spec_boundary_condition_literal(
    bc: BoundaryConditionGui,
    dim: Dimensionality,
) -> Seq<char> {
    match bc {
        BoundaryConditionGui::NoSlip => "m::bc::NoSlip"@,
        BoundaryConditionGui::BounceBack { rho, ux, uy, uz } => "m::bc::BounceBack { density: "@
            + spec_float_literal(rho@) + ", velocity: "@ + spec_float_vec_literal(
            spec_velocity_components(dim, ux@, uy@, uz@),
        ) + " }"@,
        BoundaryConditionGui::AntiBounceBack { rho } => "m::bc::AntiBounceBack { density: "@
            + spec_float_literal(rho@) + " }"@,
        BoundaryConditionGui::Periodic => "m::bc::Periodic"@,
    }
}

impl BoundaryConditionGui {
    /// Renders the boundary condition; the dimensionality fixes the arity of
    /// the bounce-back velocity vector.
    pub fn to_literal(&self, dim: Dimensionality) -> (r: String)
        ensures
            r@ == spec_boundary_condition_literal(*self, dim),
    {
        match self {
            BoundaryConditionGui::NoSlip => String::from_str("m::bc::NoSlip"),
            BoundaryConditionGui::BounceBack { rho, ux, uy, uz } => {
                let mut comps: Vec<String> = Vec::new();
                comps.push(ux.clone());
                comps.push(uy.clone());
                if let Dimensionality::D3 = dim {
                    comps.push(uz.clone());
                }
                let vel = float_vec_literal(&comps);
                proof {
                    assert(views_of(comps@) =~= spec_velocity_components(dim, ux@, uy@, uz@));
                }
                let mut r = String::from_str("m::bc::BounceBack { density: ");
                let d = float_literal(rho.as_str());
                r.append(d.as_str());
                r.append(", velocity: ");
                r.append(vel.as_str());
                r.append(" }");
                r
            },
            BoundaryConditionGui::AntiBounceBack { rho } => {
                let mut r = String::from_str("m::bc::AntiBounceBack { density: ");
                let d = float_literal(rho.as_str());
                r.append(d.as_str());
                r.append(" }");
                r
            },
            BoundaryConditionGui::Periodic => String::from_str("m::bc::Periodic"),
        }
    }
}

/// One slot of the momentum boundary-condition table: a face paired with
/// the condition imposed on it.
#[derive(Clone)]
pub struct FaceBC {
    pub boundary_face: super::BoundaryFaceGui,
    pub boundary_condition: BoundaryConditionGui,
}

/// The initial density field: uniform, restarted from a recorded time step,
/// or read from a file.
#[derive(Clone)]
pub enum InitialDensityGui {
    Uniform { rho: String },
    FromTimeStep { time_step: usize },
    FromFile { file_path: String },
}

/// The initial velocity field: uniform (all three components carried, two
/// or three rendered), restarted from a recorded time step, or read from a
/// file.
#[derive(Clone)]
pub enum InitialVelocityGui {
    Uniform { ux: String, uy: String, uz: String },
    FromTimeStep { time_step: usize },
    FromFile { file_path: String },
}

/// The momentum-field configuration.
pub struct GuiConfig {
    pub dim: Dimensionality,
    pub n: [usize; 3],
    pub collision_operator: CollisionOperatorGui,
    pub velocity_set: VelocitySetGui,
    pub delta_x: String,
    pub delta_t: String,
    pub physical_density: String,
    pub reference_pressure: String,
    pub initial_density: InitialDensityGui,
    pub initial_velocity: InitialVelocityGui,
    pub boundary_conditions: Vec<FaceBC>,
    pub node_types: NodeTypesGui,
}

/// Whether each of the first `upto` slots of a table pairs the canonical
/// face of its index with a no-slip condition.
pub open spec fn spec_all_no_slip(entries: Seq<FaceBC>, upto: int) -> bool {
    forall|i: int|
        0 <= i < upto ==> (#[trigger] entries[i]).boundary_face == spec_face_at(i)
            && entries[i].boundary_condition is NoSlip
}

/// How a momentum face table looks after reconciliation with `dim`: sized
/// to the face count, slots that already existed kept unchanged, new slots
/// filled with the canonical face and the no-slip default.
pub open spec fn spec_resized(old_t: Seq<FaceBC>, new_t: Seq<FaceBC>, dim: Dimensionality) -> bool {
    &&& new_t.len() == spec_face_count(dim)
    &&& forall|i: int| 0 <= i < spec_face_count(dim) && i < old_t.len() ==> new_t[i] == old_t[i]
    &&& forall|i: int|
        old_t.len() <= i < spec_face_count(dim) ==> (#[trigger] new_t[i]) == (FaceBC {
            boundary_face: spec_face_at(i),
            boundary_condition: BoundaryConditionGui::NoSlip,
        })
}

/// The default momentum field, clause by clause: two-dimensional, 10 by 10,
/// BGK with relaxation time 0.5, D2Q9, unit density and resting velocity,
/// no-slip on all four faces.
pub open spec fn spec_default_m(c: GuiConfig) -> bool {
    &&& c.dim == Dimensionality::D2
    &&& c.n == [10usize, 10usize, 1usize]
    &&& c.collision_operator matches CollisionOperatorGui::BGK { tau } && tau@ == "0.5"@
    &&& c.velocity_set == VelocitySetGui::D2Q9
    &&& c.delta_x@ == "0.001"@
    &&& c.delta_t@ == "0.001"@
    &&& c.physical_density@ == "998"@
    &&& c.reference_pressure@ == "101325"@
    &&& c.initial_density matches InitialDensityGui::Uniform { rho } && rho@ == "1"@
    &&& c.initial_velocity matches InitialVelocityGui::Uniform { ux, uy, uz } && ux@ == "0"@
        && uy@ == "0"@ && uz@ == "0"@
    &&& c.boundary_conditions@.len() == 4
    &&& spec_all_no_slip(c.boundary_conditions@, 4)
    &&& c.node_types == NodeTypesGui::OnlyFluidNodes
}

impl Default for GuiConfig {
    /// The default momentum field: two-dimensional, 10 by 10, BGK with
    /// relaxation time 0.5, D2Q9, unit density and resting velocity, no-slip
    /// on all four faces.
    fn default() -> (c: Self)
        ensures
            spec_default_m(c),
    {
        let mut boundary_conditions: Vec<FaceBC> = Vec::new();
        let mut i: usize = 0;
        while i < 4
            invariant
                i <= 4,
                boundary_conditions@.len() == i,
                spec_all_no_slip(boundary_conditions@, i as int),
            decreases 4 - i,
        {
            boundary_conditions.push(
                FaceBC { boundary_face: face_at(i), boundary_condition: BoundaryConditionGui::NoSlip },
            );
            i += 1;
        }
        GuiConfig {
            dim: Dimensionality::D2,
            n: [10, 10, 1],
            collision_operator: CollisionOperatorGui::BGK { tau: String::from_str("0.5") },
            velocity_set: VelocitySetGui::D2Q9,
            delta_x: String::from_str("0.001"),
            delta_t: String::from_str("0.001"),
            physical_density: String::from_str("998"),
            reference_pressure: String::from_str("101325"),
            initial_density: InitialDensityGui::Uniform { rho: String::from_str("1") },
            initial_velocity: InitialVelocityGui::Uniform {
                ux: String::from_str("0"),
                uy: String::from_str("0"),
                uz: String::from_str("0"),
            },
            boundary_conditions,
            node_types: NodeTypesGui::OnlyFluidNodes,
        }
    }
}

/// Reconciles a momentum boundary-condition table with the dimensionality.
/// Growing to six faces appends the two new slots (bottom, top) with the
/// no-slip default; shrinking to four truncates, discarding the last two
/// slots; slots that remain keep their entered values unchanged.
pub fn resize_face_table(table: &mut Vec<FaceBC>, dim: Dimensionality)
    ensures
        spec_resized(old(table)@, final(table)@, dim),
{
    let n = face_count(dim);
    if table.len() > n {
        table.truncate(n);
    }
    while table.len() < n
        invariant
            n as int == spec_face_count(dim),
            table@.len() <= n,
            old(table)@.len() <= table@.len() || table@.len() == n,
            forall|i: int|
                0 <= i < n && i < old(table)@.len() && i < table@.len() ==> table@[i] == old(
                    table,
                )@[i],
            forall|i: int|
                old(table)@.len() <= i < table@.len() ==> (#[trigger] table@[i]) == (FaceBC {
                    boundary_face: spec_face_at(i),
                    boundary_condition: BoundaryConditionGui::NoSlip,
                }),
        decreases n - table@.len(),
    {
        let i = table.len();
        let ghost prev = table@;
        table.push(
            FaceBC { boundary_face: face_at(i), boundary_condition: BoundaryConditionGui::NoSlip },
        );
        proof {
            assert forall|j: int| 0 <= j < n && j < old(table)@.len() && j < table@.len() implies
                table@[j] == old(table)@[j] by {
                assert(table@[j] == prev[j]);
            }
        }
    }
}

/// The grid components the dimensionality exposes.
pub open spec fn spec_n_components(c: GuiConfig) -> Seq<nat> {
    match c.dim {
        Dimensionality::D2 => seq![c.n[0] as nat, c.n[1] as nat],
        Dimensionality::D3 => seq![c.n[0] as nat, c.n[1] as nat, c.n[2] as nat],
    }
}

/// The grid-extent literal of the momentum block.
pub open spec fn spec_n_literal(c: GuiConfig) -> Seq<char> {
    spec_usize_vec_literal(spec_n_components(c))
}

/// The initial-density expression: a call into the solver library's field
/// constructors.
pub open spec fn spec_initial_density_literal(c: GuiConfig) -> Seq<char> {
    match c.initial_density {
        InitialDensityGui::Uniform { rho } => "functions::uniform_density("@ + spec_float_literal(
            rho@,
        ) + ", n.clone())"@,
        InitialDensityGui::FromTimeStep { time_step } => "functions::density_from_time_step("@
            + spec_usize_literal(time_step as nat) + ")"@,
        InitialDensityGui::FromFile { file_path } => "functions::from_density_file("@ + spec_quoted(
            file_path@,
        ) + ")"@,
    }
}

/// The initial-velocity expression; a uniform field renders as many
/// components as the dimensionality asks for.
pub open spec fn spec_initial_velocity_literal(c: GuiConfig) -> Seq<char> {
    match c.initial_velocity {
        InitialVelocityGui::Uniform { ux, uy, uz } => "functions::uniform_velocity("@
            + spec_float_vec_literal(spec_velocity_components(c.dim, ux@, uy@, uz@))
            + ", n.clone())"@,
        InitialVelocityGui::FromTimeStep { time_step } => "functions::velocity_from_time_step("@
            + spec_usize_literal(time_step as nat) + ")"@,
        InitialVelocityGui::FromFile { file_path } => "functions::from_velocity_file("@
            + spec_quoted(file_path@) + ")"@,
    }
}

/// The node-types expression of the momentum block.
pub open spec fn spec_node_types_literal(c: GuiConfig) -> Seq<char> {
    match c.node_types {
        NodeTypesGui::OnlyFluidNodes => "functions::only_fluid_nodes(n.clone())"@,
        NodeTypesGui::FromBounceBackMapFile => "functions::from_bounce_back_map_file()"@,
    }
}

/// One rendered table slot: the face paired with its condition.
pub open spec fn spec_face_bc_literal(e: FaceBC, dim: Dimensionality) -> Seq<char> {
    "("@ + spec_face_literal(e.boundary_face) + ", "@ + spec_boundary_condition_literal(
        e.boundary_condition,
        dim,
    ) + ")"@
}

/// Every slot of a table rendered in order.
pub open spec fn spec_face_bc_literals(entries: Seq<FaceBC>, dim: Dimensionality) -> Seq<
    Seq<char>,
> {
    entries.map_values(|e: FaceBC| spec_face_bc_literal(e, dim))
}

/// The boundary-condition table literal: every slot in order, bracketed.
pub open spec fn spec_boundary_conditions_literal(c: GuiConfig) -> Seq<char> {
    "vec!["@ + spec_join(spec_face_bc_literals(c.boundary_conditions@, c.dim), ", "@) + "]"@
}

/// The whole momentum declaration: an `m::Parameters` record with every
/// field rendered, in the fixed order the solver library declares.
pub open spec fn spec_m_params_content(c: GuiConfig) -> Seq<char> {
    "    let m_params = m::Parameters {\n        n: n.clone(),\n        node_types: "@
        + spec_node_types_literal(c) + ",\n        velocity_set: "@ + spec_velocity_set_literal(
        c.velocity_set,
    ) + ",\n        collision_operator: "@ + spec_collision_operator_literal(c.collision_operator)
        + ",\n        delta_x: "@ + spec_float_literal(c.delta_x@) + ",\n        delta_t: "@
        + spec_float_literal(c.delta_t@) + ",\n        physical_density: "@ + spec_float_literal(
        c.physical_density@,
    ) + ",\n        reference_pressure: "@ + spec_float_literal(c.reference_pressure@)
        + ",\n        initial_density: "@ + spec_initial_density_literal(c)
        + ",\n        initial_velocity: "@ + spec_initial_velocity_literal(c)
        + ",\n        boundary_conditions: "@ + spec_boundary_conditions_literal(c)
        + ",\n        force: None,\n        multiphase_parameters: None,\n        post_functions: None,\n    };\n"@
}

/// Arity law: in a two-dimensional configuration every rendered vector —
/// the grid extent and any velocity, wherever one is emitted — carries
/// exactly two components; in a three-dimensional one, exactly three.
pub proof fn lemma_vector_arity(c: GuiConfig, ux: Seq<char>, uy: Seq<char>, uz: Seq<char>)
    ensures
        c.dim is D2 ==> spec_n_components(c).len() == 2 && spec_velocity_components(
            c.dim,
            ux,
            uy,
            uz,
        ).len() == 2,
        c.dim is D3 ==> spec_n_components(c).len() == 3 && spec_velocity_components(
            c.dim,
            ux,
            uy,
            uz,
        ).len() == 3,
{
}

impl GuiConfig {
    /// Renders the grid extent as a vector literal with one component per
    /// axis of the dimensionality.
    pub fn get_n_literal(&self) -> (r: String)
        ensures
            r@ == spec_n_literal(*self),
    {
        let mut comps: Vec<usize> = Vec::new();
        comps.push(self.n[0]);
        comps.push(self.n[1]);
        if let Dimensionality::D3 = self.dim {
            comps.push(self.n[2]);
        }
        let r = usize_vec_literal(&comps);
        proof {
            assert(nats_of(comps@) =~= spec_n_components(*self));
        }
        r
    }

    /// Renders the collision-operator expression.
    pub fn get_collision_operator_literal(&self) -> (r: String)
        ensures
            r@ == spec_collision_operator_literal(self.collision_operator),
    {
        self.collision_operator.to_literal()
    }

    /// Renders the velocity-set constructor name.
    pub fn get_velocity_set_literal(&self) -> (r: String)
        ensures
            r@ == spec_velocity_set_literal(self.velocity_set),
    {
        self.velocity_set.to_literal()
    }

    /// Renders the initial-density expression.
    pub fn get_initial_density_literal(&self) -> (r: String)
        ensures
            r@ == spec_initial_density_literal(*self),
    {
        match &self.initial_density {
            InitialDensityGui::Uniform { rho } => {
                let mut r = String::from_str("functions::uniform_density(");
                let v = float_literal(rho.as_str());
                r.append(v.as_str());
                r.append(", n.clone())");
                r
            },
            InitialDensityGui::FromTimeStep { time_step } => {
                let mut r = String::from_str("functions::density_from_time_step(");
                let v = usize_literal(*time_step);
                r.append(v.as_str());
                r.append(")");
                r
            },
            InitialDensityGui::FromFile { file_path } => {
                let mut r = String::from_str("functions::from_density_file(");
                let v = quoted(file_path.as_str());
                r.append(v.as_str());
                r.append(")");
                r
            },
        }
    }

    /// Renders the initial-velocity expression.
    pub fn get_initial_velocity_literal(&self) -> (r: String)
        ensures
            r@ == spec_initial_velocity_literal(*self),
    {
        match &self.initial_velocity {
            InitialVelocityGui::Uniform { ux, uy, uz } => {
                let mut comps: Vec<String> = Vec::new();
                comps.push(ux.clone());
                comps.push(uy.clone());
                if let Dimensionality::D3 = self.dim {
                    comps.push(uz.clone());
                }
                let vel = float_vec_literal(&comps);
                proof {
                    assert(views_of(comps@) =~= spec_velocity_components(self.dim, ux@, uy@, uz@));
                }
                let mut r = String::from_str("functions::uniform_velocity(");
                r.append(vel.as_str());
                r.append(", n.clone())");
                r
            },
            InitialVelocityGui::FromTimeStep { time_step } => {
                let mut r = String::from_str("functions::velocity_from_time_step(");
                let v = usize_literal(*time_step);
                r.append(v.as_str());
                r.append(")");
                r
            },
            InitialVelocityGui::FromFile { file_path } => {
                let mut r = String::from_str("functions::from_velocity_file(");
                let v = quoted(file_path.as_str());
                r.append(v.as_str());
                r.append(")");
                r
            },
        }
    }

    /// Renders the node-types expression.
    pub fn get_node_types_literal(&self) -> (r: String)
        ensures
            r@ == spec_node_types_literal(*self),
    {
        match self.node_types {
            NodeTypesGui::OnlyFluidNodes => String::from_str("functions::only_fluid_nodes(n.clone())"),
            NodeTypesGui::FromBounceBackMapFile => String::from_str(
                "functions::from_bounce_back_map_file()",
            ),
        }
    }

    /// Renders the boundary-condition table, slot by slot in table order.
    pub fn get_boundary_conditions_literal(&self) -> (r: String)
        ensures
            r@ == spec_boundary_conditions_literal(*self),
    {
        let mut parts: Vec<String> = Vec::new();
        let mut i: usize = 0;
        while i < self.boundary_conditions.len()
            invariant
                i <= self.boundary_conditions@.len(),
                views_of(parts@) =~= spec_face_bc_literals(
                    self.boundary_conditions@.take(i as int),
                    self.dim,
                ),
            decreases self.boundary_conditions@.len() - i,
        {
            let e = &self.boundary_conditions[i];
            let mut p = String::from_str("(");
            let face = e.boundary_face.to_literal();
            p.append(face.as_str());
            p.append(", ");
            let cond = e.boundary_condition.to_literal(self.dim);
            p.append(cond.as_str());
            p.append(")");
            let ghost prev = parts@;
            let ghost pv = p@;
            parts.push(p);
            proof {
                let entries = self.boundary_conditions@;
                let done = spec_face_bc_literals(entries.take(i + 1), self.dim);
                assert(views_of(prev).len() == prev.len());
                assert(prev.len() == i);
                assert(parts@.len() == i + 1);
                assert(done.len() == i + 1);
                assert(pv == spec_face_bc_literal(entries[i as int], self.dim));
                assert forall|j: int| 0 <= j < views_of(parts@).len() implies views_of(parts@)[j]
                    == done[j] by {
                    assert(views_of(parts@)[j] == parts@[j]@);
                    assert(done[j] == spec_face_bc_literal(entries.take(i + 1)[j], self.dim));
                    if j < i {
                        assert(parts@[j] == prev[j]);
                        assert(views_of(prev)[j] == spec_face_bc_literals(
                            entries.take(i as int),
                            self.dim,
                        )[j]);
                    } else {
                        assert(parts@[j]@ == pv);
                    }
                }
                assert(views_of(parts@) =~= done);
            }
            i += 1;
        }
        let mut r = String::from_str("vec![");
        let joined = join_all(&parts, ", ");
        r.append(joined.as_str());
        r.append("]");
        proof {
            assert(self.boundary_conditions@.take(self.boundary_conditions@.len() as int)
                =~= self.boundary_conditions@);
        }
        r
    }

    /// Renders the whole momentum declaration.
    pub fn get_m_params_content(&self) -> (r: String)
        ensures
            r@ == spec_m_params_content(*self),
    {
        let mut r = String::from_str(
            "    let m_params = m::Parameters {\n        n: n.clone(),\n        node_types: ",
        );
        let node_types = self.get_node_types_literal();
        r.append(node_types.as_str());
        r.append(",\n        velocity_set: ");
        let velocity_set = self.get_velocity_set_literal();
        r.append(velocity_set.as_str());
        r.append(",\n        collision_operator: ");
        let collision_operator = self.get_collision_operator_literal();
        r.append(collision_operator.as_str());
        r.append(",\n        delta_x: ");
        let delta_x = float_literal(self.delta_x.as_str());
        r.append(delta_x.as_str());
        r.append(",\n        delta_t: ");
        let delta_t = float_literal(self.delta_t.as_str());
        r.append(delta_t.as_str());
        r.append(",\n        physical_density: ");
        let physical_density = float_literal(self.physical_density.as_str());
        r.append(physical_density.as_str());
        r.append(",\n        reference_pressure: ");
        let reference_pressure = float_literal(self.reference_pressure.as_str());
        r.append(reference_pressure.as_str());
        r.append(",\n        initial_density: ");
        let initial_density = self.get_initial_density_literal();
        r.append(initial_density.as_str());
        r.append(",\n        initial_velocity: ");
        let initial_velocity = self.get_initial_velocity_literal();
        r.append(initial_velocity.as_str());
        r.append(",\n        boundary_conditions: ");
        let boundary_conditions = self.get_boundary_conditions_literal();
        r.append(boundary_conditions.as_str());
        r.append(
            ",\n        force: None,\n        multiphase_parameters: None,\n        post_functions: None,\n    };\n",
        );
        r
    }

    /// Moves the momentum field to the given dimensionality and reconciles
    /// its boundary-condition table with it; every other field is kept.
    pub fn set_dim(&mut self, dim: Dimensionality)
        ensures
            final(self).dim == dim,
            spec_resized(old(self).boundary_conditions@, final(self).boundary_conditions@, dim),
            final(self).n == old(self).n,
            final(self).collision_operator == old(self).collision_operator,
            final(self).velocity_set == old(self).velocity_set,
            final(self).delta_x == old(self).delta_x,
            final(self).delta_t == old(self).delta_t,
            final(self).physical_density == old(self).physical_density,
            final(self).reference_pressure == old(self).reference_pressure,
            final(self).initial_density == old(self).initial_density,
            final(self).initial_velocity == old(self).initial_velocity,
            final(self).node_types == old(self).node_types,
    {
        self.dim = dim;
        resize_face_table(&mut self.boundary_conditions, dim);
    }
}

} // verus!
