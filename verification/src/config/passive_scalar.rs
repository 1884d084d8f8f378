//! A passive-scalar parameter block: one transported scalar field with its
//! own lattice parameters, initial value and boundary-condition table,
//! rendered as one `ps::Parameters` declaration.
//!
//! The boundary-condition vocabulary of a scalar field is its own, closed,
//! and never interchangeable with the momentum one.

use vstd::prelude::*;
use vstd::string::StringExecFns;

use super::{
    face_at, face_count, spec_collision_operator_literal, spec_face_at, spec_face_count,
    spec_face_literal, spec_velocity_set_literal, CollisionOperatorGui, Dimensionality,
    VelocitySetGui,
};
use crate::literal::{
    float_literal, join_all, quoted, spec_float_literal, spec_join, spec_quoted,
    spec_usize_literal, usize_literal, views_of,
};

verus! {

/// A boundary condition of a passive-scalar field.
#[derive(Clone)]
pub enum BoundaryConditionGui {
    AntiBounceBack { value: String },
    AntiBBNoFlux,
    BBNoFlux,
    Periodic,
}

/// The boundary-condition expression of a scalar field, in the `ps::bc`
/// namespace of the solver library.
pub open spec fn spec_boundary_condition_literal(bc: BoundaryConditionGui) -> Seq<char> {
    match bc {
        BoundaryConditionGui::AntiBounceBack { value } => "ps::bc::AntiBounceBack { scalar_value: "@
            + spec_float_literal(value@) + " }"@,
        BoundaryConditionGui::AntiBBNoFlux => "ps::bc::AntiBBNoFlux"@,
        BoundaryConditionGui::BBNoFlux => "ps::bc::BBNoFlux"@,
        BoundaryConditionGui::Periodic => "ps::bc::Periodic"@,
    }
}

impl BoundaryConditionGui {
    /// Renders the boundary condition of a scalar field.
    pub fn to_literal(&self) -> (r: String)
        ensures
            r@ == spec_boundary_condition_literal(*self),
    {
        match self {
            BoundaryConditionGui::AntiBounceBack { value } => {
                let mut r = String::from_str("ps::bc::AntiBounceBack { scalar_value: ");
                let v = float_literal(value.as_str());
                r.append(v.as_str());
                r.append(" }");
                r
            },
            BoundaryConditionGui::AntiBBNoFlux => String::from_str("ps::bc::AntiBBNoFlux"),
            BoundaryConditionGui::BBNoFlux => String::from_str("ps::bc::BBNoFlux"),
            BoundaryConditionGui::Periodic => String::from_str("ps::bc::Periodic"),
        }
    }
}

/// A boundary condition imposed on obstacles inside the domain.
#[derive(Clone, Copy, PartialEq, Eq, Structural)]
pub enum InnerBoundaryConditionGui {
    InnerAntiBounceBack,
    InnerBounceBack,
}

/// One slot of a scalar boundary-condition table: a face paired with the
/// condition imposed on it.
#[derive(Clone)]
pub struct FaceBC {
    pub boundary_face: super::BoundaryFaceGui,
    pub boundary_condition: BoundaryConditionGui,
}

/// The initial value of a scalar field: uniform, restarted from a recorded
/// time step, or read from a file.
#[derive(Clone)]
pub enum InitialScalarValueGui {
    Uniform { value: String },
    FromTimeStep { time_step: usize },
    FromFile { file_path: String },
}

/// The configuration of one passive-scalar field.  The scalar's name is
/// emitted both as a quoted string literal and, prefixed, as the binding
/// identifier of its parameter declaration; two scalars with the same name
/// therefore collide in the generated program, and the engine does not
/// detect that.
pub struct GuiConfig {
    pub scalar_name: String,
    pub collision_operator: CollisionOperatorGui,
    pub velocity_set: VelocitySetGui,
    pub initial_scalar_value: InitialScalarValueGui,
    pub boundary_conditions: Vec<FaceBC>,
    pub inner_boundary_condition: InnerBoundaryConditionGui,
}

/// Whether each of the first `upto` slots of a table pairs the canonical
/// face of its index with the no-flux default condition.
pub open spec fn spec_all_no_flux(entries: Seq<FaceBC>, upto: int) -> bool {
    forall|i: int|
        0 <= i < upto ==> (#[trigger] entries[i]).boundary_face == spec_face_at(i)
            && entries[i].boundary_condition is AntiBBNoFlux
}

/// How a scalar face table looks after reconciliation with `dim`: sized to
/// the face count, slots that already existed kept unchanged, new slots
/// filled with the canonical face and the no-flux default.
pub open spec fn spec_resized(old_t: Seq<FaceBC>, new_t: Seq<FaceBC>, dim: Dimensionality) -> bool {
    &&& new_t.len() == spec_face_count(dim)
    &&& forall|i: int| 0 <= i < spec_face_count(dim) && i < old_t.len() ==> new_t[i] == old_t[i]
    &&& forall|i: int|
        old_t.len() <= i < spec_face_count(dim) ==> (#[trigger] new_t[i]) == (FaceBC {
            boundary_face: spec_face_at(i),
            boundary_condition: BoundaryConditionGui::AntiBBNoFlux,
        })
}

/// The default scalar field apart from its face table: unnamed, BGK with
/// relaxation time 0.9, D2Q9, uniform zero initial value, bounce-back on
/// inner obstacles.
pub open spec fn spec_default_ps_fields(c: GuiConfig) -> bool {
    &&& c.scalar_name@ == Seq::<char>::empty()
    &&& c.collision_operator matches CollisionOperatorGui::BGK { tau } && tau@ == "0.9"@
    &&& c.velocity_set == VelocitySetGui::D2Q9
    &&& c.initial_scalar_value matches InitialScalarValueGui::Uniform { value } && value@ == "0"@
    &&& c.inner_boundary_condition == InnerBoundaryConditionGui::InnerBounceBack
}

/// The default scalar field, face table included: four slots, each the
/// canonical face with the no-flux default.
pub open spec fn spec_default_ps(c: GuiConfig) -> bool {
    &&& spec_default_ps_fields(c)
    &&& c.boundary_conditions@.len() == 4
    &&& spec_all_no_flux(c.boundary_conditions@, 4)
}

/// How one scalar field looks after its case moved to `dim`: the face
/// table reconciled, every other field kept.
pub open spec fn spec_reconciled(o: GuiConfig, f: GuiConfig, dim: Dimensionality) -> bool {
    &&& spec_resized(o.boundary_conditions@, f.boundary_conditions@, dim)
    &&& f.scalar_name == o.scalar_name
    &&& f.collision_operator == o.collision_operator
    &&& f.velocity_set == o.velocity_set
    &&& f.initial_scalar_value == o.initial_scalar_value
    &&& f.inner_boundary_condition == o.inner_boundary_condition
}

/// A freshly appended scalar field: every field at its default, with the
/// face table already sized to the case's dimensionality, no-flux on every
/// canonical face.
pub open spec fn spec_new_scalar(c: GuiConfig, dim: Dimensionality) -> bool {
    &&& spec_default_ps_fields(c)
    &&& c.boundary_conditions@.len() == spec_face_count(dim)
    &&& spec_all_no_flux(c.boundary_conditions@, spec_face_count(dim))
}

impl Default for GuiConfig {
    /// The default scalar field: unnamed, BGK with relaxation time 0.9,
    /// D2Q9, uniform zero initial value, no-flux on all four faces,
    /// bounce-back on inner obstacles.
    fn default() -> (c: Self)
        ensures
            spec_default_ps(c),
    {
        let mut boundary_conditions: Vec<FaceBC> = Vec::new();
        let mut i: usize = 0;
        while i < 4
            invariant
                i <= 4,
                boundary_conditions@.len() == i,
                spec_all_no_flux(boundary_conditions@, i as int),
            decreases 4 - i,
        {
            boundary_conditions.push(
                FaceBC {
                    boundary_face: face_at(i),
                    boundary_condition: BoundaryConditionGui::AntiBBNoFlux,
                },
            );
            i += 1;
        }
        GuiConfig {
            scalar_name: String::new(),
            collision_operator: CollisionOperatorGui::BGK { tau: String::from_str("0.9") },
            velocity_set: VelocitySetGui::D2Q9,
            initial_scalar_value: InitialScalarValueGui::Uniform { value: String::from_str("0") },
            boundary_conditions,
            inner_boundary_condition: InnerBoundaryConditionGui::InnerBounceBack,
        }
    }
}

/// Reconciles a scalar boundary-condition table with the dimensionality.
/// Growing to six faces appends the two new slots (bottom, top) with the
/// no-flux default; shrinking to four truncates, discarding the last two
/// slots; slots that remain keep their entered values unchanged.
pub fn resize_face_table(table: &mut Vec<FaceBC>, dim: Dimensionality)
    ensures
        spec_resized(old(table)@, final(table)@, dim),
{
    let n = face_count(dim);
    if table.len() > n {
        table.truncate(n);
    }
    while table.len() < n
        invariant
            n as int == spec_face_count(dim),
            table@.len() <= n,
            old(table)@.len() <= table@.len() || table@.len() == n,
            forall|i: int|
                0 <= i < n && i < old(table)@.len() && i < table@.len() ==> table@[i] == old(
                    table,
                )@[i],
            forall|i: int|
                old(table)@.len() <= i < table@.len() ==> (#[trigger] table@[i]) == (FaceBC {
                    boundary_face: spec_face_at(i),
                    boundary_condition: BoundaryConditionGui::AntiBBNoFlux,
                }),
        decreases n - table@.len(),
    {
        let i = table.len();
        let ghost prev = table@;
        table.push(
            FaceBC {
                boundary_face: face_at(i),
                boundary_condition: BoundaryConditionGui::AntiBBNoFlux,
            },
        );
        proof {
            assert forall|j: int| 0 <= j < n && j < old(table)@.len() && j < table@.len() implies
                table@[j] == old(table)@[j] by {
                assert(table@[j] == prev[j]);
            }
        }
    }
}

/// The binding identifier of the scalar's parameter declaration: the
/// scalar's name behind a fixed prefix.
pub open spec fn spec_ps_params_literal(c: GuiConfig) -> Seq<char> {
    "ps_params_"@ + c.scalar_name@
}

/// The scalar's name as a quoted string literal.
pub open spec fn spec_scalar_name_literal(c: GuiConfig) -> Seq<char> {
    spec_quoted(c.scalar_name@)
}

/// The initial-scalar-value expression.
pub open spec fn spec_initial_scalar_value_literal(c: GuiConfig) -> Seq<char> {
    match c.initial_scalar_value {
        InitialScalarValueGui::Uniform { value } => "InitialScalarValue::Uniform("@
            + spec_float_literal(value@) + ")"@,
        InitialScalarValueGui::FromTimeStep { time_step } => "InitialScalarValue::FromTimeStep("@
            + spec_usize_literal(time_step as nat) + ")"@,
        InitialScalarValueGui::FromFile { file_path } => "InitialScalarValue::FromFile("@
            + spec_quoted(file_path@) + ")"@,
    }
}

/// One rendered table slot: the face paired with its condition.
pub open spec fn spec_face_bc_literal(e: FaceBC) -> Seq<char> {
    "("@ + spec_face_literal(e.boundary_face) + ", "@ + spec_boundary_condition_literal(
        e.boundary_condition,
    ) + ")"@
}

/// Every slot of a table rendered in order.
pub open spec fn spec_face_bc_literals(entries: Seq<FaceBC>) -> Seq<Seq<char>> {
    entries.map_values(|e: FaceBC| spec_face_bc_literal(e))
}

/// The boundary-condition table literal: every slot in order, bracketed.
pub open spec fn spec_boundary_conditions_literal(c: GuiConfig) -> Seq<char> {
    "vec!["@ + spec_join(spec_face_bc_literals(c.boundary_conditions@), ", "@) + "]"@
}

/// The inner-boundary-condition expression.
pub open spec fn spec_inner_boundary_condition_literal(c: GuiConfig) -> Seq<char> {
    match c.inner_boundary_condition {
        InnerBoundaryConditionGui::InnerAntiBounceBack => "ps::bc::InnerAntiBounceBack"@,
        InnerBoundaryConditionGui::InnerBounceBack => "ps::bc::InnerBounceBack"@,
    }
}

/// The whole scalar declaration: a `ps::Parameters` record bound to the
/// scalar's derived binding identifier, with every field rendered in the
/// fixed order the solver library declares.
pub open spec fn spec_ps_params_content(c: GuiConfig) -> Seq<char> {
    "    let "@ + spec_ps_params_literal(c) + " = ps::Parameters {\n        scalar_name: "@
        + spec_scalar_name_literal(c) + ",\n        collision_operator: "@
        + spec_collision_operator_literal(c.collision_operator) + ",\n        velocity_set: "@
        + spec_velocity_set_literal(c.velocity_set) + ",\n        initial_scalar_value: "@
        + spec_initial_scalar_value_literal(c) + ",\n        boundary_conditions: "@
        + spec_boundary_conditions_literal(c) + ",\n        inner_boundary_condition: "@
        + spec_inner_boundary_condition_literal(c)
        + ",\n        source_value: None,\n        adsorption_parameters: None,\n    };\n"@
}

/// Name-binding law: a scalar named `s` binds its parameter declaration to
/// the identifier `ps_params_` + `s`, derived from the name and nothing
/// else, and the declaration text carries the quoted string `"s"` verbatim
/// as the scalar-name argument.
pub proof fn lemma_name_binding(c: GuiConfig)
    ensures
        spec_ps_params_literal(c) == "ps_params_"@ + c.scalar_name@,
        exists|a: Seq<char>, b: Seq<char>|
            spec_ps_params_content(c) == a + spec_quoted(c.scalar_name@) + b,
{
    let a = "    let "@ + spec_ps_params_literal(c) + " = ps::Parameters {\n        scalar_name: "@;
    let b = ",\n        collision_operator: "@ + spec_collision_operator_literal(
        c.collision_operator,
    ) + ",\n        velocity_set: "@ + spec_velocity_set_literal(c.velocity_set)
        + ",\n        initial_scalar_value: "@ + spec_initial_scalar_value_literal(c)
        + ",\n        boundary_conditions: "@ + spec_boundary_conditions_literal(c)
        + ",\n        inner_boundary_condition: "@ + spec_inner_boundary_condition_literal(c)
        + ",\n        source_value: None,\n        adsorption_parameters: None,\n    };\n"@;
    assert(spec_ps_params_content(c) =~= a + spec_quoted(c.scalar_name@) + b);
}

impl GuiConfig {
    /// Renders the binding identifier of the scalar's parameter declaration.
    pub fn get_ps_params_literal(&self) -> (r: String)
        ensures
            r@ == spec_ps_params_literal(*self),
    {
        let mut r = String::from_str("ps_params_");
        r.append(self.scalar_name.as_str());
        r
    }

    /// Renders the scalar's name as a quoted string literal.
    pub fn get_scalar_name_literal(&self) -> (r: String)
        ensures
            r@ == spec_scalar_name_literal(*self),
    {
        quoted(self.scalar_name.as_str())
    }

    /// Renders the collision-operator expression.
    pub fn get_collision_operator_literal(&self) -> (r: String)
        ensures
            r@ == spec_collision_operator_literal(self.collision_operator),
    {
        self.collision_operator.to_literal()
    }

    /// Renders the velocity-set constructor name.
    pub fn get_velocity_set_literal(&self) -> (r: String)
        ensures
            r@ == spec_velocity_set_literal(self.velocity_set),
    {
        self.velocity_set.to_literal()
    }

    /// Renders the initial-scalar-value expression.
    pub fn get_initial_scalar_value_literal(&self) -> (r: String)
        ensures
            r@ == spec_initial_scalar_value_literal(*self),
    {
        match &self.initial_scalar_value {
            InitialScalarValueGui::Uniform { value } => {
                let mut r = String::from_str("InitialScalarValue::Uniform(");
                let v = float_literal(value.as_str());
                r.append(v.as_str());
                r.append(")");
                r
            },
            InitialScalarValueGui::FromTimeStep { time_step } => {
                let mut r = String::from_str("InitialScalarValue::FromTimeStep(");
                let v = usize_literal(*time_step);
                r.append(v.as_str());
                r.append(")");
                r
            },
            InitialScalarValueGui::FromFile { file_path } => {
                let mut r = String::from_str("InitialScalarValue::FromFile(");
                let v = quoted(file_path.as_str());
                r.append(v.as_str());
                r.append(")");
                r
            },
        }
    }

    /// Renders the boundary-condition table, slot by slot in table order.
    pub fn get_boundary_conditions_literal(&self) -> (r: String)
        ensures
            r@ == spec_boundary_conditions_literal(*self),
    {
        let mut parts: Vec<String> = Vec::new();
        let mut i: usize = 0;
        while i < self.boundary_conditions.len()
            invariant
                i <= self.boundary_conditions@.len(),
                views_of(parts@) =~= spec_face_bc_literals(self.boundary_conditions@.take(i as int)),
            decreases self.boundary_conditions@.len() - i,
        {
            let e = &self.boundary_conditions[i];
            let mut p = String::from_str("(");
            let face = e.boundary_face.to_literal();
            p.append(face.as_str());
            p.append(", ");
            let cond = e.boundary_condition.to_literal();
            p.append(cond.as_str());
            p.append(")");
            let ghost prev = parts@;
            let ghost pv = p@;
            parts.push(p);
            proof {
                let entries = self.boundary_conditions@;
                let done = spec_face_bc_literals(entries.take(i + 1));
                assert(views_of(prev).len() == prev.len());
                assert(prev.len() == i);
                assert(parts@.len() == i + 1);
                assert(done.len() == i + 1);
                assert(pv == spec_face_bc_literal(entries[i as int]));
                assert forall|j: int| 0 <= j < views_of(parts@).len() implies views_of(parts@)[j]
                    == done[j] by {
                    assert(views_of(parts@)[j] == parts@[j]@);
                    assert(done[j] == spec_face_bc_literal(entries.take(i + 1)[j]));
                    if j < i {
                        assert(parts@[j] == prev[j]);
                        assert(views_of(prev)[j] == spec_face_bc_literals(
                            entries.take(i as int),
                        )[j]);
                    } else {
                        assert(parts@[j]@ == pv);
                    }
                }
                assert(views_of(parts@) =~= done);
            }
            i += 1;
        }
        let mut r = String::from_str("vec![");
        let joined = join_all(&parts, ", ");
        r.append(joined.as_str());
        r.append("]");
        proof {
            assert(self.boundary_conditions@.take(self.boundary_conditions@.len() as int)
                =~= self.boundary_conditions@);
        }
        r
    }

    /// Renders the inner-boundary-condition expression.
    pub fn get_inner_boundary_condition_literal(&self) -> (r: String)
        ensures
            r@ == spec_inner_boundary_condition_literal(*self),
    {
        match self.inner_boundary_condition {
            InnerBoundaryConditionGui::InnerAntiBounceBack => String::from_str(
                "ps::bc::InnerAntiBounceBack",
            ),
            InnerBoundaryConditionGui::InnerBounceBack => String::from_str("ps::bc::InnerBounceBack"),
        }
    }

    /// Renders the whole scalar declaration.
    pub fn get_ps_params_content(&self) -> (r: String)
        ensures
            r@ == spec_ps_params_content(*self),
    {
        let mut r = String::from_str("    let ");
        let name = self.get_ps_params_literal();
        r.append(name.as_str());
        r.append(" = ps::Parameters {\n        scalar_name: ");
        let scalar_name = self.get_scalar_name_literal();
        r.append(scalar_name.as_str());
        r.append(",\n        collision_operator: ");
        let collision_operator = self.get_collision_operator_literal();
        r.append(collision_operator.as_str());
        r.append(",\n        velocity_set: ");
        let velocity_set = self.get_velocity_set_literal();
        r.append(velocity_set.as_str());
        r.append(",\n        initial_scalar_value: ");
        let initial_scalar_value = self.get_initial_scalar_value_literal();
        r.append(initial_scalar_value.as_str());
        r.append(",\n        boundary_conditions: ");
        let boundary_conditions = self.get_boundary_conditions_literal();
        r.append(boundary_conditions.as_str());
        r.append(",\n        inner_boundary_condition: ");
        let inner = self.get_inner_boundary_condition_literal();
        r.append(inner.as_str());
        r.append(",\n        source_value: None,\n        adsorption_parameters: None,\n    };\n");
        r
    }
}

} // verus!
