//! Shared configuration vocabulary: dimensionality, velocity sets, collision
//! operators, boundary faces, node types, and the package-manifest
//! configuration.
//!
//! Numeric parameters of a configuration are carried as the decimal numeral
//! text the editor produced for them (see `crate::literal`); the engine never
//! interprets the digits, it only serializes them.

pub mod domain;
pub mod momentum;
pub mod passive_scalar;

use vstd::prelude::*;
use vstd::string::StringExecFns;

use crate::literal::{spec_float_literal, float_literal};

verus! {

/// Whether the case is two- or three-dimensional.  The dimensionality
/// decides how many spatial components every vector carries (2 or 3) and how
/// many domain faces a boundary-condition table holds (4 or 6).
#[derive(Clone, Copy, PartialEq, Eq, Structural)]
pub enum Dimensionality {
    D2,
    D3,
}

/// How many domain faces the dimensionality implies: the four side faces in
/// two dimensions, plus bottom and top in three.
pub open spec fn spec_face_count(dim: Dimensionality) -> int {
    match dim {
        Dimensionality::D2 => 4,
        Dimensionality::D3 => 6,
    }
}

/// Returns the number of domain faces for `dim`.
pub fn face_count(dim: Dimensionality) -> (n: usize)
    ensures
        n as int == spec_face_count(dim),
{
    match dim {
        Dimensionality::D2 => 4,
        Dimensionality::D3 => 6,
    }
}

/// One boundary of the rectangular domain.  The first four faces exist in
/// every case; bottom and top only in three dimensions.
#[derive(Clone, Copy, PartialEq, Eq, Structural)]
pub enum BoundaryFaceGui {
    West,
    East,
    South,
    North,
    Bottom,
    Top,
}

/// The canonical face for slot `i` of a boundary-condition table: west,
/// east, south, north, bottom, top.
pub open spec fn spec_face_at(i: int) -> BoundaryFaceGui {
    if i == 0 {
        BoundaryFaceGui::West
    } else if i == 1 {
        BoundaryFaceGui::East
    } else if i == 2 {
        BoundaryFaceGui::South
    } else if i == 3 {
        BoundaryFaceGui::North
    } else if i == 4 {
        BoundaryFaceGui::Bottom
    } else {
        BoundaryFaceGui::Top
    }
}

/// Returns the canonical face for slot `i` of a boundary-condition table.
pub fn face_at(i: usize) -> (f: BoundaryFaceGui)
    requires
        i < 6,
    ensures
        f == spec_face_at(i as int),
{
    match i {
        0 => BoundaryFaceGui::West,
        1 => BoundaryFaceGui::East,
        2 => BoundaryFaceGui::South,
        3 => BoundaryFaceGui::North,
        4 => BoundaryFaceGui::Bottom,
        _ => BoundaryFaceGui::Top,
    }
}

/// The constructor name of a boundary face in the generated program.
pub open spec fn spec_face_literal(f: BoundaryFaceGui) -> Seq<char> {
    match f {
        BoundaryFaceGui::West => "West"@,
        BoundaryFaceGui::East => "East"@,
        BoundaryFaceGui::South => "South"@,
        BoundaryFaceGui::North => "North"@,
        BoundaryFaceGui::Bottom => "Bottom"@,
        BoundaryFaceGui::Top => "Top"@,
    }
}

impl BoundaryFaceGui {
    /// Renders the face as the constructor name the solver library expects.
    pub fn to_literal(&self) -> (r: String)
        ensures
            r@ == spec_face_literal(*self),
    {
        match self {
            BoundaryFaceGui::West => String::from_str("West"),
            BoundaryFaceGui::East => String::from_str("East"),
            BoundaryFaceGui::South => String::from_str("South"),
            BoundaryFaceGui::North => String::from_str("North"),
            BoundaryFaceGui::Bottom => String::from_str("Bottom"),
            BoundaryFaceGui::Top => String::from_str("Top"),
        }
    }
}

/// The velocity set of a lattice.  `D2Q9` belongs to two-dimensional cases;
/// the other three to three-dimensional ones.  A set left inconsistent with
/// the case's dimensionality is rendered as stored; the generated program
/// then fails to compile against the solver library, which is the editor's
/// gap to close, not this engine's.
#[derive(Clone, Copy, PartialEq, Eq, Structural)]
pub enum VelocitySetGui {
    D2Q9,
    D3Q15,
    D3Q19,
    D3Q27,
}

/// The constructor name of a velocity set in the generated program.
pub open spec fn spec_velocity_set_literal(vs: VelocitySetGui) -> Seq<char> {
    match vs {
        VelocitySetGui::D2Q9 => "D2Q9"@,
        VelocitySetGui::D3Q15 => "D3Q15"@,
        VelocitySetGui::D3Q19 => "D3Q19"@,
        VelocitySetGui::D3Q27 => "D3Q27"@,
    }
}

impl VelocitySetGui {
    /// Renders the velocity set as its constructor name.
    pub fn to_literal(&self) -> (r: String)
        ensures
            r@ == spec_velocity_set_literal(*self),
    {
        match self {
            VelocitySetGui::D2Q9 => String::from_str("D2Q9"),
            VelocitySetGui::D3Q15 => String::from_str("D3Q15"),
            VelocitySetGui::D3Q19 => String::from_str("D3Q19"),
            VelocitySetGui::D3Q27 => String::from_str("D3Q27"),
        }
    }
}

/// The collision operator of a lattice.  `BGK` and `TRT` carry their
/// relaxation parameters as decimal numerals; `MRT` has no parameter
/// representation here and renders as a placeholder the target compiler
/// rejects, so the user is forced to fill the parameters in by hand.
#[derive(Clone)]
pub enum CollisionOperatorGui {
    BGK { tau: String },
    TRT { omega_plus: String, omega_minus: String },
    MRT,
}

/// The collision-operator expression in the generated program.  The `MRT`
/// arm is a deliberately non-compiling placeholder, not a valid expression.
pub open spec fn spec_collision_operator_literal(op: CollisionOperatorGui) -> Seq<char> {
    match op {
        CollisionOperatorGui::BGK { tau } => "BGK("@ + spec_float_literal(tau@) + ")"@,
        CollisionOperatorGui::TRT { omega_plus, omega_minus } => "TRT("@ + spec_float_literal(
            omega_plus@,
        ) + ", "@ + spec_float_literal(omega_minus@) + ")"@,
        CollisionOperatorGui::MRT => "MRT(vec![todo!(\"Insert parameters\")])"@,
    }
}

impl CollisionOperatorGui {
    /// Renders the collision operator as an expression of the solver
    /// library's vocabulary.
    pub fn to_literal(&self) -> (r: String)
        ensures
            r@ == spec_collision_operator_literal(*self),
    {
        match self {
            CollisionOperatorGui::BGK { tau } => {
                let mut r = String::from_str("BGK(");
                let t = float_literal(tau.as_str());
                r.append(t.as_str());
                r.append(")");
                r
            },
            CollisionOperatorGui::TRT { omega_plus, omega_minus } => {
                let mut r = String::from_str("TRT(");
                let p = float_literal(omega_plus.as_str());
                r.append(p.as_str());
                r.append(", ");
                let m = float_literal(omega_minus.as_str());
                r.append(m.as_str());
                r.append(")");
                r
            },
            CollisionOperatorGui::MRT => String::from_str("MRT(vec![todo!(\"Insert parameters\")])"),
        }
    }
}

/// Literal-exactness law: a BGK operator always renders as `BGK(`, the
/// relaxation-time numeral with its double-precision suffix, then `)` — so
/// the expressions of two BGK operators differ only in the numeral between
/// that fixed prefix and suffix.
pub proof fn lemma_bgk_literal_shape(
    op1: CollisionOperatorGui,
    op2: CollisionOperatorGui,
    t1: Seq<char>,
    t2: Seq<char>,
)
    requires
        op1 matches CollisionOperatorGui::BGK { tau } && tau@ == t1,
        op2 matches CollisionOperatorGui::BGK { tau } && tau@ == t2,
    ensures
        spec_collision_operator_literal(op1) == "BGK("@ + spec_float_literal(t1) + ")"@,
        spec_collision_operator_literal(op2) == "BGK("@ + spec_float_literal(t2) + ")"@,
        spec_float_literal(t1) == t1 + "_f64"@,
        spec_float_literal(t2) == t2 + "_f64"@,
{
}

/// Where the node-type field of the domain comes from: every node fluid, or
/// a bounce-back map file prepared beside the case.
#[derive(Clone, Copy, PartialEq, Eq, Structural)]
pub enum NodeTypesGui {
    FromBounceBackMapFile,
    OnlyFluidNodes,
}

/// The case-level configuration of the generated package manifest: the case
/// name, and an optional revision pin for the solver-library dependency (an
/// empty string means unpinned).
#[derive(Clone)]
pub struct CargoGuiConfig {
    pub case_name: String,
    pub commit_hash: String,
}

/// The default manifest configuration: case `case_000`, unpinned.
pub open spec fn spec_default_cargo(c: CargoGuiConfig) -> bool {
    &&& c.case_name@ == "case_000"@
    &&& c.commit_hash@ == Seq::<char>::empty()
}

impl Default for CargoGuiConfig {
    /// The default manifest configuration: case `case_000`, unpinned.
    fn default() -> (c: Self)
        ensures
            spec_default_cargo(c),
    {
        CargoGuiConfig { case_name: String::from_str("case_000"), commit_hash: String::new() }
    }
}

/// The revision pin of the solver-library dependency: empty when no commit
/// hash is set, otherwise a `rev` key carrying the hash.
pub open spec fn spec_commit_hash_literal(c: CargoGuiConfig) -> Seq<char> {
    if c.commit_hash@.len() == 0 {
        Seq::<char>::empty()
    } else {
        ", rev = \""@ + c.commit_hash@ + "\""@
    }
}

/// The manifest text: a package named after the case, depending on the
/// solver library, pinned to the configured revision if one is set.
pub open spec fn spec_cargo_toml(c: CargoGuiConfig) -> Seq<char> {
    "[package]\nname = \""@ + c.case_name@
        + "\"\nversion = \"0.1.0\"\nedition = \"2024\"\n\n[dependencies]\nlbflow = { version = \"0.1.0\", git = \"https://github.com/gilberto-ribeiro/lbflow.git\""@
        + spec_commit_hash_literal(c) + " }\n"@
}

impl CargoGuiConfig {
    /// Renders the revision pin of the solver-library dependency.
    pub fn get_commit_hash_literal(&self) -> (r: String)
        ensures
            r@ == spec_commit_hash_literal(*self),
    {
        if self.commit_hash.as_str().is_empty() {
            String::new()
        } else {
            let mut r = String::from_str(", rev = \"");
            r.append(self.commit_hash.as_str());
            r.append("\"");
            r
        }
    }

    /// Renders the package manifest of the generated case.
    pub fn get_cargo_toml(&self) -> (r: String)
        ensures
            r@ == spec_cargo_toml(*self),
    {
        let mut r = String::from_str("[package]\nname = \"");
        r.append(self.case_name.as_str());
        r.append(
            "\"\nversion = \"0.1.0\"\nedition = \"2024\"\n\n[dependencies]\nlbflow = { version = \"0.1.0\", git = \"https://github.com/gilberto-ribeiro/lbflow.git\"",
        );
        let pin = self.get_commit_hash_literal();
        r.append(pin.as_str());
        r.append(" }\n");
        r
    }
}

} // verus!
