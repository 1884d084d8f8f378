//! The case aggregate: one momentum field, an ordered list of passive
//! scalar fields, and the manifest configuration, assembled into the full
//! generated program text.
//!
//! The aggregate is a value the editor collaborator fills in between
//! renders; rendering only reads it.  The two mutators here carry the
//! reconciliation rules the editor relies on: moving the case to another
//! dimensionality resizes every face table, and changing the scalar count
//! appends defaults or drops fields from the tail.

use vstd::prelude::*;
use vstd::string::StringExecFns;

use crate::config::momentum;
use crate::config::passive_scalar;
use crate::config::{
    spec_cargo_toml, spec_default_cargo, spec_face_count, CargoGuiConfig, Dimensionality,
};
use crate::literal::{join_all, spec_join, views_of};

verus! {

/// One whole case: the momentum field, the scalar count and the scalar
/// fields in emission order, the manifest configuration, the directory the
/// case is written under, and the last status message shown to the user.
pub struct GuiApp {
    pub m_cfg: momentum::GuiConfig,
    pub n_passive_scalars: usize,
    pub ps_cfg_vec: Vec<passive_scalar::GuiConfig>,
    pub c_cfg: CargoGuiConfig,
    pub parent_dir: String,
    pub status: String,
}

/// A case is well formed when the scalar count matches the scalar list and
/// every face table — the momentum one and each scalar's — holds exactly as
/// many slots as the case's dimensionality implies: four in two dimensions,
/// six in three.
pub open spec fn spec_wf(app: GuiApp) -> bool {
    &&& app.n_passive_scalars == app.ps_cfg_vec@.len()
    &&& app.m_cfg.boundary_conditions@.len() == spec_face_count(app.m_cfg.dim)
    &&& forall|k: int|
        0 <= k < app.ps_cfg_vec@.len() ==> (#[trigger] app.ps_cfg_vec@[k]).boundary_conditions@.len()
            == spec_face_count(app.m_cfg.dim)
}

impl Default for GuiApp {
    /// The default case: the default momentum field, no passive scalars,
    /// the default manifest configuration, written under `./cases`.
    fn default() -> (app: Self)
        ensures
            momentum::spec_default_m(app.m_cfg),
            app.n_passive_scalars == 0,
            app.ps_cfg_vec@.len() == 0,
            spec_default_cargo(app.c_cfg),
            app.parent_dir@ == "./cases"@,
            app.status@ == Seq::<char>::empty(),
            spec_wf(app),
    {
        GuiApp {
            m_cfg: momentum::GuiConfig::default(),
            n_passive_scalars: 0,
            ps_cfg_vec: Vec::new(),
            c_cfg: CargoGuiConfig::default(),
            parent_dir: String::from_str("./cases"),
            status: String::new(),
        }
    }
}

impl GuiApp {
    /// Creates the default case.
    pub fn new() -> (app: Self)
        ensures
            momentum::spec_default_m(app.m_cfg),
            app.n_passive_scalars == 0,
            app.ps_cfg_vec@.len() == 0,
            spec_default_cargo(app.c_cfg),
            app.parent_dir@ == "./cases"@,
            app.status@ == Seq::<char>::empty(),
            spec_wf(app),
    {
        Self::default()
    }

    /// Moves the case to the given dimensionality: the momentum face table
    /// and every scalar's face table are reconciled with it — grown with
    /// field-appropriate defaults or truncated — and everything else is
    /// kept.  A well-formed case stays well formed.
    pub fn set_dimensionality(&mut self, dim: Dimensionality)
        ensures
            final(self).m_cfg.dim == dim,
            momentum::spec_resized(
                old(self).m_cfg.boundary_conditions@,
                final(self).m_cfg.boundary_conditions@,
                dim,
            ),
            final(self).m_cfg.n == old(self).m_cfg.n,
            final(self).m_cfg.collision_operator == old(self).m_cfg.collision_operator,
            final(self).m_cfg.velocity_set == old(self).m_cfg.velocity_set,
            final(self).m_cfg.delta_x == old(self).m_cfg.delta_x,
            final(self).m_cfg.delta_t == old(self).m_cfg.delta_t,
            final(self).m_cfg.physical_density == old(self).m_cfg.physical_density,
            final(self).m_cfg.reference_pressure == old(self).m_cfg.reference_pressure,
            final(self).m_cfg.initial_density == old(self).m_cfg.initial_density,
            final(self).m_cfg.initial_velocity == old(self).m_cfg.initial_velocity,
            final(self).m_cfg.node_types == old(self).m_cfg.node_types,
            final(self).ps_cfg_vec@.len() == old(self).ps_cfg_vec@.len(),
            forall|k: int|
                0 <= k < old(self).ps_cfg_vec@.len() ==> passive_scalar::spec_reconciled(
                    old(self).ps_cfg_vec@[k],
                    #[trigger] final(self).ps_cfg_vec@[k],
                    dim,
                ),
            final(self).n_passive_scalars == old(self).n_passive_scalars,
            final(self).c_cfg == old(self).c_cfg,
            final(self).parent_dir == old(self).parent_dir,
            final(self).status == old(self).status,
            old(self).n_passive_scalars == old(self).ps_cfg_vec@.len() ==> spec_wf(*final(self)),
    {
        self.m_cfg.set_dim(dim);
        let ghost mid = *self;
        let mut k: usize = 0;
        while k < self.ps_cfg_vec.len()
            invariant
                k <= self.ps_cfg_vec@.len(),
                self.ps_cfg_vec@.len() == mid.ps_cfg_vec@.len(),
                forall|j: int|
                    0 <= j < k ==> passive_scalar::spec_reconciled(
                        mid.ps_cfg_vec@[j],
                        #[trigger] self.ps_cfg_vec@[j],
                        dim,
                    ),
                forall|j: int|
                    k <= j < self.ps_cfg_vec@.len() ==> #[trigger] self.ps_cfg_vec@[j]
                        == mid.ps_cfg_vec@[j],
                self.m_cfg == mid.m_cfg,
                self.n_passive_scalars == mid.n_passive_scalars,
                self.c_cfg == mid.c_cfg,
                self.parent_dir == mid.parent_dir,
                self.status == mid.status,
            decreases self.ps_cfg_vec@.len() - k,
        {
            passive_scalar::resize_face_table(&mut self.ps_cfg_vec[k].boundary_conditions, dim);
            k += 1;
        }
    }

    /// Sets the number of passive scalars: fields beyond the new count are
    /// dropped from the tail, missing fields are appended as defaults whose
    /// face table is already sized to the case's dimensionality, and fields
    /// that remain are kept unchanged.  A well-formed case stays well
    /// formed.
    pub fn set_n_passive_scalars(&mut self, n: usize)
        ensures
            final(self).n_passive_scalars == n,
            final(self).ps_cfg_vec@.len() == n,
            forall|k: int|
                0 <= k < n && k < old(self).ps_cfg_vec@.len() ==> final(self).ps_cfg_vec@[k] == old(
                    self,
                ).ps_cfg_vec@[k],
            forall|k: int|
                old(self).ps_cfg_vec@.len() <= k < n ==> passive_scalar::spec_new_scalar(
                    #[trigger] final(self).ps_cfg_vec@[k],
                    old(self).m_cfg.dim,
                ),
            final(self).m_cfg == old(self).m_cfg,
            final(self).c_cfg == old(self).c_cfg,
            final(self).parent_dir == old(self).parent_dir,
            final(self).status == old(self).status,
            spec_wf(*old(self)) ==> spec_wf(*final(self)),
    {
        let ghost start = *self;
        while self.ps_cfg_vec.len() < n
            invariant
                self.ps_cfg_vec@.len() >= start.ps_cfg_vec@.len(),
                self.ps_cfg_vec@.len() == start.ps_cfg_vec@.len() || self.ps_cfg_vec@.len() <= n,
                forall|k: int|
                    0 <= k < start.ps_cfg_vec@.len() ==> #[trigger] self.ps_cfg_vec@[k]
                        == start.ps_cfg_vec@[k],
                forall|k: int|
                    start.ps_cfg_vec@.len() <= k < self.ps_cfg_vec@.len()
                        ==> passive_scalar::spec_new_scalar(
                        #[trigger] self.ps_cfg_vec@[k],
                        start.m_cfg.dim,
                    ),
                self.m_cfg == start.m_cfg,
                self.n_passive_scalars == start.n_passive_scalars,
                self.c_cfg == start.c_cfg,
                self.parent_dir == start.parent_dir,
                self.status == start.status,
            decreases n - self.ps_cfg_vec@.len(),
        {
            let mut ps = passive_scalar::GuiConfig::default();
            let ghost fresh = ps;
            passive_scalar::resize_face_table(&mut ps.boundary_conditions, self.m_cfg.dim);
            proof {
                let t = ps.boundary_conditions@;
                let m = spec_face_count(self.m_cfg.dim);
                assert forall|i: int| 0 <= i < m implies (#[trigger] t[i]).boundary_face
                    == crate::config::spec_face_at(i) && t[i].boundary_condition
                    is AntiBBNoFlux by {
                    if i < 4 {
                        assert(t[i] == fresh.boundary_conditions@[i]);
                    }
                }
                assert(passive_scalar::spec_new_scalar(ps, start.m_cfg.dim));
            }
            self.ps_cfg_vec.push(ps);
        }
        while self.ps_cfg_vec.len() > n
            invariant
                self.ps_cfg_vec@.len() >= n,
                forall|k: int|
                    0 <= k < n && k < start.ps_cfg_vec@.len() ==> #[trigger] self.ps_cfg_vec@[k]
                        == start.ps_cfg_vec@[k],
                forall|k: int|
                    start.ps_cfg_vec@.len() <= k < self.ps_cfg_vec@.len() && k < n
                        ==> passive_scalar::spec_new_scalar(
                        #[trigger] self.ps_cfg_vec@[k],
                        start.m_cfg.dim,
                    ),
                self.m_cfg == start.m_cfg,
                self.n_passive_scalars == start.n_passive_scalars,
                self.c_cfg == start.c_cfg,
                self.parent_dir == start.parent_dir,
                self.status == start.status,
            decreases self.ps_cfg_vec@.len(),
        {
            self.ps_cfg_vec.pop();
        }
        self.n_passive_scalars = n;
    }
}

/// Every scalar declaration rendered in order.
pub open spec fn spec_ps_params_contents(v: Seq<passive_scalar::GuiConfig>) -> Seq<Seq<char>> {
    v.map_values(|c: passive_scalar::GuiConfig| passive_scalar::spec_ps_params_content(c))
}

/// The scalar declarations, in list order, separated by blank lines (each
/// declaration already ends with a newline of its own).
pub open spec fn spec_ps_params_vec_content(app: GuiApp) -> Seq<char> {
    spec_join(spec_ps_params_contents(app.ps_cfg_vec@), "\n"@)
}

/// The binding identifier of every scalar, in list order.
pub open spec fn spec_ps_params_literals(v: Seq<passive_scalar::GuiConfig>) -> Seq<Seq<char>> {
    v.map_values(|c: passive_scalar::GuiConfig| passive_scalar::spec_ps_params_literal(c))
}

/// The scalar solve fragment, chosen by the scalar count: empty for no
/// scalars; one solve call naming the single scalar's binding; a batched
/// solve call enumerating every binding, in list order, for two or more.
pub open spec fn spec_ps_solve_content(app: GuiApp) -> Seq<char> {
    if app.n_passive_scalars == 0 {
        Seq::<char>::empty()
    } else if app.n_passive_scalars == 1 {
        "    // ps::solve(m_params, "@ + passive_scalar::spec_ps_params_literal(app.ps_cfg_vec@[0])
            + ");"@
    } else {
        "    // ps::solve_vec(m_params, vec!["@ + spec_join(
            spec_ps_params_literals(app.ps_cfg_vec@),
            ", "@,
        ) + "]);"@
    }
}

/// The whole generated program: the grid binding, the momentum declaration,
/// each scalar declaration in list order, the momentum solve call, and the
/// scalar solve fragment.
pub open spec fn spec_main_rs_content(app: GuiApp) -> Seq<char> {
    "use lbflow::prelude::*;\n\nfn main() {\n    let n = "@ + momentum::spec_n_literal(app.m_cfg)
        + ";\n\n"@ + momentum::spec_m_params_content(app.m_cfg) + "\n"@
        + spec_ps_params_vec_content(app) + "\n\n    m::solve(m_params);\n"@
        + spec_ps_solve_content(app) + "\n}\n"@
}

impl GuiApp {
    /// Renders every scalar declaration, in list order.
    pub fn get_ps_params_vec_content(&self) -> (r: String)
        ensures
            r@ == spec_ps_params_vec_content(*self),
    {
        let mut parts: Vec<String> = Vec::new();
        let mut i: usize = 0;
        while i < self.ps_cfg_vec.len()
            invariant
                i <= self.ps_cfg_vec@.len(),
                views_of(parts@) =~= spec_ps_params_contents(self.ps_cfg_vec@.take(i as int)),
            decreases self.ps_cfg_vec@.len() - i,
        {
            let p = self.ps_cfg_vec[i].get_ps_params_content();
            let ghost prev = parts@;
            let ghost pv = p@;
            parts.push(p);
            proof {
                let v = self.ps_cfg_vec@;
                let done = spec_ps_params_contents(v.take(i + 1));
                assert(views_of(prev).len() == prev.len());
                assert(prev.len() == i);
                assert(pv == passive_scalar::spec_ps_params_content(v[i as int]));
                assert forall|j: int| 0 <= j < views_of(parts@).len() implies views_of(parts@)[j]
                    == done[j] by {
                    assert(views_of(parts@)[j] == parts@[j]@);
                    assert(done[j] == passive_scalar::spec_ps_params_content(v.take(i + 1)[j]));
                    if j < i {
                        assert(parts@[j] == prev[j]);
                        assert(views_of(prev)[j] == spec_ps_params_contents(v.take(i as int))[j]);
                    } else {
                        assert(parts@[j]@ == pv);
                    }
                }
                assert(views_of(parts@) =~= done);
            }
            i += 1;
        }
        proof {
            assert(self.ps_cfg_vec@.take(self.ps_cfg_vec@.len() as int) =~= self.ps_cfg_vec@);
        }
        join_all(&parts, "\n")
    }

    /// Renders the scalar solve fragment for the case's scalar count.
    pub fn get_ps_solve_content(&self) -> (r: String)
        requires
            self.n_passive_scalars == self.ps_cfg_vec@.len(),
        ensures
            r@ == spec_ps_solve_content(*self),
    {
        if self.n_passive_scalars == 0 {
            String::new()
        } else if self.n_passive_scalars == 1 {
            let mut r = String::from_str("    // ps::solve(m_params, ");
            let name = self.ps_cfg_vec[0].get_ps_params_literal();
            r.append(name.as_str());
            r.append(");");
            r
        } else {
            let mut names: Vec<String> = Vec::new();
            let mut i: usize = 0;
            while i < self.ps_cfg_vec.len()
                invariant
                    i <= self.ps_cfg_vec@.len(),
                    views_of(names@) =~= spec_ps_params_literals(self.ps_cfg_vec@.take(i as int)),
                decreases self.ps_cfg_vec@.len() - i,
            {
                let p = self.ps_cfg_vec[i].get_ps_params_literal();
                let ghost prev = names@;
                let ghost pv = p@;
                names.push(p);
                proof {
                    let v = self.ps_cfg_vec@;
                    let done = spec_ps_params_literals(v.take(i + 1));
                    assert(views_of(prev).len() == prev.len());
                    assert(prev.len() == i);
                    assert(pv == passive_scalar::spec_ps_params_literal(v[i as int]));
                    assert forall|j: int| 0 <= j < views_of(names@).len() implies views_of(
                        names@,
                    )[j] == done[j] by {
                        assert(views_of(names@)[j] == names@[j]@);
                        assert(done[j] == passive_scalar::spec_ps_params_literal(v.take(i + 1)[j]));
                        if j < i {
                            assert(names@[j] == prev[j]);
                            assert(views_of(prev)[j] == spec_ps_params_literals(
                                v.take(i as int),
                            )[j]);
                        } else {
                            assert(names@[j]@ == pv);
                        }
                    }
                    assert(views_of(names@) =~= done);
                }
                i += 1;
            }
            proof {
                assert(self.ps_cfg_vec@.take(self.ps_cfg_vec@.len() as int) =~= self.ps_cfg_vec@);
            }
            let mut r = String::from_str("    // ps::solve_vec(m_params, vec![");
            let joined = join_all(&names, ", ");
            r.append(joined.as_str());
            r.append("]);");
            r
        }
    }

    /// Renders the whole generated program.
    pub fn get_main_rs_content(&self) -> (r: String)
        requires
            self.n_passive_scalars == self.ps_cfg_vec@.len(),
        ensures
            r@ == spec_main_rs_content(*self),
    {
        let mut r = String::from_str("use lbflow::prelude::*;\n\nfn main() {\n    let n = ");
        let n_literal = self.m_cfg.get_n_literal();
        r.append(n_literal.as_str());
        r.append(";\n\n");
        let m_params_content = self.m_cfg.get_m_params_content();
        r.append(m_params_content.as_str());
        r.append("\n");
        let ps_params_vec_content = self.get_ps_params_vec_content();
        r.append(ps_params_vec_content.as_str());
        r.append("\n\n    m::solve(m_params);\n");
        let ps_solve_content = self.get_ps_solve_content();
        r.append(ps_solve_content.as_str());
        r.append("\n}\n");
        r
    }
}

/// Determinism law: rendering the same case twice yields byte-identical
/// program text and byte-identical manifest text — both are functions of
/// the configuration value alone.
pub proof fn lemma_render_deterministic(
    app: GuiApp,
    p1: Seq<char>,
    p2: Seq<char>,
    m1: Seq<char>,
    m2: Seq<char>,
)
    requires
        p1 == spec_main_rs_content(app),
        p2 == spec_main_rs_content(app),
        m1 == spec_cargo_toml(app.c_cfg),
        m2 == spec_cargo_toml(app.c_cfg),
    ensures
        p1 == p2,
        m1 == m2,
{
}

/// Face-table sizing law: in a well-formed case the momentum face table
/// and every scalar's face table hold exactly four slots when the case is
/// two-dimensional, and exactly six when it is three-dimensional.
pub proof fn lemma_face_table_sizing(app: GuiApp)
    requires
        spec_wf(app),
    ensures
        app.m_cfg.dim is D2 <==> app.m_cfg.boundary_conditions@.len() == 4,
        app.m_cfg.dim is D3 <==> app.m_cfg.boundary_conditions@.len() == 6,
        forall|k: int|
            0 <= k < app.ps_cfg_vec@.len() ==> ((#[trigger] app.ps_cfg_vec@[k]).boundary_conditions@.len()
                == 4 <==> app.m_cfg.dim is D2),
        forall|k: int|
            0 <= k < app.ps_cfg_vec@.len() ==> ((#[trigger] app.ps_cfg_vec@[k]).boundary_conditions@.len()
                == 6 <==> app.m_cfg.dim is D3),
{
}

/// Cardinality law: the solve fragment names the scalars exactly as the
/// count dictates — nothing for zero scalars, so the program's only solve
/// invocation is the momentum one; a single solve call naming the one
/// scalar's derived binding for one; and one batched call enumerating every
/// binding in list order for two or more.
pub proof fn lemma_solve_invocation_branching(app: GuiApp)
    requires
        app.n_passive_scalars == app.ps_cfg_vec@.len(),
    ensures
        app.n_passive_scalars == 0 ==> spec_ps_solve_content(app) == Seq::<char>::empty(),
        app.n_passive_scalars == 1 ==> spec_ps_solve_content(app) == "    // ps::solve(m_params, "@
            + ("ps_params_"@ + app.ps_cfg_vec@[0].scalar_name@) + ");"@,
        app.n_passive_scalars >= 2 ==> spec_ps_solve_content(app)
            == "    // ps::solve_vec(m_params, vec!["@ + spec_join(
            spec_ps_params_literals(app.ps_cfg_vec@),
            ", "@,
        ) + "]);"@,
{
}

} // verus!
