//! The domain parameter block: grid extent and node-type mask, rendered as
//! one `DomainParams` declaration.

use vstd::prelude::*;
use vstd::string::StringExecFns;

use super::Dimensionality;
use crate::literal::{nats_of, spec_usize_vec_literal, usize_vec_literal};

verus! {

/// Where the node-type mask of the domain comes from.
#[derive(Clone, Copy, PartialEq, Eq, Structural)]
pub enum NodeTypeMaskGui {
    OnlyFluidNodes,
    FromMapFile,
}

/// The domain configuration: dimensionality, grid extent per axis, and the
/// node-type mask source.  In two dimensions only the first two grid
/// components are rendered; the third is carried along untouched.
pub struct GuiConfig {
    pub dim: Dimensionality,
    pub grid: [usize; 3],
    pub node_type_mask: NodeTypeMaskGui,
}

impl Default for GuiConfig {
    /// The default domain: two-dimensional, 10 by 10, only fluid nodes.
    fn default() -> (c: Self)
        ensures
            c.dim == Dimensionality::D2,
            c.grid == [10usize, 10usize, 1usize],
            c.node_type_mask == NodeTypeMaskGui::OnlyFluidNodes,
    {
        GuiConfig {
            dim: Dimensionality::D2,
            grid: [10, 10, 1],
            node_type_mask: NodeTypeMaskGui::OnlyFluidNodes,
        }
    }
}

/// The grid components the dimensionality exposes: the first two in two
/// dimensions, all three in three.
pub open spec fn spec_grid_components(c: GuiConfig) -> Seq<nat> {
    match c.dim {
        Dimensionality::D2 => seq![c.grid[0] as nat, c.grid[1] as nat],
        Dimensionality::D3 => seq![c.grid[0] as nat, c.grid[1] as nat, c.grid[2] as nat],
    }
}

/// The grid-extent literal: a vector of as many unsigned-size literals as
/// the dimensionality has axes.
pub open spec fn spec_grid_literal(c: GuiConfig) -> Seq<char> {
    spec_usize_vec_literal(spec_grid_components(c))
}

/// The node-type-mask constructor name in the generated program.
pub open spec fn spec_node_type_mask_literal(c: GuiConfig) -> Seq<char> {
    match c.node_type_mask {
        NodeTypeMaskGui::OnlyFluidNodes => "OnlyFluidNodes"@,
        NodeTypeMaskGui::FromMapFile => "FromMapFile"@,
    }
}

/// The domain declaration: a `DomainParams` record with the grid and the
/// node-type mask.
pub open spec fn spec_domain_content(c: GuiConfig) -> Seq<char> {
    "    let domain = DomainParams {\n        grid: "@ + spec_grid_literal(c)
        + ",\n        node_type_mask: "@ + spec_node_type_mask_literal(c) + ",\n    };\n"@
}

impl GuiConfig {
    /// Renders the grid extent as a vector literal with one component per
    /// axis of the dimensionality.
    pub fn get_grid_literal(&self) -> (r: String)
        ensures
            r@ == spec_grid_literal(*self),
    {
        let mut comps: Vec<usize> = Vec::new();
        comps.push(self.grid[0]);
        comps.push(self.grid[1]);
        if let Dimensionality::D3 = self.dim {
            comps.push(self.grid[2]);
        }
        let r = usize_vec_literal(&comps);
        proof {
            assert(nats_of(comps@) =~= spec_grid_components(*self));
        }
        r
    }

    /// Renders the node-type-mask constructor name.
    pub fn get_node_type_mask_literal(&self) -> (r: String)
        ensures
            r@ == spec_node_type_mask_literal(*self),
    {
        match self.node_type_mask {
            NodeTypeMaskGui::OnlyFluidNodes => String::from_str("OnlyFluidNodes"),
            NodeTypeMaskGui::FromMapFile => String::from_str("FromMapFile"),
        }
    }

    /// Renders the whole domain declaration.
    pub fn get_domain_content(&self) -> (r: String)
        ensures
            r@ == spec_domain_content(*self),
    {
        let mut r = String::from_str("    let domain = DomainParams {\n        grid: ");
        let grid = self.get_grid_literal();
        r.append(grid.as_str());
        r.append(",\n        node_type_mask: ");
        let mask = self.get_node_type_mask_literal();
        r.append(mask.as_str());
        r.append(",\n    };\n");
        r
    }
}

} // verus!
