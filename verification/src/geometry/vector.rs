use vstd::prelude::*;

use crate::geometry::manifold::Chart;

verus! {

/// The coordinate basis in which the components of a tangent vector are read.
#[derive(Clone, Copy, PartialEq, Eq, Debug, Structural)]
pub enum TangentSpace {
    Cartesian,
    CartesianWorld,
    SphericalZ,
    SphericalX,
}

/// The coordinate basis that a chart induces on the tangent space at each of its points.
pub open spec fn induced_tangent_space(chart: Chart) -> TangentSpace {
    match chart {
        Chart::CartesianWorld => TangentSpace::CartesianWorld,
        Chart::Cartesian => TangentSpace::Cartesian,
        Chart::SphericalZ => TangentSpace::SphericalZ,
        Chart::SphericalX => TangentSpace::SphericalX,
    }
}

/// The chart whose coordinate basis a tangent space is.
pub open spec fn inducing_chart(space: TangentSpace) -> Chart {
    match space {
        TangentSpace::CartesianWorld => Chart::CartesianWorld,
        TangentSpace::Cartesian => Chart::Cartesian,
        TangentSpace::SphericalZ => Chart::SphericalZ,
        TangentSpace::SphericalX => Chart::SphericalX,
    }
}

impl TangentSpace {
    /// The tangent space in which the velocity of a photon positioned in `chart` is read.
    pub fn of_chart(chart: Chart) -> (space: TangentSpace)
        ensures
            space == induced_tangent_space(chart),
    {
        match chart {
            Chart::CartesianWorld => TangentSpace::CartesianWorld,
            Chart::Cartesian => TangentSpace::Cartesian,
            Chart::SphericalZ => TangentSpace::SphericalZ,
            Chart::SphericalX => TangentSpace::SphericalX,
        }
    }

    /// The chart that induces this tangent space.
    pub fn chart(self) -> (chart: Chart)
        ensures
            chart == inducing_chart(self),
    {
        match self {
            TangentSpace::CartesianWorld => Chart::CartesianWorld,
            TangentSpace::Cartesian => Chart::Cartesian,
            TangentSpace::SphericalZ => Chart::SphericalZ,
            TangentSpace::SphericalX => Chart::SphericalX,
        }
    }
}

/// Charts and the tangent spaces they induce correspond one to one.
pub proof fn lemma_induced_tangent_space_bijective(chart: Chart, space: TangentSpace)
    ensures
        inducing_chart(induced_tangent_space(chart)) == chart,
        induced_tangent_space(inducing_chart(space)) == space,
{
}

} // verus!
