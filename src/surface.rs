use vstd::prelude::*;

verus! {

/// What a surface primarily does with a ray that reaches it.
#[derive(Debug, Clone, Copy, PartialEq, Eq, Structural)]
pub enum RayBehaviour {
    Reflect,
    Absorb,
    Transmit,
}

impl RayBehaviour {
    /// Whether the surface hands on a construction ray: a reflected or a transmitted one.
    /// An absorbing surface ends the ray.
    pub fn emits_ray(&self) -> (r: bool)
        ensures
            r == !(*self is Absorb),
    {
        match self {
            RayBehaviour::Absorb => false,
            _ => true,
        }
    }
}

/// Why a surface description could not be turned into surface properties.
#[derive(Debug, Clone, Copy, PartialEq, Eq, Structural)]
pub enum SurfaceBuilderError {
    /// Reflectance, absorption and transmittance do not sum to one.
    RATSum,
    /// A required parameter is missing or not physical.
    Unspecified,
    /// The primary behaviour was to be inferred, but two or more of reflectance, absorption
    /// and transmittance are equal and largest.
    AmbiguousBehaviour,
}

/// The behaviour whose coefficient is strictly the largest of the three, if one is.
pub open spec fn dominant_behaviour(r: u64, a: u64, t: u64) -> Option<RayBehaviour> {
    if r > a && r > t {
        Some(RayBehaviour::Reflect)
    } else if a > r && a > t {
        Some(RayBehaviour::Absorb)
    } else if t > r && t > a {
        Some(RayBehaviour::Transmit)
    } else {
        None
    }
}

/// Infers the primary behaviour from reflectance `r`, absorption `a` and transmittance `t`,
/// given as keys that order as the coefficients do: the one strictly largest wins.
pub fn infer_primary_behaviour(r: u64, a: u64, t: u64) -> (res: Result<
    RayBehaviour,
    SurfaceBuilderError,
>)
    ensures
        dominant_behaviour(r, a, t) matches Some(b) ==> res == Ok::<
            RayBehaviour,
            SurfaceBuilderError,
        >(b),
        dominant_behaviour(r, a, t) is None ==> res == Err::<RayBehaviour, SurfaceBuilderError>(
            SurfaceBuilderError::AmbiguousBehaviour,
        ),
{
    if r > a && r > t {
        Ok(RayBehaviour::Reflect)
    } else if a > r && a > t {
        Ok(RayBehaviour::Absorb)
    } else if t > r && t > a {
        Ok(RayBehaviour::Transmit)
    } else {
        Err(SurfaceBuilderError::AmbiguousBehaviour)
    }
}

/// The outcome of validating a surface description, checked in this order: the primary
/// behaviour (given, or inferred from the coefficients), then the coefficients' sum, then the
/// dielectric parameters.
pub open spec fn resolution(
    primary: Option<RayBehaviour>,
    rat: Option<(u64, u64, u64)>,
    rat_sums_to_one: bool,
    dielectric_valid: bool,
) -> Result<RayBehaviour, SurfaceBuilderError> {
    let behaviour = match primary {
        Some(b) => Ok(b),
        None => match rat {
            None => Err(SurfaceBuilderError::Unspecified),
            Some((r, a, t)) => match dominant_behaviour(r, a, t) {
                Some(b) => Ok(b),
                None => Err(SurfaceBuilderError::AmbiguousBehaviour),
            },
        },
    };
    match behaviour {
        Err(e) => Err(e),
        Ok(b) => if rat is Some && !rat_sums_to_one {
            Err(SurfaceBuilderError::RATSum)
        } else if !dielectric_valid {
            Err(SurfaceBuilderError::Unspecified)
        } else {
            Ok(b)
        },
    }
}

/// Validates a surface description and returns its primary behaviour.
///
/// `rat` holds the keys of reflectance, absorption and transmittance where they were given;
/// `rat_sums_to_one` says whether the given coefficients sum to one, and `dielectric_valid`
/// whether the dielectric parameters are physical (an index of at least one, a non-zero
/// focal length, or none given). Where no coefficients were given they follow from the
/// behaviour: all of the light goes the primary way.
pub fn resolve_behaviour(
    primary: Option<RayBehaviour>,
    rat: Option<(u64, u64, u64)>,
    rat_sums_to_one: bool,
    dielectric_valid: bool,
) -> (res: Result<RayBehaviour, SurfaceBuilderError>)
    ensures
        res == resolution(primary, rat, rat_sums_to_one, dielectric_valid),
{
    let behaviour = match primary {
        Some(b) => b,
        None => match rat {
            None => {
                return Err(SurfaceBuilderError::Unspecified);
            },
            Some((r, a, t)) => match infer_primary_behaviour(r, a, t) {
                Ok(b) => b,
                Err(e) => {
                    return Err(e);
                },
            },
        },
    };
    if rat.is_some() && !rat_sums_to_one {
        Err(SurfaceBuilderError::RATSum)
    } else if !dielectric_valid {
        Err(SurfaceBuilderError::Unspecified)
    } else {
        Ok(behaviour)
    }
}

} // verus!
