// The decisions of a sequential geometric-optics ray tracer: which surface a ray reaches first,
// what the surface does with it, and what the search for the aperture stop has learned.
// Distances and coefficients come in as integer keys that order as the values do.
pub mod aperture;
pub mod shapes;
pub mod surface;
pub mod tracer;
