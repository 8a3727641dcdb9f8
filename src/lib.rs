//! Index plan of the cofactor (Laplace) expansion used by the 3x3 and 4x4
//! matrix engine: which entries make up a minor, and which cofactors are
//! negated. Entries are of any copyable type, so the plan is shared by every
//! element type; `exact` proves over the integers that the plan yields a
//! correct determinant and adjugate. `layout` places the entries of the
//! identity, scaling, translation and rotation transforms.
pub mod cofactor;
pub mod exact;
pub mod layout;

