//! Arithmetic core of a STARK prover: the 64-bit prime field with modulus
//! `M = 2^64 - 2^32 + 1`, its quadratic and cubic extensions, and the column
//! form of a composition polynomial.
//!
//! Every operation is specified by the mathematical value of its result:
//! integers modulo `M` for the base field, pairs and triples of them for the
//! extensions. The modules are:
//!
//! - [`modular`]: arithmetic modulo `M` over the integers, in which the
//!   contracts are written;
//! - [`traits`]: the operations that all three fields share, and
//!   exponentiation by squaring over them;
//! - [`base`], [`quad`], [`cube`]: the three fields; [`ops`] gives them the
//!   operators `+`, `-`, `*` and unary `-`;
//! - [`roots`]: roots of unity of two-power order;
//! - [`encoding`], [`errors`]: elements as bytes and back;
//! - [`polynom`], [`domain`], [`composition_poly`]: polynomials, the
//!   parameters of a low-degree extension, and the composition polynomial;
//! - [`laws`]: laws of the base field and of its encoding;
//! - [`generators`], [`fermat`]: every nonzero residue modulo `M` is a power
//!   of seven, hence invertible;
//! - [`cube_identities`], [`cube_inverse`]: the cubic extension is a field.

pub mod base;
pub mod composition_poly;
pub mod cube;
pub mod cube_identities;
pub mod cube_inverse;
pub mod domain;
pub mod encoding;
pub mod errors;
pub mod fermat;
pub mod generators;
pub mod laws;
pub mod modular;
pub mod ops;
pub mod polynom;
pub mod quad;
pub mod roots;
pub mod traits;
