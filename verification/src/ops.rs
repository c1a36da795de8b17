//! The operators `+`, `-`, `*` and unary `-` on field elements.
//!
//! Each operator is the operation of the same name of the trait
//! [`FieldElement`](crate::traits::FieldElement) and is specified, like it, by
//! the value of its result.

use crate::base::BaseElement;
use crate::cube::{cube_add, cube_mul, cube_neg, cube_sub, CubeExtension, CubeValue};
use crate::modular::{add_mod, mul_mod, neg_mod, sub_mod};
use crate::quad::{quad_add, quad_mul, quad_neg, quad_sub, QuadExtension, QuadValue};
use vstd::prelude::*;
use vstd::std_specs::ops::{AddSpecImpl, MulSpecImpl, NegSpecImpl, SubSpecImpl};

verus! {

/// The value of an element of the base field.
pub open spec fn base_value(e: BaseElement) -> int {
    crate::traits::FieldElement::value(&e)
}

/// The value of an element of the quadratic extension.
pub open spec fn quad_value(e: QuadExtension) -> QuadValue {
    crate::traits::FieldElement::value(&e)
}

/// The value of an element of the cubic extension.
pub open spec fn cube_value(e: CubeExtension) -> CubeValue {
    crate::traits::FieldElement::value(&e)
}

/// The element that stores `v` as it is.
pub open spec fn canonical_base(v: int) -> BaseElement {
    BaseElement(v as u64)
}

/// The element that stores the coordinates of `v` as they are.
pub open spec fn canonical_quad(v: QuadValue) -> QuadExtension {
    QuadExtension(BaseElement(v.0 as u64), BaseElement(v.1 as u64))
}

/// The element that stores the coordinates of `v` as they are.
pub open spec fn canonical_cube(v: CubeValue) -> CubeExtension {
    CubeExtension(BaseElement(v.0 as u64), BaseElement(v.1 as u64), BaseElement(v.2 as u64))
}

impl core::ops::Add for BaseElement {
    type Output = BaseElement;

    fn add(self, rhs: BaseElement) -> (r: BaseElement)
        ensures
            base_value(r) == add_mod(base_value(self), base_value(rhs)),
    {
        crate::traits::FieldElement::add(self, rhs)
    }
}

/// The operator is specified by the value of its result; the stored form of
/// a sum is not always the canonical one named here.
impl AddSpecImpl for BaseElement {
    open spec fn obeys_add_spec() -> bool {
        false
    }

    open spec fn add_req(self, rhs: BaseElement) -> bool {
        true
    }

    open spec fn add_spec(self, rhs: BaseElement) -> BaseElement {
        canonical_base(add_mod(base_value(self), base_value(rhs)))
    }
}

impl core::ops::Sub for BaseElement {
    type Output = BaseElement;

    fn sub(self, rhs: BaseElement) -> (r: BaseElement)
        ensures
            base_value(r) == sub_mod(base_value(self), base_value(rhs)),
    {
        crate::traits::FieldElement::sub(self, rhs)
    }
}

/// The operator is specified by the value of its result; the stored form of
/// a difference is not always the canonical one named here.
impl SubSpecImpl for BaseElement {
    open spec fn obeys_sub_spec() -> bool {
        false
    }

    open spec fn sub_req(self, rhs: BaseElement) -> bool {
        true
    }

    open spec fn sub_spec(self, rhs: BaseElement) -> BaseElement {
        canonical_base(sub_mod(base_value(self), base_value(rhs)))
    }
}

impl core::ops::Mul for BaseElement {
    type Output = BaseElement;

    fn mul(self, rhs: BaseElement) -> (r: BaseElement)
        ensures
            base_value(r) == mul_mod(base_value(self), base_value(rhs)),
    {
        crate::traits::FieldElement::mul(self, rhs)
    }
}

/// The operator is specified by the value of its result; the stored form of
/// a product is not always the canonical one named here.
impl MulSpecImpl for BaseElement {
    open spec fn obeys_mul_spec() -> bool {
        false
    }

    open spec fn mul_req(self, rhs: BaseElement) -> bool {
        true
    }

    open spec fn mul_spec(self, rhs: BaseElement) -> BaseElement {
        canonical_base(mul_mod(base_value(self), base_value(rhs)))
    }
}

impl core::ops::Neg for BaseElement {
    type Output = BaseElement;

    fn neg(self) -> (r: BaseElement)
        ensures
            base_value(r) == neg_mod(base_value(self)),
    {
        crate::traits::FieldElement::neg(self)
    }
}

/// A negated element is stored in canonical form.
impl NegSpecImpl for BaseElement {
    open spec fn obeys_neg_spec() -> bool {
        true
    }

    open spec fn neg_req(self) -> bool {
        true
    }

    open spec fn neg_spec(self) -> BaseElement {
        canonical_base(neg_mod(base_value(self)))
    }
}

impl core::ops::Add for QuadExtension {
    type Output = QuadExtension;

    fn add(self, rhs: QuadExtension) -> (r: QuadExtension)
        ensures
            quad_value(r) == quad_add(quad_value(self), quad_value(rhs)),
    {
        crate::traits::FieldElement::add(self, rhs)
    }
}

/// The operator is specified by the value of its result; the stored form of
/// a sum is not always the canonical one named here.
impl AddSpecImpl for QuadExtension {
    open spec fn obeys_add_spec() -> bool {
        false
    }

    open spec fn add_req(self, rhs: QuadExtension) -> bool {
        true
    }

    open spec fn add_spec(self, rhs: QuadExtension) -> QuadExtension {
        canonical_quad(quad_add(quad_value(self), quad_value(rhs)))
    }
}

impl core::ops::Sub for QuadExtension {
    type Output = QuadExtension;

    fn sub(self, rhs: QuadExtension) -> (r: QuadExtension)
        ensures
            quad_value(r) == quad_sub(quad_value(self), quad_value(rhs)),
    {
        crate::traits::FieldElement::sub(self, rhs)
    }
}

/// The operator is specified by the value of its result; the stored form of
/// a difference is not always the canonical one named here.
impl SubSpecImpl for QuadExtension {
    open spec fn obeys_sub_spec() -> bool {
        false
    }

    open spec fn sub_req(self, rhs: QuadExtension) -> bool {
        true
    }

    open spec fn sub_spec(self, rhs: QuadExtension) -> QuadExtension {
        canonical_quad(quad_sub(quad_value(self), quad_value(rhs)))
    }
}

impl core::ops::Mul for QuadExtension {
    type Output = QuadExtension;

    fn mul(self, rhs: QuadExtension) -> (r: QuadExtension)
        ensures
            quad_value(r) == quad_mul(quad_value(self), quad_value(rhs)),
    {
        crate::traits::FieldElement::mul(self, rhs)
    }
}

/// The operator is specified by the value of its result; the stored form of
/// a product is not always the canonical one named here.
impl MulSpecImpl for QuadExtension {
    open spec fn obeys_mul_spec() -> bool {
        false
    }

    open spec fn mul_req(self, rhs: QuadExtension) -> bool {
        true
    }

    open spec fn mul_spec(self, rhs: QuadExtension) -> QuadExtension {
        canonical_quad(quad_mul(quad_value(self), quad_value(rhs)))
    }
}

impl core::ops::Neg for QuadExtension {
    type Output = QuadExtension;

    fn neg(self) -> (r: QuadExtension)
        ensures
            quad_value(r) == quad_neg(quad_value(self)),
    {
        crate::traits::FieldElement::neg(self)
    }
}

/// A negated element is stored in canonical form.
impl NegSpecImpl for QuadExtension {
    open spec fn obeys_neg_spec() -> bool {
        true
    }

    open spec fn neg_req(self) -> bool {
        true
    }

    open spec fn neg_spec(self) -> QuadExtension {
        canonical_quad(quad_neg(quad_value(self)))
    }
}

impl core::ops::Add for CubeExtension {
    type Output = CubeExtension;

    fn add(self, rhs: CubeExtension) -> (r: CubeExtension)
        ensures
            cube_value(r) == cube_add(cube_value(self), cube_value(rhs)),
    {
        crate::traits::FieldElement::add(self, rhs)
    }
}

/// The operator is specified by the value of its result; the stored form of
/// a sum is not always the canonical one named here.
impl AddSpecImpl for CubeExtension {
    open spec fn obeys_add_spec() -> bool {
        false
    }

    open spec fn add_req(self, rhs: CubeExtension) -> bool {
        true
    }

    open spec fn add_spec(self, rhs: CubeExtension) -> CubeExtension {
        canonical_cube(cube_add(cube_value(self), cube_value(rhs)))
    }
}

impl core::ops::Sub for CubeExtension {
    type Output = CubeExtension;

    fn sub(self, rhs: CubeExtension) -> (r: CubeExtension)
        ensures
            cube_value(r) == cube_sub(cube_value(self), cube_value(rhs)),
    {
        crate::traits::FieldElement::sub(self, rhs)
    }
}

/// The operator is specified by the value of its result; the stored form of
/// a difference is not always the canonical one named here.
impl SubSpecImpl for CubeExtension {
    open spec fn obeys_sub_spec() -> bool {
        false
    }

    open spec fn sub_req(self, rhs: CubeExtension) -> bool {
        true
    }

    open spec fn sub_spec(self, rhs: CubeExtension) -> CubeExtension {
        canonical_cube(cube_sub(cube_value(self), cube_value(rhs)))
    }
}

impl core::ops::Mul for CubeExtension {
    type Output = CubeExtension;

    fn mul(self, rhs: CubeExtension) -> (r: CubeExtension)
        ensures
            cube_value(r) == cube_mul(cube_value(self), cube_value(rhs)),
    {
        crate::traits::FieldElement::mul(self, rhs)
    }
}

/// The operator is specified by the value of its result; the stored form of
/// a product is not always the canonical one named here.
impl MulSpecImpl for CubeExtension {
    open spec fn obeys_mul_spec() -> bool {
        false
    }

    open spec fn mul_req(self, rhs: CubeExtension) -> bool {
        true
    }

    open spec fn mul_spec(self, rhs: CubeExtension) -> CubeExtension {
        canonical_cube(cube_mul(cube_value(self), cube_value(rhs)))
    }
}

impl core::ops::Neg for CubeExtension {
    type Output = CubeExtension;

    fn neg(self) -> (r: CubeExtension)
        ensures
            cube_value(r) == cube_neg(cube_value(self)),
    {
        crate::traits::FieldElement::neg(self)
    }
}

/// A negated element is stored in canonical form.
impl NegSpecImpl for CubeExtension {
    open spec fn obeys_neg_spec() -> bool {
        true
    }

    open spec fn neg_req(self) -> bool {
        true
    }

    open spec fn neg_spec(self) -> CubeExtension {
        canonical_cube(cube_neg(cube_value(self)))
    }
}

} // verus!
