use stark_algebra::base::BaseElement;
use stark_algebra::composition_poly;
use stark_algebra::composition_poly::CompositionPoly;
use stark_algebra::domain::StarkDomain;
use stark_algebra::polynom;
use stark_algebra::quad::QuadExtension;
use stark_algebra::traits::{exp, FieldElement};

fn elements(values: &[u64]) -> Vec<BaseElement> {
    values.iter().map(|v| BaseElement::new(*v)).collect()
}

#[test]
fn transpose() {
    let values = (0u64..16).map(BaseElement::new).collect::<Vec<_>>();
    let actual = composition_poly::transpose(values, 4);

    let expected = vec![
        vec![BaseElement::new(0), BaseElement::new(4), BaseElement::new(8), BaseElement::new(12)],
        vec![BaseElement::new(1), BaseElement::new(5), BaseElement::new(9), BaseElement::new(13)],
        vec![BaseElement::new(2), BaseElement::new(6), BaseElement::new(10), BaseElement::new(14)],
        vec![BaseElement::new(3), BaseElement::new(7), BaseElement::new(11), BaseElement::new(15)],
    ];

    assert_eq!(expected, actual)
}


#[test]
fn transpose_into_two_columns() {
    let actual = composition_poly::transpose(elements(&[10, 11, 12, 13, 14, 15]), 2);
    assert_eq!(vec![elements(&[10, 12, 14]), elements(&[11, 13, 15])], actual);
}

#[test]
fn transpose_into_one_column() {
    let actual = composition_poly::transpose(elements(&[7, 8, 9]), 1);
    assert_eq!(vec![elements(&[7, 8, 9])], actual);
}

#[test]
fn transpose_of_nothing() {
    let actual = composition_poly::transpose(Vec::<BaseElement>::new(), 3);
    assert_eq!(vec![Vec::<BaseElement>::new(); 3], actual);
}

#[test]
fn composition_poly_accessors() {
    let coefficients = (1u64..=16).map(BaseElement::new).collect::<Vec<_>>();
    let poly = CompositionPoly::new(coefficients, 4);
    assert_eq!(4, poly.num_columns());
    assert_eq!(4, poly.column_len());
    assert_eq!(3, poly.column_degree());
    let columns = poly.into_columns();
    assert_eq!(
        vec![
            elements(&[1, 5, 9, 13]),
            elements(&[2, 6, 10, 14]),
            elements(&[3, 7, 11, 15]),
            elements(&[4, 8, 12, 16]),
        ],
        columns
    );
}

#[test]
fn composition_poly_two_columns() {
    let coefficients = (1u64..=16).map(BaseElement::new).collect::<Vec<_>>();
    let poly = CompositionPoly::new(coefficients, 8);
    assert_eq!(2, poly.num_columns());
    assert_eq!(8, poly.column_len());
    assert_eq!(7, poly.column_degree());
}

#[test]
fn evaluate_at_uses_the_power_of_the_point() {
    let coefficients = (1u64..=16).map(BaseElement::new).collect::<Vec<_>>();
    let poly = CompositionPoly::new(coefficients, 4);
    let actual = poly.evaluate_at(BaseElement::new(2));
    // each column is evaluated at 2^4 = 16
    let expected = (0u64..4)
        .map(|c| BaseElement::new((c + 1) + (c + 5) * 16 + (c + 9) * 256 + (c + 13) * 4096))
        .collect::<Vec<_>>();
    assert_eq!(expected, actual);
}

#[test]
fn evaluate_at_recombines_to_the_polynomial() {
    let coefficients = (0u64..32)
        .map(|i| BaseElement::new(i * i + 3 * i + 1))
        .collect::<Vec<_>>();
    let z = BaseElement::new(123456789);
    let direct = polynom::eval(&coefficients, z);
    let poly = CompositionPoly::new(coefficients, 8);
    let values = poly.evaluate_at(z);
    assert_eq!(4, values.len());
    let mut recombined = BaseElement::zero();
    for (c, value) in values.iter().enumerate() {
        recombined = recombined + z.exp(c as u64) * *value;
    }
    assert_eq!(direct, recombined);
}

#[test]
fn evaluate_at_in_the_quadratic_extension() {
    let coefficients = (1u64..=8)
        .map(|i| QuadExtension::new(BaseElement::new(i), BaseElement::new(2 * i)))
        .collect::<Vec<_>>();
    let z = QuadExtension::new(BaseElement::new(3), BaseElement::new(5));
    let direct = polynom::eval(&coefficients, z);
    let poly = CompositionPoly::new(coefficients, 2);
    let values = poly.evaluate_at(z);
    assert_eq!(4, values.len());
    let mut recombined = QuadExtension::zero();
    for (c, value) in values.iter().enumerate() {
        recombined = recombined + exp(z, c as u64) * *value;
    }
    assert_eq!(direct, recombined);
}

#[test]
fn evaluate_hands_each_column_to_the_extension_in_order() {
    let coefficients = (1u64..=16).map(BaseElement::new).collect::<Vec<_>>();
    let poly = CompositionPoly::new(coefficients, 4);
    let twiddles = elements(&[1, 281474976710656]);
    let domain = StarkDomain::new(twiddles.clone(), BaseElement::new(7), 8);
    assert_eq!(poly.column_len(), domain.trace_length());
    let result = poly.evaluate(
        &domain,
        |column: &[BaseElement], twiddles: &[BaseElement], offset: BaseElement, blowup: usize| {
            let mut out = column.to_vec();
            out.extend_from_slice(twiddles);
            out.push(offset);
            out.push(BaseElement::new(blowup as u64));
            out
        },
    );
    assert_eq!(
        vec![
            elements(&[1, 5, 9, 13, 1, 281474976710656, 7, 8]),
            elements(&[2, 6, 10, 14, 1, 281474976710656, 7, 8]),
            elements(&[3, 7, 11, 15, 1, 281474976710656, 7, 8]),
            elements(&[4, 8, 12, 16, 1, 281474976710656, 7, 8]),
        ],
        result
    );
}

#[test]
fn evaluate_over_a_coset() {
    // the extension evaluates the column at offset * g^i for a root g of order 4 * 2
    let coefficients = (1u64..=8).map(BaseElement::new).collect::<Vec<_>>();
    let poly = CompositionPoly::new(coefficients, 4);
    let domain = StarkDomain::new(elements(&[1, 281474976710656]), BaseElement::new(7), 2);
    let result = poly.evaluate(
        &domain,
        |column: &[BaseElement], _twiddles: &[BaseElement], offset: BaseElement, blowup: usize| {
            let size = column.len() * blowup;
            let g = BaseElement::get_root_of_unity(size.trailing_zeros());
            (0..size)
                .map(|i| polynom::eval(column, offset * g.exp(i as u64)))
                .collect()
        },
    );
    assert_eq!(2, result.len());
    assert_eq!(8, result[0].len());
    // at i = 0 the point is the offset itself
    assert_eq!(BaseElement::new(1 + 3 * 7 + 5 * 49 + 7 * 343), result[0][0]);
    assert_eq!(BaseElement::new(2 + 4 * 7 + 6 * 49 + 8 * 343), result[1][0]);
    // at i = 4 the point is the offset negated
    assert_eq!(
        BaseElement::new(1 + 5 * 49) - BaseElement::new(3 * 7 + 7 * 343),
        result[0][4]
    );
}

#[test]
fn domain_accessors() {
    let domain = StarkDomain::new(elements(&[1, 2, 3, 4]), BaseElement::new(7), 16);
    assert_eq!(8, domain.trace_length());
    assert_eq!(&elements(&[1, 2, 3, 4]), domain.trace_twiddles());
    assert_eq!(BaseElement::new(7), domain.offset());
    assert_eq!(16, domain.trace_to_lde_blowup());
}

#[test]
fn eval_by_horner() {
    // 3 + 2 x + x^2 at x = 5
    assert_eq!(
        BaseElement::new(38),
        polynom::eval(&elements(&[3, 2, 1]), BaseElement::new(5))
    );
    assert_eq!(
        BaseElement::zero(),
        polynom::eval(&Vec::<BaseElement>::new(), BaseElement::new(5))
    );
    assert_eq!(
        BaseElement::new(9),
        polynom::eval(&elements(&[9]), BaseElement::new(5))
    );
}

#[test]
fn degree_of_polynomials() {
    assert_eq!(0, polynom::degree_of(&Vec::<BaseElement>::new()));
    assert_eq!(0, polynom::degree_of(&elements(&[0, 0, 0])));
    assert_eq!(0, polynom::degree_of(&elements(&[5])));
    assert_eq!(2, polynom::degree_of(&elements(&[1, 0, 3])));
    assert_eq!(1, polynom::degree_of(&elements(&[1, 2, 0, 0])));
    // a stored word equal to the modulus denotes zero
    assert_eq!(
        0,
        polynom::degree_of(&[BaseElement(1), BaseElement(18446744069414584321)])
    );
}
