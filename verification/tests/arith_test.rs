use ryde::arith::{
    arith, bit_op, float_request, floor_divide, int_arith, narrowed, negated, Arith, ArithOp,
    BitOp, FloatRequest, Narrow,
};
use ryde::value::VmValue;

fn done(r: Arith) -> VmValue {
    match r {
        Arith::Done(v) => v,
        Arith::Ask(request, _) => panic!("unexpected request {:?}", request),
        Arith::Mismatch => panic!("unexpected mismatch"),
    }
}

fn asked(r: Arith) -> (FloatRequest, Narrow) {
    match r {
        Arith::Ask(request, narrow) => (request, narrow),
        Arith::Done(v) => panic!("unexpected result {:?}", v),
        Arith::Mismatch => panic!("unexpected mismatch"),
    }
}

fn bits(x: f64) -> u64 {
    x.to_bits()
}

#[test]
fn sums_differences_and_products_of_integers() {
    assert_eq!(done(int_arith(ArithOp::Add, 10, 15)), VmValue::Int(25));
    assert_eq!(done(int_arith(ArithOp::Sub, 10, 15)), VmValue::Int(-5));
    assert_eq!(done(int_arith(ArithOp::Mul, -6, 7)), VmValue::Int(-42));
}

#[test]
fn integer_results_go_to_the_nearest_bound() {
    assert_eq!(done(int_arith(ArithOp::Add, i32::MAX, 1)), VmValue::Int(i32::MAX));
    assert_eq!(done(int_arith(ArithOp::Sub, i32::MIN, 1)), VmValue::Int(i32::MIN));
    assert_eq!(done(int_arith(ArithOp::Mul, i32::MAX, i32::MAX)), VmValue::Int(i32::MAX));
    assert_eq!(done(int_arith(ArithOp::Mul, i32::MAX, i32::MIN)), VmValue::Int(i32::MIN));
    assert_eq!(done(int_arith(ArithOp::FloorDiv, i32::MIN, -1)), VmValue::Int(i32::MAX));
    assert_eq!(done(int_arith(ArithOp::Div, i32::MIN, -1)), VmValue::Int(i32::MAX));
}

#[test]
fn integer_arithmetic_agrees_with_doubles() {
    let samples = [0, 1, -1, 2, -2, 3, 7, -7, 100, -100, 65536, i32::MAX, i32::MIN, 46341, -46341];
    for a in samples {
        for b in samples {
            let (x, y) = (a as f64, b as f64);
            assert_eq!(done(int_arith(ArithOp::Add, a, b)), VmValue::Int((x + y) as i32));
            assert_eq!(done(int_arith(ArithOp::Sub, a, b)), VmValue::Int((x - y) as i32));
            assert_eq!(done(int_arith(ArithOp::Mul, a, b)), VmValue::Int((x * y) as i32));
            assert_eq!(
                done(int_arith(ArithOp::FloorDiv, a, b)),
                VmValue::Int(f64::floor(x / y) as i32),
                "{} // {}",
                a,
                b
            );
            let quotient = x / y;
            match int_arith(ArithOp::Div, a, b) {
                Arith::Done(v) => {
                    assert!(quotient.fract() == 0.0, "{} / {}", a, b);
                    assert_eq!(v, VmValue::Int(quotient as i32));
                }
                Arith::Ask(request, narrow) => {
                    assert!(quotient.fract() != 0.0, "{} / {}", a, b);
                    assert_eq!(request, FloatRequest::Div(bits(x), bits(y)));
                    assert_eq!(narrow, Narrow::IfWhole);
                }
                Arith::Mismatch => panic!("integers can be divided"),
            }
            let rest = x % y;
            match int_arith(ArithOp::Rem, a, b) {
                Arith::Done(v) => {
                    assert!(b != 0);
                    assert_eq!(v, VmValue::Int(rest as i32), "{} % {}", a, b);
                }
                Arith::Ask(request, narrow) => {
                    assert_eq!(b, 0);
                    assert_eq!(request, FloatRequest::Rem(bits(x), bits(y)));
                    assert_eq!(narrow, Narrow::IfWhole);
                }
                Arith::Mismatch => panic!("integers have a remainder"),
            }
        }
    }
}

#[test]
fn floored_division_rounds_down() {
    assert_eq!(floor_divide(7, 2), 3);
    assert_eq!(floor_divide(-7, 2), -4);
    assert_eq!(floor_divide(7, -2), -4);
    assert_eq!(floor_divide(-7, -2), 3);
    assert_eq!(floor_divide(6, 3), 2);
    assert_eq!(floor_divide(-6, 3), -2);
    assert_eq!(floor_divide(0, 5), 0);
    assert_eq!(floor_divide(i32::MIN, 1), i32::MIN);
    assert_eq!(floor_divide(i32::MIN, -1), i32::MAX);
    assert_eq!(floor_divide(i32::MAX, -1), -i32::MAX);
}

#[test]
fn floored_division_by_zero() {
    assert_eq!(done(int_arith(ArithOp::FloorDiv, 5, 0)), VmValue::Int(i32::MAX));
    assert_eq!(done(int_arith(ArithOp::FloorDiv, -5, 0)), VmValue::Int(i32::MIN));
    assert_eq!(done(int_arith(ArithOp::FloorDiv, 0, 0)), VmValue::Int(0));
}

#[test]
fn exact_division_is_an_integer_and_any_other_is_asked_for() {
    assert_eq!(done(int_arith(ArithOp::Div, 345, 5)), VmValue::Int(69));
    assert_eq!(done(int_arith(ArithOp::Div, -6, 3)), VmValue::Int(-2));
    assert_eq!(done(int_arith(ArithOp::Div, 0, 3)), VmValue::Int(0));
    assert_eq!(
        asked(int_arith(ArithOp::Div, 7, 2)),
        (FloatRequest::Div(bits(7.0), bits(2.0)), Narrow::IfWhole)
    );
    assert_eq!(
        asked(int_arith(ArithOp::Div, 1, 0)),
        (FloatRequest::Div(bits(1.0), bits(0.0)), Narrow::IfWhole)
    );
}

#[test]
fn remainder_has_the_sign_of_the_dividend() {
    assert_eq!(done(int_arith(ArithOp::Rem, 25, 9)), VmValue::Int(7));
    assert_eq!(done(int_arith(ArithOp::Rem, -25, 9)), VmValue::Int(-7));
    assert_eq!(done(int_arith(ArithOp::Rem, 25, -9)), VmValue::Int(7));
    assert_eq!(done(int_arith(ArithOp::Rem, -25, -9)), VmValue::Int(-7));
    assert_eq!(done(int_arith(ArithOp::Rem, i32::MIN, -1)), VmValue::Int(0));
}

#[test]
fn a_power_of_integers_is_asked_for_as_an_integer_power() {
    assert_eq!(
        asked(int_arith(ArithOp::Pow, 3, 4)),
        (FloatRequest::PowInt(bits(3.0), 4), Narrow::IfWhole)
    );
    assert_eq!(
        asked(int_arith(ArithOp::Pow, 2, -1)),
        (FloatRequest::PowInt(bits(2.0), -1), Narrow::IfWhole)
    );
}

#[test]
fn a_power_is_an_integer_power_where_the_exponent_is_whole() {
    assert_eq!(float_request(ArithOp::Pow, bits(2.5), bits(3.0)), FloatRequest::PowInt(bits(2.5), 3));
    assert_eq!(
        float_request(ArithOp::Pow, bits(2.5), bits(0.5)),
        FloatRequest::PowReal(bits(2.5), bits(0.5))
    );
    assert_eq!(
        float_request(ArithOp::Pow, bits(2.0), bits(1e300)),
        FloatRequest::PowInt(bits(2.0), i32::MAX)
    );
    assert_eq!(float_request(ArithOp::Add, 1, 2), FloatRequest::Add(1, 2));
    assert_eq!(float_request(ArithOp::Sub, 1, 2), FloatRequest::Sub(1, 2));
    assert_eq!(float_request(ArithOp::Mul, 1, 2), FloatRequest::Mul(1, 2));
    assert_eq!(float_request(ArithOp::Div, 1, 2), FloatRequest::Div(1, 2));
    assert_eq!(float_request(ArithOp::FloorDiv, 1, 2), FloatRequest::FloorDiv(1, 2));
    assert_eq!(float_request(ArithOp::Rem, 1, 2), FloatRequest::Rem(1, 2));
}

#[test]
fn a_float_operand_makes_a_request_on_widened_operands() {
    let a = VmValue::Int(1);
    let b = VmValue::Float(bits(0.5));
    assert_eq!(
        asked(arith(ArithOp::Add, &a, &b)),
        (FloatRequest::Add(bits(1.0), bits(0.5)), Narrow::Never)
    );
    assert_eq!(
        asked(arith(ArithOp::Sub, &b, &a)),
        (FloatRequest::Sub(bits(0.5), bits(1.0)), Narrow::Never)
    );
    assert_eq!(
        asked(arith(ArithOp::Mul, &b, &b)),
        (FloatRequest::Mul(bits(0.5), bits(0.5)), Narrow::Never)
    );
    assert_eq!(
        asked(arith(ArithOp::FloorDiv, &a, &b)),
        (FloatRequest::FloorDiv(bits(1.0), bits(0.5)), Narrow::Always)
    );
}

#[test]
fn strings_can_be_added_and_nothing_else() {
    let a = VmValue::String("foo".to_string());
    let b = VmValue::String("bar".to_string());
    assert_eq!(done(arith(ArithOp::Add, &a, &b)), VmValue::String("foobar".to_string()));
    assert!(matches!(arith(ArithOp::Sub, &a, &b), Arith::Mismatch));
    assert!(matches!(arith(ArithOp::Add, &a, &VmValue::Int(1)), Arith::Mismatch));
    assert!(matches!(arith(ArithOp::Add, &VmValue::Null, &VmValue::Int(1)), Arith::Mismatch));
    assert!(matches!(
        arith(ArithOp::Mul, &VmValue::Boolean(true), &VmValue::Boolean(true)),
        Arith::Mismatch
    ));
}

#[test]
fn an_answer_is_narrowed_as_asked() {
    assert_eq!(narrowed(Narrow::Always, bits(3.7)), VmValue::Int(3));
    assert_eq!(narrowed(Narrow::Always, bits(f64::NAN)), VmValue::Int(0));
    assert_eq!(narrowed(Narrow::IfWhole, bits(81.0)), VmValue::Int(81));
    assert_eq!(narrowed(Narrow::IfWhole, bits(3.5)), VmValue::Float(bits(3.5)));
    assert_eq!(narrowed(Narrow::IfWhole, bits(1e300)), VmValue::Int(i32::MAX));
    assert_eq!(narrowed(Narrow::Never, bits(2.0)), VmValue::Float(bits(2.0)));
    match narrowed(Narrow::IfWhole, bits(f64::INFINITY)) {
        VmValue::Float(b) => assert_eq!(b, bits(f64::INFINITY)),
        other => panic!("infinity stays a float, got {:?}", other),
    }
}

#[test]
fn operations_on_bits() {
    assert_eq!(bit_op(BitOp::Xor, 0b1100, 0b1010), 0b0110);
    assert_eq!(bit_op(BitOp::And, 0b1100, 0b1010), 0b1000);
    assert_eq!(bit_op(BitOp::Or, 0b1100, 0b1010), 0b1110);
    assert_eq!(bit_op(BitOp::And, -1, 0x55), 0x55);
    assert_eq!(bit_op(BitOp::ShiftLeft, 1, 4), 16);
    assert_eq!(bit_op(BitOp::ShiftLeft, 1, 31), i32::MIN);
    assert_eq!(bit_op(BitOp::ShiftLeft, -1, 1), -2);
    assert_eq!(bit_op(BitOp::ShiftRight, -1, 28), 0xF);
    assert_eq!(bit_op(BitOp::ShiftRight, 256, 4), 16);
    assert_eq!(bit_op(BitOp::ShiftRightArithmetic, -16, 2), -4);
    assert_eq!(bit_op(BitOp::ShiftRightArithmetic, 16, 2), 4);
    assert_eq!(bit_op(BitOp::ShiftRightArithmetic, -1, 31), -1);
}

#[test]
fn a_shift_goes_by_the_low_five_bits() {
    assert_eq!(bit_op(BitOp::ShiftLeft, 1, 32), 1);
    assert_eq!(bit_op(BitOp::ShiftLeft, 1, 33), 2);
    assert_eq!(bit_op(BitOp::ShiftLeft, 1, -1), i32::MIN);
    assert_eq!(bit_op(BitOp::ShiftRight, -1, 32), -1);
    assert_eq!(bit_op(BitOp::ShiftRightArithmetic, -8, 33), -4);
    for a in [0, 1, -1, 12345, i32::MIN, i32::MAX] {
        for b in [0, 1, 5, 31, 32, 40, -1, -31, i32::MIN] {
            assert_eq!(bit_op(BitOp::ShiftLeft, a, b), a.wrapping_shl(b as u32));
            assert_eq!(bit_op(BitOp::ShiftRightArithmetic, a, b), a.wrapping_shr(b as u32));
            assert_eq!(
                bit_op(BitOp::ShiftRight, a, b),
                (a as u32).wrapping_shr(b as u32) as i32
            );
        }
    }
}

#[test]
fn negation_of_numbers() {
    assert_eq!(negated(&VmValue::Int(5)), Some(VmValue::Int(-5)));
    assert_eq!(negated(&VmValue::Int(i32::MIN)), Some(VmValue::Int(i32::MAX)));
    assert_eq!(negated(&VmValue::Float(bits(1.5))), Some(VmValue::Float(bits(-1.5))));
    match negated(&VmValue::Float(bits(0.0))) {
        Some(VmValue::Float(b)) => assert_eq!(b, bits(-0.0)),
        other => panic!("zero has a negative, got {:?}", other),
    }
    assert_eq!(negated(&VmValue::Null), None);
    assert_eq!(negated(&VmValue::String("1".to_string())), None);
}
