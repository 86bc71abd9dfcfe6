use ark_ff::{One, Zero};
use cw_zk_base::field::{str_to_fq, str_to_fr, Fq, Fr};
use cw_zk_base::ContractError;

#[test]
fn reads_small_numerals() {
    assert_eq!(str_to_fq("0"), Ok(Fq::zero()));
    assert_eq!(str_to_fq("1"), Ok(Fq::one()));
    assert_eq!(str_to_fq("20230508"), Ok(Fq::from(20230508u64)));
    assert_eq!(str_to_fr("0"), Ok(Fr::zero()));
    assert_eq!(str_to_fr("20230508"), Ok(Fr::from(20230508u64)));
    assert_eq!(str_to_fr("18446744073709551616"), Ok(Fr::from(u64::MAX) + Fr::one()));
}

#[test]
fn reads_the_digits_in_order() {
    assert_eq!(str_to_fq("12"), Ok(Fq::from(12u64)));
    assert_eq!(str_to_fq("21"), Ok(Fq::from(21u64)));
    assert_ne!(str_to_fq("12"), str_to_fq("21"));
}

#[test]
fn refuses_what_is_no_canonical_numeral() {
    for s in ["", " ", "-1", "+1", "1 ", " 1", "1a", "0x10", "1.0", "1e3", "00", "01", "007", "1_000"] {
        assert_eq!(str_to_fq(s), Err(ContractError::MalformedScalar), "{:?}", s);
        assert_eq!(str_to_fr(s), Err(ContractError::MalformedScalar), "{:?}", s);
    }
}

#[test]
fn refuses_digits_outside_ascii() {
    // Arabic-Indic and full-width digits.
    assert_eq!(str_to_fq("\u{0661}\u{0662}"), Err(ContractError::MalformedScalar));
    assert_eq!(str_to_fr("\u{ff11}"), Err(ContractError::MalformedScalar));
}

#[test]
fn reduces_modulo_the_characteristic() {
    assert_eq!(str_to_fq("21888242871839275222246405745257275088696311157297823662689037894645226208583"), Ok(Fq::zero()));
    assert_eq!(str_to_fq("21888242871839275222246405745257275088696311157297823662689037894645226208584"), Ok(Fq::one()));
    assert_eq!(str_to_fr("21888242871839275222246405745257275088548364400416034343698204186575808495617"), Ok(Fr::zero()));
    assert_eq!(str_to_fr("21888242871839275222246405745257275088548364400416034343698204186575808495622"), Ok(Fr::from(5u64)));
    // The two fields differ: the order of the group is below the base field's size.
    assert_ne!(str_to_fq("21888242871839275222246405745257275088548364400416034343698204186575808495617"), Ok(Fq::zero()));
}

#[test]
fn the_largest_element_is_minus_one() {
    let q_minus_one = "21888242871839275222246405745257275088696311157297823662689037894645226208582";
    assert_eq!(str_to_fq(q_minus_one), Ok(-Fq::one()));
    let r_minus_one = "21888242871839275222246405745257275088548364400416034343698204186575808495616";
    assert_eq!(str_to_fr(r_minus_one), Ok(-Fr::one()));
}
