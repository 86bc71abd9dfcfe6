use ark_ff::{One, Zero};
use cw_zk_base::curve::{G1Point, G2Point};
use cw_zk_base::field::Fq;

fn strings(items: &[&str]) -> Vec<String> {
    items.iter().map(|s| s.to_string()).collect()
}

fn rows(items: &[[&str; 2]]) -> Vec<Vec<String>> {
    items.iter().map(|r| strings(r)).collect()
}

/// The generator of the second group.
fn g2_generator() -> Vec<Vec<String>> {
    rows(&[
        [
            "10857046999023057135944570762232829481370756359578518086990519993285655852781",
            "11559732032986387107991004021392285783925812861821192530917403151452391805634",
        ],
        [
            "8495653923123431417604973247489272438418190587263600148770280649306958101930",
            "4082367875863433681332203403145435568316851327593401208105741076214120093531",
        ],
        ["1", "0"],
    ])
}

#[test]
fn g1_generator_is_a_point() {
    let p = G1Point::from_decimals(&strings(&["1", "2", "1"])).unwrap();
    assert_eq!(p.x(), Fq::from(1u64));
    assert_eq!(p.y(), Fq::from(2u64));
    assert!(!p.is_infinity());
}

#[test]
fn g1_off_curve_is_refused() {
    assert_eq!(G1Point::from_decimals(&strings(&["1", "3", "1"])), None);
    assert_eq!(G1Point::from_decimals(&strings(&["2", "2", "1"])), None);
    assert_eq!(G1Point::from_decimals(&strings(&["0", "0", "1"])), None);
}

#[test]
fn g1_wrong_arity_is_refused() {
    assert_eq!(G1Point::from_decimals(&strings(&[])), None);
    assert_eq!(G1Point::from_decimals(&strings(&["1"])), None);
    assert_eq!(G1Point::from_decimals(&strings(&["1", "2"])), None);
    assert_eq!(G1Point::from_decimals(&strings(&["1", "2", "1", "1"])), None);
}

#[test]
fn g1_malformed_coordinate_is_refused() {
    assert_eq!(G1Point::from_decimals(&strings(&["", "2", "1"])), None);
    assert_eq!(G1Point::from_decimals(&strings(&["1", "02", "1"])), None);
    assert_eq!(G1Point::from_decimals(&strings(&["1", "2", "one"])), None);
    assert_eq!(G1Point::from_decimals(&strings(&["1", "-2", "1"])), None);
}

#[test]
fn g1_jacobian_coordinates_are_scaled() {
    // (x z^2, y z^3, z) for the generator and z = 2, then z = 3.
    let g = G1Point::from_decimals(&strings(&["1", "2", "1"])).unwrap();
    assert_eq!(G1Point::from_decimals(&strings(&["4", "16", "2"])), Some(g));
    assert_eq!(G1Point::from_decimals(&strings(&["9", "54", "3"])), Some(g));
    // Unscaled, the same numbers are off the curve.
    assert_eq!(G1Point::from_decimals(&strings(&["4", "16", "1"])), None);
}

#[test]
fn g1_jacobian_coordinates_of_a_large_point() {
    let p = G1Point::from_decimals(&strings(&[
        "10790229354238485995259007140184402736831034823895504677226454846853814410804",
        "2383713376090953621476309898250828962348576388683527374249273362257826134660",
        "1",
    ]));
    assert!(p.is_some());
    assert_eq!(G1Point::from_decimals(&strings(&["21272674545114668758789622815480335858627828138284195046216781492770031434633", "19069707008727628971810479186006631698788611109468218993994186898062609077280", "2"])), p);
}

#[test]
fn g1_negative_of_the_generator() {
    let minus_two = "21888242871839275222246405745257275088696311157297823662689037894645226208581";
    let p = G1Point::from_decimals(&strings(&["1", minus_two, "1"])).unwrap();
    assert_eq!(p.y(), -Fq::from(2u64));
}

#[test]
fn g1_zero_z_is_the_point_at_infinity() {
    let p = G1Point::from_decimals(&strings(&["1", "2", "0"])).unwrap();
    assert!(p.is_infinity());
    assert_eq!(p.x(), Fq::zero());
    assert_eq!(p.y(), Fq::one());
    assert_eq!(G1Point::from_decimals(&strings(&["0", "1", "0"])), Some(p));
}

#[test]
fn g1_coordinates_are_residues() {
    // The characteristic plus one, and plus two.
    let g = G1Point::from_decimals(&strings(&["1", "2", "1"])).unwrap();
    let x = "21888242871839275222246405745257275088696311157297823662689037894645226208584";
    let y = "21888242871839275222246405745257275088696311157297823662689037894645226208585";
    assert_eq!(G1Point::from_decimals(&strings(&[x, y, "1"])), Some(g));
}

#[test]
fn g2_generator_is_a_point() {
    let p = G2Point::from_decimals(&g2_generator()).unwrap();
    assert!(!p.is_infinity());
    assert_eq!(
        p.x().0,
        "10857046999023057135944570762232829481370756359578518086990519993285655852781"
            .parse::<Fq>()
            .unwrap()
    );
    assert_eq!(
        p.y().1,
        "4082367875863433681332203403145435568316851327593401208105741076214120093531"
            .parse::<Fq>()
            .unwrap()
    );
}

#[test]
fn g2_coefficients_are_not_interchangeable() {
    let mut swapped = g2_generator();
    swapped[0].swap(0, 1);
    assert_eq!(G2Point::from_decimals(&swapped), None);
    let mut swapped = g2_generator();
    swapped.swap(0, 1);
    assert_eq!(G2Point::from_decimals(&swapped), None);
}

#[test]
fn g2_off_curve_is_refused() {
    assert_eq!(G2Point::from_decimals(&rows(&[["1", "0"], ["2", "0"], ["1", "0"]])), None);
    let mut moved = g2_generator();
    moved[1][0] = "8495653923123431417604973247489272438418190587263600148770280649306958101931"
        .to_string();
    assert_eq!(G2Point::from_decimals(&moved), None);
}

#[test]
fn g2_outside_the_subgroup_is_refused() {
    // On the twist, but of an order that the group's order does not annihilate.
    assert_eq!(G2Point::from_decimals(&rows(&[["2", "1"], ["7292567877523311580221095596750716176434782432868683424513645834767876293070", "19659275751359636165940301690575149581329631496732780143538578556285923319774"], ["1", "0"]])), None);
}

#[test]
fn g2_wrong_arity_is_refused() {
    let g = g2_generator();
    assert_eq!(G2Point::from_decimals(&g[..2].to_vec()), None);
    let mut four = g.clone();
    four.push(strings(&["1", "0"]));
    assert_eq!(G2Point::from_decimals(&four), None);
    let mut short = g.clone();
    short[2] = strings(&["1"]);
    assert_eq!(G2Point::from_decimals(&short), None);
    let mut long = g.clone();
    long[0].push("0".to_string());
    assert_eq!(G2Point::from_decimals(&long), None);
    assert_eq!(G2Point::from_decimals(&Vec::new()), None);
}

#[test]
fn g2_malformed_coordinate_is_refused() {
    let mut g = g2_generator();
    g[1][1] = "0x1".to_string();
    assert_eq!(G2Point::from_decimals(&g), None);
}

#[test]
fn g2_jacobian_coordinates_are_scaled() {
    // z = 2: x is multiplied by 4 and y by 8, coefficient by coefficient.
    let g = G2Point::from_decimals(&g2_generator()).unwrap();
    let scaled = rows(&[
        [
            "43428187996092228543778283048931317925483025438314072347962079973142623411124",
            "46238928131945548431964016085569143135703251447284770123669612605809567222536",
        ],
        [
            "67965231384987451340839785979914179507345524698108801190162245194455664815440",
            "32658943006907469450657627225163484546534810620747209664845928609712960748248",
        ],
        ["2", "0"],
    ]);
    assert_eq!(G2Point::from_decimals(&scaled), Some(g));
}

#[test]
fn g2_jacobian_coordinates_with_an_imaginary_z() {
    // z = u: z^2 = -1 and z^3 = -u, so x -> -x and y -> -u y = (y1, -y0).
    let g = G2Point::from_decimals(&g2_generator()).unwrap();
    let scaled = rows(&[
        [
            "11031195872816218086301834983024445607325554797719305575698517901359570355802",
            "10328510838852888114255401723864989304770498295476631131771634743192834402949",
        ],
        [
            "4082367875863433681332203403145435568316851327593401208105741076214120093531",
            "13392588948715843804641432497768002650278120570034223513918757245338268106653",
        ],
        ["0", "1"],
    ]);
    assert_eq!(G2Point::from_decimals(&scaled), Some(g));
}

#[test]
fn g2_zero_z_is_the_point_at_infinity() {
    let p = G2Point::from_decimals(&rows(&[["1", "2"], ["3", "4"], ["0", "0"]])).unwrap();
    assert!(p.is_infinity());
    assert_eq!(p.x(), (Fq::zero(), Fq::zero()));
    assert_eq!(p.y(), (Fq::one(), Fq::zero()));
}
