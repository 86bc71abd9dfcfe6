//! The two source groups of the BN254 pairing and how their points are read from text.
//!
//! A point comes off the wire as Jacobian coordinates `(X, Y, Z)`, each a numeral (in
//! `G2` a pair of numerals, an element of the quadratic extension). It is brought to
//! affine form and kept only if it lies on its curve and in the subgroup of prime
//! order: a [`G1Point`] or a [`G2Point`] that exists is a group element.
//!
//! The arithmetic is that of `ark-ec`. The models below say in integers what it
//! computes, where a few lines can say it.

use vstd::prelude::*;
use vstd::arithmetic::power::pow;
use crate::decimal::is_decimal;
use crate::field::{fq_from_str, fq_modulus, fq_of_decimal, fq_value, Fq};

verus! {

/// An element `c0 + c1 * u` of the quadratic extension of the base field, `u^2 = -1`.
pub struct Fq2Model {
    pub c0: nat,
    pub c1: nat,
}

/// A point of the curve `y^2 = x^3 + 3` over the base field, or the point at infinity.
pub struct G1Model {
    pub x: nat,
    pub y: nat,
    pub infinity: bool,
}

/// A point of the twist `y^2 = x^3 + 3 / (9 + u)` over the quadratic extension, or the
/// point at infinity.
pub struct G2Model {
    pub x: Fq2Model,
    pub y: Fq2Model,
    pub infinity: bool,
}

/// Sum in the base field.
pub open spec fn fq_add(a: nat, b: nat) -> nat {
    (a + b) % fq_modulus()
}

/// Product in the base field.
pub open spec fn fq_mul(a: nat, b: nat) -> nat {
    (a * b) % fq_modulus()
}

/// Additive inverse in the base field.
pub open spec fn fq_neg(a: nat) -> nat {
    ((fq_modulus() - a % fq_modulus()) % (fq_modulus() as int)) as nat
}

/// Multiplicative inverse in the base field, by Fermat: the characteristic is prime.
pub open spec fn fq_inv(a: nat) -> nat {
    (pow(a as int, (fq_modulus() - 2) as nat) % (fq_modulus() as int)) as nat
}

/// Sum in the quadratic extension.
pub open spec fn fq2_add(a: Fq2Model, b: Fq2Model) -> Fq2Model {
    Fq2Model { c0: fq_add(a.c0, b.c0), c1: fq_add(a.c1, b.c1) }
}

/// Product in the quadratic extension: `(a0 + a1 u)(b0 + b1 u)` with `u^2 = -1`.
pub open spec fn fq2_mul(a: Fq2Model, b: Fq2Model) -> Fq2Model {
    Fq2Model {
        c0: fq_add(fq_mul(a.c0, b.c0), fq_neg(fq_mul(a.c1, b.c1))),
        c1: fq_add(fq_mul(a.c0, b.c1), fq_mul(a.c1, b.c0)),
    }
}

/// Multiplicative inverse in the quadratic extension: the conjugate over the norm.
pub open spec fn fq2_inv(a: Fq2Model) -> Fq2Model {
    let n = fq_inv(fq_add(fq_mul(a.c0, a.c0), fq_mul(a.c1, a.c1)));
    Fq2Model { c0: fq_mul(a.c0, n), c1: fq_neg(fq_mul(a.c1, n)) }
}

/// The constant term of the twist, `3 / (9 + u)`.
pub open spec fn g2_coeff_b() -> Fq2Model {
    Fq2Model {
        c0: 19485874751759354771024239261021720505790618469301721065564631296452457478373nat,
        c1: 266929791119991161246907387137283842545076965332900288569378510910307636690nat,
    }
}

/// The affine point that the Jacobian triple stands for: `(X / Z^2, Y / Z^3)`, and
/// the point at infinity where `Z` is zero.
pub open spec fn g1_affine_of_jacobian(x: nat, y: nat, z: nat) -> G1Model {
    if z == 0 {
        G1Model { x: 0, y: 1, infinity: true }
    } else {
        let zi = fq_inv(z);
        let zi2 = fq_mul(zi, zi);
        G1Model { x: fq_mul(x, zi2), y: fq_mul(y, fq_mul(zi2, zi)), infinity: false }
    }
}

/// As [`g1_affine_of_jacobian`], over the quadratic extension.
pub open spec fn g2_affine_of_jacobian(x: Fq2Model, y: Fq2Model, z: Fq2Model) -> G2Model {
    if z.c0 == 0 && z.c1 == 0 {
        G2Model {
            x: Fq2Model { c0: 0, c1: 0 },
            y: Fq2Model { c0: 1, c1: 0 },
            infinity: true,
        }
    } else {
        let zi = fq2_inv(z);
        let zi2 = fq2_mul(zi, zi);
        G2Model { x: fq2_mul(x, zi2), y: fq2_mul(y, fq2_mul(zi2, zi)), infinity: false }
    }
}

/// The curve equation of the first group. The point at infinity counts as on it.
pub open spec fn g1_on_curve(p: G1Model) -> bool {
    p.infinity || fq_mul(p.y, p.y) == fq_add(fq_mul(fq_mul(p.x, p.x), p.x), 3)
}

/// The curve equation of the second group. The point at infinity counts as on it.
pub open spec fn g2_on_curve(p: G2Model) -> bool {
    p.infinity || fq2_mul(p.y, p.y) == fq2_add(fq2_mul(fq2_mul(p.x, p.x), p.x), g2_coeff_b())
}

/// Whether the order of the scalar field times `p` is the point at infinity, in the
/// first group.
pub uninterp spec fn g1_in_prime_subgroup(p: G1Model) -> bool;

/// Whether the order of the scalar field times `p` is the point at infinity, in the
/// second group.
pub uninterp spec fn g2_in_prime_subgroup(p: G2Model) -> bool;

/// `p` is an element of the first source group.
pub open spec fn g1_is_valid(p: G1Model) -> bool {
    g1_on_curve(p) && g1_in_prime_subgroup(p)
}

/// `p` is an element of the second source group.
pub open spec fn g2_is_valid(p: G2Model) -> bool {
    g2_on_curve(p) && g2_in_prime_subgroup(p)
}

/// The point with the given affine coordinates.
pub open spec fn g1_model(x: Fq, y: Fq, infinity: bool) -> G1Model {
    G1Model { x: fq_value(x), y: fq_value(y), infinity }
}

/// The extension-field element with the given coefficients.
pub open spec fn fq2_model(c: (Fq, Fq)) -> Fq2Model {
    Fq2Model { c0: fq_value(c.0), c1: fq_value(c.1) }
}

/// The point with the given affine coordinates.
pub open spec fn g2_model(x: (Fq, Fq), y: (Fq, Fq), infinity: bool) -> G2Model {
    G2Model { x: fq2_model(x), y: fq2_model(y), infinity }
}

/// The element of the first group that three numerals denote, if they denote one.
#[verifier::opaque]
pub open spec fn decode_g1(coords: Seq<Seq<char>>) -> Option<G1Model> {
    if coords.len() == 3 && is_decimal(coords[0]) && is_decimal(coords[1]) && is_decimal(
        coords[2],
    ) {
        let p = g1_affine_of_jacobian(
            fq_of_decimal(coords[0]),
            fq_of_decimal(coords[1]),
            fq_of_decimal(coords[2]),
        );
        if g1_is_valid(p) {
            Some(p)
        } else {
            None
        }
    } else {
        None
    }
}

/// A pair of numerals, as the wire format writes an element of the extension.
pub open spec fn is_decimal_pair(c: Seq<Seq<char>>) -> bool {
    c.len() == 2 && is_decimal(c[0]) && is_decimal(c[1])
}

/// The extension-field element that a pair of numerals denotes.
pub open spec fn fq2_of_decimals(c: Seq<Seq<char>>) -> Fq2Model {
    Fq2Model { c0: fq_of_decimal(c[0]), c1: fq_of_decimal(c[1]) }
}

/// The element of the second group that three pairs of numerals denote, if they
/// denote one.
#[verifier::opaque]
pub open spec fn decode_g2(coords: Seq<Seq<Seq<char>>>) -> Option<G2Model> {
    if coords.len() == 3 && is_decimal_pair(coords[0]) && is_decimal_pair(coords[1])
        && is_decimal_pair(coords[2]) {
        let p = g2_affine_of_jacobian(
            fq2_of_decimals(coords[0]),
            fq2_of_decimals(coords[1]),
            fq2_of_decimals(coords[2]),
        );
        if g2_is_valid(p) {
            Some(p)
        } else {
            None
        }
    } else {
        None
    }
}

/// An array of another arity than three denotes no point of the first group.
pub proof fn lemma_g1_arity(coords: Seq<Seq<char>>)
    requires
        coords.len() != 3,
    ensures
        decode_g1(coords) is None,
{
    reveal(decode_g1);
}

/// An array of another arity than three by two denotes no point of the second group.
pub proof fn lemma_g2_arity(coords: Seq<Seq<Seq<char>>>)
    requires
        coords.len() != 3 || exists|i: int| 0 <= i < 3 && coords[i].len() != 2,
    ensures
        decode_g2(coords) is None,
{
    reveal(decode_g2);
}

/// What an array denotes is an element of its group: on the curve, and of prime order.
pub proof fn lemma_decoded_points_are_group_elements(
    g1: Seq<Seq<char>>,
    g2: Seq<Seq<Seq<char>>>,
)
    ensures
        decode_g1(g1) matches Some(p) ==> g1_is_valid(p),
        decode_g2(g2) matches Some(p) ==> g2_is_valid(p),
{
    reveal(decode_g1);
    reveal(decode_g2);
}

/// `G1Projective::new` of ark-bn254 and the conversion `G1Affine::from` of ark-ec.
/// Believed, not proved: the conversion yields the fixed representation of the point at
/// infinity where `z` is zero, and otherwise `x / z^2` and `y / z^3`, inverting `z` in
/// the field.
#[verifier::external_body]
fn g1_affine_from_jacobian(x: Fq, y: Fq, z: Fq) -> (r: (Fq, Fq, bool))
    ensures
        g1_model(r.0, r.1, r.2) == g1_affine_of_jacobian(
            fq_value(x),
            fq_value(y),
            fq_value(z),
        ),
{
    let p = ark_bn254::G1Affine::from(ark_bn254::G1Projective::new(x, y, z));
    (p.x, p.y, p.infinity)
}

/// `G2Projective::new` of ark-bn254 and the conversion `G2Affine::from` of ark-ec.
/// Believed, not proved: as [`g1_affine_from_jacobian`], in the quadratic extension.
#[verifier::external_body]
fn g2_affine_from_jacobian(x: (Fq, Fq), y: (Fq, Fq), z: (Fq, Fq)) -> (r: (
    (Fq, Fq),
    (Fq, Fq),
    bool,
))
    ensures
        g2_model(r.0, r.1, r.2) == g2_affine_of_jacobian(
            fq2_model(x),
            fq2_model(y),
            fq2_model(z),
        ),
{
    let p = ark_bn254::G2Affine::from(
        ark_bn254::G2Projective::new(
            ark_bn254::Fq2::new(x.0, x.1),
            ark_bn254::Fq2::new(y.0, y.1),
            ark_bn254::Fq2::new(z.0, z.1),
        ),
    );
    ((p.x.c0, p.x.c1), (p.y.c0, p.y.c1), p.infinity)
}

/// `GroupAffine::is_on_curve` of ark-ec, at the first group. Believed, not proved: it
/// is true of the point at infinity and otherwise compares `y^2` with `x^3 + 3` in the
/// field.
#[verifier::external_body]
fn g1_is_on_curve(x: Fq, y: Fq, infinity: bool) -> (r: bool)
    ensures
        r == g1_on_curve(g1_model(x, y, infinity)),
{
    ark_bn254::G1Affine::new(x, y, infinity).is_on_curve()
}

/// `GroupAffine::is_in_correct_subgroup_assuming_on_curve` of ark-ec, at the first
/// group: the scalar multiple named by [`g1_in_prime_subgroup`].
#[verifier::external_body]
fn g1_is_in_prime_subgroup(x: Fq, y: Fq, infinity: bool) -> (r: bool)
    requires
        g1_on_curve(g1_model(x, y, infinity)),
    ensures
        r == g1_in_prime_subgroup(g1_model(x, y, infinity)),
{
    ark_bn254::G1Affine::new(x, y, infinity).is_in_correct_subgroup_assuming_on_curve()
}

/// `GroupAffine::is_on_curve` of ark-ec, at the second group. Believed, not proved: it
/// is true of the point at infinity and otherwise compares `y^2` with `x^3 + b` in the
/// quadratic extension, `b` the twist's constant term.
#[verifier::external_body]
fn g2_is_on_curve(x: (Fq, Fq), y: (Fq, Fq), infinity: bool) -> (r: bool)
    ensures
        r == g2_on_curve(g2_model(x, y, infinity)),
{
    ark_bn254::G2Affine::new(
        ark_bn254::Fq2::new(x.0, x.1),
        ark_bn254::Fq2::new(y.0, y.1),
        infinity,
    ).is_on_curve()
}

/// `GroupAffine::is_in_correct_subgroup_assuming_on_curve` of ark-ec, at the second
/// group: the scalar multiple named by [`g2_in_prime_subgroup`].
#[verifier::external_body]
fn g2_is_in_prime_subgroup(x: (Fq, Fq), y: (Fq, Fq), infinity: bool) -> (r: bool)
    requires
        g2_on_curve(g2_model(x, y, infinity)),
    ensures
        r == g2_in_prime_subgroup(g2_model(x, y, infinity)),
{
    ark_bn254::G2Affine::new(
        ark_bn254::Fq2::new(x.0, x.1),
        ark_bn254::Fq2::new(y.0, y.1),
        infinity,
    ).is_in_correct_subgroup_assuming_on_curve()
}

/// An element of the first source group, in affine coordinates.
#[derive(Clone, Copy, Debug, PartialEq, Eq)]
pub struct G1Point {
    pub(crate) x: Fq,
    pub(crate) y: Fq,
    pub(crate) infinity: bool,
}

impl View for G1Point {
    type V = G1Model;

    closed spec fn view(&self) -> G1Model {
        g1_model(self.x, self.y, self.infinity)
    }
}

impl G1Point {
    /// The first affine coordinate.
    pub fn x(&self) -> (r: Fq)
        ensures
            fq_value(r) == self@.x,
    {
        self.x
    }

    /// The second affine coordinate.
    pub fn y(&self) -> (r: Fq)
        ensures
            fq_value(r) == self@.y,
    {
        self.y
    }

    /// Whether this is the point at infinity, the neutral element.
    pub fn is_infinity(&self) -> (r: bool)
        ensures
            r == self@.infinity,
    {
        self.infinity
    }

    #[verifier::type_invariant]
    pub open spec fn is_group_element(self) -> bool {
        g1_is_valid(self@)
    }

    /// Reads a point from its three Jacobian coordinates, each a numeral.
    ///
    /// `None` where the arity is not three, a coordinate is no canonical numeral, or
    /// the point is off the curve or outside the subgroup of prime order.
    pub fn from_decimals(coords: &Vec<String>) -> (r: Option<G1Point>)
        ensures
            r matches Some(p) ==> decode_g1(coords.deep_view()) == Some(p@),
            r is None ==> decode_g1(coords.deep_view()) is None,
    {
        reveal(decode_g1);
        if coords.len() != 3 {
            return None;
        }
        assert(coords.deep_view()[0] == coords[0]@);
        assert(coords.deep_view()[1] == coords[1]@);
        assert(coords.deep_view()[2] == coords[2]@);
        let x = match fq_from_str(coords[0].as_str()) {
            Ok(f) => f,
            Err(_) => {
                return None;
            },
        };
        let y = match fq_from_str(coords[1].as_str()) {
            Ok(f) => f,
            Err(_) => {
                return None;
            },
        };
        let z = match fq_from_str(coords[2].as_str()) {
            Ok(f) => f,
            Err(_) => {
                return None;
            },
        };
        let (ax, ay, infinity) = g1_affine_from_jacobian(x, y, z);
        if g1_is_on_curve(ax, ay, infinity) && g1_is_in_prime_subgroup(ax, ay, infinity) {
            Some(G1Point { x: ax, y: ay, infinity })
        } else {
            None
        }
    }
}

/// An element of the second source group, in affine coordinates over the quadratic
/// extension.
#[derive(Clone, Copy, Debug, PartialEq, Eq)]
pub struct G2Point {
    pub(crate) x: (Fq, Fq),
    pub(crate) y: (Fq, Fq),
    pub(crate) infinity: bool,
}

impl View for G2Point {
    type V = G2Model;

    closed spec fn view(&self) -> G2Model {
        g2_model(self.x, self.y, self.infinity)
    }
}

/// Reads an element of the quadratic extension from a pair of numerals.
fn fq2_from_decimals(c: &Vec<String>) -> (r: Option<(Fq, Fq)>)
    ensures
        r is Some <==> is_decimal_pair(c.deep_view()),
        r matches Some(e) ==> fq2_model(e) == fq2_of_decimals(c.deep_view()),
{
    if c.len() != 2 {
        return None;
    }
    assert(c.deep_view()[0] == c[0]@);
    assert(c.deep_view()[1] == c[1]@);
    match fq_from_str(c[0].as_str()) {
        Ok(c0) => match fq_from_str(c[1].as_str()) {
            Ok(c1) => Some((c0, c1)),
            Err(_) => None,
        },
        Err(_) => None,
    }
}

impl G2Point {
    /// The first affine coordinate, as its two coefficients.
    pub fn x(&self) -> (r: (Fq, Fq))
        ensures
            fq2_model(r) == self@.x,
    {
        self.x
    }

    /// The second affine coordinate, as its two coefficients.
    pub fn y(&self) -> (r: (Fq, Fq))
        ensures
            fq2_model(r) == self@.y,
    {
        self.y
    }

    /// Whether this is the point at infinity, the neutral element.
    pub fn is_infinity(&self) -> (r: bool)
        ensures
            r == self@.infinity,
    {
        self.infinity
    }

    #[verifier::type_invariant]
    pub open spec fn is_group_element(self) -> bool {
        g2_is_valid(self@)
    }

    /// Reads a point from its three Jacobian coordinates, each a pair of numerals.
    ///
    /// `None` where the arity is not three by two, a coordinate is no canonical
    /// numeral, or the point is off the curve or outside the subgroup of prime order.
    pub fn from_decimals(coords: &Vec<Vec<String>>) -> (r: Option<G2Point>)
        ensures
            r matches Some(p) ==> decode_g2(coords.deep_view()) == Some(p@),
            r is None ==> decode_g2(coords.deep_view()) is None,
    {
        reveal(decode_g2);
        if coords.len() != 3 {
            return None;
        }
        assert(coords.deep_view()[0] == coords[0].deep_view());
        assert(coords.deep_view()[1] == coords[1].deep_view());
        assert(coords.deep_view()[2] == coords[2].deep_view());
        let x = match fq2_from_decimals(&coords[0]) {
            Some(e) => e,
            None => {
                return None;
            },
        };
        let y = match fq2_from_decimals(&coords[1]) {
            Some(e) => e,
            None => {
                return None;
            },
        };
        let z = match fq2_from_decimals(&coords[2]) {
            Some(e) => e,
            None => {
                return None;
            },
        };
        let (ax, ay, infinity) = g2_affine_from_jacobian(x, y, z);
        if g2_is_on_curve(ax, ay, infinity) && g2_is_in_prime_subgroup(ax, ay, infinity) {
            Some(G2Point { x: ax, y: ay, infinity })
        } else {
            None
        }
    }
}

} // verus!
