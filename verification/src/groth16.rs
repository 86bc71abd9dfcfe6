//! The verifying key, the proof, the public inputs, and the pairing check that decides.
//!
//! The check itself is `ark-groth16`'s. This module decodes what goes into it, hands it
//! over, and says what comes back.

use vstd::prelude::*;
use ark_relations::r1cs::SynthesisError;
use crate::curve::{decode_g1, decode_g2, G1Model, G1Point, G2Model, G2Point};
use crate::decimal::is_decimal;
use crate::error::ContractError;
use crate::field::{fr_from_str, fr_of_decimal, fr_value, Fq, Fr};

verus! {

/// `SynthesisError` of ark-relations, the error of `ark-groth16`, with its variants.
#[verifier::external_type_specification]
pub struct ExSynthesisError(SynthesisError);

/// `serde_json::Error`. Nothing is said of what it holds.
#[verifier::external_type_specification]
#[verifier::external_body]
pub struct ExJsonError(serde_json::Error);

/// A Groth16 proof as three group elements.
pub struct ProofModel {
    pub a: G1Model,
    pub b: G2Model,
    pub c: G1Model,
}

/// A Groth16 verifying key as group elements. `basis` is the commitment basis of the
/// public inputs; its first element belongs to the constant input 1.
pub struct KeyModel {
    pub alpha: G1Model,
    pub beta: G2Model,
    pub gamma: G2Model,
    pub delta: G2Model,
    pub basis: Seq<G1Model>,
}

/// The verdict of the pairing equation
/// `e(a, b) = e(alpha, beta) * e(L, gamma) * e(c, delta)`, where
/// `L = basis[0] + sum of inputs[i] * basis[i + 1]`, for a key whose basis has one
/// element more than there are inputs. `None` where the product of the three Miller
/// loops has no final exponentiation.
pub uninterp spec fn groth16_outcome(key: KeyModel, proof: ProofModel, inputs: Seq<nat>) -> Option<
    bool,
>;

/// The key that a prepared key was derived from.
pub uninterp spec fn prepared_key_model(pvk: PreparedVerifyingKey) -> KeyModel;

/// The array of strings that a JSON text holds, if it holds one.
pub uninterp spec fn json_string_array(text: Seq<char>) -> Option<Seq<Seq<char>>>;

/// The values of a vector of scalars.
pub open spec fn fr_values(s: Seq<Fr>) -> Seq<nat> {
    s.map_values(|f: Fr| fr_value(f))
}

/// The models of a vector of points.
pub open spec fn g1_models(s: Seq<G1Point>) -> Seq<G1Model> {
    s.map_values(|p: G1Point| p@)
}

/// The verifying key that the five coordinate arrays of a key document denote, if
/// every one of them denotes a group element.
pub open spec fn decode_key(
    ic: Seq<Seq<Seq<char>>>,
    alpha: Seq<Seq<char>>,
    beta: Seq<Seq<Seq<char>>>,
    gamma: Seq<Seq<Seq<char>>>,
    delta: Seq<Seq<Seq<char>>>,
) -> Option<KeyModel> {
    if decode_g1(alpha) is Some && decode_g2(beta) is Some && decode_g2(gamma) is Some
        && decode_g2(delta) is Some && (forall|i: int|
        0 <= i < ic.len() ==> (#[trigger] decode_g1(ic[i])) is Some) {
        Some(
            KeyModel {
                alpha: decode_g1(alpha)->0,
                beta: decode_g2(beta)->0,
                gamma: decode_g2(gamma)->0,
                delta: decode_g2(delta)->0,
                basis: Seq::new(ic.len(), |i: int| decode_g1(ic[i])->0),
            },
        )
    } else {
        None
    }
}

/// What `ark-groth16` answers for a key with a basis of `basis_len` elements and
/// `inputs_len` inputs, given the verdict of the pairing equation.
pub open spec fn groth16_result(basis_len: nat, inputs_len: nat, outcome: Option<bool>) -> Result<
    bool,
    SynthesisError,
> {
    if inputs_len + 1 != basis_len {
        Err(SynthesisError::MalformedVerifyingKey)
    } else {
        match outcome {
            Some(b) => Ok(b),
            None => Err(SynthesisError::UnexpectedIdentity),
        }
    }
}

/// What verification answers for a decoded key, a proof and inputs.
pub open spec fn verify_outcome(key: Option<KeyModel>, proof: ProofModel, inputs: Seq<nat>) -> Result<
    bool,
    ContractError,
> {
    match key {
        None => Err(ContractError::MalformedVerifyingKey),
        Some(k) => {
            if inputs.len() + 1 != k.basis.len() {
                Err(ContractError::MalformedVerifyingKey)
            } else {
                match groth16_outcome(k, proof, inputs) {
                    Some(b) => Ok(b),
                    None => Err(ContractError::PairingUndefined),
                }
            }
        },
    }
}

/// Verification is a function of what it is given: for the same key, the same proof
/// and the same inputs the answer is the same.
pub proof fn lemma_verify_outcome_is_a_function(
    key1: Option<KeyModel>,
    proof1: ProofModel,
    inputs1: Seq<nat>,
    key2: Option<KeyModel>,
    proof2: ProofModel,
    inputs2: Seq<nat>,
)
    requires
        key1 == key2,
        proof1 == proof2,
        inputs1 =~= inputs2,
    ensures
        verify_outcome(key1, proof1, inputs1) == verify_outcome(key2, proof2, inputs2),
{
}

/// A key whose basis does not have one element more than there are inputs verifies
/// nothing: the answer is an error, never `false`.
pub proof fn lemma_basis_must_fit(key: KeyModel, presented: ProofModel, inputs: Seq<nat>)
    requires
        inputs.len() + 1 != key.basis.len(),
    ensures
        verify_outcome(Some(key), presented, inputs) == Err::<bool, ContractError>(
            ContractError::MalformedVerifyingKey,
        ),
{
}

/// A proof: `a` and `c` in the first group, `b` in the second.
#[derive(Clone, Copy, Debug, PartialEq, Eq)]
pub struct Proof {
    pub(crate) a: G1Point,
    pub(crate) b: G2Point,
    pub(crate) c: G1Point,
}

impl View for Proof {
    type V = ProofModel;

    closed spec fn view(&self) -> ProofModel {
        ProofModel { a: self.a@, b: self.b@, c: self.c@ }
    }
}

impl Proof {
    /// The proof made of three group elements.
    pub fn new(a: G1Point, b: G2Point, c: G1Point) -> (r: Self)
        ensures
            r@ == (ProofModel { a: a@, b: b@, c: c@ }),
    {
        Proof { a, b, c }
    }

    /// The element `a`, of the first group.
    pub fn a(&self) -> (r: G1Point)
        ensures
            r@ == self@.a,
    {
        self.a
    }

    /// The element `b`, of the second group.
    pub fn b(&self) -> (r: G2Point)
        ensures
            r@ == self@.b,
    {
        self.b
    }

    /// The element `c`, of the first group.
    pub fn c(&self) -> (r: G1Point)
        ensures
            r@ == self@.c,
    {
        self.c
    }
}

/// A verifying key in typed form.
#[derive(Clone, Debug, PartialEq, Eq)]
pub struct VerifyingKey {
    pub(crate) alpha_g1: G1Point,
    pub(crate) beta_g2: G2Point,
    pub(crate) gamma_g2: G2Point,
    pub(crate) delta_g2: G2Point,
    pub(crate) gamma_abc_g1: Vec<G1Point>,
}

impl View for VerifyingKey {
    type V = KeyModel;

    closed spec fn view(&self) -> KeyModel {
        KeyModel {
            alpha: self.alpha_g1@,
            beta: self.beta_g2@,
            gamma: self.gamma_g2@,
            delta: self.delta_g2@,
            basis: g1_models(self.gamma_abc_g1@),
        }
    }
}

/// A verifying key with the pairing of `alpha` and `beta` and the line coefficients
/// of `gamma` and `delta` computed in advance.
///
/// It holds `PreparedVerifyingKey` of ark-groth16 and is opaque: all that is said of
/// one is which key it was derived from, [`prepared_key_model`].
#[verifier::external_body]
pub struct PreparedVerifyingKey {
    inner: ark_groth16::PreparedVerifyingKey<ark_bn254::Bn254>,
}

/// `prepare_verifying_key` of ark-groth16. Believed, not proved: the prepared key
/// keeps a copy of the key it was made from.
#[verifier::external_body]
fn prepare_key(vk: &VerifyingKey) -> (r: PreparedVerifyingKey)
    requires
        crate::curve::g1_is_valid(vk@.alpha),
        crate::curve::g2_is_valid(vk@.beta),
    ensures
        prepared_key_model(r) == vk@,
{
    let g1 = |p: &G1Point| ark_bn254::G1Affine::new(p.x, p.y, p.infinity);
    let f2 = |c: (Fq, Fq)| ark_bn254::Fq2::new(c.0, c.1);
    let g2 = |p: &G2Point| ark_bn254::G2Affine::new(f2(p.x), f2(p.y), p.infinity);
    let key = ark_groth16::VerifyingKey::<ark_bn254::Bn254> {
        alpha_g1: g1(&vk.alpha_g1),
        beta_g2: g2(&vk.beta_g2),
        gamma_g2: g2(&vk.gamma_g2),
        delta_g2: g2(&vk.delta_g2),
        gamma_abc_g1: vk.gamma_abc_g1.iter().map(g1).collect(),
    };
    PreparedVerifyingKey { inner: ark_groth16::prepare_verifying_key(&key) }
}

/// `verify_proof` of ark-groth16. Believed, not proved: it answers
/// `MalformedVerifyingKey` where the basis of the key does not have one element more
/// than there are inputs, `UnexpectedIdentity` where the final exponentiation has no
/// value, and otherwise whether the pairing equation holds.
#[verifier::external_body]
fn check_proof(pvk: &PreparedVerifyingKey, proof: &Proof, inputs: &[Fr]) -> (r: Result<
    bool,
    SynthesisError,
>)
    ensures
        r == groth16_result(
            prepared_key_model(*pvk).basis.len(),
            inputs@.len(),
            groth16_outcome(prepared_key_model(*pvk), proof@, fr_values(inputs@)),
        ),
{
    let f2 = |c: (Fq, Fq)| ark_bn254::Fq2::new(c.0, c.1);
    let p = ark_groth16::Proof::<ark_bn254::Bn254> {
        a: ark_bn254::G1Affine::new(proof.a.x, proof.a.y, proof.a.infinity),
        b: ark_bn254::G2Affine::new(f2(proof.b.x), f2(proof.b.y), proof.b.infinity),
        c: ark_bn254::G1Affine::new(proof.c.x, proof.c.y, proof.c.infinity),
    };
    ark_groth16::verify_proof(&pvk.inner, &p, inputs)
}

/// `serde_json::from_str`, at a vector of strings: the array named by
/// [`json_string_array`].
#[verifier::external_body]
fn strings_from_json(text: &str) -> (r: Result<Vec<String>, serde_json::Error>)
    ensures
        r is Ok <==> json_string_array(text@) is Some,
        r matches Ok(v) ==> json_string_array(text@) == Some(v.deep_view()),
{
    serde_json::from_str(text)
}

/// The library's error for an answer of the pairing check.
pub fn outcome_of(result: Result<bool, SynthesisError>) -> (r: Result<bool, ContractError>)
    ensures
        result matches Ok(b) ==> r == Ok::<bool, ContractError>(b),
        result matches Err(e) ==> r == Err::<bool, ContractError>(
            if e == SynthesisError::MalformedVerifyingKey {
                ContractError::MalformedVerifyingKey
            } else {
                ContractError::PairingUndefined
            },
        ),
{
    match result {
        Ok(b) => Ok(b),
        Err(SynthesisError::MalformedVerifyingKey) => Err(ContractError::MalformedVerifyingKey),
        Err(_) => Err(ContractError::PairingUndefined),
    }
}

impl VerifyingKey {
    /// The element `alpha`, of the first group.
    pub fn alpha_g1(&self) -> (r: G1Point)
        ensures
            r@ == self@.alpha,
    {
        self.alpha_g1
    }

    /// The element `beta`, of the second group.
    pub fn beta_g2(&self) -> (r: G2Point)
        ensures
            r@ == self@.beta,
    {
        self.beta_g2
    }

    /// The element `gamma`, of the second group.
    pub fn gamma_g2(&self) -> (r: G2Point)
        ensures
            r@ == self@.gamma,
    {
        self.gamma_g2
    }

    /// The element `delta`, of the second group.
    pub fn delta_g2(&self) -> (r: G2Point)
        ensures
            r@ == self@.delta,
    {
        self.delta_g2
    }

    /// The commitment basis of the public inputs.
    pub fn gamma_abc_g1(&self) -> (r: &Vec<G1Point>)
        ensures
            g1_models(r@) == self@.basis,
    {
        &self.gamma_abc_g1
    }

    /// Derives the prepared form of the key.
    pub fn prepare(&self) -> (r: PreparedVerifyingKey)
        ensures
            prepared_key_model(r) == self@,
    {
        proof {
            use_type_invariant(&self.alpha_g1);
            use_type_invariant(&self.beta_g2);
        }
        prepare_key(self)
    }
}

impl PreparedVerifyingKey {
    /// Decides whether `proof` proves the statement that `inputs` describe.
    ///
    /// `Ok(false)` is the answer for a proof that does not satisfy the equation.
    pub fn verify(&self, proof: &Proof, inputs: &[Fr]) -> (r: Result<bool, ContractError>)
        ensures
            r == verify_outcome(Some(prepared_key_model(*self)), proof@, fr_values(inputs@)),
    {
        outcome_of(check_proof(self, proof, inputs))
    }
}

/// The public inputs in their wire form: numerals, in the order of the circuit.
#[derive(Clone, Debug, PartialEq)]
pub struct PublicSignals(pub Vec<String>);

/// The circuit's commitment, the first public input of every statement.
pub open spec fn circuit_commitment() -> Seq<char> {
    "17117841954853285987668489547323623797569071287263030350231384311492698179645"@
}

/// The circuit's commitment is a canonical numeral.
pub proof fn lemma_commitment_is_decimal()
    ensures
        is_decimal(circuit_commitment()),
{
    reveal_strlit(
        "17117841954853285987668489547323623797569071287263030350231384311492698179645",
    );
}

impl PublicSignals {
    /// The signals as given.
    pub fn from(public_signals: Vec<String>) -> (r: Self)
        ensures
            r.0 == public_signals,
    {
        PublicSignals(public_signals)
    }

    /// The two signals of a statement about `current_date`: the circuit's commitment,
    /// then the date.
    pub fn from_values(current_date: String) -> (r: Self)
        ensures
            r.0@.len() == 2,
            r.0@[0]@ == circuit_commitment(),
            r.0@[1] == current_date,
    {
        let mut signals: Vec<String> = Vec::new();
        signals.push(
            "17117841954853285987668489547323623797569071287263030350231384311492698179645".to_owned(),
        );
        signals.push(current_date);
        PublicSignals(signals)
    }

    /// The signals that a JSON array of strings holds.
    pub fn from_json(public_signals_json: String) -> (r: Result<Self, ContractError>)
        ensures
            r is Ok <==> json_string_array(public_signals_json@) is Some,
            r matches Ok(s) ==> json_string_array(public_signals_json@) == Some(s.0.deep_view()),
            r matches Err(e) ==> e == ContractError::MalformedPublicSignals,
    {
        match strings_from_json(public_signals_json.as_str()) {
            Ok(v) => Ok(PublicSignals(v)),
            Err(_) => Err(ContractError::MalformedPublicSignals),
        }
    }

    /// Every signal is a canonical numeral.
    pub open spec fn well_formed(&self) -> bool {
        forall|i: int| 0 <= i < self.0@.len() ==> is_decimal(#[trigger] self.0@[i]@)
    }

    /// The scalars that the signals denote, in order.
    pub open spec fn values(&self) -> Seq<nat> {
        Seq::new(self.0@.len(), |i: int| fr_of_decimal(self.0@[i]@))
    }

    /// The signals as scalars, in order.
    pub fn get(self) -> (r: Result<Vec<Fr>, ContractError>)
        ensures
            r is Ok <==> self.well_formed(),
            r matches Ok(v) ==> fr_values(v@) == self.values(),
            r matches Err(e) ==> e == ContractError::MalformedScalar,
    {
        let mut inputs: Vec<Fr> = Vec::new();
        let mut i: usize = 0;
        while i < self.0.len()
            invariant
                i <= self.0@.len(),
                inputs@.len() == i,
                forall|j: int| 0 <= j < i ==> is_decimal(#[trigger] self.0@[j]@),
                forall|j: int| 0 <= j < i ==> fr_value(#[trigger] inputs@[j]) == fr_of_decimal(self.0@[j]@),
            decreases self.0@.len() - i,
        {
            match fr_from_str(self.0[i].as_str()) {
                Ok(f) => {
                    inputs.push(f);
                },
                Err(_) => {
                    return Err(ContractError::MalformedScalar);
                },
            }
            i += 1;
        }
        assert(fr_values(inputs@) =~= self.values());
        Ok(inputs)
    }
}

/// The verifying key in its wire form: Jacobian coordinates as numerals.
#[derive(Clone, Debug, PartialEq)]
pub struct VerifyingKeyJson {
    /// The commitment basis of the public inputs, points of the first group.
    pub ic: Vec<Vec<String>>,
    pub vk_alpha_1: Vec<String>,
    pub vk_beta_2: Vec<Vec<String>>,
    pub vk_gamma_2: Vec<Vec<String>>,
    pub vk_delta_2: Vec<Vec<String>>,
    /// The pairing of `alpha` and `beta`, as the proving toolchain writes it. It is
    /// carried along and never read: the prepared key computes its own.
    pub vk_alphabeta_12: Vec<Vec<Vec<String>>>,
}

impl VerifyingKeyJson {
    /// The key that the document denotes, if it denotes one.
    pub open spec fn decoded(&self) -> Option<KeyModel> {
        decode_key(
            self.ic.deep_view(),
            self.vk_alpha_1.deep_view(),
            self.vk_beta_2.deep_view(),
            self.vk_gamma_2.deep_view(),
            self.vk_delta_2.deep_view(),
        )
    }

    /// Decodes the document into a typed key.
    ///
    /// It fails where an array has the wrong arity, a coordinate is no canonical
    /// numeral, or a point is off its curve or outside the subgroup of prime order.
    pub fn to_verifying_key(self) -> (r: Result<VerifyingKey, ContractError>)
        ensures
            r matches Ok(vk) ==> self.decoded() == Some(vk@),
            r matches Err(e) ==> self.decoded() is None && e
                == ContractError::MalformedVerifyingKey,
    {
        let alpha_g1 = match G1Point::from_decimals(&self.vk_alpha_1) {
            Some(p) => p,
            None => {
                return Err(ContractError::MalformedVerifyingKey);
            },
        };
        let beta_g2 = match G2Point::from_decimals(&self.vk_beta_2) {
            Some(p) => p,
            None => {
                return Err(ContractError::MalformedVerifyingKey);
            },
        };
        let gamma_g2 = match G2Point::from_decimals(&self.vk_gamma_2) {
            Some(p) => p,
            None => {
                return Err(ContractError::MalformedVerifyingKey);
            },
        };
        let delta_g2 = match G2Point::from_decimals(&self.vk_delta_2) {
            Some(p) => p,
            None => {
                return Err(ContractError::MalformedVerifyingKey);
            },
        };
        let ghost ic = self.ic.deep_view();
        let mut gamma_abc_g1: Vec<G1Point> = Vec::new();
        let mut i: usize = 0;
        while i < self.ic.len()
            invariant
                i <= self.ic@.len(),
                ic == self.ic.deep_view(),
                gamma_abc_g1@.len() == i,
                forall|j: int|
                    0 <= j < i ==> (#[trigger] decode_g1(ic[j])) == Some(gamma_abc_g1@[j]@),
            decreases self.ic@.len() - i,
        {
            assert(ic[i as int] == self.ic[i as int].deep_view());
            match G1Point::from_decimals(&self.ic[i]) {
                Some(p) => {
                    gamma_abc_g1.push(p);
                },
                None => {
                    return Err(ContractError::MalformedVerifyingKey);
                },
            }
            i += 1;
        }
        let vk = VerifyingKey { alpha_g1, beta_g2, gamma_g2, delta_g2, gamma_abc_g1 };
        assert(vk@.basis =~= Seq::new(ic.len(), |i: int| decode_g1(ic[i])->0));
        Ok(vk)
    }
}

/// Verifies proofs against one key, kept in its wire form and decoded at each call.
#[derive(Clone, Debug)]
pub struct Verifier {
    vk_json: VerifyingKeyJson,
}

impl Verifier {
    /// A verifier for the key that `vk_json` denotes.
    pub fn new(vk_json: VerifyingKeyJson) -> (r: Self)
        ensures
            r.key_document() == vk_json,
    {
        Verifier { vk_json }
    }

    /// The key document that the verifier holds.
    pub closed spec fn key_document(&self) -> VerifyingKeyJson {
        self.vk_json
    }

    /// Decides whether `proof` proves the statement that `inputs` describe.
    ///
    /// `Ok(false)` is the answer for a proof that does not satisfy the pairing
    /// equation. A key document that does not decode, or whose basis does not fit the
    /// number of inputs, is an error.
    pub fn verify_proof(self, proof: Proof, inputs: &[Fr]) -> (r: Result<bool, ContractError>)
        ensures
            r == verify_outcome(self.key_document().decoded(), proof@, fr_values(inputs@)),
    {
        match self.vk_json.to_verifying_key() {
            Ok(vk) => vk.prepare().verify(&proof, inputs),
            Err(e) => Err(e),
        }
    }
}

} // verus!
