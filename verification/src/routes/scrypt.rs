//! The scrypt handler: the salt is provisioned, the output length
//! defaulted, the cost parameters judged, and only then is the key derived
//! and written as a PHC string.

use crate::policy::CostPolicy;
use crate::response::{answered, rejected, respond, response_view, texts, validation_error};
use crate::response::{Response, ResponseView, StatusCode};
use crate::salt::{is_fresh_salt, provision_salt, salt_fault, salt_rejection};
use scrypt::password_hash::{PasswordHasher, SaltString};
use scrypt::Scrypt;
use vstd::arithmetic::power2::{lemma2_to64, lemma2_to64_rest, lemma_pow2_strictly_increases};
use vstd::arithmetic::power2::{lemma_pow2_unfold, pow2};
use vstd::prelude::*;
use vstd::string::*;

verus! {

/// What a caller submits to the scrypt handler.
pub struct ScryptParameters {
    /// The password, as the text that was submitted.
    pub password: String,
    /// The salt in unpadded Base64, where the caller brings one.
    pub salt: Option<String>,
    /// The exponent of the work factor, which is 2 to this power.
    pub cost: u8,
    /// The block size.
    pub block_size: u32,
    /// The number of independent mixing runs.
    pub parallelism: u32,
    /// The length of the derived key in bytes; 32 where the caller sets none.
    pub hash_length: Option<usize>,
}

/// `ScryptParameters` with its texts as sequences of characters.
pub struct ScryptParametersView {
    pub password: Seq<char>,
    pub salt: Option<Seq<char>>,
    pub cost: u8,
    pub block_size: u32,
    pub parallelism: u32,
    pub hash_length: Option<usize>,
}

impl View for ScryptParameters {
    type V = ScryptParametersView;

    open spec fn view(&self) -> ScryptParametersView {
        ScryptParametersView {
            password: self.password@,
            salt: match self.salt {
                Some(salt) => Some(salt@),
                None => None,
            },
            cost: self.cost,
            block_size: self.block_size,
            parallelism: self.parallelism,
            hash_length: self.hash_length,
        }
    }
}

/// The length of the derived key: the caller's, or 32 bytes.
pub open spec fn output_length(hash_length: Option<usize>) -> usize {
    match hash_length {
        Some(length) => length,
        None => 32,
    }
}

/// Whether scrypt takes a set of cost parameters. `cost` is the exponent of
/// the work factor N = 2^cost; the three buffers of 128 * block_size bytes
/// times N, times the parallelism, and by itself must fit the machine's
/// address space; N must stay under 2^(16 * block_size), and block size
/// times parallelism under 2^30. The key has 10 to 64 bytes.
pub open spec fn params_accepted(
    cost: u8,
    block_size: u32,
    parallelism: u32,
    length: usize,
) -> bool {
    &&& block_size > 0
    &&& parallelism > 0
    &&& cost < usize::BITS
    &&& 10 <= length <= 64
    &&& 128 * block_size * pow2(cost as nat) <= usize::MAX
    &&& 128 * block_size * parallelism <= usize::MAX
    &&& cost < 16 * block_size
    &&& block_size * parallelism < 0x4000_0000
}

/// The PHC string that scrypt derives from a password, or the message of
/// the error with which the derivation ends.
pub uninterp spec fn scrypt_phc(
    cost: u8,
    block_size: u32,
    parallelism: u32,
    length: usize,
    salt: Seq<char>,
    password: Seq<char>,
) -> Result<Seq<char>, Seq<char>>;

/// Calls `Params::new` of scrypt and reports its verdict. The contract
/// restates that function's conditions, all of which end in the one error
/// that scrypt has for them; the message is its `Display` text.
#[verifier::external_body]
fn new_params(cost: u8, block_size: u32, parallelism: u32, length: usize) -> (outcome: Result<
    (),
    String,
>)
    ensures
        outcome is Ok <==> params_accepted(cost, block_size, parallelism, length),
        outcome matches Err(message) ==> message@ == "invalid scrypt parameters"@,
{
    match scrypt::Params::new(cost, block_size, parallelism, length) {
        Ok(_) => Ok(()),
        Err(error) => Err(error.to_string()),
    }
}

/// Calls `Scrypt::hash_password_customized` of scrypt, with no algorithm
/// identifier and no version, and writes the hash it returns with its
/// `Display`, the error with its own. The result is a function of the
/// arguments alone and is given the name `scrypt_phc`. The derivation
/// allocates 128 * block_size * (2^cost + parallelism + 1) bytes.
#[verifier::external_body]
fn derive_phc(
    cost: u8,
    block_size: u32,
    parallelism: u32,
    length: usize,
    salt: &str,
    password: &str,
) -> (derived: Result<String, String>)
    requires
        params_accepted(cost, block_size, parallelism, length),
        salt_fault(salt@) is None,
    ensures
        texts(derived) == scrypt_phc(cost, block_size, parallelism, length, salt@, password@),
{
    let params = scrypt::Params::new(cost, block_size, parallelism, length);
    let params = params.map_err(|e| e.to_string())?;
    let salt = SaltString::from_b64(salt).map_err(|e| e.to_string())?;
    let hashed = Scrypt.hash_password_customized(password.as_bytes(), None, None, params, &salt);
    hashed.map(|h| h.to_string()).map_err(|e| e.to_string())
}

/// The bytes that a derivation allocates: 128 * block_size for each of the
/// 2^cost blocks of its table, for each of the `parallelism` blocks that it
/// mixes, and for the one block that it works in.
pub open spec fn derivation_bytes(cost: u8, block_size: u32, parallelism: u32) -> int {
    128 * block_size * (pow2(cost as nat) + parallelism + 1)
}

/// The iterations of a derivation: its work factor, 2^cost.
pub open spec fn derivation_iterations(cost: u8) -> int {
    pow2(cost as nat) as int
}

/// The work factor that an exponent stands for.
pub fn work_factor(cost: u8) -> (factor: u64)
    requires
        cost < 64,
    ensures
        factor == pow2(cost as nat),
{
    let mut factor: u64 = 1;
    let mut exponent: u8 = 0;
    proof {
        lemma2_to64();
    }
    while exponent < cost
        invariant
            exponent <= cost < 64,
            factor == pow2(exponent as nat),
        decreases cost - exponent,
    {
        proof {
            lemma_pow2_unfold((exponent + 1) as nat);
            lemma_pow2_strictly_increases((exponent + 1) as nat, 64);
            lemma2_to64_rest();
        }
        factor = 2 * factor;
        exponent = exponent + 1;
    }
    factor
}

/// What a derivation costs: the bytes it allocates and its iterations.
pub fn derivation_cost(cost: u8, block_size: u32, parallelism: u32) -> (spent: (u128, u64))
    requires
        cost < 64,
    ensures
        spent.0 == derivation_bytes(cost, block_size, parallelism),
        spent.1 == derivation_iterations(cost),
{
    let factor = work_factor(cost);
    let blocks: u128 = factor as u128 + parallelism as u128 + 1;
    let block: u128 = 128 * (block_size as u128);
    assert(block * blocks <= 0x80_0000_0000 * 0x2_0000_0000_0000_0000) by (nonlinear_arith)
        requires
            block <= 0x80_0000_0000,
            blocks <= 0x2_0000_0000_0000_0000,
    ;
    assert(128 * block_size * (pow2(cost as nat) + parallelism + 1) == block * blocks)
        by (nonlinear_arith)
        requires
            block == 128 * block_size,
            blocks == pow2(cost as nat) + parallelism + 1,
    ;
    (block * blocks, factor)
}

/// The message with which a submission is turned down, or `None` where it
/// is accepted. The salt, where one is supplied, is judged before the cost
/// parameters, and these before what the policy lets them cost.
pub open spec fn validation_failure(
    parameters: ScryptParametersView,
    policy: CostPolicy,
) -> Option<Seq<char>> {
    let salt_verdict = match parameters.salt {
        Some(salt) => salt_rejection(salt),
        None => None,
    };
    if salt_verdict is Some {
        salt_verdict
    } else if !params_accepted(
        parameters.cost,
        parameters.block_size,
        parameters.parallelism,
        output_length(parameters.hash_length),
    ) {
        Some("invalid scrypt parameters"@)
    } else {
        policy.failure(
            derivation_bytes(parameters.cost, parameters.block_size, parameters.parallelism),
            derivation_iterations(parameters.cost),
        )
    }
}

/// The answer to an accepted request: the derived PHC string as a success,
/// the derivation's error as a server-side failure.
pub open spec fn derived_answer(
    cost: u8,
    block_size: u32,
    parallelism: u32,
    length: usize,
    salt: Seq<char>,
    password: Seq<char>,
) -> ResponseView {
    answered(scrypt_phc(cost, block_size, parallelism, length, salt, password))
}

/// The answer to an accepted submission once its salt is chosen.
pub open spec fn answer_with(parameters: ScryptParametersView, salt: Seq<char>) -> ResponseView {
    derived_answer(
        parameters.cost,
        parameters.block_size,
        parameters.parallelism,
        output_length(parameters.hash_length),
        salt,
        parameters.password,
    )
}

/// What the handler owes for a submission: the rejection where validation
/// fails; else the answer under the caller's salt, or under some fresh salt
/// where the caller supplied none.
pub open spec fn hash_answers(
    parameters: ScryptParametersView,
    policy: CostPolicy,
    response: ResponseView,
) -> bool {
    match validation_failure(parameters, policy) {
        Some(message) => response == rejected(message),
        None => match parameters.salt {
            Some(salt) => response == answer_with(parameters, salt),
            None => exists|salt: Seq<char>|
                is_fresh_salt(salt) && response == #[trigger] answer_with(parameters, salt),
        },
    }
}

/// The validated form of a submission, with its output length settled and
/// the salt that the request uses from here on.
pub struct HashRequest {
    pub cost: u8,
    pub block_size: u32,
    pub parallelism: u32,
    pub length: usize,
    pub password: String,
    pub salt: String,
}

impl HashRequest {
    /// scrypt takes the cost parameters, and the salt is a salt string.
    pub open spec fn well_formed(&self) -> bool {
        &&& params_accepted(self.cost, self.block_size, self.parallelism, self.length)
        &&& salt_fault(self.salt@) is None
    }

    /// Whether this request is the validated form of `parameters`: the same
    /// costs and password, the output length with its default, and the
    /// caller's salt or, where there is none, a fresh one.
    pub open spec fn stands_for(&self, parameters: ScryptParametersView) -> bool {
        &&& self.cost == parameters.cost
        &&& self.block_size == parameters.block_size
        &&& self.parallelism == parameters.parallelism
        &&& self.length == output_length(parameters.hash_length)
        &&& self.password@ == parameters.password
        &&& match parameters.salt {
            Some(salt) => self.salt@ == salt,
            None => is_fresh_salt(self.salt@),
        }
    }

    /// The answer that this request is owed.
    pub open spec fn answer(&self) -> ResponseView {
        derived_answer(
            self.cost,
            self.block_size,
            self.parallelism,
            self.length,
            self.salt@,
            self.password@,
        )
    }

    /// Derives the key once and answers with the encoded hash; a failure of
    /// the derivation is the server's.
    pub fn derive(&self) -> (response: Response)
        requires
            self.well_formed(),
        ensures
            response_view(response) == self.answer(),
    {
        respond(
            derive_phc(
                self.cost,
                self.block_size,
                self.parallelism,
                self.length,
                self.salt.as_str(),
                self.password.as_str(),
            ),
        )
    }
}

/// Judges a submission before any derivation begins: the first check that
/// fails gives its message, and a submission that passes them all comes back
/// in its validated form, with its salt provisioned.
pub fn validate(parameters: ScryptParameters, policy: CostPolicy) -> (outcome: Result<
    HashRequest,
    String,
>)
    ensures
        match outcome {
            Ok(request) => {
                &&& validation_failure(parameters@, policy) is None
                &&& request.well_formed()
                &&& request.stands_for(parameters@)
            },
            Err(message) => validation_failure(parameters@, policy) == Some(message@),
        },
{
    let salt = match provision_salt(&parameters.salt) {
        Ok(salt) => salt,
        Err(message) => {
            return Err(message);
        },
    };
    let length = match parameters.hash_length {
        Some(length) => length,
        None => 32,
    };
    match new_params(parameters.cost, parameters.block_size, parameters.parallelism, length) {
        Ok(()) => {},
        Err(message) => {
            return Err(message);
        },
    }
    let (bytes, iterations) = derivation_cost(
        parameters.cost,
        parameters.block_size,
        parameters.parallelism,
    );
    match policy.check(bytes, iterations) {
        Ok(()) => {},
        Err(message) => {
            return Err(message);
        },
    }
    Ok(
        HashRequest {
            cost: parameters.cost,
            block_size: parameters.block_size,
            parallelism: parameters.parallelism,
            length,
            password: parameters.password,
            salt,
        },
    )
}

/// The scrypt handler under a cost policy: provisions the salt, validates
/// the submission, derives the key and answers with the encoded hash.
pub fn hash_within(parameters: ScryptParameters, policy: CostPolicy) -> (response: Response)
    ensures
        hash_answers(parameters@, policy, response_view(response)),
{
    let ghost submitted = parameters@;
    match validate(parameters, policy) {
        Ok(request) => {
            let response = request.derive();
            assert(response_view(response) == answer_with(submitted, request.salt@));
            response
        },
        Err(message) => validation_error(message),
    }
}

/// The scrypt handler. The cost parameters are passed on without a cap:
/// what they cost is the caller's risk.
pub fn hash(parameters: ScryptParameters) -> (response: Response)
    ensures
        hash_answers(parameters@, CostPolicy::AcceptCallerRisk, response_view(response)),
{
    hash_within(parameters, CostPolicy::AcceptCallerRisk)
}

/// With a salt of the caller's own, the submission determines the answer:
/// whatever two calls on the same submission return is the same.
pub proof fn lemma_explicit_salt_determines_answer(
    parameters: ScryptParametersView,
    policy: CostPolicy,
    first: ResponseView,
    second: ResponseView,
)
    requires
        parameters.salt is Some,
        hash_answers(parameters, policy, first),
        hash_answers(parameters, policy, second),
    ensures
        first == second,
{
}

/// Cost parameters that scrypt does not take are a validation failure.
pub proof fn lemma_invalid_cost_is_rejected(
    parameters: ScryptParametersView,
    policy: CostPolicy,
    response: ResponseView,
)
    requires
        hash_answers(parameters, policy, response),
        !params_accepted(
            parameters.cost,
            parameters.block_size,
            parameters.parallelism,
            output_length(parameters.hash_length),
        ),
    ensures
        response matches Err((StatusCode::UnprocessableEntity, _)),
{
}

/// A salt that is no salt string, or that does not decode, is a validation
/// failure.
pub proof fn lemma_malformed_salt_is_rejected(
    parameters: ScryptParametersView,
    policy: CostPolicy,
    response: ResponseView,
)
    requires
        hash_answers(parameters, policy, response),
        parameters.salt matches Some(salt) && salt_rejection(salt) is Some,
    ensures
        response matches Err((StatusCode::UnprocessableEntity, _)),
{
}

/// Under a cap, a submission whose derivation would allocate more than the
/// cap's memory, or whose work factor is more than the cap's iterations, is
/// a validation failure: nothing is derived for it.
pub proof fn lemma_costs_over_the_cap_are_rejected(
    parameters: ScryptParametersView,
    memory: u32,
    iterations: u32,
    response: ResponseView,
)
    requires
        hash_answers(parameters, CostPolicy::Capped { memory, iterations }, response),
        derivation_bytes(parameters.cost, parameters.block_size, parameters.parallelism) > 1024
            * memory || derivation_iterations(parameters.cost) > iterations,
    ensures
        response matches Err((StatusCode::UnprocessableEntity, _)),
{
}

/// Validation never reads the password: two submissions that differ in
/// nothing else are accepted together, or turned down with one message.
pub proof fn lemma_validation_ignores_password(
    first: ScryptParametersView,
    second: ScryptParametersView,
    policy: CostPolicy,
)
    requires
        first.cost == second.cost,
        first.block_size == second.block_size,
        first.parallelism == second.parallelism,
        first.hash_length == second.hash_length,
        first.salt == second.salt,
    ensures
        validation_failure(first, policy) == validation_failure(second, policy),
{
}

} // verus!
