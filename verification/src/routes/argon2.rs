//! The Argon2 handler: algorithm and version are selected, the cost
//! parameters and the salt are judged, and only then is the key derived and
//! written as a PHC string.

use crate::policy::CostPolicy;
use crate::response::{answered, rejected, respond, response_view, texts, validation_error};
use crate::response::{Response, ResponseView, StatusCode};
use crate::salt::{is_fresh_salt, provision_salt, salt_fault, salt_rejection};
use argon2::password_hash::{PasswordHash, PasswordHasher, SaltString};
use vstd::prelude::*;
use vstd::string::*;

verus! {

/// The flavour of Argon2.
#[derive(Clone, Copy, Debug, PartialEq, Eq, Structural)]
pub enum Algorithm {
    /// Data-dependent addressing.
    Argon2d,
    /// Data-independent addressing.
    Argon2i,
    /// The hybrid of the two.
    Argon2id,
}

/// The revision of the derivation function.
#[derive(Clone, Copy, Debug, PartialEq, Eq, Structural)]
pub enum Version {
    /// Revision 16.
    V0x10,
    /// Revision 19.
    V0x13,
}

/// What a caller submits to the Argon2 handler.
pub struct Argon2idParameters {
    /// The token of the flavour: `i`, `d` or `id`.
    pub algorithm: String,
    /// The password, as the text that was submitted.
    pub password: String,
    /// The salt in unpadded Base64, where the caller brings one.
    pub salt: Option<String>,
    /// The number of the revision: 16 or 19.
    pub version: u8,
    /// The number of lanes.
    pub parallelism: u32,
    /// The memory cost in KiB.
    pub memory: u32,
    /// The number of passes over the memory.
    pub iterations: u32,
    /// The length of the derived key in bytes, where the caller sets one.
    pub hash_length: Option<usize>,
}

/// `Argon2idParameters` with its texts as sequences of characters.
pub struct Argon2idParametersView {
    pub algorithm: Seq<char>,
    pub password: Seq<char>,
    pub salt: Option<Seq<char>>,
    pub version: u8,
    pub parallelism: u32,
    pub memory: u32,
    pub iterations: u32,
    pub hash_length: Option<usize>,
}

impl View for Argon2idParameters {
    type V = Argon2idParametersView;

    open spec fn view(&self) -> Argon2idParametersView {
        Argon2idParametersView {
            algorithm: self.algorithm@,
            password: self.password@,
            salt: match self.salt {
                Some(salt) => Some(salt@),
                None => None,
            },
            version: self.version,
            parallelism: self.parallelism,
            memory: self.memory,
            iterations: self.iterations,
            hash_length: self.hash_length,
        }
    }
}

/// The flavour that a token selects: `i`, `d` or `id`, and nothing else.
pub open spec fn algorithm_of(token: Seq<char>) -> Option<Algorithm> {
    if token == seq!['i'] {
        Some(Algorithm::Argon2i)
    } else if token == seq!['d'] {
        Some(Algorithm::Argon2d)
    } else if token == seq!['i', 'd'] {
        Some(Algorithm::Argon2id)
    } else {
        None
    }
}

/// The revision that a number selects: 16 or 19, and nothing else.
pub open spec fn version_of(number: u8) -> Option<Version> {
    if number == 16 {
        Some(Version::V0x10)
    } else if number == 19 {
        Some(Version::V0x13)
    } else {
        None
    }
}

/// Why a set of cost parameters is turned down.
pub enum ParamsFault {
    /// Less memory than 8 KiB, or than 8 KiB for each lane.
    MemoryTooLittle,
    /// No iteration at all.
    TimeTooSmall,
    /// No lane at all.
    ThreadsTooFew,
    /// More than 2^24 - 1 lanes.
    ThreadsTooMany,
    /// An output of fewer than 4 bytes.
    OutputTooShort,
    /// An output of more than 2^32 - 1 bytes.
    OutputTooLong,
}

/// The first reason, if any, for which Argon2 turns a set of cost
/// parameters down. The products are those of the integers, not of `u32`.
pub open spec fn params_fault(
    memory: u32,
    iterations: u32,
    parallelism: u32,
    hash_length: Option<usize>,
) -> Option<ParamsFault> {
    if memory < 8 || memory < 8 * parallelism {
        Some(ParamsFault::MemoryTooLittle)
    } else if iterations < 1 {
        Some(ParamsFault::TimeTooSmall)
    } else if parallelism < 1 {
        Some(ParamsFault::ThreadsTooFew)
    } else if parallelism > 0xFF_FFFF {
        Some(ParamsFault::ThreadsTooMany)
    } else if hash_length matches Some(length) && length < 4 {
        Some(ParamsFault::OutputTooShort)
    } else if hash_length matches Some(length) && length > 0xFFFF_FFFF {
        Some(ParamsFault::OutputTooLong)
    } else {
        None
    }
}

/// The message that reports a fault of the cost parameters.
pub open spec fn params_fault_text(fault: ParamsFault) -> Seq<char> {
    match fault {
        ParamsFault::MemoryTooLittle => "memory cost is too small"@,
        ParamsFault::TimeTooSmall => "time cost is too small"@,
        ParamsFault::ThreadsTooFew => "not enough threads"@,
        ParamsFault::ThreadsTooMany => "too many threads"@,
        ParamsFault::OutputTooShort => "output is too short"@,
        ParamsFault::OutputTooLong => "output is too long"@,
    }
}

/// The PHC string that Argon2 derives from a password, or the message of
/// the error with which the derivation ends.
pub uninterp spec fn argon2_phc(
    algorithm: Algorithm,
    version: Version,
    memory: u32,
    iterations: u32,
    parallelism: u32,
    hash_length: Option<usize>,
    salt: Seq<char>,
    password: Seq<char>,
) -> Result<Seq<char>, Seq<char>>;

/// A PHC string parsed and written again, or the message of the error with
/// which parsing it ends.
pub uninterp spec fn phc_reencoded(encoded: Seq<char>) -> Result<Seq<char>, Seq<char>>;

/// Calls `Params::new` of argon2 and reports its verdict. The contract
/// restates that function's checks in their order; the message is the
/// error's `Display` text. `Params::new` multiplies the parallelism by 8 in
/// `u32`, so inputs on which that product does not fit are left out.
#[verifier::external_body]
fn new_params(
    memory: u32,
    iterations: u32,
    parallelism: u32,
    hash_length: Option<usize>,
) -> (outcome: Result<(), String>)
    requires
        8 * parallelism <= u32::MAX,
    ensures
        match outcome {
            Ok(()) => params_fault(memory, iterations, parallelism, hash_length) is None,
            Err(message) => params_fault(memory, iterations, parallelism, hash_length) matches Some(
                fault,
            ) && message@ == params_fault_text(fault),
        },
{
    match argon2::Params::new(memory, iterations, parallelism, hash_length) {
        Ok(_) => Ok(()),
        Err(error) => Err(error.to_string()),
    }
}

/// The `Display` text of argon2's `Error::MemoryTooLittle`.
#[verifier::external_body]
fn memory_too_little() -> (message: String)
    ensures
        message@ == params_fault_text(ParamsFault::MemoryTooLittle),
{
    argon2::Error::MemoryTooLittle.to_string()
}

/// Calls `Argon2::hash_password` of argon2 on a context made by
/// `Argon2::new`, and writes the hash it returns with its `Display`, the
/// error with its own. The result is a function of the arguments alone and
/// is given the name `argon2_phc`. The derivation allocates `memory` KiB
/// and runs for a time in proportion to `iterations` times `memory`.
#[verifier::external_body]
fn derive_phc(
    algorithm: Algorithm,
    version: Version,
    memory: u32,
    iterations: u32,
    parallelism: u32,
    hash_length: Option<usize>,
    salt: &str,
    password: &str,
) -> (derived: Result<String, String>)
    requires
        params_fault(memory, iterations, parallelism, hash_length) is None,
        salt_fault(salt@) is None,
    ensures
        texts(derived) == argon2_phc(
            algorithm,
            version,
            memory,
            iterations,
            parallelism,
            hash_length,
            salt@,
            password@,
        ),
{
    let algorithm = match algorithm {
        Algorithm::Argon2d => argon2::Algorithm::Argon2d,
        Algorithm::Argon2i => argon2::Algorithm::Argon2i,
        Algorithm::Argon2id => argon2::Algorithm::Argon2id,
    };
    let version = match version {
        Version::V0x10 => argon2::Version::V0x10,
        Version::V0x13 => argon2::Version::V0x13,
    };
    let params = argon2::Params::new(memory, iterations, parallelism, hash_length);
    let hasher = argon2::Argon2::new(algorithm, version, params.map_err(|e| e.to_string())?);
    let salt = SaltString::from_b64(salt).map_err(|e| e.to_string())?;
    let hashed = hasher.hash_password(password.as_bytes(), &salt);
    hashed.map(|h| h.to_string()).map_err(|e| e.to_string())
}

/// Calls `PasswordHash::new` of password-hash and writes what it parsed with
/// its `Display`, the error with its own. The result is a function of the
/// text alone and is given the name `phc_reencoded`.
#[verifier::external_body]
fn reencode_phc(encoded: &str) -> (reencoded: Result<String, String>)
    ensures
        texts(reencoded) == phc_reencoded(encoded@),
{
    match PasswordHash::new(encoded) {
        Ok(hash) => Ok(hash.to_string()),
        Err(error) => Err(error.to_string()),
    }
}

/// Selects the flavour of Argon2 by its token.
pub fn select_algorithm(token: &str) -> (algorithm: Option<Algorithm>)
    ensures
        algorithm == algorithm_of(token@),
{
    let length = token.unicode_len();
    if length == 1 {
        let only = token.get_char(0);
        if only == 'i' {
            assert(token@ =~= seq!['i']);
            Some(Algorithm::Argon2i)
        } else if only == 'd' {
            assert(token@ =~= seq!['d']);
            Some(Algorithm::Argon2d)
        } else {
            assert(seq!['i'][0] == 'i' && seq!['d'][0] == 'd');
            None
        }
    } else if length == 2 {
        if token.get_char(0) == 'i' && token.get_char(1) == 'd' {
            assert(token@ =~= seq!['i', 'd']);
            Some(Algorithm::Argon2id)
        } else {
            assert(seq!['i', 'd'][0] == 'i' && seq!['i', 'd'][1] == 'd');
            None
        }
    } else {
        assert(seq!['i'].len() == 1 && seq!['d'].len() == 1 && seq!['i', 'd'].len() == 2);
        None
    }
}

/// Selects the revision of the derivation function by its number.
pub fn select_version(number: u8) -> (version: Option<Version>)
    ensures
        version == version_of(number),
{
    if number == 16 {
        Some(Version::V0x10)
    } else if number == 19 {
        Some(Version::V0x13)
    } else {
        None
    }
}

/// Judges the cost parameters as Argon2 does, without correcting any.
pub fn check_params(
    memory: u32,
    iterations: u32,
    parallelism: u32,
    hash_length: Option<usize>,
) -> (outcome: Result<(), String>)
    ensures
        match outcome {
            Ok(()) => params_fault(memory, iterations, parallelism, hash_length) is None,
            Err(message) => params_fault(memory, iterations, parallelism, hash_length) matches Some(
                fault,
            ) && message@ == params_fault_text(fault),
        },
{
    if parallelism > 0x1FFF_FFFF {
        // Eight times such a parallelism is more than any memory cost.
        Err(memory_too_little())
    } else {
        new_params(memory, iterations, parallelism, hash_length)
    }
}

/// The message with which a submission is turned down, or `None` where it
/// is accepted. The checks stand in the order in which they are made:
/// algorithm, version, cost parameters, what the policy lets them cost, and
/// the salt where one is supplied.
pub open spec fn validation_failure(
    parameters: Argon2idParametersView,
    policy: CostPolicy,
) -> Option<Seq<char>> {
    if algorithm_of(parameters.algorithm) is None {
        Some("Invalid algorithm"@)
    } else if version_of(parameters.version) is None {
        Some("Invalid version"@)
    } else {
        match params_fault(
            parameters.memory,
            parameters.iterations,
            parameters.parallelism,
            parameters.hash_length,
        ) {
            Some(fault) => Some(params_fault_text(fault)),
            None => match policy.failure(1024 * parameters.memory, parameters.iterations as int) {
                Some(message) => Some(message),
                None => match parameters.salt {
                    Some(salt) => salt_rejection(salt),
                    None => None,
                },
            },
        }
    }
}

/// The answer to an accepted request, given what the derivation returned:
/// its PHC string, parsed and written again, as a success; its error, or
/// that of the parsing, as a server-side failure.
pub open spec fn reencoded_answer(derived: Result<Seq<char>, Seq<char>>) -> ResponseView {
    match derived {
        Ok(encoded) => answered(phc_reencoded(encoded)),
        Err(message) => answered(Err(message)),
    }
}

/// The answer to an accepted request.
pub open spec fn derived_answer(
    algorithm: Algorithm,
    version: Version,
    memory: u32,
    iterations: u32,
    parallelism: u32,
    hash_length: Option<usize>,
    salt: Seq<char>,
    password: Seq<char>,
) -> ResponseView {
    reencoded_answer(
        argon2_phc(
            algorithm,
            version,
            memory,
            iterations,
            parallelism,
            hash_length,
            salt,
            password,
        ),
    )
}

/// The answer to an accepted submission once its salt is chosen.
pub open spec fn answer_with(parameters: Argon2idParametersView, salt: Seq<char>) -> ResponseView {
    derived_answer(
        algorithm_of(parameters.algorithm).unwrap(),
        version_of(parameters.version).unwrap(),
        parameters.memory,
        parameters.iterations,
        parameters.parallelism,
        parameters.hash_length,
        salt,
        parameters.password,
    )
}

/// What the handler owes for a submission: the rejection where validation
/// fails; else the answer under the caller's salt, or under some fresh salt
/// where the caller supplied none.
pub open spec fn hash_answers(
    parameters: Argon2idParametersView,
    policy: CostPolicy,
    response: ResponseView,
) -> bool {
    match validation_failure(parameters, policy) {
        Some(message) => response == rejected(message),
        None => match parameters.salt {
            Some(salt) => response == answer_with(parameters, salt),
            None => exists|salt: Seq<char>|
                is_fresh_salt(salt) && response == #[trigger] answer_with(parameters, salt),
        },
    }
}

/// Answers an accepted request with what its derivation returned: the PHC
/// string is parsed and written again before it goes out.
pub fn answer(derived: Result<String, String>) -> (response: Response)
    ensures
        response_view(response) == reencoded_answer(texts(derived)),
{
    match derived {
        Ok(encoded) => respond(reencode_phc(encoded.as_str())),
        Err(message) => respond(Err(message)),
    }
}

/// The validated form of a submission, with the salt that the request uses
/// from here on.
pub struct HashRequest {
    pub algorithm: Algorithm,
    pub version: Version,
    pub memory: u32,
    pub iterations: u32,
    pub parallelism: u32,
    pub hash_length: Option<usize>,
    pub password: String,
    pub salt: String,
}

impl HashRequest {
    /// Argon2 takes the cost parameters, and the salt is a salt string.
    pub open spec fn well_formed(&self) -> bool {
        &&& params_fault(self.memory, self.iterations, self.parallelism, self.hash_length) is None
        &&& salt_fault(self.salt@) is None
    }

    /// Whether this request is the validated form of `parameters`: the
    /// selected algorithm and version, the same costs and password, and the
    /// caller's salt or, where there is none, a fresh one.
    pub open spec fn stands_for(&self, parameters: Argon2idParametersView) -> bool {
        &&& algorithm_of(parameters.algorithm) == Some(self.algorithm)
        &&& version_of(parameters.version) == Some(self.version)
        &&& self.memory == parameters.memory
        &&& self.iterations == parameters.iterations
        &&& self.parallelism == parameters.parallelism
        &&& self.hash_length == parameters.hash_length
        &&& self.password@ == parameters.password
        &&& match parameters.salt {
            Some(salt) => self.salt@ == salt,
            None => is_fresh_salt(self.salt@),
        }
    }

    /// The answer that this request is owed.
    pub open spec fn answer(&self) -> ResponseView {
        derived_answer(
            self.algorithm,
            self.version,
            self.memory,
            self.iterations,
            self.parallelism,
            self.hash_length,
            self.salt@,
            self.password@,
        )
    }

    /// Derives the key once and answers with the encoded hash, parsed and
    /// written again; a failure of either step is the server's.
    pub fn derive(&self) -> (response: Response)
        requires
            self.well_formed(),
        ensures
            response_view(response) == self.answer(),
    {
        answer(
            derive_phc(
                self.algorithm,
                self.version,
                self.memory,
                self.iterations,
                self.parallelism,
                self.hash_length,
                self.salt.as_str(),
                self.password.as_str(),
            ),
        )
    }
}

/// Judges a submission before any derivation begins: the first check that
/// fails gives its message, and a submission that passes them all comes back
/// in its validated form, with its salt provisioned.
pub fn validate(parameters: Argon2idParameters, policy: CostPolicy) -> (outcome: Result<
    HashRequest,
    String,
>)
    ensures
        match outcome {
            Ok(request) => {
                &&& validation_failure(parameters@, policy) is None
                &&& request.well_formed()
                &&& request.stands_for(parameters@)
            },
            Err(message) => validation_failure(parameters@, policy) == Some(message@),
        },
{
    let algorithm = match select_algorithm(parameters.algorithm.as_str()) {
        Some(algorithm) => algorithm,
        None => {
            return Err(String::from_str("Invalid algorithm"));
        },
    };
    let version = match select_version(parameters.version) {
        Some(version) => version,
        None => {
            return Err(String::from_str("Invalid version"));
        },
    };
    match check_params(
        parameters.memory,
        parameters.iterations,
        parameters.parallelism,
        parameters.hash_length,
    ) {
        Ok(()) => {},
        Err(message) => {
            return Err(message);
        },
    }
    match policy.check(1024 * (parameters.memory as u128), parameters.iterations as u64) {
        Ok(()) => {},
        Err(message) => {
            return Err(message);
        },
    }
    let salt = match provision_salt(&parameters.salt) {
        Ok(salt) => salt,
        Err(message) => {
            return Err(message);
        },
    };
    Ok(
        HashRequest {
            algorithm,
            version,
            memory: parameters.memory,
            iterations: parameters.iterations,
            parallelism: parameters.parallelism,
            hash_length: parameters.hash_length,
            password: parameters.password,
            salt,
        },
    )
}

/// The Argon2 handler under a cost policy: validates the submission,
/// provisions the salt, derives the key and answers with the encoded hash.
pub fn hash_within(parameters: Argon2idParameters, policy: CostPolicy) -> (response: Response)
    ensures
        hash_answers(parameters@, policy, response_view(response)),
{
    let ghost submitted = parameters@;
    match validate(parameters, policy) {
        Ok(request) => {
            let response = request.derive();
            assert(response_view(response) == answer_with(submitted, request.salt@));
            response
        },
        Err(message) => validation_error(message),
    }
}

/// The Argon2 handler. The cost parameters are passed on without a cap:
/// what they cost is the caller's risk.
pub fn hash(parameters: Argon2idParameters) -> (response: Response)
    ensures
        hash_answers(parameters@, CostPolicy::AcceptCallerRisk, response_view(response)),
{
    hash_within(parameters, CostPolicy::AcceptCallerRisk)
}

/// With a salt of the caller's own, the submission determines the answer:
/// whatever two calls on the same submission return is the same.
pub proof fn lemma_explicit_salt_determines_answer(
    parameters: Argon2idParametersView,
    policy: CostPolicy,
    first: ResponseView,
    second: ResponseView,
)
    requires
        parameters.salt is Some,
        hash_answers(parameters, policy, first),
        hash_answers(parameters, policy, second),
    ensures
        first == second,
{
}

/// A token that names no flavour of Argon2 is turned down as such, whatever
/// else the submission holds.
pub proof fn lemma_unknown_algorithm_is_rejected(
    parameters: Argon2idParametersView,
    policy: CostPolicy,
    response: ResponseView,
)
    requires
        hash_answers(parameters, policy, response),
        algorithm_of(parameters.algorithm) is None,
    ensures
        response == rejected("Invalid algorithm"@),
{
}

/// A version other than 16 and 19 is a validation failure.
pub proof fn lemma_unknown_version_is_rejected(
    parameters: Argon2idParametersView,
    policy: CostPolicy,
    response: ResponseView,
)
    requires
        hash_answers(parameters, policy, response),
        parameters.version != 16,
        parameters.version != 19,
    ensures
        response matches Err((StatusCode::UnprocessableEntity, _)),
        algorithm_of(parameters.algorithm) is Some ==> response == rejected("Invalid version"@),
{
}

/// A salt that is no salt string, or that does not decode, is a validation
/// failure.
pub proof fn lemma_malformed_salt_is_rejected(
    parameters: Argon2idParametersView,
    policy: CostPolicy,
    response: ResponseView,
)
    requires
        hash_answers(parameters, policy, response),
        parameters.salt matches Some(salt) && salt_rejection(salt) is Some,
    ensures
        response matches Err((StatusCode::UnprocessableEntity, _)),
{
}

/// Under a cap, a submission that asks for more memory or more iterations
/// than the cap allows is a validation failure: nothing is derived for it.
pub proof fn lemma_costs_over_the_cap_are_rejected(
    parameters: Argon2idParametersView,
    memory: u32,
    iterations: u32,
    response: ResponseView,
)
    requires
        hash_answers(parameters, CostPolicy::Capped { memory, iterations }, response),
        parameters.memory > memory || parameters.iterations > iterations,
    ensures
        response matches Err((StatusCode::UnprocessableEntity, _)),
{
}

/// Validation never reads the password: two submissions that differ in
/// nothing else are accepted together, or turned down with one message.
pub proof fn lemma_validation_ignores_password(
    first: Argon2idParametersView,
    second: Argon2idParametersView,
    policy: CostPolicy,
)
    requires
        first.algorithm == second.algorithm,
        first.version == second.version,
        first.memory == second.memory,
        first.iterations == second.iterations,
        first.parallelism == second.parallelism,
        first.hash_length == second.hash_length,
        first.salt == second.salt,
    ensures
        validation_failure(first, policy) == validation_failure(second, policy),
{
}

} // verus!
