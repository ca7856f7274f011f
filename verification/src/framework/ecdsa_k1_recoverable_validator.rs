//! The Move module `ecdsa_k1_recoverable_validator`, which validates the payload of an
//! authenticator that carries a recoverable ECDSA signature over secp256k1.

#[allow(unused_imports)]
use vstd::arithmetic::power::pow;
use vstd::prelude::*;

use crate::addresses::ROOCH_FRAMEWORK_ADDRESS;
use crate::encoding::{serialize_vector_u8, MAX_SEQUENCE_LENGTH};
use crate::function_call::{FunctionCall, FunctionId, ModuleId, MoveFunctionCaller};
#[allow(unused_imports)]
use crate::function_call::{FunctionCallView, FunctionIdView, ModuleIdView};

verus! {

/// The name of the Move module.
pub const MODULE_NAME: &'static str = "ecdsa_k1_recoverable_validator";

/// The account under which the Move module is published.
pub const MODULE_ADDRESS: &'static str = ROOCH_FRAMEWORK_ADDRESS;

/// The name of the Move function that validates a payload.
pub const VALIDATE_FUNCTION_NAME: &'static str = "validate";

/// The function `function_name` of the Move module.
pub open spec fn function(function_name: Seq<char>) -> FunctionIdView {
    FunctionIdView {
        module_id: ModuleIdView { address: MODULE_ADDRESS@, name: MODULE_NAME@ },
        function_name,
    }
}

/// The request to validate `payload`: it calls the Move function `validate`, without type
/// arguments, on one argument, the encoded payload.
pub open spec fn validate_request(payload: Seq<u8>) -> FunctionCallView {
    FunctionCallView {
        function_id: function(VALIDATE_FUNCTION_NAME@),
        ty_args: Seq::empty(),
        args: seq![crate::encoding::vector_u8_bytes(payload)],
    }
}

/// What the outcome of the request says of the payload: it is valid where the call went
/// through, and where the call failed, the failure is the answer. The Move function returns
/// nothing, so no value that comes back has a say in it.
pub open spec fn verdict<V, E>(outcome: Result<Vec<V>, E>) -> Result<(), E> {
    match outcome {
        Ok(_) => Ok(()),
        Err(error) => Err(error),
    }
}

/// The name of the Move module is a Move identifier.
proof fn lemma_module_name_is_identifier()
    ensures
        crate::function_call::is_identifier(MODULE_NAME@),
{
    reveal_strlit("ecdsa_k1_recoverable_validator");
}

/// The name of the validating function is a Move identifier.
proof fn lemma_validate_is_identifier()
    ensures
        crate::function_call::is_identifier(VALIDATE_FUNCTION_NAME@),
{
    reveal_strlit("validate");
}

/// The request fixes the payload: no two payloads lead to the same request.
pub proof fn validate_request_injective(payload: Seq<u8>, other: Seq<u8>)
    requires
        validate_request(payload) == validate_request(other),
    ensures
        payload == other,
{
    assert(validate_request(payload).args[0] == validate_request(other).args[0]);
    crate::encoding::vector_u8_bytes_prefix_free(payload, Seq::empty(), other, Seq::empty());
}

/// Whatever the payload, a request that asks to validate it calls
/// `0x3::ecdsa_k1_recoverable_validator::validate`, without type arguments, on one argument.
pub proof fn validate_request_target(call: FunctionCall, payload: Seq<u8>)
    requires
        call@ == validate_request(payload),
    ensures
        call.function_id.module_id.address@ == "0x3"@,
        call.function_id.module_id.name@ == "ecdsa_k1_recoverable_validator"@,
        call.function_id.function_name@ == "validate"@,
        call.ty_args@.len() == 0,
        call.args@.len() == 1,
{
    assert(call@.args.len() == 1);
}

/// Whoever reads the argument of a request gets the payload back: its first bytes, up to the
/// first one below 128, are the length of the payload in base 128, the least significant
/// digit first, and the rest are the bytes of the payload, each in its place.
pub proof fn validate_request_argument(call: FunctionCall, payload: Seq<u8>)
    requires
        call@ == validate_request(payload),
    ensures
        call.args@.len() == 1,
        call.args@[0]@.len() > payload.len(),
        ({
            let arg = call.args@[0]@;
            let n = arg.len() - payload.len();
            &&& forall|k: int|
                0 <= k < n ==> #[trigger] arg[k] == (payload.len() as int / pow(128, k as nat))
                    % 128 + (if k + 1 < n {
                    128int
                } else {
                    0
                })
            &&& payload.len() < pow(128, n as nat)
            &&& n > 1 ==> pow(128, (n - 1) as nat) <= payload.len()
            &&& forall|i: int| 0 <= i < payload.len() ==> arg[n + i] == #[trigger] payload[i]
        }),
{
    assert(call@.args.len() == 1);
    assert(call@.args[0] == call.args@[0]@);
    crate::encoding::vector_u8_bytes_layout(payload);
}

/// The answer is `Ok` exactly where the call went through, and a call that failed is
/// answered with its own error.
pub proof fn verdict_follows_outcome<V, E>(outcome: Result<Vec<V>, E>, answer: Result<(), E>)
    requires
        answer == verdict(outcome),
    ensures
        answer is Ok <==> outcome is Ok,
        outcome is Err ==> answer is Err && answer->Err_0 == outcome->Err_0,
{
}

/// The Move module.
pub fn module_id() -> (id: ModuleId)
    ensures
        id@.address == MODULE_ADDRESS@,
        id@.name == MODULE_NAME@,
        id.address@ == "0x3"@,
        id.name@ == "ecdsa_k1_recoverable_validator"@,
{
    ModuleId { address: MODULE_ADDRESS.to_owned(), name: MODULE_NAME.to_owned() }
}

/// A function of the Move module.
pub fn function_id(function_name: &str) -> (id: FunctionId)
    requires
        crate::function_call::is_identifier(function_name@),
    ensures
        id@ == function(function_name@),
        id@.well_formed(),
        id.module_id.address@ == "0x3"@,
        id.module_id.name@ == "ecdsa_k1_recoverable_validator"@,
        id.function_name@ == function_name@,
{
    proof {
        lemma_module_name_is_identifier();
    }
    FunctionId { module_id: module_id(), function_name: function_name.to_owned() }
}

/// Builds the request to validate `payload`.
pub fn validate_call(payload: Vec<u8>) -> (call: FunctionCall)
    requires
        payload@.len() <= MAX_SEQUENCE_LENGTH,
    ensures
        call@ == validate_request(payload@),
        call@.function_id.well_formed(),
        call.function_id.module_id.address@ == "0x3"@,
        call.function_id.module_id.name@ == "ecdsa_k1_recoverable_validator"@,
        call.function_id.function_name@ == "validate"@,
        call.ty_args@.len() == 0,
        call.args@.len() == 1,
        call.args@[0]@.len() > payload@.len(),
        call.args@[0]@.skip(call.args@[0]@.len() - payload@.len()) == payload@,
{
    proof {
        lemma_validate_is_identifier();
        crate::encoding::vector_u8_bytes_layout(payload@);
    }
    let arg = serialize_vector_u8(payload).unwrap();
    let mut args: Vec<Vec<u8>> = Vec::new();
    args.push(arg);
    FunctionCall { function_id: function_id(VALIDATE_FUNCTION_NAME), ty_args: Vec::new(), args }
}

/// Turns the outcome of the request into the answer.
pub fn validate_outcome<V, E>(outcome: Result<Vec<V>, E>) -> (answer: Result<(), E>)
    ensures
        answer == verdict(outcome),
        answer is Ok <==> outcome is Ok,
        outcome matches Err(error) ==> answer == Err::<(), E>(error),
{
    match outcome {
        Ok(_) => Ok(()),
        Err(error) => Err(error),
    }
}

/// Asks once: hands `send` the request to validate `payload`, and gives the answer that its
/// reply decides.
///
/// `send` can be called no more than once, being a `FnOnce`, and the contract speaks of an
/// outcome that only a call of `send` gives. So `send` sees exactly one request, and the
/// answer is the verdict on its only reply.
pub fn validate_through<F, V, E>(payload: Vec<u8>, send: F) -> (answer: Result<(), E>) where
    F: FnOnce(FunctionCall) -> Result<Vec<V>, E>,

    requires
        payload@.len() <= MAX_SEQUENCE_LENGTH,
        forall|call: FunctionCall|
            call@ == validate_request(payload@) ==> #[trigger] send.requires((call,)),
    ensures
        exists|call: FunctionCall, outcome: Result<Vec<V>, E>|
            {
                &&& call@ == validate_request(payload@)
                &&& #[trigger] send.ensures((call,), outcome)
                &&& answer == verdict(outcome)
                &&& answer is Ok <==> outcome is Ok
                &&& outcome is Err ==> answer is Err && answer->Err_0 == outcome->Err_0
            },
{
    let call = validate_call(payload);
    let outcome = send(call);
    assert(send.ensures((call,), outcome));
    validate_outcome(outcome)
}

/// Rust bindings for the framework's Move module `ecdsa_k1_recoverable_validator`.
pub struct EcdsaK1RecoverableValidator<'a, C: MoveFunctionCaller + ?Sized> {
    caller: &'a C,
}

impl<'a, C: MoveFunctionCaller + ?Sized> EcdsaK1RecoverableValidator<'a, C> {
    /// What carries out the calls.
    pub closed spec fn caller(&self) -> &'a C {
        self.caller
    }

    /// Binds the Move module to what carries out the calls.
    pub fn new(caller: &'a C) -> (binding: Self)
        ensures
            binding.caller() == caller,
    {
        EcdsaK1RecoverableValidator { caller }
    }

    /// Asks the Move module to validate `payload` in the context of a transaction.
    ///
    /// Whatever the caller does with a request, what it is handed is the context and the
    /// request to validate `payload`, and what it replies decides the answer alone. It is
    /// asked through [`validate_through`], once.
    pub fn validate(&self, ctx: &C::Context, payload: Vec<u8>) -> (answer: Result<(), C::Error>)
        requires
            payload@.len() <= MAX_SEQUENCE_LENGTH,
        ensures
            exists|call: FunctionCall, outcome: Result<Vec<C::ReturnValue>, C::Error>|
                {
                    &&& call@ == validate_request(payload@)
                    &&& #[trigger] call_ensures(
                        C::call_function,
                        (self.caller(), ctx, call),
                        outcome,
                    )
                    &&& answer == verdict(outcome)
                    &&& answer is Ok <==> outcome is Ok
                    &&& outcome is Err ==> answer is Err && answer->Err_0 == outcome->Err_0
                },
    {
        let caller = self.caller;
        let send = |call: FunctionCall| -> (outcome: Result<Vec<C::ReturnValue>, C::Error>)
            ensures
                call_ensures(C::call_function, (caller, ctx, call), outcome),
            { caller.call_function(ctx, call) };
        let answer = validate_through(payload, send);
        proof {
            let (call, outcome) = choose|
                call: FunctionCall,
                outcome: Result<Vec<C::ReturnValue>, C::Error>,
            |
                {
                    &&& call@ == validate_request(payload@)
                    &&& #[trigger] send.ensures((call,), outcome)
                    &&& answer == verdict(outcome)
                };
            assert(call_ensures(C::call_function, (self.caller(), ctx, call), outcome));
        }
        answer
    }
}

} // verus!
