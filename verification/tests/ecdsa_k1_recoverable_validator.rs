use std::cell::RefCell;

use move_core_types::account_address::AccountAddress;
use move_core_types::identifier;
use move_core_types::language_storage::TypeTag;
use move_core_types::value::{MoveTypeLayout, MoveValue};

use rooch_types::addresses::ROOCH_FRAMEWORK_ADDRESS;
use rooch_types::framework::ecdsa_k1_recoverable_validator::{
    function_id, module_id, validate_call, validate_outcome, EcdsaK1RecoverableValidator,
    MODULE_ADDRESS, MODULE_NAME, VALIDATE_FUNCTION_NAME,
};
use rooch_types::function_call::{FunctionCall, MoveFunctionCaller};

/// Keeps every request and the context it came with, and replies by the script.
struct Recorder {
    seen: RefCell<Vec<(u64, FunctionCall)>>,
    reply: Result<Vec<TypeTag>, String>,
}

impl Recorder {
    fn replying(reply: Result<Vec<TypeTag>, String>) -> Self {
        Recorder { seen: RefCell::new(Vec::new()), reply }
    }
}

impl MoveFunctionCaller for Recorder {
    type Context = u64;
    type ReturnValue = TypeTag;
    type Error = String;

    fn call_function(&self, ctx: &u64, call: FunctionCall) -> Result<Vec<TypeTag>, String> {
        self.seen.borrow_mut().push((*ctx, call));
        self.reply.clone()
    }
}

/// The bytes that `validate_call` hands over for a payload.
fn argument(payload: Vec<u8>) -> Vec<u8> {
    let mut call = validate_call(payload);
    assert_eq!(call.args.len(), 1);
    call.args.pop().unwrap()
}

#[test]
fn request_names_the_validate_function_of_the_framework() {
    let call = validate_call(vec![1, 2, 3]);
    assert_eq!(call.function_id.module_id.address, "0x3");
    assert_eq!(call.function_id.module_id.name, "ecdsa_k1_recoverable_validator");
    assert_eq!(call.function_id.function_name, "validate");
    assert!(call.ty_args.is_empty());
    assert_eq!(call.args, vec![vec![3, 1, 2, 3]]);
}

#[test]
fn names_are_move_identifiers() {
    assert!(identifier::is_valid(MODULE_NAME));
    assert!(identifier::is_valid(VALIDATE_FUNCTION_NAME));
}

#[test]
fn module_address_is_a_hex_literal() {
    assert_eq!(MODULE_ADDRESS, ROOCH_FRAMEWORK_ADDRESS);
    let address = AccountAddress::from_hex_literal(MODULE_ADDRESS).unwrap();
    assert_eq!(address.to_hex_literal(), MODULE_ADDRESS);
    assert_eq!(address.to_vec().last(), Some(&3));
}

#[test]
fn identifiers_of_the_module_and_its_functions() {
    let module = module_id();
    assert_eq!(module.address, MODULE_ADDRESS);
    assert_eq!(module.name, MODULE_NAME);
    let function = function_id("_other2");
    assert_eq!(function.module_id.address, MODULE_ADDRESS);
    assert_eq!(function.module_id.name, MODULE_NAME);
    assert_eq!(function.function_name, "_other2");
}

#[test]
fn empty_payload_is_encoded_as_its_length_alone() {
    assert_eq!(argument(vec![]), vec![0]);
}

#[test]
fn length_takes_one_byte_below_128() {
    let encoded = argument(vec![9; 127]);
    assert_eq!(encoded.len(), 128);
    assert_eq!(encoded[0], 127);
    assert_eq!(&encoded[1..], &[9; 127][..]);
}

#[test]
fn length_takes_two_bytes_from_128() {
    let encoded = argument(vec![9; 128]);
    assert_eq!(&encoded[..2], &[0x80, 0x01][..]);
    assert_eq!(&encoded[2..], &[9; 128][..]);

    let encoded = argument(vec![0xff; 300]);
    assert_eq!(&encoded[..2], &[0xac, 0x02][..]);
    assert_eq!(&encoded[2..], &[0xff; 300][..]);
}

#[test]
fn length_takes_three_bytes_from_16384() {
    let encoded = argument(vec![1; 16383]);
    assert_eq!(&encoded[..2], &[0xff, 0x7f][..]);
    assert_eq!(encoded.len(), 2 + 16383);

    let encoded = argument(vec![1; 16384]);
    assert_eq!(&encoded[..3], &[0x80, 0x80, 0x01][..]);
    assert_eq!(encoded.len(), 3 + 16384);
}

#[test]
fn encoded_payload_reads_back() {
    let layout = MoveTypeLayout::Vector(Box::new(MoveTypeLayout::U8));
    let payload: Vec<u8> = (0..=255).collect();
    let value = MoveValue::simple_deserialize(&argument(payload.clone()), &layout).unwrap();
    assert_eq!(value, MoveValue::vector_u8(payload));
}

#[test]
fn different_payloads_lead_to_different_requests() {
    assert_ne!(argument(vec![]), argument(vec![0]));
    assert_ne!(argument(vec![0]), argument(vec![0, 0]));
    assert_ne!(argument(vec![1, 2]), argument(vec![2, 1]));
}

#[test]
fn outcome_without_values_is_success() {
    let outcome: Result<Vec<u8>, String> = Ok(vec![]);
    assert_eq!(validate_outcome(outcome), Ok(()));
}

#[test]
fn outcome_with_values_is_success() {
    let outcome: Result<Vec<u8>, String> = Ok(vec![1, 2]);
    assert_eq!(validate_outcome(outcome), Ok(()));
}

#[test]
fn failed_outcome_keeps_its_error() {
    let outcome: Result<Vec<u8>, String> = Err("aborted".to_string());
    assert_eq!(validate_outcome(outcome), Err("aborted".to_string()));
}

#[test]
fn validate_makes_one_call_in_the_given_context() {
    let recorder = Recorder::replying(Ok(vec![]));
    let validator = EcdsaK1RecoverableValidator::new(&recorder);
    assert_eq!(validator.validate(&42, vec![5, 6]), Ok(()));

    let seen = recorder.seen.borrow();
    assert_eq!(seen.len(), 1);
    let (ctx, call) = &seen[0];
    assert_eq!(*ctx, 42);
    assert_eq!(call.function_id.module_id.address, "0x3");
    assert_eq!(call.function_id.module_id.name, "ecdsa_k1_recoverable_validator");
    assert_eq!(call.function_id.function_name, "validate");
    assert!(call.ty_args.is_empty());
    assert_eq!(call.args, vec![vec![2, 5, 6]]);
}

#[test]
fn validate_ignores_returned_values() {
    let recorder = Recorder::replying(Ok(vec![TypeTag::Bool]));
    let validator = EcdsaK1RecoverableValidator::new(&recorder);
    assert_eq!(validator.validate(&0, vec![]), Ok(()));
}

#[test]
fn validate_passes_the_error_on() {
    let recorder = Recorder::replying(Err("invalid signature".to_string()));
    let validator = EcdsaK1RecoverableValidator::new(&recorder);
    assert_eq!(validator.validate(&7, vec![1]), Err("invalid signature".to_string()));
    assert_eq!(recorder.seen.borrow().len(), 1);
}

#[test]
fn validate_works_through_a_trait_object() {
    let recorder = Recorder::replying(Ok(vec![]));
    let caller: &dyn MoveFunctionCaller<Context = u64, ReturnValue = TypeTag, Error = String> =
        &recorder;
    let validator = EcdsaK1RecoverableValidator::new(caller);
    assert_eq!(validator.validate(&1, vec![1, 1]), Ok(()));
    assert_eq!(recorder.seen.borrow()[0].1.args, vec![vec![2, 1, 1]]);
}
