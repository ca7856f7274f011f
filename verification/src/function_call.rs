//! The request that calls a Move function, and what carries it out.

use move_core_types::language_storage::TypeTag;
use vstd::prelude::*;

verus! {

/// The type `TypeTag` of `move_core_types`: a Move type, as a type argument names it.
#[verifier::external_type_specification]
#[verifier::external_body]
pub struct ExTypeTag(TypeTag);

/// A character that may stand in a Move identifier.
pub open spec fn is_identifier_char(c: char) -> bool {
    c == '_' || is_letter(c) || '0' <= c <= '9'
}

/// An ASCII letter.
pub open spec fn is_letter(c: char) -> bool {
    'a' <= c <= 'z' || 'A' <= c <= 'Z'
}

/// The names that Move accepts: a letter, or an underscore that is not alone, before
/// letters, digits and underscores; and `<SELF>`.
pub open spec fn is_identifier(name: Seq<char>) -> bool {
    ||| name == "<SELF>"@
    ||| {
        &&& name.len() > 0
        &&& is_letter(name[0]) || (name[0] == '_' && name.len() > 1)
        &&& forall|i: int| 0 <= i < name.len() ==> is_identifier_char(#[trigger] name[i])
    }
}

/// An identifier, `<SELF>` apart, is made of ASCII letters, digits and underscores; it does
/// not begin with a digit, and it is not a lone underscore.
pub proof fn identifier_characters(name: Seq<char>)
    requires
        is_identifier(name),
        name != "<SELF>"@,
    ensures
        name.len() >= 1,
        !('0' <= name[0] <= '9'),
        name != seq!['_'],
        forall|i: int|
            0 <= i < name.len() ==> 'a' <= #[trigger] name[i] <= 'z' || 'A' <= name[i] <= 'Z' || '0'
                <= name[i] <= '9' || name[i] == '_',
{
    assert(is_identifier_char(name[0]));
}

/// Every ASCII letter is an identifier, an underscore before a letter, a digit or another
/// underscore is one, and an identifier other than `<SELF>` remains one when such a
/// character is added to it.
pub proof fn identifier_extends(name: Seq<char>, c: char)
    requires
        'a' <= c <= 'z' || 'A' <= c <= 'Z' || '0' <= c <= '9' || c == '_',
    ensures
        'a' <= c <= 'z' || 'A' <= c <= 'Z' ==> is_identifier(seq![c]),
        is_identifier(seq!['_', c]),
        is_identifier(name) && name != "<SELF>"@ ==> is_identifier(name.push(c)),
{
    assert(is_identifier_char(c));
}

/// A Move module.
#[derive(Debug)]
pub struct ModuleId {
    /// The account under which the module is published, as a hex literal.
    pub address: String,
    pub name: String,
}

/// What a [`ModuleId`] holds.
#[verifier::ext_equal]
pub struct ModuleIdView {
    pub address: Seq<char>,
    pub name: Seq<char>,
}

impl View for ModuleId {
    type V = ModuleIdView;

    open spec fn view(&self) -> ModuleIdView {
        ModuleIdView { address: self.address@, name: self.name@ }
    }
}

/// A function of a Move module.
#[derive(Debug)]
pub struct FunctionId {
    pub module_id: ModuleId,
    pub function_name: String,
}

/// What a [`FunctionId`] holds.
#[verifier::ext_equal]
pub struct FunctionIdView {
    pub module_id: ModuleIdView,
    pub function_name: Seq<char>,
}

impl View for FunctionId {
    type V = FunctionIdView;

    open spec fn view(&self) -> FunctionIdView {
        FunctionIdView { module_id: self.module_id@, function_name: self.function_name@ }
    }
}

impl FunctionIdView {
    /// Both names are Move identifiers.
    pub open spec fn well_formed(self) -> bool {
        &&& is_identifier(self.module_id.name)
        &&& is_identifier(self.function_name)
    }
}

/// A request to call a Move function.
#[derive(Debug)]
pub struct FunctionCall {
    pub function_id: FunctionId,
    pub ty_args: Vec<TypeTag>,
    /// The arguments, each in its encoded form.
    pub args: Vec<Vec<u8>>,
}

/// What a [`FunctionCall`] holds.
#[verifier::ext_equal]
pub struct FunctionCallView {
    pub function_id: FunctionIdView,
    pub ty_args: Seq<TypeTag>,
    pub args: Seq<Seq<u8>>,
}

impl View for FunctionCall {
    type V = FunctionCallView;

    open spec fn view(&self) -> FunctionCallView {
        FunctionCallView {
            function_id: self.function_id@,
            ty_args: self.ty_args@,
            args: self.args@.map_values(|arg: Vec<u8>| arg@),
        }
    }
}

/// What can call a Move function: a virtual machine, a node, a client of one.
///
/// The trait promises nothing of what a call returns.
pub trait MoveFunctionCaller {
    /// The transaction in whose context a function is called.
    type Context;

    /// A value that a Move function returns.
    type ReturnValue;

    /// Why a call failed.
    type Error;

    /// Calls a Move function; the values are those that it returns.
    fn call_function(&self, ctx: &Self::Context, call: FunctionCall) -> Result<
        Vec<Self::ReturnValue>,
        Self::Error,
    >;
}

} // verus!
