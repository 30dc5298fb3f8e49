//! What the library takes from `soroban_sdk`: two value types that it carries
//! without looking inside, and the two calls that make values of them.
use soroban_sdk::{Address, Symbol};
use vstd::prelude::*;

verus! {

/// `soroban_sdk::Address`: an account or a contract on the network.
#[verifier::external_type_specification]
#[verifier::external_body]
pub struct ExAddress(Address);

/// `soroban_sdk::Symbol`: a short identifier.
#[verifier::external_type_specification]
#[verifier::external_body]
pub struct ExSymbol(Symbol);

/// `Address::clone`, which `soroban_sdk` derives field by field: the copy
/// stands for the same account or contract.
pub assume_specification[ <Address as Clone>::clone ](address: &Address) -> (copy: Address)
    ensures
        copy == *address,
;

/// The characters of a `Symbol`: `a-z`, `A-Z`, `0-9` and `_`.
pub open spec fn is_symbol_char(c: char) -> bool {
    ||| 'a' <= c <= 'z'
    ||| 'A' <= c <= 'Z'
    ||| '0' <= c <= '9'
    ||| c == '_'
}

/// The symbol that `Symbol::short` makes of `text`.
pub uninterp spec fn short_symbol(text: Seq<char>) -> Symbol;

/// `Symbol::short`, the function behind `symbol_short!`. It packs up to nine
/// symbol characters into one value, the same value for the same text, and
/// panics on any other text.
#[allow(deprecated)]
#[verifier::external_body]
pub(crate) fn symbol_short(text: &str) -> (symbol: Symbol)
    requires
        text@.len() <= 9,
        forall|i: int| 0 <= i < text@.len() ==> is_symbol_char(#[trigger] text@[i]),
    ensures
        symbol == short_symbol(text@),
{
    Symbol::short(text)
}

} // verus!
