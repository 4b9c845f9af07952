//! Contract accounts in a form that JSON can carry: the address as text and
//! the program's bytes.

use vstd::prelude::*;
use crate::address::{Address, address_text};
use crate::js::add_roadmap_item::{bytes_debug_string, bytes_debug_text};
use crate::text::concat_str;

verus! {

/// The address of the contract account of a compiled program: the
/// SHA-512/256 hash of the program with its domain prefix, as `algonaut`
/// computes it.
pub uninterp spec fn program_address(program: Seq<u8>) -> Seq<u8>;

/// The address of the contract account of a program, with
/// `algonaut::transaction::contract_account::ContractAccount::new` and its
/// `address` accessor. The contract names the address `program_address`.
#[verifier::external_body]
fn program_hash_address(program: &[u8]) -> (a: [u8; 32])
    ensures
        a@ == program_address(program@),
{
    algonaut::transaction::contract_account::ContractAccount::new(
        algonaut::core::CompiledTeal(program.to_vec()),
    ).address().0
}

/// A contract account: a compiled program and the address that its hash
/// gives.
pub struct ContractAccount {
    program: Vec<u8>,
    address: [u8; 32],
}

impl ContractAccount {
    #[verifier::type_invariant]
    spec fn address_is_program_hash(self) -> bool {
        self.address@ == program_address(self.program@)
    }

    /// The account's compiled program.
    pub closed spec fn program_of(self) -> Seq<u8> {
        self.program@
    }

    /// The account's address.
    pub closed spec fn address_of(self) -> Seq<u8> {
        self.address@
    }

    /// The contract account of a compiled program.
    pub fn new(program: Vec<u8>) -> (ca: ContractAccount)
        ensures
            ca.program_of() == program@,
            ca.address_of() == program_address(program@),
    {
        let address = program_hash_address(program.as_slice());
        ContractAccount { program, address }
    }

    /// The account's compiled program.
    pub fn program(&self) -> (p: &Vec<u8>)
        ensures
            p@ == self.program_of(),
    {
        &self.program
    }

    /// The account's address.
    pub fn address(&self) -> (a: Address)
        ensures
            a.bytes@ == self.address_of(),
            self.address_of() == program_address(self.program_of()),
    {
        proof {
            use_type_invariant(self);
        }
        Address { bytes: self.address }
    }
}

/// A contract account as JSON carries it: its address as text and its
/// compiled program.
#[derive(Debug, Clone, PartialEq, Eq)]
pub struct ContractAccountJs {
    pub address: String,
    pub program: Vec<u8>,
}

/// The error where the address that came with a program is not the
/// program's.
pub open spec fn contract_address_mismatch(address: Seq<char>, program: Seq<u8>) -> Seq<char> {
    "Invalid state: the address: "@ + address + " doesn't correspond to the program: CompiledTeal("@
        + bytes_debug_text(program) + ")"@
}

impl ContractAccountJs {
    /// The JSON form of a contract account: its program, and its address
    /// written as an address text. Converting it back gives the account
    /// again: its address text is the one of its program's hash.
    pub fn from(ca: &ContractAccount) -> (js: ContractAccountJs)
        ensures
            js.program@ == ca.program_of(),
            js.address@ == address_text(ca.address_of()),
            js.address@ == address_text(program_address(js.program@)),
    {
        let address = ca.address();
        ContractAccountJs {
            address: address.to_text(),
            program: vstd::slice::slice_to_vec(ca.program().as_slice()),
        }
    }

    /// The contract account of the program; the address that came with it
    /// must be the program's, as a double check.
    pub fn to_contract_account(self) -> (r: Result<ContractAccount, String>)
        ensures
            r is Ok <==> self.address@ == address_text(program_address(self.program@)),
            r matches Ok(ca) ==> ca.program_of() == self.program@ && ca.address_of()
                == program_address(self.program@),
            r is Err ==> r->Err_0@ == contract_address_mismatch(self.address@, self.program@),
    {
        let listed = bytes_debug_string(&self.program);
        let account = ContractAccount::new(self.program);
        let text = account.address().to_text();
        if text != self.address {
            let msg = concat_str("Invalid state: the address: ", self.address.as_str());
            let msg = concat_str(msg.as_str(), " doesn't correspond to the program: CompiledTeal(");
            let msg = concat_str(msg.as_str(), listed.as_str());
            return Err(concat_str(msg.as_str(), ")"));
        }
        Ok(account)
    }
}

} // verus!
