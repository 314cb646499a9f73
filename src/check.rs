//! The check that a compressed module is ready to deploy, and the choice of
//! where the module comes from.
use crate::amount::Amount;
use crate::codec::{contract_deployment_calldata, encoded, push_all};
use crate::text::{hex_of, to_hex};
use vstd::prelude::*;
use vstd::string::StrSliceExecFns;

verus! {

/// A module that can be deployed with the given data fee.
#[derive(Clone, Debug, PartialEq, Eq)]
pub enum ContractCheck {
    Ready { code: Vec<u8>, fee: Amount },
}

impl ContractCheck {
    pub fn code(&self) -> (r: &[u8])
        ensures
            self matches ContractCheck::Ready { code, .. } && r@ == code@,
    {
        match self {
            ContractCheck::Ready { code, .. } => code.as_slice(),
        }
    }

    pub fn suggest_fee(&self) -> (r: Amount)
        ensures
            self matches ContractCheck::Ready { fee, .. } && r == fee,
    {
        match self {
            ContractCheck::Ready { fee, .. } => *fee,
        }
    }
}

/// An error that a node returned for a call, with its revert data.
#[derive(Clone, Debug, PartialEq, Eq)]
pub struct EthCallError {
    pub data: Vec<u8>,
    pub msg: String,
}

impl EthCallError {
    /// The message that the error reports.
    pub fn message(self) -> (r: String)
        ensures
            r@ == self.msg@,
    {
        self.msg
    }
}

/// The result of checking a compressed module: its creation bytecode in
/// hexadecimal, and the compressed module as the payload to deploy, with its
/// data fee. No data fee is charged yet, so the fee is zero.
pub fn check(code: &[u8]) -> (r: (String, ContractCheck))
    ensures
        r.0@ == hex_of(encoded(code@)),
        r.1 matches ContractCheck::Ready { code: c, fee } && c@ == code@ && fee.value() == 0,
{
    let init_code = contract_deployment_calldata(code);
    let deploy_code = to_hex(init_code.as_slice());
    let mut payload: Vec<u8> = Vec::new();
    push_all(&mut payload, code);
    (deploy_code, ContractCheck::Ready { code: payload, fee: Amount::zero() })
}

/// Whether `needle` occurs in `hay` starting at `i`.
pub open spec fn occurs_at(hay: Seq<char>, needle: Seq<char>, i: int) -> bool {
    0 <= i && i + needle.len() <= hay.len() && hay.subrange(i, i + needle.len()) == needle
}

/// Whether `needle` occurs anywhere in `hay`.
pub open spec fn contains_seq(hay: Seq<char>, needle: Seq<char>) -> bool {
    exists|i: int| occurs_at(hay, needle, i)
}

/// Whether `needle` occurs in `hay`.
pub fn contains_chars(hay: &str, needle: &[char]) -> (r: bool)
    ensures
        r == contains_seq(hay@, needle@),
{
    let n = hay.unicode_len();
    let m = needle.len();
    if m > n {
        return false;
    }
    let mut i: usize = 0;
    while i <= n - m
        invariant
            n == hay@.len(),
            m == needle@.len(),
            m <= n,
            i <= n - m + 1,
            forall|k: int| 0 <= k < i ==> !occurs_at(hay@, needle@, k),
        decreases n - m + 1 - i,
    {
        let mut j: usize = 0;
        let mut same = true;
        while j < m && same
            invariant
                n == hay@.len(),
                m == needle@.len(),
                i + m <= n,
                j <= m,
                same ==> forall|t: int| 0 <= t < j ==> hay@[i + t] == needle@[t],
                !same ==> j > 0 && hay@[i + j - 1] != needle@[j - 1],
            decreases m - j,
        {
            if hay.get_char(i + j) != needle[j] {
                same = false;
            }
            j = j + 1;
        }
        if same {
            assert(hay@.subrange(i as int, i + m) =~= needle@);
            assert(occurs_at(hay@, needle@, i as int));
            return true;
        }
        assert(hay@.subrange(i as int, i + m)[j - 1] != needle@[j - 1]);
        i = i + 1;
    }
    assert forall|k: int| !occurs_at(hay@, needle@, k) by {
        if 0 <= k < i {
        }
    }
    false
}

/// Whether a toolchain channel names a stable toolchain: it does not
/// mention "nightly".
pub fn is_stable_channel(channel: &str) -> (r: bool)
    ensures
        r == !contains_seq(channel@, seq!['n', 'i', 'g', 'h', 't', 'l', 'y']),
{
    let nightly: [char; 7] = ['n', 'i', 'g', 'h', 't', 'l', 'y'];
    assert(nightly@ =~= seq!['n', 'i', 'g', 'h', 't', 'l', 'y']);
    !contains_chars(channel, nightly.as_slice())
}

} // verus!
