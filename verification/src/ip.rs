//! Octet arithmetic for the address-encryption endpoints: addresses are
//! handled as their octets, and the answers are computed octet by octet with
//! wrapping addition, wrapping subtraction, or exclusive or.

use vstd::prelude::*;

verus! {

/// Query parameters of the encryption direction: a source address and a key.
pub struct IPParam<T> {
    pub from: T,
    pub key: T,
}

/// Query parameters of the key-recovery direction: a source and a target.
pub struct KeyParam<T> {
    pub from: T,
    pub to: T,
}

/// Octet-wise sum, each lane wrapping at 256.
pub fn add_ipv4_octets(ip1: [u8; 4], ip2: [u8; 4]) -> (r: [u8; 4])
    ensures
        forall|i: int| 0 <= i < 4 ==> r@[i] == (ip1@[i] + ip2@[i]) % 256,
{
    let mut result: [u8; 4] = [0u8; 4];
    for i in 0..4usize
        invariant
            forall|j: int| 0 <= j < i ==> result@[j] == (ip1@[j] + ip2@[j]) % 256,
    {
        result[i] = ip1[i].wrapping_add(ip2[i]);
    }
    result
}

/// Octet-wise difference, each lane wrapping below zero.
pub fn subtract_ipv4_octets(ip1: [u8; 4], ip2: [u8; 4]) -> (r: [u8; 4])
    ensures
        forall|i: int| 0 <= i < 4 ==> r@[i] == (ip1@[i] - ip2@[i]) % 256,
{
    let mut result: [u8; 4] = [0u8; 4];
    for i in 0..4usize
        invariant
            forall|j: int| 0 <= j < i ==> result@[j] == (ip1@[j] - ip2@[j]) % 256,
    {
        result[i] = ip1[i].wrapping_sub(ip2[i]);
    }
    result
}

/// Octet-wise exclusive or; its own inverse, which serves both directions.
pub fn xor_ipv6(ip1: [u8; 16], ip2: [u8; 16]) -> (r: [u8; 16])
    ensures
        forall|i: int| 0 <= i < 16 ==> r@[i] == (ip1@[i] ^ ip2@[i]),
{
    let mut result: [u8; 16] = [0u8; 16];
    for i in 0..16usize
        invariant
            forall|j: int| 0 <= j < i ==> result@[j] == (ip1@[j] ^ ip2@[j]),
    {
        result[i] = ip1[i] ^ ip2[i];
    }
    result
}

} // verus!
