use vstd::prelude::*;

use crate::element::KeyType;

verus! {

/// A fixed-width integer type that an index can be keyed by. Each value has a
/// distinct 64-bit code, under which the hash table stores it.
pub trait IntKey: Copy + Sized {
    spec fn code(self) -> u64;

    spec fn key_type() -> KeyType;

    fn to_code(self) -> (r: u64)
        ensures
            r == self.code(),
    ;

    fn declared_key_type() -> (r: KeyType)
        ensures
            r == Self::key_type(),
    ;

    proof fn lemma_code_injective(a: Self, b: Self)
        ensures
            a.code() == b.code() ==> a == b,
    ;
}

impl IntKey for u8 {
    open spec fn code(self) -> u64 {
        self as u64
    }

    open spec fn key_type() -> KeyType {
        KeyType::UInt8
    }

    fn to_code(self) -> (r: u64) {
        self as u64
    }

    fn declared_key_type() -> (r: KeyType) {
        KeyType::UInt8
    }

    proof fn lemma_code_injective(a: Self, b: Self) {
    }
}

impl IntKey for u16 {
    open spec fn code(self) -> u64 {
        self as u64
    }

    open spec fn key_type() -> KeyType {
        KeyType::UInt16
    }

    fn to_code(self) -> (r: u64) {
        self as u64
    }

    fn declared_key_type() -> (r: KeyType) {
        KeyType::UInt16
    }

    proof fn lemma_code_injective(a: Self, b: Self) {
    }
}

impl IntKey for u32 {
    open spec fn code(self) -> u64 {
        self as u64
    }

    open spec fn key_type() -> KeyType {
        KeyType::UInt32
    }

    fn to_code(self) -> (r: u64) {
        self as u64
    }

    fn declared_key_type() -> (r: KeyType) {
        KeyType::UInt32
    }

    proof fn lemma_code_injective(a: Self, b: Self) {
    }
}

impl IntKey for u64 {
    open spec fn code(self) -> u64 {
        self as u64
    }

    open spec fn key_type() -> KeyType {
        KeyType::UInt64
    }

    fn to_code(self) -> (r: u64) {
        self as u64
    }

    fn declared_key_type() -> (r: KeyType) {
        KeyType::UInt64
    }

    proof fn lemma_code_injective(a: Self, b: Self) {
    }
}

impl IntKey for i8 {
    open spec fn code(self) -> u64 {
        self as u64
    }

    open spec fn key_type() -> KeyType {
        KeyType::Int8
    }

    fn to_code(self) -> (r: u64) {
        self as u64
    }

    fn declared_key_type() -> (r: KeyType) {
        KeyType::Int8
    }

    proof fn lemma_code_injective(a: Self, b: Self) {
        assert(a as u64 == b as u64 ==> a == b) by (bit_vector);
    }
}

impl IntKey for i16 {
    open spec fn code(self) -> u64 {
        self as u64
    }

    open spec fn key_type() -> KeyType {
        KeyType::Int16
    }

    fn to_code(self) -> (r: u64) {
        self as u64
    }

    fn declared_key_type() -> (r: KeyType) {
        KeyType::Int16
    }

    proof fn lemma_code_injective(a: Self, b: Self) {
        assert(a as u64 == b as u64 ==> a == b) by (bit_vector);
    }
}

impl IntKey for i32 {
    open spec fn code(self) -> u64 {
        self as u64
    }

    open spec fn key_type() -> KeyType {
        KeyType::Int32
    }

    fn to_code(self) -> (r: u64) {
        self as u64
    }

    fn declared_key_type() -> (r: KeyType) {
        KeyType::Int32
    }

    proof fn lemma_code_injective(a: Self, b: Self) {
        assert(a as u64 == b as u64 ==> a == b) by (bit_vector);
    }
}

impl IntKey for i64 {
    open spec fn code(self) -> u64 {
        self as u64
    }

    open spec fn key_type() -> KeyType {
        KeyType::Int64
    }

    fn to_code(self) -> (r: u64) {
        self as u64
    }

    fn declared_key_type() -> (r: KeyType) {
        KeyType::Int64
    }

    proof fn lemma_code_injective(a: Self, b: Self) {
        assert(a as u64 == b as u64 ==> a == b) by (bit_vector);
    }
}

} // verus!
