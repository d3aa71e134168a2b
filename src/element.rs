use vstd::prelude::*;

verus! {

/// The declared element type of a column handed to the library.
#[derive(Clone, Copy, Debug, PartialEq, Eq, Structural)]
pub enum ElementType {
    UInt8,
    UInt16,
    UInt32,
    UInt64,
    Int8,
    Int16,
    Int32,
    Int64,
    Utf8,
    Boolean,
    Float16,
    Float32,
    Float64,
    Other,
}

/// The key types an index can be built over.
#[derive(Clone, Copy, Debug, PartialEq, Eq, Structural)]
pub enum KeyType {
    UInt8,
    UInt16,
    UInt32,
    UInt64,
    Int8,
    Int16,
    Int32,
    Int64,
    Utf8,
}

/// Why an index could not be built.
#[derive(Clone, Copy, Debug, PartialEq, Eq, Structural)]
pub enum IndexError {
    /// The column's declared element type is not the index's key type.
    TypeMismatch,
    /// The column's element type lies outside the key domain.
    UnsupportedKeyType,
}

impl KeyType {
    /// The element type that a column must declare to be indexed under this key type.
    pub open spec fn spec_element_type(self) -> ElementType {
        match self {
            KeyType::UInt8 => ElementType::UInt8,
            KeyType::UInt16 => ElementType::UInt16,
            KeyType::UInt32 => ElementType::UInt32,
            KeyType::UInt64 => ElementType::UInt64,
            KeyType::Int8 => ElementType::Int8,
            KeyType::Int16 => ElementType::Int16,
            KeyType::Int32 => ElementType::Int32,
            KeyType::Int64 => ElementType::Int64,
            KeyType::Utf8 => ElementType::Utf8,
        }
    }

    pub fn element_type(self) -> (r: ElementType)
        ensures
            r == self.spec_element_type(),
    {
        match self {
            KeyType::UInt8 => ElementType::UInt8,
            KeyType::UInt16 => ElementType::UInt16,
            KeyType::UInt32 => ElementType::UInt32,
            KeyType::UInt64 => ElementType::UInt64,
            KeyType::Int8 => ElementType::Int8,
            KeyType::Int16 => ElementType::Int16,
            KeyType::Int32 => ElementType::Int32,
            KeyType::Int64 => ElementType::Int64,
            KeyType::Utf8 => ElementType::Utf8,
        }
    }
}

/// The key type whose columns declare `e`, if `e` lies in the key domain.
pub fn key_type_of(e: ElementType) -> (r: Result<KeyType, IndexError>)
    ensures
        match r {
            Ok(k) => k.spec_element_type() == e,
            Err(err) => err == IndexError::UnsupportedKeyType
                && forall|k: KeyType| k.spec_element_type() != e,
        },
{
    match e {
        ElementType::UInt8 => Ok(KeyType::UInt8),
        ElementType::UInt16 => Ok(KeyType::UInt16),
        ElementType::UInt32 => Ok(KeyType::UInt32),
        ElementType::UInt64 => Ok(KeyType::UInt64),
        ElementType::Int8 => Ok(KeyType::Int8),
        ElementType::Int16 => Ok(KeyType::Int16),
        ElementType::Int32 => Ok(KeyType::Int32),
        ElementType::Int64 => Ok(KeyType::Int64),
        ElementType::Utf8 => Ok(KeyType::Utf8),
        _ => Err(IndexError::UnsupportedKeyType),
    }
}

/// Accepts a column for an index of key type `wanted` only when the column
/// declares exactly that key type's element type.
pub fn check_column(declared: ElementType, wanted: KeyType) -> (r: Result<(), IndexError>)
    ensures
        r is Ok <==> declared == wanted.spec_element_type(),
        r is Err ==> r == Err::<(), IndexError>(IndexError::TypeMismatch),
{
    if declared == wanted.element_type() {
        Ok(())
    } else {
        Err(IndexError::TypeMismatch)
    }
}

} // verus!
