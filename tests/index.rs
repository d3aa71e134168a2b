use arrow::array::{Array, PrimitiveArray, StringArray};
use arrow::datatypes;

use arrow_hash::{
    check_column, key_type_of, ArrowInt16Index, ArrowInt32Index, ArrowInt64Index, ArrowInt8Index,
    ArrowStringIndex, ArrowUInt16Index, ArrowUInt32Index, ArrowUInt64Index, ArrowUInt8Index,
    ElementType, IndexError, KeyType,
};

fn strings(array: &StringArray) -> Vec<String> {
    (0..array.len()).map(|i| array.value(i).to_string()).collect()
}

fn texts(values: &[&str]) -> Vec<String> {
    values.iter().map(|s| s.to_string()).collect()
}

#[test]
fn test_build_primitive_index() {
    let want = vec![0u64];

    let array = PrimitiveArray::<datatypes::UInt8Type>::from(vec![1, 2, 3, 3, 5]);
    let idx = ArrowUInt8Index::build(&array.values().to_vec());
    assert_eq!(*idx.get(1 as u8).unwrap(), want);

    let array = PrimitiveArray::<datatypes::UInt16Type>::from(vec![1, 2, 3, 3, 5]);
    let idx = ArrowUInt16Index::build(&array.values().to_vec());
    assert_eq!(*idx.get(1 as u16).unwrap(), want);

    let array = PrimitiveArray::<datatypes::UInt32Type>::from(vec![1, 2, 3, 3, 5]);
    let idx = ArrowUInt32Index::build(&array.values().to_vec());
    assert_eq!(*idx.get(1 as u32).unwrap(), want);

    let array = PrimitiveArray::<datatypes::UInt64Type>::from(vec![1, 2, 3, 3, 5]);
    let idx = ArrowUInt64Index::build(&array.values().to_vec());
    assert_eq!(*idx.get(1 as u64).unwrap(), want);

    let array = PrimitiveArray::<datatypes::Int8Type>::from(vec![1, 2, 3, 3, 5]);
    let idx = ArrowInt8Index::build(&array.values().to_vec());
    assert_eq!(*idx.get(1 as i8).unwrap(), want);

    let array = PrimitiveArray::<datatypes::Int16Type>::from(vec![1, 2, 3, 3, 5]);
    let idx = ArrowInt16Index::build(&array.values().to_vec());
    assert_eq!(*idx.get(1 as i16).unwrap(), want);

    let array = PrimitiveArray::<datatypes::Int32Type>::from(vec![1, 2, 3, 3, 5]);
    let idx = ArrowInt32Index::build(&array.values().to_vec());
    assert_eq!(*idx.get(1 as i32).unwrap(), want);

    let array = PrimitiveArray::<datatypes::Int64Type>::from(vec![1, 2, 3, 3, 5]);
    let idx = ArrowInt64Index::build(&array.values().to_vec());
    assert_eq!(*idx.get(1 as i64).unwrap(), want);
}

#[test]
fn test_build_string_index() {
    let array = StringArray::from(vec!["a", "b", "c", "c", "e"]);
    let idx = ArrowStringIndex::build(&strings(&array));
    let have = idx.get("a");
    let want = vec![0];
    assert_eq!(*have.unwrap(), want);
}

#[test]
fn int64_column_lookups() {
    let idx = ArrowInt64Index::build(&vec![1i64, 2, 3, 3, 5]);
    assert_eq!(*idx.get(1).unwrap(), vec![0u64]);
    assert_eq!(*idx.get(2).unwrap(), vec![1u64]);
    assert_eq!(*idx.get(3).unwrap(), vec![2u64, 3]);
    assert_eq!(*idx.get(5).unwrap(), vec![4u64]);
    assert!(idx.get(9).is_none());
    assert!(idx.get(4).is_none());
}

#[test]
fn text_column_lookups() {
    let idx = ArrowStringIndex::build(&texts(&["a", "b", "c", "c", "e"]));
    assert_eq!(*idx.get("a").unwrap(), vec![0u64]);
    assert_eq!(*idx.get("b").unwrap(), vec![1u64]);
    assert_eq!(*idx.get("c").unwrap(), vec![2u64, 3]);
    assert_eq!(*idx.get("e").unwrap(), vec![4u64]);
    assert!(idx.get("z").is_none());
    assert!(idx.get("").is_none());
    assert!(idx.get("cc").is_none());
}

#[test]
fn empty_columns_find_nothing() {
    let idx = ArrowInt64Index::build(&Vec::new());
    for key in [0i64, 1, -1, i64::MIN, i64::MAX] {
        assert!(idx.get(key).is_none());
    }
    let idx = ArrowUInt8Index::build(&Vec::new());
    for key in 0..=255u8 {
        assert!(idx.get(key).is_none());
    }
    let idx = ArrowStringIndex::build(&Vec::new());
    assert!(idx.get("").is_none());
    assert!(idx.get("a").is_none());
    assert!(ArrowInt64Index::from_column(ElementType::Int64, &Vec::new()).is_ok());
    assert!(ArrowStringIndex::from_column(ElementType::Utf8, &Vec::new()).is_ok());
}

#[test]
fn float_column_is_refused_for_int64_index() {
    let r = ArrowInt64Index::from_column(ElementType::Float32, &vec![1i64, 2]);
    assert_eq!(r.err(), Some(IndexError::TypeMismatch));
}

#[test]
fn declared_type_must_match_key_type() {
    let column = vec![1i32, 2, 2];
    let r = ArrowInt32Index::from_column(ElementType::Int64, &column);
    assert_eq!(r.err(), Some(IndexError::TypeMismatch));
    let r = ArrowInt32Index::from_column(ElementType::UInt32, &column);
    assert_eq!(r.err(), Some(IndexError::TypeMismatch));
    let idx = ArrowInt32Index::from_column(ElementType::Int32, &column).unwrap();
    assert_eq!(*idx.get(2).unwrap(), vec![1u64, 2]);

    let r = ArrowStringIndex::from_column(ElementType::Int64, &texts(&["x"]));
    assert_eq!(r.err(), Some(IndexError::TypeMismatch));
    let idx = ArrowStringIndex::from_column(ElementType::Utf8, &texts(&["x", "y", "x"])).unwrap();
    assert_eq!(*idx.get("x").unwrap(), vec![0u64, 2]);
    assert_eq!(
        ArrowUInt8Index::from_column(ElementType::Boolean, &vec![1u8]).err(),
        Some(IndexError::TypeMismatch)
    );
}

#[test]
fn repeated_value_column() {
    let idx = ArrowInt64Index::build(&vec![7i64, 7, 7]);
    assert_eq!(*idx.get(7).unwrap(), vec![0u64, 1, 2]);
    for key in [0i64, 6, 8, -7] {
        assert!(idx.get(key).is_none());
    }
}

#[test]
fn every_ordinal_lies_in_exactly_one_list() {
    let column = vec![4i16, -4, 4, 0, -4, 9, 4];
    let idx = ArrowInt16Index::build(&column);
    let mut keys = column.clone();
    keys.sort();
    keys.dedup();
    for i in 0..column.len() as u64 {
        let holders: Vec<i16> = keys
            .iter()
            .copied()
            .filter(|k| idx.get(*k).unwrap().contains(&i))
            .collect();
        assert_eq!(holders, vec![column[i as usize]]);
    }
}

#[test]
fn lists_are_increasing_and_exact() {
    let column = texts(&["q", "r", "q", "s", "r", "q"]);
    let idx = ArrowStringIndex::build(&column);
    for key in ["q", "r", "s"] {
        let list = idx.get(key).unwrap();
        assert!(list.windows(2).all(|w| w[0] < w[1]));
        let want: Vec<u64> = (0..column.len() as u64).filter(|i| column[*i as usize] == key).collect();
        assert_eq!(*list, want);
    }
    assert_eq!(*idx.get("q").unwrap(), vec![0u64, 2, 5]);
}

#[test]
fn building_twice_gives_the_same_lists() {
    let column = vec![3u32, 1, 3, 2, 1, 3];
    let a = ArrowUInt32Index::build(&column);
    let b = ArrowUInt32Index::build(&column);
    for key in 0..5u32 {
        assert_eq!(a.get(key), b.get(key));
    }
    assert_eq!(*a.get(3).unwrap(), vec![0u64, 2, 5]);
    let column = texts(&["b", "a", "b"]);
    let a = ArrowStringIndex::build(&column);
    let b = ArrowStringIndex::build(&column);
    for key in ["a", "b", "c"] {
        assert_eq!(a.get(key), b.get(key));
    }
}

#[test]
fn signed_and_extreme_keys_stay_apart() {
    let idx = ArrowInt8Index::build(&vec![-1i8, 127, -128, -1]);
    assert_eq!(*idx.get(-1).unwrap(), vec![0u64, 3]);
    assert_eq!(*idx.get(127).unwrap(), vec![1u64]);
    assert_eq!(*idx.get(-128).unwrap(), vec![2u64]);
    assert!(idx.get(1).is_none());

    let idx = ArrowInt64Index::build(&vec![-1i64, i64::MAX, i64::MIN]);
    assert_eq!(*idx.get(-1).unwrap(), vec![0u64]);
    assert_eq!(*idx.get(i64::MIN).unwrap(), vec![2u64]);

    let idx = ArrowUInt64Index::build(&vec![u64::MAX, 0, u64::MAX]);
    assert_eq!(*idx.get(u64::MAX).unwrap(), vec![0u64, 2]);
    assert_eq!(*idx.get(0).unwrap(), vec![1u64]);
    assert!(idx.get(1).is_none());
}

#[test]
fn key_types_of_element_types() {
    assert_eq!(key_type_of(ElementType::Int64), Ok(KeyType::Int64));
    assert_eq!(key_type_of(ElementType::UInt8), Ok(KeyType::UInt8));
    assert_eq!(key_type_of(ElementType::Utf8), Ok(KeyType::Utf8));
    assert_eq!(key_type_of(ElementType::Float32), Err(IndexError::UnsupportedKeyType));
    assert_eq!(key_type_of(ElementType::Boolean), Err(IndexError::UnsupportedKeyType));
    assert_eq!(key_type_of(ElementType::Other), Err(IndexError::UnsupportedKeyType));
    assert_eq!(KeyType::Int16.element_type(), ElementType::Int16);
}

#[test]
fn column_check_accepts_only_the_key_type() {
    assert_eq!(check_column(ElementType::Int64, KeyType::Int64), Ok(()));
    assert_eq!(check_column(ElementType::Utf8, KeyType::Utf8), Ok(()));
    assert_eq!(check_column(ElementType::Float32, KeyType::Int64), Err(IndexError::TypeMismatch));
    assert_eq!(check_column(ElementType::Int32, KeyType::Int64), Err(IndexError::TypeMismatch));
    assert_eq!(check_column(ElementType::UInt64, KeyType::Int64), Err(IndexError::TypeMismatch));
}
