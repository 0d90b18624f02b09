use ripsaw::stdlib::util::is_nullish;
use ripsaw::value::crud::{get, get_mut, BorrowedSegment};
use ripsaw::value::kind;
use ripsaw::value::Value;

fn ints(xs: &[i64]) -> Value {
    Value::Array(xs.iter().map(|x| Value::Integer(*x)).collect())
}

fn object(entries: Vec<(&str, Value)>) -> Value {
    Value::Object(entries.into_iter().map(|(k, v)| (k.to_string(), v)).collect())
}

#[test]
fn test_negative_index() {
    let value = ints(&[0, 1, 2, 3]);
    assert_eq!(get(&value, &[BorrowedSegment::Index(-1)]).cloned(), Some(Value::Integer(3)));
    assert_eq!(get(&value, &[BorrowedSegment::Index(-5)]).cloned(), None);
}

#[test]
fn get_follows_fields_and_indices() {
    let value = object(vec![("a", object(vec![("b", ints(&[5, 6, 7]))])), ("c", Value::Null)]);
    let path = [BorrowedSegment::Field("a"), BorrowedSegment::Field("b"), BorrowedSegment::Index(1)];
    assert_eq!(get(&value, &path), Some(&Value::Integer(6)));
    assert_eq!(get(&value, &[]), Some(&value));
    assert_eq!(get(&value, &[BorrowedSegment::Field("z")]), None);
    assert_eq!(get(&value, &[BorrowedSegment::Index(0)]), None);
    assert_eq!(get(&value, &[BorrowedSegment::Field("c"), BorrowedSegment::Field("d")]), None);
    assert_eq!(get(&value, &[BorrowedSegment::Invalid]), None);
    assert_eq!(get(&ints(&[1, 2]), &[BorrowedSegment::Index(-2)]), Some(&Value::Integer(1)));
    assert_eq!(get(&ints(&[1, 2]), &[BorrowedSegment::Index(2)]), None);
}

#[test]
fn get_mut_writes_where_get_reads() {
    let mut value = object(vec![("a", ints(&[1, 2, 3]))]);
    let path = [BorrowedSegment::Field("a"), BorrowedSegment::Index(-1)];
    {
        let slot = get_mut(&mut value, &path).unwrap();
        assert_eq!(*slot, Value::Integer(3));
        *slot = Value::Boolean(true);
    }
    assert_eq!(get(&value, &path), Some(&Value::Boolean(true)));
    assert_eq!(value, object(vec![("a", Value::Array(vec![Value::Integer(1), Value::Integer(2), Value::Boolean(true)]))]));
    assert!(get_mut(&mut value, &[BorrowedSegment::Field("b")]).is_none());
    assert_eq!(value, object(vec![("a", Value::Array(vec![Value::Integer(1), Value::Integer(2), Value::Boolean(true)]))]));
}

#[test]
fn nullish_values() {
    assert!(is_nullish(&Value::Null));
    assert!(is_nullish(&Value::Bytes(vec![])));
    assert!(is_nullish(&Value::Bytes(b"-".to_vec())));
    assert!(is_nullish(&Value::Bytes(" \t\n".as_bytes().to_vec())));
    assert!(is_nullish(&Value::Bytes("\u{3000}\u{a0}".as_bytes().to_vec())));
    assert!(!is_nullish(&Value::Bytes(b"--".to_vec())));
    assert!(!is_nullish(&Value::Bytes(b" x ".to_vec())));
    assert!(!is_nullish(&Value::Bytes(vec![0xff, 0x20])));
    assert!(!is_nullish(&Value::Integer(0)));
    assert!(!is_nullish(&Value::Boolean(false)));
}

#[test]
fn kinds_of_values() {
    assert_eq!(Value::Null.kind(), kind::NULL);
    assert_eq!(ints(&[]).kind(), kind::ARRAY);
    assert_eq!(Value::Bytes(vec![]).kind(), kind::BYTES);
    assert_eq!(object(vec![]).kind(), kind::OBJECT);
    assert_eq!(kind::ANY & kind::UNDEFINED, 0);
    assert_eq!(kind::ANY & kind::TIMESTAMP, kind::TIMESTAMP);
}

#[test]
fn clones_are_equal() {
    let value = object(vec![("a", ints(&[1, 2])), ("b", Value::Regex("x+".to_string()))]);
    assert_eq!(value.clone(), value);
}

#[test]
fn writes_keep_object_keys_in_order() {
    let mut value = object(vec![("a", Value::Integer(1)), ("b", object(vec![("c", Value::Null), ("d", Value::Null)]))]);
    {
        let slot = get_mut(&mut value, &[BorrowedSegment::Field("b"), BorrowedSegment::Field("d")]).unwrap();
        *slot = Value::Integer(4);
    }
    assert_eq!(
        value,
        object(vec![("a", Value::Integer(1)), ("b", object(vec![("c", Value::Null), ("d", Value::Integer(4))]))])
    );
    let keys: Vec<&str> = match &value {
        Value::Object(es) => es.iter().map(|(k, _)| k.as_str()).collect(),
        _ => vec![],
    };
    assert_eq!(keys, vec!["a", "b"]);
}

#[test]
fn following_a_path_in_two_parts() {
    let value = object(vec![("a", object(vec![("b", ints(&[7, 8]))]))]);
    let whole = [BorrowedSegment::Field("a"), BorrowedSegment::Field("b"), BorrowedSegment::Index(1)];
    let first = [BorrowedSegment::Field("a")];
    let rest = [BorrowedSegment::Field("b"), BorrowedSegment::Index(1)];
    let mid = get(&value, &first).unwrap();
    assert_eq!(get(&value, &whole), get(mid, &rest));
    assert_eq!(get(&value, &whole), Some(&Value::Integer(8)));
    let missing = [BorrowedSegment::Field("z")];
    assert_eq!(get(&value, &missing), None);
}

#[test]
fn writing_back_what_is_there_changes_nothing() {
    let mut value = object(vec![("a", ints(&[1, 2]))]);
    let before = value.clone();
    {
        let slot = get_mut(&mut value, &[BorrowedSegment::Field("a"), BorrowedSegment::Index(0)]).unwrap();
        let same = slot.clone();
        *slot = same;
    }
    assert_eq!(value, before);
    assert!(get_mut(&mut value, &[BorrowedSegment::Field("a"), BorrowedSegment::Index(5)]).is_none());
    assert_eq!(value, before);
}
