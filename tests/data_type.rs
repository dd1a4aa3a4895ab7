use tidb_query_datatype::as_bool::bytes_as_mysql_bool_with;
use tidb_query_datatype::logical_rows::BATCH_MAX_SIZE;
use tidb_query_datatype::identical_logical_rows;
use vstd::seq::Seq;
use tidb_query_datatype::{
    bit_and_all, AsMySQLBool, BitAndIterator, BitVec, ChunkRef, ChunkedVec, ChunkedVecBytes,
    ChunkedVecJson, ChunkedVecSized, ConvertToReal, DateTime, Decimal, Duration, EvalError,
    EvalType, Evaluable, EvaluableRef, EvaluableRet, Json, JsonRef, LogicalRows, Real,
    ScalarValue, UnsafeRefInto, VectorValue,
};

/// Converts the way the evaluator's default context does for these inputs:
/// surrounding spaces are ignored, anything else that is not a finite number
/// is an error.
struct TestContext;

impl ConvertToReal for TestContext {
    // Read by the verifier only; never called when the tests run.
    fn spec_convert(&self, _bytes: Seq<u8>) -> Result<Real, EvalError> {
        unreachable!()
    }

    // Read by the verifier only; never called when the tests run.
    fn spec_after_convert(&self, _bytes: Seq<u8>) -> Self {
        unreachable!()
    }

    fn convert_bytes_to_real(&mut self, bytes: &[u8]) -> Result<Real, EvalError> {
        let s = std::str::from_utf8(bytes)
            .map_err(|_| EvalError::InvalidFormat("not utf-8".to_string()))?;
        let f: f64 = s
            .trim()
            .parse()
            .map_err(|_| EvalError::InvalidFormat(s.to_string()))?;
        if f.is_infinite() {
            return Err(EvalError::Overflow(s.to_string()));
        }
        Real::new(f.to_bits()).map_err(|_| EvalError::InvalidFormat(s.to_string()))
    }
}

fn real_of(f: f64) -> Real {
    Real::new(f.to_bits()).unwrap()
}

#[test]
fn test_bytes_as_bool() {
    let tests: Vec<(&'static [u8], Option<bool>)> = vec![
        (b"", Some(false)),
        (b" 23", Some(true)),
        (b"-1", Some(true)),
        (b"1.11", Some(true)),
        (b"1.11.00", None),
        (b"xx", None),
        (b"0x00", None),
        (b"11.xx", None),
        (b"xx.11", None),
        (
            b".0000000000000000000000000000000000000000000000000000001",
            Some(true),
        ),
    ];

    let mut ctx = TestContext;
    for (i, (v, expect)) in tests.into_iter().enumerate() {
        let rb: Result<bool, EvalError> = v.to_vec().as_mysql_bool(&mut ctx);
        match expect {
            Some(val) => {
                assert_eq!(rb.unwrap(), val);
            }
            None => {
                assert!(
                    rb.is_err(),
                    "index: {}, {:?} should not be converted, but got: {:?}",
                    i,
                    v,
                    rb
                );
            }
        }
    }

    // test overflow
    let mut ctx = TestContext;
    let val: Result<bool, EvalError> = f64::INFINITY
        .to_string()
        .as_bytes()
        .to_vec()
        .as_mysql_bool(&mut ctx);
    assert!(val.is_err());

    let mut ctx = TestContext;
    let val: Result<bool, EvalError> = f64::NEG_INFINITY
        .to_string()
        .as_bytes()
        .to_vec()
        .as_mysql_bool(&mut ctx);
    assert!(val.is_err());
}

#[test]
fn test_real_as_bool() {
    let tests: Vec<(f64, Option<bool>)> = vec![
        (0.0, Some(false)),
        (1.3, Some(true)),
        (-1.234, Some(true)),
        (0.000000000000000000000000000000001, Some(true)),
        (-0.00000000000000000000000000000001, Some(true)),
        (f64::MAX, Some(true)),
        (f64::MIN, Some(true)),
        (f64::MIN_POSITIVE, Some(true)),
        (f64::INFINITY, Some(true)),
        (f64::NEG_INFINITY, Some(true)),
        (f64::NAN, None),
    ];

    let mut ctx = TestContext;
    for (f, expected) in tests {
        match Real::new(f.to_bits()) {
            Ok(b) => {
                let r = b.as_mysql_bool(&mut ctx).unwrap();
                assert_eq!(r, expected.unwrap());
            }
            Err(_) => assert!(expected.is_none(), "{} to bool should fail", f,),
        }
    }
}

#[test]
fn negative_zero_real_is_false() {
    let mut ctx = TestContext;
    assert_eq!(real_of(-0.0).as_mysql_bool(&mut ctx), Ok(false));
    assert!(real_of(-0.0).is_zero());
    assert!(!real_of(2.5).is_zero());
    assert_eq!(real_of(2.5).to_bits(), 2.5f64.to_bits());
}

#[test]
fn int_truthiness() {
    let mut ctx = TestContext;
    assert_eq!(0i64.as_mysql_bool(&mut ctx), Ok(false));
    assert_eq!(7i64.as_mysql_bool(&mut ctx), Ok(true));
    assert_eq!((-1i64).as_mysql_bool(&mut ctx), Ok(true));
    assert_eq!(i64::MIN.as_mysql_bool(&mut ctx), Ok(true));
}

#[test]
fn absent_values_are_false() {
    let mut ctx = TestContext;
    let none_int: Option<&i64> = None;
    assert_eq!(none_int.as_mysql_bool(&mut ctx), Ok(false));
    assert_eq!(Some(&3i64).as_mysql_bool(&mut ctx), Ok(true));
    let none_bytes: Option<&[u8]> = None;
    assert_eq!(none_bytes.as_mysql_bool(&mut ctx), Ok(false));
    let some_bytes: Option<&[u8]> = Some(b"12");
    assert_eq!(some_bytes.as_mysql_bool(&mut ctx), Ok(true));
    let none_json: Option<JsonRef> = None;
    assert_eq!(none_json.as_mysql_bool(&mut ctx), Ok(false));
}

#[test]
fn json_is_always_false() {
    let mut ctx = TestContext;
    let payloads: Vec<(u8, Vec<u8>)> = vec![
        (0x01, vec![2, 0, 0, 0, 0, 0, 0, 0]),
        (0x0c, b"\x05hello".to_vec()),
        (0x04, vec![1]),
        (0x09, vec![1, 0, 0, 0, 0, 0, 0, 0]),
    ];
    for (code, value) in payloads.iter() {
        let j = JsonRef::new(*code, value);
        assert_eq!(j.as_mysql_bool(&mut ctx), Ok(false));
        assert_eq!(Some(j).as_mysql_bool(&mut ctx), Ok(false));
    }
}

#[test]
fn bytes_truthiness_from_converted_value() {
    let zero = real_of(0.0);
    let one = real_of(1.0);
    assert_eq!(bytes_as_mysql_bool_with(b"", Ok(one)), Ok(false));
    assert_eq!(bytes_as_mysql_bool_with(b"x", Ok(one)), Ok(true));
    assert_eq!(bytes_as_mysql_bool_with(b"0", Ok(zero)), Ok(false));
    let err = EvalError::InvalidFormat("x".to_string());
    assert_eq!(bytes_as_mysql_bool_with(b"x", Err(err.clone())), Err(err));
    let over = EvalError::Overflow("inf".to_string());
    assert_eq!(bytes_as_mysql_bool_with(b"inf", Err(over.clone())), Err(over));
    let mut ctx = TestContext;
    assert_eq!(b"0".to_vec().as_mysql_bool(&mut ctx), Ok(false));
    assert_eq!(b" 0.0 ".to_vec().as_mysql_bool(&mut ctx), Ok(false));
}

#[test]
fn nan_pattern_is_refused() {
    assert!(Real::new(f64::NAN.to_bits()).is_err());
    assert!(Real::new(0x7ff0_0000_0000_0001).is_err());
    assert!(Real::new(0x7ff0_0000_0000_0000).is_ok());
}

#[test]
fn bit_vec_push_get_set() {
    let mut bv = BitVec::new();
    for i in 0..20 {
        bv.push(i % 3 == 0);
    }
    assert_eq!(bv.len(), 20);
    for i in 0..20 {
        assert_eq!(bv.get(i), i % 3 == 0);
    }
    bv.set(1, true);
    bv.set(9, false);
    assert!(bv.get(1));
    assert!(!bv.get(9));
    assert!(bv.get(0));
    assert!(bv.get(3));
    assert!(!bv.get(2));
}

#[test]
fn bit_and_over_masks() {
    let mut a = BitVec::new();
    let mut b = BitVec::new();
    let mut c = BitVec::new();
    for i in 0..10 {
        a.push(i % 2 == 0);
        b.push(i % 3 != 1);
        c.push(i != 6);
    }
    let vecs = [&a, &b, &c];
    let all = bit_and_all(&vecs, 10);
    let expected: Vec<bool> = (0..10)
        .map(|i| i % 2 == 0 && i % 3 != 1 && i != 6)
        .collect();
    assert_eq!(all, expected);
    let mut it = BitAndIterator::new(&vecs, 10);
    for e in expected.iter() {
        assert_eq!(it.next(), Some(*e));
    }
    assert_eq!(it.next(), None);
    let none: [&BitVec; 0] = [];
    assert_eq!(bit_and_all(&none, 3), vec![true, true, true]);
}

#[test]
fn sized_push_none_reads_absent() {
    let mut v: ChunkedVecSized<i64> = ChunkedVecSized::with_capacity(4);
    v.push(Some(5));
    v.push(None);
    assert_eq!(v.len(), 2);
    assert_eq!(v.get_option_ref(0), Some(&5));
    assert_eq!(v.get_option_ref(1), None);
    assert!(v.bitmap().get(0));
    assert!(!v.bitmap().get(1));
}

#[test]
fn bytes_push_none_reads_absent() {
    let mut v = ChunkedVecBytes::new();
    v.push_data_ref(b"xy");
    v.push_null();
    assert_eq!(v.len(), 2);
    assert_eq!(v.get_option_ref(1), None);
    assert!(!v.bitmap().get(1));
    assert_eq!(v.offsets(), &[0, 2, 2]);
}

#[test]
fn json_push_none_reads_absent() {
    let mut v = ChunkedVecJson::new();
    v.push(None);
    assert_eq!(v.len(), 1);
    assert!(v.get_option_ref(0).is_none());
    assert!(!v.bitmap().get(0));
}

#[test]
fn push_some_reads_back_every_type() {
    let mut ints: ChunkedVecSized<i64> = ChunkedVec::chunked_with_capacity(2);
    ints.chunked_push(Some(-42));
    assert_eq!(ints.get_option_ref(0), Some(&-42));

    let mut reals: ChunkedVecSized<Real> = ChunkedVecSized::new();
    reals.push(Some(real_of(1.5)));
    assert_eq!(reals.get_option_ref(0), Some(&real_of(1.5)));

    let mut decs: ChunkedVecSized<Decimal> = ChunkedVecSized::new();
    decs.push(Some(Decimal { packed: 12345 }));
    assert_eq!(decs.get_option_ref(0), Some(&Decimal { packed: 12345 }));

    let mut times: ChunkedVecSized<DateTime> = ChunkedVecSized::new();
    times.push(Some(DateTime { packed: 99 }));
    assert_eq!(times.get_option_ref(0), Some(&DateTime { packed: 99 }));

    let mut durs: ChunkedVecSized<Duration> = ChunkedVecSized::new();
    durs.push(Some(Duration { nanos: -7, fsp: 3 }));
    assert_eq!(durs.get_option_ref(0), Some(&Duration { nanos: -7, fsp: 3 }));

    let mut bytes = ChunkedVecBytes::new();
    bytes.chunked_push(Some(b"abc".to_vec()));
    assert_eq!(bytes.get_option_ref(0), Some(&b"abc"[..]));

    let mut json = ChunkedVecJson::new();
    json.chunked_push(Some(Json { type_code: 0x0c, value: b"\x01z".to_vec() }));
    let j = json.get_option_ref(0).unwrap();
    assert_eq!(j.type_code, 0x0c);
    assert_eq!(j.value, b"\x01z");
}

#[test]
fn writer_rows_and_offsets() {
    let v = ChunkedVecBytes::with_capacity(2);
    let v = v.into_writer().write_ref(Some(b"")).into_inner();
    let v = v.into_writer().write(Some(b"ab".to_vec())).into_inner();
    assert_eq!(v.offsets(), &[0, 0, 2]);
    assert_eq!(v.get_option_ref(0), Some(&b""[..]));
    assert_eq!(v.get_option_ref(1), Some(&b"ab"[..]));
}

#[test]
fn partial_writer_finishes_rows() {
    let v = ChunkedVecBytes::new();
    let mut w = v.into_writer().begin();
    w.partial_write(b"he");
    w.partial_write(b"llo");
    let v = w.finish().into_inner();
    // a row finished without any write is present and empty
    let v = v.into_writer().begin().finish().into_inner();
    let v = v.into_writer().write(None).into_inner();
    assert_eq!(v.len(), 3);
    assert_eq!(v.get_option_ref(0), Some(&b"hello"[..]));
    assert_eq!(v.get_option_ref(1), Some(&b""[..]));
    assert_eq!(v.get_option_ref(2), None);
    assert_eq!(v.offsets(), &[0, 5, 5, 5]);
}

#[test]
fn logical_rows_mapping() {
    let ident = LogicalRows::new_ident(5);
    assert!(ident.is_ident());
    assert_eq!(ident.len(), 5);
    for i in 0..5 {
        assert_eq!(ident.get_idx(i), i);
    }
    let rows = [4usize, 0, 2];
    let mapped = LogicalRows::from_slice(&rows);
    assert!(!mapped.is_ident());
    assert_eq!(mapped.len(), 3);
    assert_eq!(mapped.get_idx(0), 4);
    assert_eq!(mapped.get_idx(2), 2);
    assert!(LogicalRows::new_ident(0).is_empty());
    assert_eq!(BATCH_MAX_SIZE, 1024);
}

#[test]
fn scalar_borrowing() {
    let s = ScalarValue::Int(Some(10));
    assert_eq!(s.eval_type(), EvalType::Int);
    assert_eq!(<i64 as Evaluable>::borrow_scalar_value(&s), Some(&10));
    assert_eq!(<i64 as Evaluable>::borrow_scalar_value_ref(s.as_scalar_value_ref()), Some(&10));
    assert_eq!(<&i64 as EvaluableRef>::borrow_scalar_value(&s), Some(&10));

    let b = ScalarValue::Bytes(Some(b"hi".to_vec()));
    assert_eq!(<&[u8] as EvaluableRef>::borrow_scalar_value(&b), Some(&b"hi"[..]));
    let r = b.as_scalar_value_ref();
    assert_eq!(r.eval_type(), EvalType::Bytes);
    assert_eq!(<&[u8] as EvaluableRef>::borrow_scalar_value_ref(r), Some(&b"hi"[..]));

    let n = ScalarValue::Json(None);
    assert!(n.is_none());
    assert!(n.as_scalar_value_ref().is_none());
    assert!(<JsonRef as EvaluableRef>::borrow_scalar_value(&n).is_none());
}

#[test]
fn vector_borrowing_and_wrapping() {
    let mut c: ChunkedVecSized<i64> = ChunkedVecSized::new();
    c.push(Some(1));
    c.push(None);
    let v = <i64 as EvaluableRet>::into_vector_value(c);
    assert_eq!(v.eval_type(), EvalType::Int);
    assert_eq!(v.len(), 2);
    let chunk = <&i64 as EvaluableRef>::borrow_vector_value(&v);
    assert_eq!(chunk.get_option_ref(0), Some(&1));
    assert_eq!(ChunkRef::get_option_ref(chunk, 1), None);
    assert!(!chunk.get_bit_vec().get(1));
    assert!(ChunkRef::phantom_data(chunk).is_none());
    assert_eq!(<i64 as Evaluable>::borrow_vector_value(&v).len(), 2);

    let mut bc = ChunkedVecBytes::new();
    bc.push(Some(b"q".to_vec()));
    let bv = <Vec<u8> as EvaluableRet>::into_vector_value(bc);
    assert_eq!(bv.eval_type(), EvalType::Bytes);
    let bchunk = <&[u8] as EvaluableRef>::borrow_vector_value(&bv);
    assert_eq!(ChunkRef::get_option_ref(bchunk, 0), Some(&b"q"[..]));

    let mut jc = ChunkedVecJson::new();
    jc.push_data_ref(JsonRef::new(1, b"ab"));
    let jv = VectorValue::Json(jc);
    assert_eq!(jv.eval_type(), EvalType::Json);
    let jchunk = <JsonRef as EvaluableRef>::borrow_vector_value(&jv);
    assert_eq!(ChunkRef::get_option_ref(jchunk, 0).unwrap().value, b"ab");
}

#[test]
fn owned_round_trip() {
    let x = 77i64;
    let owned = EvaluableRef::to_owned_value(&x);
    assert_eq!(<&i64 as EvaluableRef>::from_owned_value(&owned), &77);

    let bytes: &[u8] = b"round";
    let owned = bytes.to_owned_value();
    assert_eq!(owned, b"round".to_vec());
    assert_eq!(<&[u8] as EvaluableRef>::from_owned_value(&owned), bytes);

    let payload = vec![3u8, 1, 4];
    let j = JsonRef::new(0x0c, &payload);
    let owned = j.to_owned_value();
    assert_eq!(owned.type_code, 0x0c);
    assert_eq!(owned.value, payload);
    let back = JsonRef::from_owned_value(&owned);
    assert_eq!(back.type_code, 0x0c);
    assert_eq!(back.value, &payload[..]);
}

#[test]
fn detached_values_are_copies() {
    let bytes = b"keep".to_vec();
    let kept: Vec<u8> = bytes.as_slice().unsafe_into();
    assert_eq!(kept, bytes);
    let x = 5i64;
    let y: i64 = (&x).unsafe_into();
    assert_eq!(y, 5);
    let some: Option<&[u8]> = Some(b"z");
    let detached: Option<Vec<u8>> = some.unsafe_into();
    assert_eq!(detached, Some(b"z".to_vec()));
    let j = JsonRef::new(4, b"\x01");
    let owned: Json = j.unsafe_into();
    assert_eq!(owned.value, vec![1]);
}

#[test]
fn columns_compare_row_by_row() {
    let mut a: ChunkedVecSized<i64> = ChunkedVecSized::new();
    let mut b: ChunkedVecSized<i64> = ChunkedVecSized::new();
    a.push(Some(1));
    a.push(None);
    b.push(Some(1));
    b.push(None);
    assert!(a.same_rows(&b));
    b.push(Some(0));
    a.push(None);
    assert!(!a.same_rows(&b));

    let mut x = ChunkedVecBytes::new();
    let mut y = ChunkedVecBytes::new();
    x.push(Some(b"ab".to_vec()));
    y.push_data_ref(b"ab");
    x.push_null();
    y.push_null();
    assert!(x.same_rows(&y));
    x.push_data_ref(b"c");
    y.push_data_ref(b"d");
    assert!(!x.same_rows(&y));

    let mut j1 = ChunkedVecJson::new();
    let mut j2 = ChunkedVecJson::new();
    j1.push_data(Json { type_code: 1, value: vec![9] });
    j2.push_data_ref(JsonRef::new(1, &[9]));
    assert!(j1.same_rows(&j2));
    j1.push_null();
    j2.push_data_ref(JsonRef::new(2, &[9]));
    assert!(!j1.same_rows(&j2));

    assert!(real_of(0.5).same_value(&real_of(0.5)));
    assert!(!Duration { nanos: 1, fsp: 0 }.same_value(&Duration { nanos: 1, fsp: 1 }));
}

#[test]
fn empty_column_per_type_tag() {
    let tags = [
        EvalType::Int,
        EvalType::Real,
        EvalType::Decimal,
        EvalType::Bytes,
        EvalType::DateTime,
        EvalType::Duration,
        EvalType::Json,
    ];
    for tag in tags.iter() {
        let v = VectorValue::with_capacity(8, *tag);
        assert_eq!(v.eval_type(), *tag);
        assert_eq!(v.len(), 0);
        assert!(v.is_empty());
    }
}

/// Counts the conversions asked of it and answers with a fixed value.
struct CountingContext {
    calls: usize,
    answer: Result<Real, EvalError>,
}

impl ConvertToReal for CountingContext {
    // Read by the verifier only; never called when the tests run.
    fn spec_convert(&self, _bytes: Seq<u8>) -> Result<Real, EvalError> {
        unreachable!()
    }

    // Read by the verifier only; never called when the tests run.
    fn spec_after_convert(&self, _bytes: Seq<u8>) -> Self {
        unreachable!()
    }

    fn convert_bytes_to_real(&mut self, _bytes: &[u8]) -> Result<Real, EvalError> {
        self.calls += 1;
        self.answer.clone()
    }
}

#[test]
fn converter_called_only_for_non_empty_bytes() {
    let mut ctx = CountingContext { calls: 0, answer: Ok(real_of(0.0)) };
    assert_eq!(0i64.as_mysql_bool(&mut ctx), Ok(false));
    assert_eq!(real_of(3.0).as_mysql_bool(&mut ctx), Ok(true));
    assert_eq!(JsonRef::new(1, b"x").as_mysql_bool(&mut ctx), Ok(false));
    assert_eq!(b"".to_vec().as_mysql_bool(&mut ctx), Ok(false));
    let none: Option<&[u8]> = None;
    assert_eq!(none.as_mysql_bool(&mut ctx), Ok(false));
    assert_eq!(ctx.calls, 0);
    // the answer decides, whatever the bytes say
    assert_eq!(b"5".to_vec().as_mysql_bool(&mut ctx), Ok(false));
    assert_eq!(ctx.calls, 1);
    let some: Option<&[u8]> = Some(b"x");
    assert_eq!(some.as_mysql_bool(&mut ctx), Ok(false));
    assert_eq!(ctx.calls, 2);
    let err = EvalError::Overflow("big".to_string());
    let mut failing = CountingContext { calls: 0, answer: Err(err.clone()) };
    assert_eq!((&b"1".to_vec()).as_mysql_bool(&mut failing), Err(err));
    assert_eq!(failing.calls, 1);
}

#[test]
fn piecewise_rows_buffer_and_offsets() {
    let mut v = ChunkedVecBytes::new();
    v.push_data_ref(b"x");
    let mut w = v.into_writer().begin();
    w.partial_write(b"ab");
    w.partial_write(b"");
    w.partial_write(b"cd");
    let v = w.finish().into_inner();
    let v = v.into_writer().begin().finish().into_inner();
    assert_eq!(v.data(), b"xabcd");
    assert_eq!(v.offsets(), &[0, 1, 5, 5]);
    assert!(v.bitmap().get(2));
    assert_eq!(v.get_option_ref(2), Some(&b""[..]));
}

#[test]
fn writer_guard_rows_from_empty_column() {
    let c = ChunkedVecBytes::with_capacity(0);
    let c = c.into_writer().begin().finish().into_inner();
    let mut w = c.into_writer().begin();
    w.partial_write(b"ab");
    let c = w.finish().into_inner();
    let v = VectorValue::Bytes(c);
    let chunk = <&[u8] as EvaluableRef>::borrow_vector_value(&v);
    assert_eq!(chunk.offsets(), &[0, 0, 2]);
    assert_eq!(chunk.data(), b"ab");
    assert_eq!(chunk.len(), 2);
    assert!(chunk.get_bit_vec().get(0));
    assert!(chunk.get_bit_vec().get(1));
}

#[test]
fn zeros_of_either_sign_are_equal() {
    assert!(real_of(0.0).same_value(&real_of(-0.0)));
    assert!(!real_of(0.0).same_value(&real_of(f64::MIN_POSITIVE)));
    let mut a: ChunkedVecSized<Real> = ChunkedVecSized::new();
    let mut b: ChunkedVecSized<Real> = ChunkedVecSized::new();
    a.push(Some(real_of(-0.0)));
    b.push(Some(real_of(0.0)));
    assert!(a.same_rows(&b));
}

#[test]
fn identical_rows_cover_a_batch() {
    let rows = identical_logical_rows();
    assert!(rows.is_ident());
    assert_eq!(rows.len(), BATCH_MAX_SIZE);
    assert_eq!(rows.get_idx(BATCH_MAX_SIZE - 1), BATCH_MAX_SIZE - 1);
}
