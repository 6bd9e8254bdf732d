use std::cell::Cell;

use edge_gateway::dispatch::{Gateway, Step};
use edge_gateway::error::{DispatchError, DriverError, ErrorKind, LoadError};
use edge_gateway::model::{
    AccessMode, DataType, Point, PointWithProtocolId, ReaderPointRequest, Value, WriterPointRequest,
};
use edge_gateway::registry::Driver;

/// Echoes writes and answers reads with a fixed value, counting its calls.
struct EchoDriver {
    tag: i64,
    reads: Cell<usize>,
    writes: Cell<usize>,
}

impl EchoDriver {
    fn new(tag: i64) -> Self {
        EchoDriver { tag, reads: Cell::new(0), writes: Cell::new(0) }
    }
}

impl Driver for EchoDriver {
    fn read_point(&self, _request: &ReaderPointRequest) -> Result<Value, DriverError> {
        self.reads.set(self.reads.get() + 1);
        Ok(Value::Integer(self.tag))
    }

    fn write_point(&self, request: &WriterPointRequest) -> Result<Value, DriverError> {
        self.writes.set(self.writes.get() + 1);
        Ok(request.value.clone())
    }
}

/// Clamps integer writes to at most 100.
struct ClampDriver;

impl Driver for ClampDriver {
    fn read_point(&self, _request: &ReaderPointRequest) -> Result<Value, DriverError> {
        Ok(Value::Integer(0))
    }

    fn write_point(&self, request: &WriterPointRequest) -> Result<Value, DriverError> {
        match request.value {
            Value::Integer(i) if i > 100 => Ok(Value::Integer(100)),
            ref v => Ok(v.clone()),
        }
    }
}

/// Fails every call, or answers with a value of the wrong type.
struct BadDriver {
    wrong_type: bool,
}

impl Driver for BadDriver {
    fn read_point(&self, _request: &ReaderPointRequest) -> Result<Value, DriverError> {
        if self.wrong_type {
            Ok(Value::Text("oops".to_string()))
        } else {
            Err(DriverError::Timeout)
        }
    }

    fn write_point(&self, _request: &WriterPointRequest) -> Result<Value, DriverError> {
        Err(DriverError::Connection("refused".to_string()))
    }
}

fn point(id: i64, protocol: &str, mode: AccessMode) -> PointWithProtocolId {
    PointWithProtocolId {
        point_id: id,
        device_id: 1,
        address: "40001".to_string(),
        data_type: DataType::Integer,
        access_mode: mode,
        multiplier: 1,
        precision: 0,
        description: "holding register".to_string(),
        part_number: None,
        protocol_name: protocol.to_string(),
    }
}

#[test]
fn write_then_shadow_read_skips_driver() {
    let mut g: Gateway<EchoDriver> = Gateway::new();
    assert!(g.register_protocol("mockA".to_string(), EchoDriver::new(7)).is_ok());
    let p = point(1, "mockA", AccessMode::ReadWrite);
    assert_eq!(g.write(&p, Value::Integer(42), 10), Ok(Value::Integer(42)));
    assert_eq!(g.read(&p, true, 11), Ok(Value::Integer(42)));
    let d = g.registry.get(&"mockA".to_string()).unwrap();
    assert_eq!(d.writes.get(), 1);
    assert_eq!(d.reads.get(), 0);
}

#[test]
fn read_without_shadow_calls_driver_and_caches() {
    let mut g: Gateway<EchoDriver> = Gateway::new();
    g.register_protocol("mockA".to_string(), EchoDriver::new(5)).unwrap();
    let p = point(2, "mockA", AccessMode::ReadOnly);
    assert_eq!(g.read(&p, false, 3), Ok(Value::Integer(5)));
    assert_eq!(g.shadow.get(2), Some((Value::Integer(5), 3)));
    assert_eq!(g.registry.get(&"mockA".to_string()).unwrap().reads.get(), 1);
}

#[test]
fn stale_entry_goes_to_driver() {
    let mut g: Gateway<EchoDriver> = Gateway::new();
    g.register_protocol("mockA".to_string(), EchoDriver::new(9)).unwrap();
    let p = point(3, "mockA", AccessMode::ReadWrite);
    g.write(&p, Value::Integer(1), 1).unwrap();
    g.shadow.mark_stale(3);
    assert_eq!(g.read(&p, true, 2), Ok(Value::Integer(9)));
    assert_eq!(g.registry.get(&"mockA".to_string()).unwrap().reads.get(), 1);
}

#[test]
fn read_of_unregistered_protocol_is_not_found() {
    let mut g: Gateway<EchoDriver> = Gateway::new();
    g.register_protocol("mockA".to_string(), EchoDriver::new(1)).unwrap();
    let p = point(4, "missing", AccessMode::ReadWrite);
    let r = g.read(&p, true, 1);
    assert_eq!(r, Err(DispatchError::NoSuchProtocol("missing".to_string())));
    assert_eq!(r.unwrap_err().kind(), ErrorKind::NotFound);
    assert_eq!(g.shadow.len(), 0);
}

#[test]
fn clamped_write_reflects_committed_value() {
    let mut g: Gateway<ClampDriver> = Gateway::new();
    g.register_protocol("clamp".to_string(), ClampDriver).unwrap();
    let p = point(5, "clamp", AccessMode::ReadWrite);
    assert_eq!(g.write(&p, Value::Integer(200), 4), Ok(Value::Integer(100)));
    assert_eq!(g.shadow.get(5), Some((Value::Integer(100), 4)));
}

#[test]
fn write_to_read_only_point_is_refused() {
    let mut g: Gateway<EchoDriver> = Gateway::new();
    g.register_protocol("mockA".to_string(), EchoDriver::new(1)).unwrap();
    let p = point(6, "mockA", AccessMode::ReadOnly);
    g.read(&p, false, 1).unwrap();
    let r = g.write(&p, Value::Integer(3), 2);
    assert_eq!(r, Err(DispatchError::AccessMode { point_id: 6, mode: AccessMode::ReadOnly }));
    assert_eq!(r.unwrap_err().kind(), ErrorKind::AccessMode);
    assert_eq!(g.shadow.get(6), Some((Value::Integer(1), 1)));
    assert_eq!(g.registry.get(&"mockA".to_string()).unwrap().writes.get(), 0);
}

#[test]
fn read_of_write_only_point_is_refused() {
    let mut g: Gateway<EchoDriver> = Gateway::new();
    g.register_protocol("mockA".to_string(), EchoDriver::new(1)).unwrap();
    let p = point(7, "mockA", AccessMode::WriteOnly);
    let r = g.read(&p, false, 1);
    assert_eq!(r, Err(DispatchError::AccessMode { point_id: 7, mode: AccessMode::WriteOnly }));
}

#[test]
fn write_with_wrong_tag_is_type_mismatch() {
    let mut g: Gateway<EchoDriver> = Gateway::new();
    g.register_protocol("mockA".to_string(), EchoDriver::new(1)).unwrap();
    let p = point(8, "mockA", AccessMode::ReadWrite);
    let r = g.write(&p, Value::Boolean(true), 1);
    assert_eq!(r, Err(DispatchError::TypeMismatch { point_id: 8, expected: DataType::Integer }));
    assert_eq!(r.unwrap_err().kind(), ErrorKind::Validation);
    assert_eq!(g.write(&p, Value::Null, 1).unwrap_err().kind(), ErrorKind::Validation);
    assert_eq!(g.shadow.len(), 0);
}

#[test]
fn driver_errors_are_wrapped_with_context() {
    let mut g: Gateway<BadDriver> = Gateway::new();
    g.register_protocol("bad".to_string(), BadDriver { wrong_type: false }).unwrap();
    let p = point(9, "bad", AccessMode::ReadWrite);
    let r = g.write(&p, Value::Integer(1), 1);
    assert_eq!(
        r,
        Err(DispatchError::DriverFailure {
            point_id: 9,
            protocol: "bad".to_string(),
            error: DriverError::Connection("refused".to_string()),
        })
    );
    assert_eq!(r.unwrap_err().kind(), ErrorKind::Driver);
    let r = g.read(&p, false, 1);
    assert_eq!(
        r,
        Err(DispatchError::DriverFailure { point_id: 9, protocol: "bad".to_string(), error: DriverError::Timeout })
    );
    assert_eq!(g.shadow.len(), 0);
}

#[test]
fn malformed_driver_value_is_refused() {
    let mut g: Gateway<BadDriver> = Gateway::new();
    g.register_protocol("bad".to_string(), BadDriver { wrong_type: true }).unwrap();
    let p = point(10, "bad", AccessMode::ReadWrite);
    let r = g.read(&p, false, 1);
    assert_eq!(r, Err(DispatchError::TypeMismatch { point_id: 10, expected: DataType::Integer }));
    assert_eq!(g.shadow.len(), 0);
}

#[test]
fn writes_on_two_protocols_are_independent() {
    let mut g: Gateway<EchoDriver> = Gateway::new();
    g.register_protocol("a".to_string(), EchoDriver::new(1)).unwrap();
    g.register_protocol("b".to_string(), EchoDriver::new(2)).unwrap();
    let pa = point(11, "a", AccessMode::ReadWrite);
    let pb = point(12, "b", AccessMode::ReadWrite);
    assert_eq!(g.write(&pa, Value::Integer(3), 1), Ok(Value::Integer(3)));
    assert_eq!(g.write(&pb, Value::Integer(4), 1), Ok(Value::Integer(4)));
    assert_eq!(g.registry.get(&"a".to_string()).unwrap().writes.get(), 1);
    assert_eq!(g.registry.get(&"b".to_string()).unwrap().writes.get(), 1);
    assert_eq!(g.list_protocols(), vec!["a".to_string(), "b".to_string()]);
}

#[test]
fn requests_carry_point_addressing() {
    let p = point(13, "a", AccessMode::ReadWrite);
    let r = p.reader_request();
    assert_eq!((r.point_id, r.device_id, r.address.as_str()), (13, 1, "40001"));
    let w = p.writer_request(Value::Integer(5));
    assert_eq!((w.point_id, w.address.as_str(), w.value), (13, "40001", Value::Integer(5)));
    let raw = Point {
        id: 13,
        device_id: 1,
        address: "40001".to_string(),
        data_type: DataType::Integer,
        access_mode: AccessMode::ReadWrite,
        multiplier: 1,
        precision: 0,
        description: "d".to_string(),
        part_number: Some("pn".to_string()),
    };
    let j = raw.with_protocol("modbus".to_string());
    assert_eq!((j.point_id, j.protocol_name.as_str(), j.part_number), (13, "modbus", Some("pn".to_string())));
}

#[test]
fn load_error_kinds() {
    assert_eq!(LoadError::MissingFile("x".to_string()).kind(), ErrorKind::Validation);
    assert_eq!(LoadError::DuplicateProtocol("x".to_string()).kind(), ErrorKind::Duplicate);
    assert_eq!(DispatchError::NoSuchPoint(1).kind(), ErrorKind::NotFound);
    assert_eq!(DispatchError::NoSuchDevice(1).kind(), ErrorKind::NotFound);
}

#[test]
fn plans_decide_before_any_driver_call() {
    let mut g: Gateway<EchoDriver> = Gateway::new();
    g.register_protocol("mockA".to_string(), EchoDriver::new(1)).unwrap();
    let p = point(20, "mockA", AccessMode::ReadWrite);
    match g.plan_write(&p, Value::Integer(6)) {
        Step::Call(q) => assert_eq!((q.point_id, q.value), (20, Value::Integer(6))),
        Step::Done(r) => panic!("unexpected {:?}", r),
    }
    match g.plan_read(&p, true) {
        Step::Call(q) => assert_eq!(q.point_id, 20),
        Step::Done(r) => panic!("unexpected {:?}", r),
    }
    assert_eq!(g.settle(&p, Ok(Value::Integer(6)), 3), Ok(Value::Integer(6)));
    match g.plan_read(&p, true) {
        Step::Done(r) => assert_eq!(r, Ok(Value::Integer(6))),
        Step::Call(_) => panic!("expected a shadow hit"),
    }
    let q = point(21, "other", AccessMode::ReadWrite);
    match g.plan_write(&q, Value::Integer(1)) {
        Step::Done(r) => assert_eq!(r, Err(DispatchError::NoSuchProtocol("other".to_string()))),
        Step::Call(_) => panic!("expected a registry miss"),
    }
    assert_eq!(g.registry.get(&"mockA".to_string()).unwrap().writes.get(), 0);
}
