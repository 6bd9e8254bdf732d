//! Routing point reads and writes to drivers, and keeping the shadow current.
use vstd::prelude::*;
use crate::error::{DispatchError, DriverError, LoadError};
use crate::model::{value_has_type, AccessMode, PointWithProtocolId, ReaderPointRequest, Value, WriterPointRequest};
use crate::registry::{Driver, ProtocolRegistry};
use crate::shadow::{shadow_put, PointShadow, ShadowEntry};

verus! {

/// What a dispatch returns for a driver's outcome on point `p`: a driver error
/// is wrapped with the point and protocol, and a value whose tag does not
/// match the point's data type is refused.
pub open spec fn settle_result(p: PointWithProtocolId, o: Result<Value, DriverError>) -> Result<Value, DispatchError> {
    match o {
        Err(e) => Err(DispatchError::DriverFailure { point_id: p.point_id, protocol: p.protocol_name, error: e }),
        Ok(v) => if value_has_type(v, p.data_type) {
            Ok(v)
        } else {
            Err(DispatchError::TypeMismatch { point_id: p.point_id, expected: p.data_type })
        },
    }
}

/// The shadow after a driver's outcome on point `p` observed at `now`: only
/// an accepted value is stored.
pub open spec fn settle_shadow(
    m: Map<i64, ShadowEntry>,
    p: PointWithProtocolId,
    o: Result<Value, DriverError>,
    now: u64,
) -> Map<i64, ShadowEntry> {
    match settle_result(p, o) {
        Ok(v) => shadow_put(m, p.point_id, v, now),
        Err(_) => m,
    }
}

/// The first step of a dispatch: either its result is already known, or the
/// driver is to be called with the request.
#[derive(Debug)]
pub enum Step<Q> {
    Done(Result<Value, DispatchError>),
    Call(Q),
}

/// The gateway context: the protocol registry and the point shadow, created
/// once at startup and handed to whatever needs protocol resolution.
pub struct Gateway<D> {
    pub registry: ProtocolRegistry<D>,
    pub shadow: PointShadow,
}

impl<D: Driver> Gateway<D> {
    pub open spec fn wf(&self) -> bool {
        self.registry.wf()
    }

    /// A gateway with no protocols and an empty shadow.
    pub fn new() -> (r: Self)
        ensures
            r.wf(),
            r.registry.names() == Seq::<Seq<char>>::empty(),
            r.shadow@ == Map::<i64, ShadowEntry>::empty(),
    {
        Gateway { registry: ProtocolRegistry::new(), shadow: PointShadow::new() }
    }

    /// Registers a driver under a protocol name; an existing name is refused.
    pub fn register_protocol(&mut self, name: String, driver: D) -> (r: Result<(), LoadError>)
        requires
            old(self).wf(),
        ensures
            final(self).wf(),
            final(self).shadow == old(self).shadow,
            r is Err <==> old(self).registry.contains(name@),
            r is Err ==> r == Err::<(), LoadError>(LoadError::DuplicateProtocol(name))
                && final(self).registry == old(self).registry,
            r is Ok ==> final(self).registry.names() == old(self).registry.names().push(name@)
                && final(self).registry.drivers() == old(self).registry.drivers().push(driver),
    {
        self.registry.register(name, driver)
    }

    /// The registered protocol names, in registration order.
    pub fn list_protocols(&self) -> (r: Vec<String>)
        ensures
            r@.map_values(|s: String| s@) == self.registry.names(),
    {
        self.registry.list()
    }

    /// Turns a driver's outcome for `point` into the dispatch result, storing
    /// an accepted value in the shadow at `now`.
    pub fn settle(&mut self, point: &PointWithProtocolId, outcome: Result<Value, DriverError>, now: u64) -> (r:
        Result<Value, DispatchError>)
        ensures
            r == settle_result(*point, outcome),
            final(self).shadow@ == settle_shadow(old(self).shadow@, *point, outcome, now),
            final(self).registry == old(self).registry,
    {
        match outcome {
            Err(e) => Err(
                DispatchError::DriverFailure { point_id: point.point_id, protocol: point.protocol_name.clone(), error: e },
            ),
            Ok(v) => if v.has_type(point.data_type) {
                let _ = self.shadow.put(point.point_id, v.duplicate(), now);
                Ok(v)
            } else {
                Err(DispatchError::TypeMismatch { point_id: point.point_id, expected: point.data_type })
            },
        }
    }

    /// Decides what a read needs, without calling a driver: a write-only
    /// point is refused, a fresh shadow entry answers when `use_shadow` is set,
    /// an unregistered protocol is reported, and otherwise the driver of the
    /// point's protocol is to be called with the point's read request.
    pub fn plan_read(&self, point: &PointWithProtocolId, use_shadow: bool) -> (r: Step<ReaderPointRequest>)
        requires
            self.wf(),
        ensures
            point.access_mode == AccessMode::WriteOnly ==> r == Step::<ReaderPointRequest>::Done(
                Err(DispatchError::AccessMode { point_id: point.point_id, mode: point.access_mode }),
            ),
            point.access_mode != AccessMode::WriteOnly && use_shadow && self.shadow@.contains_key(
                point.point_id,
            ) && self.shadow@[point.point_id].fresh ==> r == Step::<ReaderPointRequest>::Done(
                Ok(self.shadow@[point.point_id].value),
            ),
            point.access_mode != AccessMode::WriteOnly && !(use_shadow && self.shadow@.contains_key(
                point.point_id,
            ) && self.shadow@[point.point_id].fresh) && !self.registry.contains(point.protocol_name@)
                ==> r == Step::<ReaderPointRequest>::Done(
                Err(DispatchError::NoSuchProtocol(point.protocol_name)),
            ),
            point.access_mode != AccessMode::WriteOnly && !(use_shadow && self.shadow@.contains_key(
                point.point_id,
            ) && self.shadow@[point.point_id].fresh) && self.registry.contains(point.protocol_name@)
                ==> (r matches Step::Call(q) && q.addresses(*point)),
    {
        if !point.is_readable() {
            return Step::Done(Err(DispatchError::AccessMode { point_id: point.point_id, mode: point.access_mode }));
        }
        if use_shadow {
            match self.shadow.get_fresh(point.point_id) {
                Some(v) => {
                    return Step::Done(Ok(v));
                },
                None => {},
            }
        }
        if !self.registry.contains_name(&point.protocol_name) {
            return Step::Done(Err(DispatchError::NoSuchProtocol(point.protocol_name.clone())));
        }
        Step::Call(point.reader_request())
    }

    /// Decides what a write of `value` needs, without calling a driver: a
    /// read-only point and a value of the wrong type are refused, an
    /// unregistered protocol is reported, and otherwise the driver of the
    /// point's protocol is to be called with the write request carrying `value`.
    pub fn plan_write(&self, point: &PointWithProtocolId, value: Value) -> (r: Step<WriterPointRequest>)
        requires
            self.wf(),
        ensures
            point.access_mode == AccessMode::ReadOnly ==> r == Step::<WriterPointRequest>::Done(
                Err(DispatchError::AccessMode { point_id: point.point_id, mode: point.access_mode }),
            ),
            point.access_mode != AccessMode::ReadOnly && !value_has_type(value, point.data_type) ==> r
                == Step::<WriterPointRequest>::Done(
                Err(DispatchError::TypeMismatch { point_id: point.point_id, expected: point.data_type }),
            ),
            point.access_mode != AccessMode::ReadOnly && value_has_type(value, point.data_type)
                && !self.registry.contains(point.protocol_name@) ==> r == Step::<WriterPointRequest>::Done(
                Err(DispatchError::NoSuchProtocol(point.protocol_name)),
            ),
            point.access_mode != AccessMode::ReadOnly && value_has_type(value, point.data_type)
                && self.registry.contains(point.protocol_name@) ==> (r matches Step::Call(q) && q.addresses(
                *point,
                value,
            )),
    {
        if !point.is_writable() {
            return Step::Done(Err(DispatchError::AccessMode { point_id: point.point_id, mode: point.access_mode }));
        }
        if !value.has_type(point.data_type) {
            return Step::Done(Err(DispatchError::TypeMismatch { point_id: point.point_id, expected: point.data_type }));
        }
        if !self.registry.contains_name(&point.protocol_name) {
            return Step::Done(Err(DispatchError::NoSuchProtocol(point.protocol_name.clone())));
        }
        Step::Call(point.writer_request(value))
    }

    /// Reads a point. A write-only point is refused. With `use_shadow` a fresh
    /// shadow entry is returned without calling the driver; otherwise the
    /// driver of the point's protocol is asked and an accepted value is stored
    /// in the shadow at `now`.
    pub fn read(&mut self, point: &PointWithProtocolId, use_shadow: bool, now: u64) -> (r: Result<Value, DispatchError>)
        requires
            old(self).wf(),
        ensures
            final(self).registry == old(self).registry,
            point.access_mode == AccessMode::WriteOnly ==> r == Err::<Value, DispatchError>(
                DispatchError::AccessMode { point_id: point.point_id, mode: point.access_mode },
            ) && final(self).shadow@ == old(self).shadow@,
            point.access_mode != AccessMode::WriteOnly && use_shadow && old(self).shadow@.contains_key(
                point.point_id,
            ) && old(self).shadow@[point.point_id].fresh ==> r == Ok::<Value, DispatchError>(
                old(self).shadow@[point.point_id].value,
            ) && final(self).shadow@ == old(self).shadow@,
            point.access_mode != AccessMode::WriteOnly && !(use_shadow && old(self).shadow@.contains_key(
                point.point_id,
            ) && old(self).shadow@[point.point_id].fresh) && !old(self).registry.contains(
                point.protocol_name@,
            ) ==> r == Err::<Value, DispatchError>(DispatchError::NoSuchProtocol(point.protocol_name))
                && final(self).shadow@ == old(self).shadow@,
            point.access_mode != AccessMode::WriteOnly && !(use_shadow && old(self).shadow@.contains_key(
                point.point_id,
            ) && old(self).shadow@[point.point_id].fresh) && old(self).registry.contains(
                point.protocol_name@,
            ) ==> exists|o: Result<Value, DriverError>|
                r == settle_result(*point, o) && final(self).shadow@ == settle_shadow(
                    old(self).shadow@,
                    *point,
                    o,
                    now,
                ),
    {
        let outcome = match self.plan_read(point, use_shadow) {
            Step::Done(r) => {
                return r;
            },
            Step::Call(request) => match self.registry.get(&point.protocol_name) {
                Some(driver) => driver.read_point(&request),
                None => {
                    return Err(DispatchError::NoSuchProtocol(point.protocol_name.clone()));
                },
            },
        };
        self.settle(point, outcome, now)
    }

    /// Writes `value` to a point. A read-only point and a value whose tag does
    /// not match the point's data type are refused. Otherwise the driver of the
    /// point's protocol is asked, and the value it committed is returned and
    /// stored in the shadow at `now`.
    pub fn write(&mut self, point: &PointWithProtocolId, value: Value, now: u64) -> (r: Result<Value, DispatchError>)
        requires
            old(self).wf(),
        ensures
            final(self).registry == old(self).registry,
            point.access_mode == AccessMode::ReadOnly ==> r == Err::<Value, DispatchError>(
                DispatchError::AccessMode { point_id: point.point_id, mode: point.access_mode },
            ) && final(self).shadow@ == old(self).shadow@,
            point.access_mode != AccessMode::ReadOnly && !value_has_type(value, point.data_type) ==> r
                == Err::<Value, DispatchError>(
                DispatchError::TypeMismatch { point_id: point.point_id, expected: point.data_type },
            ) && final(self).shadow@ == old(self).shadow@,
            point.access_mode != AccessMode::ReadOnly && value_has_type(value, point.data_type)
                && !old(self).registry.contains(point.protocol_name@) ==> r == Err::<Value, DispatchError>(
                DispatchError::NoSuchProtocol(point.protocol_name),
            ) && final(self).shadow@ == old(self).shadow@,
            point.access_mode != AccessMode::ReadOnly && value_has_type(value, point.data_type)
                && old(self).registry.contains(point.protocol_name@) ==> exists|o: Result<Value, DriverError>|
                r == settle_result(*point, o) && final(self).shadow@ == settle_shadow(
                    old(self).shadow@,
                    *point,
                    o,
                    now,
                ),
    {
        let outcome = match self.plan_write(point, value) {
            Step::Done(r) => {
                return r;
            },
            Step::Call(request) => match self.registry.get(&point.protocol_name) {
                Some(driver) => driver.write_point(&request),
                None => {
                    return Err(DispatchError::NoSuchProtocol(point.protocol_name.clone()));
                },
            },
        };
        self.settle(point, outcome, now)
    }
}

/// A committed write is served from the shadow afterwards: once a value the
/// driver committed for `p` is settled at `now`, and no entry of the point was
/// newer than `now`, the point has a fresh entry holding exactly that value,
/// so `read` with `use_shadow` returns it without calling the driver.
pub proof fn lemma_write_then_shadow_read(m: Map<i64, ShadowEntry>, p: PointWithProtocolId, committed: Value, now: u64)
    requires
        value_has_type(committed, p.data_type),
        !(m.contains_key(p.point_id) && m[p.point_id].timestamp > now),
    ensures
        settle_result(p, Ok(committed)) == Ok::<Value, DispatchError>(committed),
        settle_shadow(m, p, Ok(committed), now).contains_key(p.point_id),
        settle_shadow(m, p, Ok(committed), now)[p.point_id].fresh,
        settle_shadow(m, p, Ok(committed), now)[p.point_id].value == committed,
{
}

/// What the shadow holds after a write is the value the driver committed, not
/// the one requested: it agrees with the returned result.
pub proof fn lemma_shadow_holds_committed(m: Map<i64, ShadowEntry>, p: PointWithProtocolId, o: Result<Value, DriverError>, now: u64)
    requires
        !(m.contains_key(p.point_id) && m[p.point_id].timestamp > now),
    ensures
        settle_result(p, o) matches Ok(v) ==> settle_shadow(m, p, o, now)[p.point_id].value == v
            && o == Ok::<Value, DriverError>(v),
        settle_result(p, o) is Err ==> settle_shadow(m, p, o, now) == m,
{
}

} // verus!
